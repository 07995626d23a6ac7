use split_ssh::debug::{NoStateHome, xdg_state_dir};

#[test]
fn xdg_state_home_wins() {
    let dir = xdg_state_dir(
        &Some("/home/user/.state".to_string()),
        &Some("/home/user".to_string()),
        "split-ssh",
    );
    assert_eq!(dir.unwrap(), "/home/user/.state/split-ssh");
}

#[test]
fn home_is_the_fallback() {
    let dir = xdg_state_dir(&None, &Some("/home/user".to_string()), "split-ssh");
    assert_eq!(dir.unwrap(), "/home/user/.local/state/split-ssh");
}

#[test]
fn no_home_no_log_dir() {
    assert_eq!(xdg_state_dir(&None, &None, "split-ssh"), Err(NoStateHome));
}
