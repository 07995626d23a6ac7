use split_ssh::salt::{SaltError, parse_verify_file, parse_verify_state, verify_roots};

fn roots(list: &[&str]) -> Vec<String> {
    list.iter().map(|s| s.to_string()).collect()
}

#[test]
fn file_path_becomes_salt_source() {
    let r = roots(&["/srv/salt"]);
    assert_eq!(
        parse_verify_file("/srv/salt/file/configuration-file.txt".to_string(), &r).unwrap(),
        "salt://file/configuration-file.txt"
    );
}

#[test]
fn state_path_becomes_dotted_name() {
    let r = roots(&["/srv/salt"]);
    assert_eq!(
        parse_verify_state("/srv/salt/states/test.sls".to_string(), &r).unwrap(),
        "states.test"
    );
}

#[test]
fn the_first_matching_root_is_stripped() {
    let r = roots(&["/other", "/srv/salt", "/srv"]);
    assert_eq!(
        verify_roots(&"/srv/salt/x/y".to_string(), &r).unwrap(),
        "/x/y"
    );
}

#[test]
fn path_outside_the_roots_is_rejected() {
    let r = roots(&["/srv/salt"]);
    assert_eq!(
        parse_verify_file("/etc/passwd".to_string(), &r),
        Err(SaltError::RootNotFound)
    );
    assert_eq!(
        parse_verify_state("/etc/passwd.sls".to_string(), &r),
        Err(SaltError::RootNotFound)
    );
}

#[test]
fn stripped_state_path_must_be_absolute() {
    // The root swallows part of the file name: what is left does not begin
    // with a slash.
    let r = roots(&["/srv/salt/st"]);
    assert_eq!(
        parse_verify_state("/srv/salt/states/test.sls".to_string(), &r),
        Err(SaltError::NotAbsolute)
    );
}

#[test]
fn state_file_must_end_in_sls() {
    let r = roots(&["/srv/salt"]);
    assert_eq!(
        parse_verify_state("/srv/salt/states/test.txt".to_string(), &r),
        Err(SaltError::BadStateName)
    );
}

#[test]
fn nested_state_paths_turn_slashes_into_dots() {
    let r = roots(&["/srv/salt"]);
    assert_eq!(
        parse_verify_state("/srv/salt/split-ssh/a/b/c.sls".to_string(), &r).unwrap(),
        "split-ssh.a.b.c"
    );
}

#[test]
fn empty_root_list_rejects_everything() {
    let r: Vec<String> = Vec::new();
    assert_eq!(
        verify_roots(&"/srv/salt/x".to_string(), &r),
        Err(SaltError::RootNotFound)
    );
}

#[test]
fn file_roots_listing_is_parsed() {
    let listing = "file_roots:\n    base:\n        - /srv/salt\u{1b}[0m\n        - /srv/formulas\n";
    assert_eq!(
        split_ssh::salt::parse_file_roots(listing),
        vec!["/srv/salt".to_string(), "/srv/formulas".to_string()]
    );
}

#[test]
fn listing_lines_without_a_root_are_ignored() {
    let listing = "local:\n    nothing here\n- relative/path\n";
    assert!(split_ssh::salt::parse_file_roots(listing).is_empty());
}

#[test]
fn listing_with_carriage_returns_is_parsed() {
    let listing = "    - /srv/salt\r\n    - /other\r\n";
    assert_eq!(
        split_ssh::salt::parse_file_roots(listing),
        vec!["/srv/salt".to_string(), "/other".to_string()]
    );
}
