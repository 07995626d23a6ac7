use split_ssh::msgs::{classify_confirmation, Confirmation};

#[test]
fn affirmative_answers() {
    for a in ["y", "Y", "yes", "Yes"] {
        assert_eq!(classify_confirmation(a), Confirmation::Affirmed);
    }
}

#[test]
fn negative_answers() {
    for a in ["n", "N", "no", "No"] {
        assert_eq!(classify_confirmation(a), Confirmation::Denied);
    }
}

#[test]
fn unclear_answers() {
    for a in ["", "maybe", "YES", "nope"] {
        assert_eq!(classify_confirmation(a), Confirmation::Unclear);
    }
}
