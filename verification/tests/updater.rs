use angry_hub::updater::{
    after_check, disabled_by, install_failed, restart_failed, should_install, CheckOutcome,
};

#[test]
fn the_switch_accepts_one_true_and_yes() {
    assert!(disabled_by(Some("1")));
    assert!(disabled_by(Some(" TRUE ")));
    assert!(disabled_by(Some("Yes")));
    assert!(!disabled_by(Some("0")));
    assert!(!disabled_by(Some("")));
    assert!(!disabled_by(None));
}

#[test]
fn what_follows_the_check() {
    assert!(matches!(after_check(Ok(None)), CheckOutcome::UpToDate));
    match after_check(Ok(Some("1.2.3".into()))) {
        CheckOutcome::Offer(m) => assert_eq!(m, "Angry Hub 1.2.3 is available."),
        other => panic!("unexpected {other:?}"),
    }
    match after_check(Err("offline".into())) {
        CheckOutcome::Failed(m) => assert_eq!(m, "Couldn't check for updates: offline"),
        other => panic!("unexpected {other:?}"),
    }
}

#[test]
fn only_the_first_answer_installs() {
    assert!(should_install(Some(0)));
    assert!(!should_install(Some(1)));
    assert!(!should_install(None));
    assert_eq!(install_failed("disk full"), "Update failed: disk full");
    assert_eq!(restart_failed("no exe"), "Updated, but restart failed: no exe");
}
