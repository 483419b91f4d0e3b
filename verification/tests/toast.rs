use angry_hub::toast::{Toaster, ANIMATION_MS, SHOW_FOR_MS};

#[test]
fn a_repeat_restarts_the_toast_instead_of_stacking() {
    let mut toaster = Toaster::new();
    toaster.push("copied".into(), "Copied".into(), 0);
    toaster.push("copied".into(), "Copied again".into(), 1000);
    assert!(toaster.tick(1000 + SHOW_FOR_MS - 1));
    assert!(toaster.tick(1000 + SHOW_FOR_MS));
    assert!(toaster.tick(1000 + SHOW_FOR_MS + ANIMATION_MS - 1));
    assert!(!toaster.tick(1000 + SHOW_FOR_MS + ANIMATION_MS));
}

#[test]
fn different_keys_stack() {
    let mut toaster = Toaster::new();
    toaster.push("a".into(), "A".into(), 0);
    toaster.push("b".into(), "B".into(), 2000);
    assert!(toaster.tick(SHOW_FOR_MS));
    assert!(toaster.tick(SHOW_FOR_MS + ANIMATION_MS));
    assert!(toaster.tick(2000 + SHOW_FOR_MS));
    assert!(!toaster.tick(2000 + SHOW_FOR_MS + ANIMATION_MS));
}

#[test]
fn ticking_is_a_flag_of_its_own() {
    let mut toaster = Toaster::default();
    assert!(!toaster.is_ticking());
    toaster.set_ticking(true);
    assert!(toaster.is_ticking());
    assert!(!toaster.tick(0));
}

#[test]
fn the_toaster_hands_out_its_toasts_for_drawing() {
    let mut toaster = Toaster::new();
    toaster.push("copied".into(), "Copied".into(), 10);
    toaster.push("closed".into(), "Closed".into(), 20);
    toaster.push("copied".into(), "Copied again".into(), 30);
    let toasts = toaster.toasts();
    assert_eq!(toasts.len(), 2);
    assert_eq!(toasts[0].key, "copied");
    assert_eq!(toasts[0].message, "Copied again");
    assert_eq!(toasts[0].created_at, 30);
    assert_eq!(toasts[0].jump_at, Some(30));
    assert_eq!(toasts[1].key, "closed");
    assert_eq!(toasts[1].jump_at, None);
}
