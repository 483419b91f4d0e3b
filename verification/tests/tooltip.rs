use angry_hub::tooltip::{TooltipFrame, TooltipPresence, EXIT_ANIMATION_MS, SHOW_DELAY_MS};

#[test]
fn tooltip_waits_for_the_show_delay() {
    let mut p = TooltipPresence::default();
    assert_eq!(p.step(true, SHOW_DELAY_MS, 1000), TooltipFrame { visible: false, closed: false });
    assert!(p.animating());
    assert_eq!(p.step(true, SHOW_DELAY_MS, 1199), TooltipFrame { visible: false, closed: false });
    assert_eq!(p.step(true, SHOW_DELAY_MS, 1200), TooltipFrame { visible: true, closed: false });
    assert!(!p.animating());
    assert!(p.shown);
}

#[test]
fn leaving_before_the_delay_shows_nothing() {
    let mut p = TooltipPresence::default();
    p.step(true, SHOW_DELAY_MS, 0);
    assert_eq!(p.step(false, SHOW_DELAY_MS, 100), TooltipFrame { visible: false, closed: false });
    // hovering again starts the delay anew
    assert_eq!(p.step(true, SHOW_DELAY_MS, 250), TooltipFrame { visible: false, closed: false });
    assert_eq!(p.step(true, SHOW_DELAY_MS, 449), TooltipFrame { visible: false, closed: false });
    assert_eq!(p.step(true, SHOW_DELAY_MS, 450), TooltipFrame { visible: true, closed: false });
}

#[test]
fn tooltip_stays_through_its_exit_animation_then_reports_closed() {
    let mut p = TooltipPresence { shown: true, opening_at: None, closing_at: None };
    assert_eq!(p.step(false, SHOW_DELAY_MS, 500), TooltipFrame { visible: true, closed: false });
    assert_eq!(p.closing_at, Some(500));
    assert_eq!(
        p.step(false, SHOW_DELAY_MS, 500 + EXIT_ANIMATION_MS - 1),
        TooltipFrame { visible: true, closed: false }
    );
    assert_eq!(
        p.step(false, SHOW_DELAY_MS, 500 + EXIT_ANIMATION_MS),
        TooltipFrame { visible: false, closed: true }
    );
    assert_eq!(p.step(false, SHOW_DELAY_MS, 2000), TooltipFrame { visible: false, closed: false });
    assert_eq!(p, TooltipPresence::default());
}

#[test]
fn a_zero_delay_shows_at_once() {
    let mut p = TooltipPresence::default();
    assert_eq!(p.step(true, 0, 7), TooltipFrame { visible: true, closed: false });
}
