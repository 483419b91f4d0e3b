use angry_hub::color::{Theme, ThemePreference};
use angry_hub::model;
use angry_hub::models::{ActivityKind, CiStatus, PrStatus};

fn dark() -> Option<Theme> {
    Some(Theme { preference: ThemePreference::Dark, system_dark: false })
}

#[test]
fn pr_status_labels() {
    assert_eq!(PrStatus::Open.label(), "Open");
    assert_eq!(PrStatus::Draft.label(), "Draft");
    assert_eq!(PrStatus::Closed.label(), "Closed");
    assert_eq!(PrStatus::Merged.label(), "Merged");
}

#[test]
fn pr_status_colors_follow_the_theme() {
    assert_eq!(PrStatus::Open.color(None), 0x30A46C);
    assert_eq!(PrStatus::Open.color(dark()), 0x3CB179);
    assert_eq!(PrStatus::Merged.color(None), 0x654DC4);
    assert_eq!(PrStatus::Merged.color(dark()), 0x6E56CF);
    assert_eq!(PrStatus::Closed.color(None), 0xE5484D);
    assert_eq!(PrStatus::Draft.color(dark()), 0x6E6E6E);
}

#[test]
fn ci_status_colors() {
    assert_eq!(CiStatus::Success.color(None), 0x30A46C);
    assert_eq!(CiStatus::Failure.color(None), 0xE5484D);
    assert_eq!(CiStatus::Pending.color(None), 0xAB6400);
    assert_eq!(CiStatus::Pending.color(dark()), 0x8F6424);
    assert_eq!(CiStatus::NoChecks.color(None), 0x8D8D8D);
}

#[test]
fn activity_kind_labels_and_colors() {
    assert_eq!(ActivityKind::Comment.label(), "commented");
    assert_eq!(ActivityKind::ChangesRequested.label(), "requested changes");
    assert_eq!(ActivityKind::Merged.label(), "merged");
    assert_eq!(ActivityKind::Comment.color(None), 0x0090FF);
    assert_eq!(ActivityKind::Approved.color(None), ActivityKind::Reopened.color(None));
    assert_eq!(ActivityKind::ChangesRequested.color(dark()), 0xE5484D);
}

#[test]
fn first_model_uses_fixed_light_colors() {
    assert_eq!(model::PrStatus::Merged.color(), 0x6550B9);
    assert_eq!(model::PrStatus::Open.color(), 0x30A46C);
    assert_eq!(model::CiStatus::Pending.color(), 0x5EB1EF);
    assert_eq!(model::ActivityKind::Comment.color(), 0x0090FF);
    assert_eq!(model::ActivityKind::Reopened.label(), "reopened");
    assert_eq!(model::PrStatus::Draft.label(), "Draft");
}
