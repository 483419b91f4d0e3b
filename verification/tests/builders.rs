use angry_hub::button::Button;
use angry_hub::context_menu::{ContextMenu, ContextMenuItem};
use angry_hub::dropdown::{Dropdown, MenuItem, MenuPresence};
use angry_hub::icon::IconName;
use angry_hub::model::{CiStatus as OldCi, PrStatus as OldStatus, PullRequest as OldPull};
use angry_hub::models::{CiStatus, PrStatus, PullRequest};
use angry_hub::pr_item::{number_label, PrItem as OldPrItem};
use angry_hub::pr_status::{CiStatusIcon, PrStatusIcon, PrStatusLabel};
use angry_hub::select::{MultiSelect, SelectOption};
use angry_hub::tab::Tab;
use angry_hub::ui::pr_item::{row_action, PrItem, RowAction};
use angry_hub::ui::shared::button::{Button as SharedButton, ButtonVariant};
use angry_hub::ui::shared::segmented::{Segment, SegmentedControl};
use angry_hub::ui::shared::tab::Tab as SharedTab;

#[test]
fn primary_and_secondary_buttons_differ_in_color() {
    let primary: Button<()> = Button::primary("login").label("Log in").full();
    let c = primary.colors();
    assert_eq!(c.text, 0x111111);
    assert_eq!(c.background, Some(0xEEEEEE));
    assert_eq!(c.hover_background, 0xB4B4B4);
    assert!(primary.full);
    assert_eq!(primary.label, "Log in");
    let secondary: Button<()> = Button::secondary("logout").on_click(());
    let c = secondary.colors();
    assert_eq!(c.text, 0x6E6E6E);
    assert_eq!(c.background, None);
    assert!(secondary.on_click.is_some());
}

#[test]
fn tabs_brighten_when_selected() {
    let tab: Tab<()> = Tab::new("all".into(), "All".into());
    assert_eq!(tab.colors(), (0x2a2a2a, 0xaaaaaa));
    assert_eq!(tab.selected(true).colors(), (0x3d3d3d, 0xffffff));
    let shared: SharedTab<()> = SharedTab::new("all".into(), "All".into()).selected(true);
    assert_eq!(shared.colors(None), (0xE8E8E8, 0x202020));
}

#[test]
fn shared_buttons() {
    let b: SharedButton<(), ()> = SharedButton::new("close".into(), "".into());
    assert!(b.label.is_none());
    assert_eq!(b.variant, ButtonVariant::Primary);
    let b = b.destructive().loading(true).on_click(());
    assert!(!b.takes_clicks());
    assert_eq!(ButtonVariant::Destructive.style().text, 0xFFFFFF);
    assert_eq!(ButtonVariant::Destructive.style().bg, 0xE5484D);
    assert_eq!(ButtonVariant::Primary.style().bg, 0x202020);
    assert_eq!(ButtonVariant::default(), ButtonVariant::Primary);
}

#[test]
fn a_closed_menu_stays_drawn_while_it_animates_out() {
    let mut p = MenuPresence::default();
    assert!(!p.step(false, false, 0));
    assert!(p.step(true, false, 10));
    assert!(p.step(false, false, 100));
    assert!(p.step(false, false, 279));
    assert!(!p.step(false, false, 280));
    assert!(!p.shown);
    assert!(p.step(true, false, 300));
    assert!(!p.step(false, true, 301));
}

#[test]
fn menus_and_selects_are_configured_by_builders() {
    let d: Dropdown<(), (), ()> = Dropdown::new("row".into())
        .open(true)
        .disabled(true)
        .items(vec![MenuItem::new("close".into(), "Close".into())]);
    assert!(d.open);
    assert!(!d.items_clickable());
    assert_eq!(d.items.len(), 1);
    let m: ContextMenu<(), (), ()> = ContextMenu::new("m".into())
        .hover_group("row".into())
        .items(vec![ContextMenuItem::new("a".into(), "A".into()).loading(true)]);
    assert!(!m.items[0].clickable());
    assert_eq!(m.trigger_background(), 0x2a2a2a);
    assert_eq!(m.open(true).trigger_background(), 0x3d3d3d);
    let s: MultiSelect<(), (), ()> =
        MultiSelect::new("repos".into()).options(vec![SelectOption::new("a".into(), "a".into(), true)]);
    assert!(s.options[0].selected);
    assert_eq!(s.trigger_background(), 0x2a2a2a);
}

#[test]
fn the_segment_pill_slides_from_the_previous_selection() {
    let c: SegmentedControl<()> = SegmentedControl::new("main".into()).segments(vec![
        Segment::new("prs".into(), "Pull Requests".into()),
        Segment::new("activity".into(), "Activity".into()),
    ]);
    assert_eq!(c.selected, "prs");
    assert_eq!(c.indicator_move(), (0, 0));
    let c = c.selected("activity".into()).previous_selected("prs".into());
    assert_eq!(c.indicator_move(), (0, 1));
    let c = c.previous_selected("gone".into());
    assert_eq!(c.indicator_move(), (1, 1));
    let c = c.selected("unknown".into());
    assert_eq!(c.indicator_move(), (0, 0));
}

#[test]
fn the_number_label_falls_back_to_the_address() {
    assert_eq!(number_label(42, "https://github.com/a/b/pull/7"), "#42");
    assert_eq!(number_label(0, "https://github.com/a/b/pull/7"), "#7");
    assert_eq!(number_label(0, "https://github.com/a/b/pull/x"), "#0");
    assert_eq!(number_label(0, "https://github.com/a/b/pull/+9"), "#9");
}

fn pull(required: u32) -> PullRequest {
    PullRequest {
        id: "id".into(),
        title: "  Fix it  ".into(),
        repo: "acme/app".into(),
        number: 0,
        url: "https://github.com/acme/app/pull/12".into(),
        status: PrStatus::Open,
        ci: CiStatus::Pending,
        approvals: 1,
        required_approvals: required,
        has_conflicts: true,
        branch: "fix".into(),
        updated_at: "2024-01-01T00:00:00Z".into(),
    }
}

#[test]
fn the_row_shows_what_the_pull_request_holds() {
    let row: PrItem<(), (), (), ()> = PrItem::new(3, &pull(2));
    assert_eq!(row.title, "Fix it");
    assert_eq!(row.number, "#12");
    assert_eq!(row.open_id, "pr-open-3");
    assert_eq!(row.menu_id, "pr-menu-3");
    assert_eq!(row.group, "pr-row-3");
    assert_eq!(row.ci_tooltip_id, "pr-ci-3");
    assert_eq!(row.conflict_tooltip_id, "pr-conflicts-3");
    assert_eq!(row.approvals, "1");
    assert_eq!(row.required_approvals, "2");
    assert!(row.show_approvals);
    assert_eq!(row.ci_tooltip(), "CI pending");
    let items = row.closing(true).menu_items();
    assert_eq!(items[0].id, "copy-branch");
    assert!(items[1].loading);
    let quiet: PrItem<(), (), (), ()> = PrItem::new(0, &pull(0));
    assert!(!quiet.show_approvals);
    assert!(!quiet.menu_selects());
    assert!(quiet.on_copy_branch(()).menu_selects());
}

#[test]
fn menu_items_map_to_row_actions() {
    assert_eq!(row_action("copy-branch"), Some(RowAction::CopyBranch));
    assert_eq!(row_action("close"), Some(RowAction::Close));
    assert_eq!(row_action("other"), None);
}

#[test]
fn the_first_row_only_closes() {
    let pr = OldPull {
        id: "id".into(),
        title: "Title".into(),
        repo: "acme/app".into(),
        number: 5,
        url: "u".into(),
        status: OldStatus::Draft,
        ci: OldCi::Success,
        approvals: 0,
        required_approvals: 0,
        updated_at: "t".into(),
    };
    let row: OldPrItem<(), (), ()> = OldPrItem::new(1, &pr);
    assert_eq!(row.number, "#5");
    assert_eq!(row.menu_items().len(), 1);
    assert!(OldPrItem::<(), (), ()>::closes("close"));
    assert!(!OldPrItem::<(), (), ()>::closes("copy"));
}

#[test]
fn status_icons() {
    assert_eq!(PrStatusIcon::new(OldStatus::Merged).icon(), IconName::PullRequest);
    assert_eq!(PrStatusIcon::new(OldStatus::Closed).icon(), IconName::PrClosed);
    assert_eq!(CiStatusIcon::new(OldCi::NoChecks).icon(), None);
    assert_eq!(CiStatusIcon::new(OldCi::Failure).icon(), Some(IconName::CiX));
    assert_eq!(PrStatusLabel::new(OldStatus::Open).status, OldStatus::Open);
    assert_eq!(IconName::NoCi.path(), "icons/pending.svg");
    assert_eq!(IconName::CiCheck.path(), "icons/check.svg");
}
