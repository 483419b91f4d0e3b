use angry_hub::ui::shared::notification::{Notification, NotificationList};

#[test]
fn a_keyed_notification_replaces_the_shown_one() {
    let mut list = NotificationList::new();
    let (id, generation) = list.push(Notification::new().message("Saved".into()).key("save".into()), 0);
    let (again, next) = list.push(Notification::new().message("Saved again".into()).key("save".into()), 10);
    assert_eq!(again, id);
    assert_eq!(next, generation + 1);
}

#[test]
fn notifications_without_a_key_stack() {
    let mut list = NotificationList::new();
    let (a, _) = list.push(Notification::from(String::from("one")), 0);
    let (b, _) = list.push(Notification::from(String::from("two")), 0);
    assert_ne!(a, b);
}

#[test]
fn a_stale_timer_does_nothing() {
    let mut list = NotificationList::new();
    let (id, generation) = list.push(Notification::new().message("x".into()).key("k".into()), 0);
    let (_, newer) = list.push(Notification::new().message("y".into()).key("k".into()), 5);
    list.begin_dismiss(id, generation, 2500);
    list.remove(id, generation);
    let (same, after) = list.push(Notification::new().message("z".into()).key("k".into()), 6);
    assert_eq!(same, id);
    assert_eq!(after, newer + 1);
    list.remove(id, after);
    let (fresh, first) = list.push(Notification::new().message("w".into()).key("k".into()), 7);
    assert_ne!(fresh, id);
    assert_eq!(first, 0);
}

#[test]
fn the_list_shows_what_it_holds_in_order() {
    let mut list = NotificationList::new();
    assert!(list.can_push(&Notification::from(String::from("next"))));
    let (first, _) = list.push(Notification::new().message("Saved".into()).key("save".into()), 5);
    let (second, _) = list.push(Notification::from(String::from("Closed")), 7);
    list.push(Notification::new().message("Saved again".into()).key("save".into()), 9);
    let shown = list.shown();
    assert_eq!(shown.len(), 2);
    assert_eq!(shown[0].id, first);
    assert_eq!(shown[0].message, "Saved again");
    assert_eq!(shown[0].created_at, 5);
    assert_eq!(shown[0].jump_at, Some(9));
    assert_eq!(shown[1].id, second);
    assert_eq!(shown[1].message, "Closed");
    assert_eq!(shown[1].closing_since, None);
    list.begin_dismiss(second, 0, 100);
    assert_eq!(list.shown()[1].closing_since, Some(100));
    list.remove(second, 0);
    assert_eq!(list.shown().len(), 1);
    assert!(list.can_push(&Notification::from(String::from("next"))));
}
