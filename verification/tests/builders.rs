//! Tests of the fluent builders: every setter makes exactly its field
//! present and leaves the rest as they were.

use rich_presence::activity::Activity;
use rich_presence::activity::ActivityType;
use rich_presence::activity::Assets;
use rich_presence::activity::Button;
use rich_presence::activity::Party;
use rich_presence::activity::Secrets;
use rich_presence::activity::Timestamps;

#[test]
fn new_activity_has_no_field_set() {
    let a = Activity::new();
    assert!(a.state.is_none());
    assert!(a.details.is_none());
    assert!(a.timestamps.is_none());
    assert!(a.party.is_none());
    assert!(a.assets.is_none());
    assert!(a.secrets.is_none());
    assert!(a.buttons.is_none());
    assert!(a.activity_type.is_none());
}

#[test]
fn activity_setters_set_their_field() {
    let a = Activity::new()
        .state("in a lobby".to_owned())
        .details("rank 3".to_owned())
        .activity_type(ActivityType::Playing);
    assert_eq!(a.state.as_deref(), Some("in a lobby"));
    assert_eq!(a.details.as_deref(), Some("rank 3"));
    assert!(matches!(a.activity_type, Some(ActivityType::Playing)));
    assert!(a.timestamps.is_none());
    assert!(a.party.is_none());
}

#[test]
fn activity_nested_setters_set_their_field() {
    let a = Activity::new()
        .timestamps(Timestamps::new().start(100).end(200))
        .party(Party::new().id("p1".to_owned()).size(1, 4))
        .assets(Assets::new().large_image("img".to_owned()))
        .secrets(Secrets::new().join("j".to_owned()));
    let t = a.timestamps.expect("timestamps set");
    assert_eq!(t.start, Some(100));
    assert_eq!(t.end, Some(200));
    let p = a.party.expect("party set");
    assert_eq!(p.id.as_deref(), Some("p1"));
    assert_eq!(p.size, Some((1, 4)));
    let art = a.assets.expect("assets set");
    assert_eq!(art.large_image.as_deref(), Some("img"));
    assert!(art.large_text.is_none());
    assert!(art.small_image.is_none());
    assert!(art.small_text.is_none());
    let s = a.secrets.expect("secrets set");
    assert_eq!(s.join.as_deref(), Some("j"));
    assert!(s.spectate.is_none());
    assert!(s.match_secret.is_none());
}

#[test]
fn timestamps_builder() {
    let t = Timestamps::new();
    assert!(t.start.is_none());
    assert!(t.end.is_none());
    let t = t.start(-5);
    assert_eq!(t.start, Some(-5));
    assert!(t.end.is_none());
    let t = t.end(i64::MAX);
    assert_eq!(t.start, Some(-5));
    assert_eq!(t.end, Some(i64::MAX));
}

#[test]
fn party_builder_keeps_pair_order() {
    let p = Party::new();
    assert!(p.id.is_none());
    assert!(p.size.is_none());
    let p = p.size(3, 10);
    assert_eq!(p.size, Some((3, 10)));
    let p = p.id("lobby-7".to_owned());
    assert_eq!(p.id.as_deref(), Some("lobby-7"));
    assert_eq!(p.size, Some((3, 10)));
}

#[test]
fn assets_builder() {
    let a = Assets::new()
        .large_image("big".to_owned())
        .large_text("big hover".to_owned())
        .small_image("small".to_owned())
        .small_text("small hover".to_owned());
    assert_eq!(a.large_image.as_deref(), Some("big"));
    assert_eq!(a.large_text.as_deref(), Some("big hover"));
    assert_eq!(a.small_image.as_deref(), Some("small"));
    assert_eq!(a.small_text.as_deref(), Some("small hover"));
}

#[test]
fn secrets_builder() {
    let s = Secrets::new()
        .join("join-token".to_owned())
        .spectate("spectate-token".to_owned())
        .match_secret("match-token".to_owned());
    assert_eq!(s.join.as_deref(), Some("join-token"));
    assert_eq!(s.spectate.as_deref(), Some("spectate-token"));
    assert_eq!(s.match_secret.as_deref(), Some("match-token"));
}

#[test]
fn button_requires_both_fields() {
    let b = Button::new("Join".to_owned(), "https://example.test/join".to_owned());
    assert_eq!(b.label, "Join");
    assert_eq!(b.url, "https://example.test/join");
}

#[test]
fn empty_button_list_leaves_field_absent() {
    let a = Activity::new().buttons(Vec::new());
    assert!(a.buttons.is_none());
}

#[test]
fn empty_button_list_does_not_reset_other_fields() {
    let a = Activity::new().state("s".to_owned()).buttons(Vec::new());
    assert!(a.buttons.is_none());
    assert_eq!(a.state.as_deref(), Some("s"));
}

#[test]
fn nonempty_button_list_is_kept_verbatim() {
    let b1 = Button::new("One".to_owned(), "https://example.test/1".to_owned());
    let b2 = Button::new("Two".to_owned(), "https://example.test/2".to_owned());
    let a = Activity::new().buttons(vec![b1, b2]);
    let bs = a.buttons.expect("buttons set");
    assert_eq!(bs.len(), 2);
    assert_eq!(bs[0].label, "One");
    assert_eq!(bs[1].label, "Two");
}

#[test]
fn setter_overwrites_previous_value() {
    let a = Activity::new().state("old".to_owned()).state("new".to_owned());
    assert_eq!(a.state.as_deref(), Some("new"));
}

#[test]
fn wire_code_of_each_variant() {
    assert_eq!(ActivityType::Playing.wire_code(), 0);
    assert_eq!(ActivityType::Listening.wire_code(), 2);
    assert_eq!(ActivityType::Watching.wire_code(), 3);
    assert_eq!(ActivityType::Competing.wire_code(), 5);
}
