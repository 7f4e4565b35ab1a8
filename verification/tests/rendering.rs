//! Tests of the rendering layer: field omission, key renaming, enum
//! codes, ordering, normalization and determinism on concrete values.

use rich_presence::activity::Activity;
use rich_presence::activity::ActivityType;
use rich_presence::activity::Assets;
use rich_presence::activity::Button;
use rich_presence::activity::Party;
use rich_presence::activity::Secrets;
use rich_presence::activity::Timestamps;
use rich_presence::wire::LeafEntry;
use rich_presence::wire::LeafValue;
use rich_presence::wire::WireValue;

fn leaf(key: &str, value: LeafValue) -> LeafEntry {
    LeafEntry { key: key.to_owned(), value }
}

#[test]
fn fresh_activity_renders_empty() {
    let r = Activity::new().render();
    assert_eq!(r.entries.len(), 0);
}

#[test]
fn state_and_details_render_exactly() {
    let a = Activity::new().state("playing ranked".to_owned()).details("round 2".to_owned());
    let r = a.render();
    assert_eq!(r.entries.len(), 2);
    assert_eq!(r.entries[0].key, "state");
    assert_eq!(r.entries[0].value, WireValue::Text("playing ranked".to_owned()));
    assert_eq!(r.entries[1].key, "details");
    assert_eq!(r.entries[1].value, WireValue::Text("round 2".to_owned()));
}

#[test]
fn empty_buttons_render_like_no_buttons() {
    let base = Activity::new().state("s".to_owned()).details("d".to_owned());
    let with_empty = base.clone().buttons(Vec::new());
    assert_eq!(with_empty.render(), base.render());
}

#[test]
fn one_button_renders_as_one_element_list() {
    let b1 = Button::new("Join".to_owned(), "https://example.test/join".to_owned());
    let r = Activity::new().buttons(vec![b1]).render();
    assert_eq!(r.entries.len(), 1);
    assert_eq!(r.entries[0].key, "buttons");
    let expected = vec![vec![
        leaf("label", LeafValue::Text("Join".to_owned())),
        leaf("url", LeafValue::Text("https://example.test/join".to_owned())),
    ]];
    assert_eq!(r.entries[0].value, WireValue::ObjectList(expected));
}

#[test]
fn two_buttons_render_in_input_order() {
    let b1 = Button::new("First".to_owned(), "https://example.test/1".to_owned());
    let b2 = Button::new("Second".to_owned(), "https://example.test/2".to_owned());
    let r = Activity::new().buttons(vec![b1, b2]).render();
    assert_eq!(r.entries.len(), 1);
    let expected = vec![
        vec![
            leaf("label", LeafValue::Text("First".to_owned())),
            leaf("url", LeafValue::Text("https://example.test/1".to_owned())),
        ],
        vec![
            leaf("label", LeafValue::Text("Second".to_owned())),
            leaf("url", LeafValue::Text("https://example.test/2".to_owned())),
        ],
    ];
    assert_eq!(r.entries[0].value, WireValue::ObjectList(expected));
}

#[test]
fn each_variant_renders_its_fixed_code() {
    let cases = vec![
        (ActivityType::Playing, 0),
        (ActivityType::Listening, 2),
        (ActivityType::Watching, 3),
        (ActivityType::Competing, 5),
    ];
    for (variant, code) in cases {
        let r = Activity::new().activity_type(variant).render();
        assert_eq!(r.entries.len(), 1);
        assert_eq!(r.entries[0].key, "type");
        assert_eq!(r.entries[0].value, WireValue::Int(code));
        assert_ne!(r.entries[0].value, WireValue::Int(1));
        assert_ne!(r.entries[0].value, WireValue::Int(4));
    }
}

#[test]
fn party_size_renders_current_before_max() {
    let r = Activity::new().party(Party::new().size(3, 10)).render();
    assert_eq!(r.entries.len(), 1);
    assert_eq!(r.entries[0].key, "party");
    let expected = vec![leaf("size", LeafValue::IntList(vec![3, 10]))];
    assert_eq!(r.entries[0].value, WireValue::Object(expected));
}

#[test]
fn rendering_twice_is_identical() {
    let a = Activity::new()
        .state("s".to_owned())
        .timestamps(Timestamps::new().start(7))
        .party(Party::new().id("p".to_owned()).size(1, 2))
        .buttons(vec![Button::new("B".to_owned(), "https://example.test".to_owned())])
        .activity_type(ActivityType::Watching);
    assert_eq!(a.render(), a.render());
}

#[test]
fn updating_one_field_changes_only_that_field() {
    let base = Activity::new()
        .state("lobby".to_owned())
        .details("old details".to_owned())
        .activity_type(ActivityType::Competing);
    let before = base.clone().render();
    let after = base.details("new details".to_owned()).render();
    assert_eq!(before.entries.len(), 3);
    assert_eq!(after.entries.len(), 3);
    assert_eq!(before.entries[0], after.entries[0]);
    assert_eq!(before.entries[2], after.entries[2]);
    assert_eq!(after.entries[1].key, "details");
    assert_eq!(after.entries[1].value, WireValue::Text("new details".to_owned()));
    assert_eq!(before.entries[1].value, WireValue::Text("old details".to_owned()));
}

#[test]
fn timestamps_render_start_then_end_and_omit_unset() {
    let r = Activity::new().timestamps(Timestamps::new().start(100).end(200)).render();
    let expected = vec![
        leaf("start", LeafValue::Int(100)),
        leaf("end", LeafValue::Int(200)),
    ];
    assert_eq!(r.entries[0].key, "timestamps");
    assert_eq!(r.entries[0].value, WireValue::Object(expected));

    let only_end = Activity::new().timestamps(Timestamps::new().end(9)).render();
    assert_eq!(
        only_end.entries[0].value,
        WireValue::Object(vec![leaf("end", LeafValue::Int(9))]),
    );
}

#[test]
fn assets_render_in_declaration_order() {
    let a = Assets::new()
        .small_text("st".to_owned())
        .large_image("li".to_owned())
        .small_image("si".to_owned());
    let r = Activity::new().assets(a).render();
    let expected = vec![
        leaf("large_image", LeafValue::Text("li".to_owned())),
        leaf("small_image", LeafValue::Text("si".to_owned())),
        leaf("small_text", LeafValue::Text("st".to_owned())),
    ];
    assert_eq!(r.entries[0].key, "assets");
    assert_eq!(r.entries[0].value, WireValue::Object(expected));
}

#[test]
fn match_secret_renders_under_match_key() {
    let s = Secrets::new().match_secret("m-token".to_owned()).spectate("sp".to_owned());
    let r = Activity::new().secrets(s).render();
    let expected = vec![
        leaf("spectate", LeafValue::Text("sp".to_owned())),
        leaf("match", LeafValue::Text("m-token".to_owned())),
    ];
    assert_eq!(r.entries[0].key, "secrets");
    assert_eq!(r.entries[0].value, WireValue::Object(expected));
}

#[test]
fn full_activity_renders_every_segment_in_order() {
    let a = Activity::new()
        .activity_type(ActivityType::Listening)
        .state("s".to_owned())
        .details("d".to_owned())
        .timestamps(Timestamps::new().start(1))
        .party(Party::new().id("p".to_owned()))
        .assets(Assets::new().large_image("img".to_owned()))
        .secrets(Secrets::new().join("j".to_owned()))
        .buttons(vec![Button::new("B".to_owned(), "https://example.test".to_owned())]);
    let r = a.render();
    let keys: Vec<&str> = r.entries.iter().map(|e| e.key.as_str()).collect();
    assert_eq!(
        keys,
        vec!["state", "details", "timestamps", "party", "assets", "secrets", "buttons", "type"],
    );
}
