use sparkle_impostor::component::{filter_valid, is_valid, Component, Leaf};
use sparkle_impostor::error::Error;
use sparkle_impostor::message::{Message, MessageKind, User};
use sparkle_impostor::MessageSource;

fn message_with_components(components: Vec<Component>) -> Message {
    Message {
        id: 1,
        channel_id: 2,
        guild_id: Some(3),
        kind: MessageKind::Regular,
        flags: None,
        has_activity: false,
        has_application: false,
        has_role_subscription_data: false,
        content: String::from("content"),
        tts: false,
        embeds: vec![],
        components,
        reactions: vec![],
        sticker_items: vec![],
        attachments: vec![],
        author: User { id: 4, name: String::from("name"), discriminator: 1, avatar: None },
        member: None,
        referenced_message: None,
        thread: None,
    }
}

#[test]
fn leaf_validity() {
    assert!(is_valid(&Leaf::LinkButton));
    assert!(!is_valid(&Leaf::CustomButton));
    assert!(!is_valid(&Leaf::Other));
}

#[test]
fn mixed_row_keeps_only_link_button() {
    // One action row holding one link button and one custom-callback
    // button: the filtered output keeps only the link button, in a row of
    // size one, and the message is flagged.
    let msg = message_with_components(vec![Component::ActionRow(vec![
        Leaf::LinkButton,
        Leaf::CustomButton,
    ])]);
    let src = MessageSource::from_message(msg).unwrap();
    assert_eq!(
        src.component_info.url_components,
        vec![Component::ActionRow(vec![Leaf::LinkButton])]
    );
    assert!(src.component_info.has_invalid_components);
}

#[test]
fn fully_invalid_row_dropped_entirely() {
    // A container whose every leaf is invalid is absent from the output,
    // not present as an empty shell.
    let filtered = filter_valid(&vec![
        Component::ActionRow(vec![Leaf::CustomButton, Leaf::Other]),
        Component::ActionRow(vec![Leaf::LinkButton]),
    ]);
    assert_eq!(filtered, vec![Component::ActionRow(vec![Leaf::LinkButton])]);
}

#[test]
fn empty_row_dropped() {
    let filtered = filter_valid(&vec![Component::ActionRow(vec![])]);
    assert!(filtered.is_empty());
}

#[test]
fn bare_leaves_filtered() {
    let filtered = filter_valid(&vec![
        Component::Leaf(Leaf::Other),
        Component::Leaf(Leaf::LinkButton),
        Component::Leaf(Leaf::CustomButton),
    ]);
    assert_eq!(filtered, vec![Component::Leaf(Leaf::LinkButton)]);
}

#[test]
fn filtering_is_idempotent() {
    // Filtering an already-filtered sequence drops nothing further.
    let original = vec![
        Component::ActionRow(vec![Leaf::LinkButton, Leaf::CustomButton, Leaf::LinkButton]),
        Component::ActionRow(vec![Leaf::Other]),
        Component::Leaf(Leaf::LinkButton),
        Component::Leaf(Leaf::CustomButton),
    ];
    let once = filter_valid(&original);
    let twice = filter_valid(&once);
    assert_eq!(once, twice);
    assert_eq!(
        once,
        vec![
            Component::ActionRow(vec![Leaf::LinkButton, Leaf::LinkButton]),
            Component::Leaf(Leaf::LinkButton),
        ]
    );
}

#[test]
fn order_preserved_across_rows() {
    let filtered = filter_valid(&vec![
        Component::ActionRow(vec![Leaf::CustomButton, Leaf::LinkButton]),
        Component::Leaf(Leaf::LinkButton),
        Component::ActionRow(vec![Leaf::LinkButton, Leaf::Other, Leaf::LinkButton]),
    ]);
    assert_eq!(
        filtered,
        vec![
            Component::ActionRow(vec![Leaf::LinkButton]),
            Component::Leaf(Leaf::LinkButton),
            Component::ActionRow(vec![Leaf::LinkButton, Leaf::LinkButton]),
        ]
    );
}

#[test]
fn clean_components_not_flagged() {
    let msg = message_with_components(vec![Component::ActionRow(vec![Leaf::LinkButton])]);
    let src = MessageSource::from_message(msg).unwrap();
    assert!(!src.component_info.has_invalid_components);
    let src = src.check_component().unwrap();
    assert_eq!(
        src.component_info.url_components,
        vec![Component::ActionRow(vec![Leaf::LinkButton])]
    );
}

#[test]
fn check_component_rejects_flagged_source() {
    let msg = message_with_components(vec![Component::Leaf(Leaf::CustomButton)]);
    let src = MessageSource::from_message(msg).unwrap();
    assert!(src.component_info.has_invalid_components);
    assert!(matches!(src.check_component(), Err(Error::SourceComponent)));
}

#[test]
fn no_components_check_passes() {
    let msg = message_with_components(vec![]);
    let src = MessageSource::from_message(msg).unwrap();
    assert!(src.check_component().is_ok());
}
