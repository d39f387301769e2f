use sparkle_impostor::avatar;
use sparkle_impostor::later_messages;
use sparkle_impostor::message::{Message, MessageKind, User};
use sparkle_impostor::reference;
use sparkle_impostor::thread::{ChannelKind, Info as ThreadInfo, Thread};
use sparkle_impostor::MessageSource;

fn sample_message() -> Message {
    Message {
        id: 10,
        channel_id: 20,
        guild_id: Some(30),
        kind: MessageKind::Regular,
        flags: None,
        has_activity: false,
        has_application: false,
        has_role_subscription_data: false,
        content: String::from("text"),
        tts: false,
        embeds: vec![],
        components: vec![],
        reactions: vec![],
        sticker_items: vec![],
        attachments: vec![],
        author: User { id: 40, name: String::from("n"), discriminator: 7, avatar: None },
        member: None,
        referenced_message: None,
        thread: None,
    }
}

#[test]
fn reply_without_referent_is_unknown_or_deleted() {
    let mut msg = sample_message();
    msg.kind = MessageKind::Reply;
    let src = MessageSource::from_message(msg).unwrap();
    assert!(matches!(src.reference_info, reference::Info::UnknownOrDeleted));
}

#[test]
fn non_reply_is_no_reply_even_with_referent() {
    let mut msg = sample_message();
    msg.referenced_message = Some(Box::new(sample_message()));
    let src = MessageSource::from_message(msg).unwrap();
    assert!(matches!(src.reference_info, reference::Info::NoReply));
}

#[test]
fn reply_with_referent_is_resolved() {
    let mut referent = sample_message();
    referent.id = 99;
    let mut msg = sample_message();
    msg.kind = MessageKind::Reply;
    msg.referenced_message = Some(Box::new(referent));
    let src = MessageSource::from_message(msg).unwrap();
    match src.reference_info {
        reference::Info::Reference(m) => assert_eq!(m.id, 99),
        _ => panic!("expected a resolved reference"),
    }
}

#[test]
fn thread_snapshot_becomes_created_unknown() {
    let mut msg = sample_message();
    msg.thread = Some(Thread { id: 777, parent_id: Some(20), kind: ChannelKind::PublicThread });
    let src = MessageSource::from_message(msg).unwrap();
    assert_eq!(src.source_thread_id, Some(777));
    match src.thread_info {
        ThreadInfo::CreatedUnknown(t) => assert_eq!(t.id, 777),
        _ => panic!("expected a captured thread snapshot"),
    }
}

#[test]
fn no_thread_snapshot_is_unknown() {
    let src = MessageSource::from_message(sample_message()).unwrap();
    assert!(matches!(src.thread_info, ThreadInfo::Unknown));
    assert_eq!(src.source_thread_id, None);
}

#[test]
fn thread_id_accessor() {
    assert_eq!(ThreadInfo::Unknown.id(), None);
    assert_eq!(ThreadInfo::Known(None).id(), None);
    assert_eq!(ThreadInfo::Known(Some(5)).id(), Some(5));
    let t = Thread { id: 6, parent_id: None, kind: ChannelKind::PublicThread };
    assert_eq!(ThreadInfo::CreatedUnknown(t).id(), Some(6));
}

#[test]
fn thread_resolution_transition() {
    let t = Thread { id: 8, parent_id: None, kind: ChannelKind::PublicThread };
    assert_eq!(ThreadInfo::CreatedUnknown(t).into_known(Some(8)), ThreadInfo::Known(Some(8)));
    assert_eq!(ThreadInfo::Unknown.into_known(None), ThreadInfo::Known(None));
}

#[test]
fn member_avatar_preferred() {
    let info = avatar::Info {
        url: None,
        user_id: 55,
        guild_id: 77,
        user_discriminator: 1,
        user_avatar: Some(String::from("uhash")),
        member_avatar: Some(String::from("mhash")),
    };
    assert_eq!(
        info.url(),
        "https://cdn.discordapp.com/guilds/77/users/55/avatars/mhash.png"
    );
}

#[test]
fn user_avatar_fallback() {
    let info = avatar::Info {
        url: None,
        user_id: 55,
        guild_id: 77,
        user_discriminator: 1,
        user_avatar: Some(String::from("uhash")),
        member_avatar: None,
    };
    assert_eq!(info.url(), "https://cdn.discordapp.com/avatars/55/uhash.png");
}

#[test]
fn default_avatar_from_discriminator() {
    let info = avatar::Info {
        url: None,
        user_id: 55,
        guild_id: 77,
        user_discriminator: 7,
        user_avatar: None,
        member_avatar: None,
    };
    // 7 % 5 == 2
    assert_eq!(info.url(), "https://cdn.discordapp.com/embed/avatars/2.png");
}

#[test]
fn default_avatar_without_discriminator() {
    let info = avatar::Info {
        url: None,
        user_id: 5 << 22,
        guild_id: 77,
        user_discriminator: 0,
        user_avatar: None,
        member_avatar: None,
    };
    // (id >> 22) % 6 == 5
    assert_eq!(info.url(), "https://cdn.discordapp.com/embed/avatars/5.png");
}

#[test]
fn avatar_override_wins() {
    let info = avatar::Info {
        url: Some(String::from("https://example.invalid/override.png")),
        user_id: 55,
        guild_id: 77,
        user_discriminator: 7,
        user_avatar: Some(String::from("uhash")),
        member_avatar: Some(String::from("mhash")),
    };
    assert_eq!(info.url(), "https://example.invalid/override.png");
}

#[test]
fn avatar_url_caching() {
    let mut info = avatar::Info {
        url: None,
        user_id: 55,
        guild_id: 77,
        user_discriminator: 7,
        user_avatar: None,
        member_avatar: None,
    };
    let derived = info.url();
    info.cache_url();
    assert_eq!(info.url, Some(derived.clone()));
    assert_eq!(info.url(), derived);
}

#[test]
fn later_messages_lifecycle() {
    let mut tracker = later_messages::Info::new();
    assert!(tracker.messages.is_empty());
    assert!(!tracker.is_complete);
    tracker.push_message(sample_message());
    tracker.push_message(sample_message());
    assert_eq!(tracker.messages.len(), 2);
    tracker.mark_complete();
    assert!(tracker.is_complete);
    tracker.mark_source_created();
    tracker.mark_later_message_sources_created();
    assert!(tracker.is_source_created);
    assert!(tracker.is_later_message_sources_created);
}
