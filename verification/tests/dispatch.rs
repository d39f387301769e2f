use sparkle_impostor::error::Error;
use sparkle_impostor::message::{Message, MessageKind, User};
use sparkle_impostor::thread::{ChannelKind, Info as ThreadInfo};
use sparkle_impostor::webhook::{find_usable_index, Webhook};
use sparkle_impostor::MessageSource;

fn plain_message() -> Message {
    Message {
        id: 100,
        channel_id: 200,
        guild_id: Some(300),
        kind: MessageKind::Regular,
        flags: None,
        has_activity: false,
        has_application: false,
        has_role_subscription_data: false,
        content: String::from("hello world"),
        tts: false,
        embeds: vec![],
        components: vec![],
        reactions: vec![],
        sticker_items: vec![],
        attachments: vec![],
        author: User { id: 400, name: String::from("someone"), discriminator: 1, avatar: None },
        member: None,
        referenced_message: None,
        thread: None,
    }
}

#[test]
fn no_webhook_in_empty_list() {
    // With no webhook present, dispatch must create one before executing.
    assert_eq!(find_usable_index(&vec![]), None);
}

#[test]
fn webhooks_without_token_skipped() {
    let hooks = vec![
        Webhook { id: 1, token: None },
        Webhook { id: 2, token: None },
    ];
    assert_eq!(find_usable_index(&hooks), None);
}

#[test]
fn first_webhook_with_token_selected() {
    let hooks = vec![
        Webhook { id: 1, token: None },
        Webhook { id: 2, token: Some(String::from("SECRET-REDACTED")) },
        Webhook { id: 3, token: Some(String::from("SECRET-REDACTED")) },
    ];
    assert_eq!(find_usable_index(&hooks), Some(1));
}

#[test]
fn has_token_accessor() {
    assert!(!Webhook { id: 1, token: None }.has_token());
    assert!(Webhook { id: 1, token: Some(String::new()) }.has_token());
}

#[test]
fn payload_carries_hello_world() {
    let src = MessageSource::from_message(plain_message()).unwrap();
    let payload = src.execute_payload();
    assert_eq!(payload.content, "hello world");
    assert_eq!(payload.username, "someone");
    assert!(!payload.tts);
    assert_eq!(payload.flags, None);
    assert_eq!(payload.thread_id, None);
    assert!(payload.embeds.is_empty());
    // 1 % 5 == 1
    assert_eq!(payload.avatar_url, "https://cdn.discordapp.com/embed/avatars/1.png");
}

#[test]
fn payload_routes_into_known_thread() {
    let mut src = MessageSource::from_message(plain_message()).unwrap();
    src.thread_info = src.thread_info.into_known(Some(4242));
    let payload = src.execute_payload();
    assert_eq!(payload.thread_id, Some(4242));
}

#[test]
fn payload_skips_unresolved_thread() {
    let mut src = MessageSource::from_message(plain_message()).unwrap();
    src.thread_info = ThreadInfo::Known(None);
    assert_eq!(src.execute_payload().thread_id, None);
}

#[test]
fn payload_respects_overrides() {
    let mut src = MessageSource::from_message(plain_message()).unwrap();
    src.content = String::from("changed");
    src.username = String::from("other name");
    src.tts = true;
    src.flags = Some(4);
    src.avatar_info.url = Some(String::from("https://example.invalid/a.png"));
    let payload = src.execute_payload();
    assert_eq!(payload.content, "changed");
    assert_eq!(payload.username, "other name");
    assert!(payload.tts);
    assert_eq!(payload.flags, Some(4));
    assert_eq!(payload.avatar_url, "https://example.invalid/a.png");
}

#[test]
fn payload_carries_embeds_through() {
    let embed = twilight_model::channel::message::Embed {
        author: None,
        color: Some(0xFF00FF),
        description: Some(String::from("an embed")),
        fields: vec![],
        footer: None,
        image: None,
        kind: String::from("rich"),
        provider: None,
        thumbnail: None,
        timestamp: None,
        title: Some(String::from("title")),
        url: None,
        video: None,
    };
    let mut msg = plain_message();
    msg.embeds = vec![embed.clone()];
    let src = MessageSource::from_message(msg).unwrap();
    assert_eq!(src.embeds, vec![embed.clone()]);
    assert_eq!(src.execute_payload().embeds, &vec![embed]);
}

#[test]
fn forum_origin_rejected() {
    let src = MessageSource::from_message(plain_message()).unwrap();
    assert!(matches!(
        src.check_source_thread(ChannelKind::GuildForum),
        Err(Error::SourceThread)
    ));
}

#[test]
fn non_forum_origin_accepted() {
    let src = MessageSource::from_message(plain_message()).unwrap();
    let src = src.check_source_thread(ChannelKind::GuildText).unwrap();
    assert_eq!(src.content, "hello world");
}
