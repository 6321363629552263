use telegram_ingest::clock::{
    event_time, Timestamp, EARLIEST_EPOCH_SECONDS, LATEST_EPOCH_SECONDS,
};
use telegram_ingest::message_processor::{
    advance, anonymous_sender, assemble_message, begin, chat_candidate, classify, conclude, edit_time, message_candidate,
    private_title, resolve_payload, sender_candidate, user_reference, ChatOrigin, ContactCard,
    DocumentFile, GeoPoint, IncomingMessage, MediaFile, MessageProcessor, Payload, RawContent,
    SenderProfile, StoreReply, StoreRequest, SurrogateIds, UpdateFlow, UpdateReport,
};
use telegram_ingest::models::{
    ChatKind, MessageKind, StorageError, TelegramGroup, TelegramUser,
};
use telegram_ingest::store::EntityStore;

fn at(seconds: i64) -> Timestamp {
    Timestamp { seconds, nanos: 0 }
}

fn empty_content() -> RawContent {
    RawContent {
        text: None,
        photo: None,
        video: None,
        audio: None,
        document: None,
        sticker: None,
        location: None,
        contact: None,
    }
}

fn media(id: &str) -> MediaFile {
    MediaFile { file_id: id.to_string(), file_unique_id: format!("u-{}", id) }
}

fn document(id: &str, mime: Option<&str>, name: Option<&str>) -> DocumentFile {
    DocumentFile {
        file_id: id.to_string(),
        file_unique_id: format!("u-{}", id),
        mime_type: mime.map(|m| m.to_string()),
        file_name: name.map(|n| n.to_string()),
    }
}

fn group_row(id: u128, remote: i64) -> TelegramGroup {
    TelegramGroup {
        id,
        telegram_chat_id: remote,
        chat_type: ChatKind::Group,
        title: Some("g".to_string()),
        username: None,
        description: None,
        invite_link: None,
        member_count: None,
        is_verified: false,
        is_restricted: false,
        is_scam: false,
        is_fake: false,
        created_at: at(1),
        updated_at: at(1),
    }
}

fn user_row(id: u128, remote: i64) -> TelegramUser {
    TelegramUser {
        id,
        telegram_user_id: remote,
        username: None,
        first_name: Some("Ana".to_string()),
        last_name: None,
        phone_number: None,
        is_bot: false,
        is_verified: false,
        is_premium: false,
        language_code: None,
        created_at: at(1),
        updated_at: at(1),
    }
}

fn storage_error() -> StorageError {
    StorageError { reason: "connection lost".to_string() }
}

#[test]
fn private_chat_title_is_first_name_alone() {
    let chat = ChatOrigin::Private {
        id: 7,
        first_name: "Ana".to_string(),
        last_name: None,
        username: None,
    };
    let candidate = chat_candidate(chat);
    assert_eq!(candidate.title, Some("Ana".to_string()));
    assert_eq!(candidate.chat_type, ChatKind::Private);
    assert_eq!(candidate.telegram_chat_id, 7);
    assert_eq!(candidate.username, None);
    assert_eq!(candidate.description, None);
}

#[test]
fn private_chat_title_joins_and_trims() {
    assert_eq!(private_title("Ana", &Some("Silva".to_string())), "Ana Silva");
    assert_eq!(private_title("  Ana", &Some("Silva \n".to_string())), "Ana Silva");
    assert_eq!(private_title("Ana", &None), "Ana");
    assert_eq!(private_title("", &None), "");
    assert_eq!(private_title("", &Some("Silva".to_string())), "Silva");
}

#[test]
fn private_chat_keeps_the_counterparts_handle() {
    let chat = ChatOrigin::Private {
        id: 7,
        first_name: "Ana".to_string(),
        last_name: Some("Silva".to_string()),
        username: Some("ana".to_string()),
    };
    let candidate = chat_candidate(chat);
    assert_eq!(candidate.title, Some("Ana Silva".to_string()));
    assert_eq!(candidate.username, Some("ana".to_string()));
}

#[test]
fn group_title_is_verbatim_and_has_no_handle() {
    let candidate = chat_candidate(ChatOrigin::Group { id: -5, title: "  Team  ".to_string() });
    assert_eq!(candidate.title, Some("  Team  ".to_string()));
    assert_eq!(candidate.chat_type, ChatKind::Group);
    assert_eq!(candidate.username, None);
    assert_eq!(candidate.description, None);
    assert_eq!(candidate.invite_link, None);
    assert_eq!(candidate.member_count, None);
    assert!(!candidate.is_verified && !candidate.is_restricted);
    assert!(!candidate.is_scam && !candidate.is_fake);
}

#[test]
fn supergroup_and_channel_expose_handle_and_description() {
    let supergroup = chat_candidate(ChatOrigin::Supergroup {
        id: -100,
        title: "Big".to_string(),
        username: Some("big".to_string()),
        description: Some("about".to_string()),
    });
    assert_eq!(supergroup.chat_type, ChatKind::Supergroup);
    assert_eq!(supergroup.username, Some("big".to_string()));
    assert_eq!(supergroup.description, Some("about".to_string()));
    let channel = chat_candidate(ChatOrigin::Channel {
        id: -200,
        title: "News".to_string(),
        username: None,
        description: Some("daily".to_string()),
    });
    assert_eq!(channel.chat_type, ChatKind::Channel);
    assert_eq!(channel.title, Some("News".to_string()));
    assert_eq!(channel.username, None);
    assert_eq!(channel.description, Some("daily".to_string()));
}

#[test]
fn sender_candidate_has_no_phone_number() {
    let candidate = sender_candidate(SenderProfile {
        id: 99,
        first_name: Some("Ana".to_string()),
        last_name: None,
        username: Some("ana".to_string()),
        is_bot: false,
        is_verified: true,
        is_premium: true,
        language_code: Some("pt".to_string()),
    });
    assert_eq!(candidate.telegram_user_id, 99);
    assert_eq!(candidate.first_name, Some("Ana".to_string()));
    assert_eq!(candidate.last_name, None);
    assert_eq!(candidate.username, Some("ana".to_string()));
    assert_eq!(candidate.phone_number, None);
    assert!(!candidate.is_bot);
    assert!(candidate.is_verified);
    assert!(candidate.is_premium);
    assert_eq!(candidate.language_code, Some("pt".to_string()));
}

#[test]
fn text_takes_precedence_over_photo() {
    let mut content = empty_content();
    content.text = Some("look".to_string());
    content.photo = Some(media("p1"));
    assert_eq!(classify(&content), MessageKind::Text);
    let payload = resolve_payload(content);
    assert!(matches!(payload, Payload::Text(_)));
    let candidate = message_candidate(5, payload, at(10), None, None, None, 3);
    assert_eq!(candidate.message_type, MessageKind::Text);
    assert_eq!(candidate.message_type.as_str(), "text");
    assert_eq!(candidate.message_text, Some("look".to_string()));
    assert_eq!(candidate.media_file_id, None);
    assert_eq!(candidate.media_file_unique_id, None);
    assert_eq!(candidate.media_file_size, None);
    assert_eq!(candidate.media_mime_type, None);
    assert_eq!(candidate.media_file_name, None);
}

#[test]
fn classification_follows_the_precedence_order() {
    let mut content = RawContent {
        text: None,
        photo: Some(media("p")),
        video: Some(media("v")),
        audio: Some(document("a", None, None)),
        document: Some(document("d", None, None)),
        sticker: Some(document("s", None, None)),
        location: Some(GeoPoint { latitude: 1, longitude: 2 }),
        contact: Some(ContactCard {
            phone_number: "1".to_string(),
            first_name: "A".to_string(),
            last_name: None,
        }),
    };
    assert_eq!(classify(&content), MessageKind::Photo);
    content.photo = None;
    assert_eq!(classify(&content), MessageKind::Video);
    content.video = None;
    assert_eq!(classify(&content), MessageKind::Audio);
    content.audio = None;
    assert_eq!(classify(&content), MessageKind::Document);
    content.document = None;
    assert_eq!(classify(&content), MessageKind::Sticker);
    content.sticker = None;
    assert_eq!(classify(&content), MessageKind::Location);
    content.location = None;
    assert_eq!(classify(&content), MessageKind::Contact);
    content.contact = None;
    assert_eq!(classify(&content), MessageKind::Unknown);
    assert!(matches!(resolve_payload(content), Payload::Unknown));
}

#[test]
fn photo_and_video_get_their_fixed_mime_type() {
    let photo = message_candidate(1, Payload::Photo(media("p1")), at(1), None, None, None, 3);
    assert_eq!(photo.message_type, MessageKind::Photo);
    assert_eq!(photo.message_text, None);
    assert_eq!(photo.media_file_id, Some("p1".to_string()));
    assert_eq!(photo.media_file_unique_id, Some("u-p1".to_string()));
    assert_eq!(photo.media_mime_type, Some("image/jpeg".to_string()));
    assert_eq!(photo.media_file_name, None);
    assert_eq!(photo.media_file_size, None);
    let video = message_candidate(2, Payload::Video(media("v1")), at(1), None, None, None, 3);
    assert_eq!(video.message_type, MessageKind::Video);
    assert_eq!(video.media_file_id, Some("v1".to_string()));
    assert_eq!(video.media_mime_type, Some("video/mp4".to_string()));
    assert_eq!(video.media_file_name, None);
}

#[test]
fn only_a_document_has_a_file_name() {
    let file = document("d1", Some("application/pdf"), Some("a.pdf"));
    let doc = message_candidate(1, Payload::Document(file.clone()), at(1), None, None, None, 3);
    assert_eq!(doc.message_type, MessageKind::Document);
    assert_eq!(doc.media_file_id, Some("d1".to_string()));
    assert_eq!(doc.media_file_unique_id, Some("u-d1".to_string()));
    assert_eq!(doc.media_mime_type, Some("application/pdf".to_string()));
    assert_eq!(doc.media_file_name, Some("a.pdf".to_string()));
    let audio = message_candidate(2, Payload::Audio(file.clone()), at(1), None, None, None, 3);
    assert_eq!(audio.message_type, MessageKind::Audio);
    assert_eq!(audio.media_mime_type, Some("application/pdf".to_string()));
    assert_eq!(audio.media_file_name, None);
    let sticker = message_candidate(3, Payload::Sticker(file), at(1), None, None, None, 3);
    assert_eq!(sticker.message_type, MessageKind::Sticker);
    assert_eq!(sticker.media_file_id, Some("d1".to_string()));
    assert_eq!(sticker.media_file_name, None);
    let bare = message_candidate(
        4,
        Payload::Document(document("d2", None, None)),
        at(1),
        None,
        None,
        None,
        3,
    );
    assert_eq!(bare.media_mime_type, None);
    assert_eq!(bare.media_file_name, None);
}

#[test]
fn location_and_contact_fill_their_own_fields() {
    let latitude = (-23.55f64).to_bits();
    let longitude = (-46.63f64).to_bits();
    let place = message_candidate(
        1,
        Payload::Location(GeoPoint { latitude, longitude }),
        at(1),
        None,
        None,
        Some(8),
        3,
    );
    assert_eq!(place.message_type, MessageKind::Location);
    assert_eq!(place.location_latitude.map(f64::from_bits), Some(-23.55));
    assert_eq!(place.location_longitude.map(f64::from_bits), Some(-46.63));
    assert_eq!(place.user_id, Some(8));
    assert_eq!(place.media_file_id, None);
    assert_eq!(place.contact_phone_number, None);
    let card = ContactCard {
        phone_number: "+5511".to_string(),
        first_name: "Ana".to_string(),
        last_name: None,
    };
    let contact = message_candidate(2, Payload::Contact(card), at(1), None, None, None, 3);
    assert_eq!(contact.message_type, MessageKind::Contact);
    assert_eq!(contact.contact_phone_number, Some("+5511".to_string()));
    assert_eq!(contact.contact_first_name, Some("Ana".to_string()));
    assert_eq!(contact.contact_last_name, None);
    assert_eq!(contact.location_latitude, None);
    assert_eq!(contact.location_longitude, None);
}

#[test]
fn unknown_payload_leaves_everything_unset() {
    let m = message_candidate(9, Payload::Unknown, at(4), Some(at(5)), Some(2), None, 3);
    assert_eq!(m.telegram_message_id, 9);
    assert_eq!(m.group_id, 3);
    assert_eq!(m.user_id, None);
    assert_eq!(m.message_type, MessageKind::Unknown);
    assert_eq!(m.message_text, None);
    assert_eq!(m.date, at(4));
    assert_eq!(m.edit_date, Some(at(5)));
    assert_eq!(m.reply_to_message_id, Some(2));
    assert_eq!(m.forward_from_user_id, None);
    assert_eq!(m.forward_from_group_id, None);
    assert_eq!(m.forward_date, None);
    assert_eq!(m.media_file_id, None);
    assert_eq!(m.contact_first_name, None);
}

#[test]
fn epoch_seconds_become_a_timestamp() {
    let now = Timestamp { seconds: 5, nanos: 6 };
    assert_eq!(event_time(1_700_000_000, now), Timestamp { seconds: 1_700_000_000, nanos: 0 });
    assert_eq!(event_time(0, now), Timestamp { seconds: 0, nanos: 0 });
    assert_eq!(event_time(-1, now), Timestamp { seconds: -1, nanos: 0 });
}

#[test]
fn out_of_range_epoch_falls_back_to_now() {
    let now = Timestamp { seconds: 5, nanos: 6 };
    assert_eq!(event_time(i64::MAX, now), now);
    assert_eq!(event_time(i64::MIN, now), now);
    assert_eq!(edit_time(Some(i64::MAX), now), Some(now));
    assert_eq!(edit_time(Some(12), now), Some(at(12)));
    assert_eq!(edit_time(None, now), None);
}

#[test]
fn failed_sender_lookup_still_yields_a_message() {
    let mut content = empty_content();
    content.text = Some("hi".to_string());
    let draft = assemble_message(
        11,
        content,
        100,
        None,
        None,
        Some(Err(storage_error())),
        Ok(group_row(77, -5)),
        at(1),
    );
    let draft = draft.expect("the conversation was resolved");
    assert_eq!(draft.user_id, None);
    assert_eq!(draft.group_id, 77);
    assert_eq!(draft.telegram_message_id, 11);
    assert_eq!(draft.message_text, Some("hi".to_string()));
    assert_eq!(draft.date, at(100));
}

#[test]
fn resolved_sender_is_referenced() {
    let draft = assemble_message(
        11,
        empty_content(),
        100,
        Some(200),
        Some(10),
        Some(Ok(user_row(42, 9))),
        Ok(group_row(77, -5)),
        at(1),
    )
    .expect("the conversation was resolved");
    assert_eq!(draft.user_id, Some(42));
    assert_eq!(draft.edit_date, Some(at(200)));
    assert_eq!(draft.reply_to_message_id, Some(10));
    assert_eq!(draft.message_type, MessageKind::Unknown);
    assert_eq!(user_reference(Some(Ok(user_row(42, 9)))), Some(42));
    assert_eq!(user_reference(Some(Err(storage_error()))), None);
    assert_eq!(user_reference(None), None);
}

#[test]
fn failed_chat_resolution_abandons_the_update() {
    let draft = assemble_message(
        11,
        empty_content(),
        100,
        None,
        None,
        Some(Ok(user_row(42, 9))),
        Err(storage_error()),
        at(1),
    );
    assert!(draft.is_none());
}

#[test]
fn store_answers_map_to_reports() {
    let mut store = EntityStore::new();
    let row = store
        .insert_message(
            message_candidate(1, Payload::Unknown, at(1), None, None, None, 3),
            500,
            at(2),
        )
        .expect("new");
    assert_eq!(conclude(Some(Ok(Some(row)))), UpdateReport::Saved);
    assert_eq!(conclude(Some(Ok(None))), UpdateReport::DuplicateSuppressed);
    assert_eq!(conclude(Some(Err(storage_error()))), UpdateReport::Dropped);
    assert_eq!(conclude(None), UpdateReport::Abandoned);
}

fn incoming(id: i64, text: &str) -> IncomingMessage {
    let mut content = empty_content();
    content.text = Some(text.to_string());
    IncomingMessage {
        id,
        sender: Some(SenderProfile {
            id: 900,
            first_name: Some("Ana".to_string()),
            last_name: None,
            username: None,
            is_bot: false,
            is_verified: false,
            is_premium: false,
            language_code: None,
        }),
        chat: ChatOrigin::Private {
            id: 900,
            first_name: "Ana".to_string(),
            last_name: None,
            username: None,
        },
        content,
        date: 1_700_000_000,
        edit_date: None,
        reply_to_message_id: None,
    }
}

#[test]
fn processing_an_update_writes_three_rows() {
    let mut processor = MessageProcessor::new(EntityStore::new());
    let ids = SurrogateIds { user: 1, chat: 2, message: 3 };
    let report = processor.process_message_at(incoming(10, "oi"), ids, at(50));
    assert_eq!(report, UpdateReport::Saved);
    let store = processor.database();
    assert_eq!(store.user_count(), 1);
    assert_eq!(store.chat_count(), 1);
    assert_eq!(store.message_count(), 1);
    let chat = store.find_chat_by_remote_id(900).expect("chat");
    assert_eq!(chat.id, 2);
    assert_eq!(chat.title, Some("Ana".to_string()));
    let message = store.find_message(2, 10).expect("message");
    assert_eq!(message.id, 3);
    assert_eq!(message.user_id, Some(1));
    assert_eq!(message.group_id, 2);
    assert_eq!(message.message_text, Some("oi".to_string()));
    assert_eq!(message.message_type, MessageKind::Text);
    assert_eq!(message.date, at(1_700_000_000));
    assert_eq!(message.created_at, at(50));
}

#[test]
fn processing_the_same_update_twice_suppresses_the_duplicate() {
    let mut processor = MessageProcessor::new(EntityStore::new());
    let first = SurrogateIds { user: 1, chat: 2, message: 3 };
    let second = SurrogateIds { user: 4, chat: 5, message: 6 };
    assert_eq!(processor.process_message_at(incoming(10, "oi"), first, at(50)), UpdateReport::Saved);
    assert_eq!(
        processor.process_message_at(incoming(10, "oi again"), second, at(60)),
        UpdateReport::DuplicateSuppressed
    );
    let store = processor.database();
    assert_eq!(store.user_count(), 1);
    assert_eq!(store.chat_count(), 1);
    assert_eq!(store.message_count(), 1);
    let message = store.find_message(2, 10).expect("message");
    assert_eq!(message.message_text, Some("oi".to_string()));
    let user = store.find_user_by_remote_id(900).expect("user");
    assert_eq!(user.id, 1);
    assert_eq!(user.updated_at, at(60));
}

#[test]
fn processing_with_generated_identities() {
    let mut processor = MessageProcessor::new(EntityStore::new());
    assert_eq!(processor.process_message(incoming(1, "a")), UpdateReport::Saved);
    assert_eq!(processor.process_message(incoming(2, "b")), UpdateReport::Saved);
    assert_eq!(processor.process_message(incoming(1, "c")), UpdateReport::DuplicateSuppressed);
    let store = processor.database();
    assert_eq!(store.user_count(), 1);
    assert_eq!(store.chat_count(), 1);
    assert_eq!(store.message_count(), 2);
    let user = store.find_user_by_remote_id(900).expect("user");
    assert!(user.created_at.seconds > 1_600_000_000);
}

#[test]
fn epoch_range_ends_where_dates_end() {
    let now = Timestamp { seconds: 5, nanos: 6 };
    assert_eq!(EARLIEST_EPOCH_SECONDS, -8_334_601_228_800);
    assert_eq!(LATEST_EPOCH_SECONDS, 8_210_266_876_799);
    assert_eq!(event_time(LATEST_EPOCH_SECONDS, now), at(LATEST_EPOCH_SECONDS));
    assert_eq!(event_time(LATEST_EPOCH_SECONDS + 1, now), now);
    assert_eq!(event_time(EARLIEST_EPOCH_SECONDS, now), at(EARLIEST_EPOCH_SECONDS));
    assert_eq!(event_time(EARLIEST_EPOCH_SECONDS - 1, now), now);
}

#[test]
fn sender_that_is_no_user_has_only_an_identity() {
    let profile = anonymous_sender(-100);
    assert_eq!(profile.id, -100);
    assert_eq!(profile.first_name, None);
    assert_eq!(profile.last_name, None);
    assert_eq!(profile.username, None);
    assert!(!profile.is_bot && !profile.is_verified && !profile.is_premium);
    assert_eq!(profile.language_code, None);
}

#[test]
fn flow_with_failed_sender_still_inserts() {
    let (flow, request) = begin(incoming(10, "oi"));
    assert!(matches!(flow, UpdateFlow::AwaitingUser { .. }));
    match request {
        StoreRequest::UpsertUser(user) => {
            assert_eq!(user.telegram_user_id, 900);
            assert_eq!(user.first_name, Some("Ana".to_string()));
            assert_eq!(user.phone_number, None);
        }
        other => panic!("unexpected request {:?}", other),
    }
    let (flow, request) = advance(flow, StoreReply::User(Err(storage_error())), at(5));
    assert!(matches!(flow, UpdateFlow::AwaitingChat { user_id: None, .. }));
    match request {
        StoreRequest::UpsertChat(chat) => {
            assert_eq!(chat.telegram_chat_id, 900);
            assert_eq!(chat.title, Some("Ana".to_string()));
            assert_eq!(chat.chat_type, ChatKind::Private);
        }
        other => panic!("unexpected request {:?}", other),
    }
    let (flow, request) = advance(flow, StoreReply::Chat(Ok(group_row(77, 900))), at(5));
    assert!(matches!(flow, UpdateFlow::AwaitingInsert));
    let draft = match request {
        StoreRequest::InsertMessage(draft) => draft,
        other => panic!("unexpected request {:?}", other),
    };
    assert_eq!(draft.user_id, None);
    assert_eq!(draft.group_id, 77);
    assert_eq!(draft.telegram_message_id, 10);
    assert_eq!(draft.message_text, Some("oi".to_string()));
    assert_eq!(draft.message_type, MessageKind::Text);
    assert_eq!(draft.date, at(1_700_000_000));
    let mut store = EntityStore::new();
    let stored = store.insert_message(draft, 1, at(5));
    let (flow, request) = advance(flow, StoreReply::Message(Ok(stored)), at(5));
    assert!(matches!(flow, UpdateFlow::Finished(UpdateReport::Saved)));
    assert!(matches!(request, StoreRequest::Nothing(UpdateReport::Saved)));
}

#[test]
fn flow_with_resolved_sender_references_it() {
    let (flow, _) = begin(incoming(10, "oi"));
    let (flow, _) = advance(flow, StoreReply::User(Ok(user_row(42, 900))), at(5));
    assert!(matches!(flow, UpdateFlow::AwaitingChat { user_id: Some(42), .. }));
    let (_, request) = advance(flow, StoreReply::Chat(Ok(group_row(77, 900))), at(5));
    match request {
        StoreRequest::InsertMessage(draft) => assert_eq!(draft.user_id, Some(42)),
        other => panic!("unexpected request {:?}", other),
    }
}

#[test]
fn flow_without_sender_starts_with_the_conversation() {
    let mut message = incoming(10, "oi");
    message.sender = None;
    let (flow, request) = begin(message);
    assert!(matches!(flow, UpdateFlow::AwaitingChat { user_id: None, .. }));
    assert!(matches!(request, StoreRequest::UpsertChat(_)));
}

#[test]
fn flow_is_abandoned_without_a_conversation() {
    let (flow, _) = begin(incoming(10, "oi"));
    let (flow, _) = advance(flow, StoreReply::User(Ok(user_row(42, 900))), at(5));
    let (flow, request) = advance(flow, StoreReply::Chat(Err(storage_error())), at(5));
    assert!(matches!(flow, UpdateFlow::Finished(UpdateReport::Abandoned)));
    assert!(matches!(request, StoreRequest::Nothing(UpdateReport::Abandoned)));
    let (flow, request) = advance(flow, StoreReply::Message(Ok(None)), at(5));
    assert!(matches!(flow, UpdateFlow::Finished(UpdateReport::Abandoned)));
    assert!(matches!(request, StoreRequest::Nothing(UpdateReport::Abandoned)));
}

#[test]
fn flow_reports_duplicates_and_failures() {
    let (_, request) = advance(UpdateFlow::AwaitingInsert, StoreReply::Message(Ok(None)), at(5));
    assert!(matches!(request, StoreRequest::Nothing(UpdateReport::DuplicateSuppressed)));
    let (_, request) =
        advance(UpdateFlow::AwaitingInsert, StoreReply::Message(Err(storage_error())), at(5));
    assert!(matches!(request, StoreRequest::Nothing(UpdateReport::Dropped)));
}

#[test]
fn flow_drops_the_update_on_an_answer_it_did_not_await() {
    let (flow, _) = begin(incoming(10, "oi"));
    let (flow, request) = advance(flow, StoreReply::Chat(Ok(group_row(77, 900))), at(5));
    assert!(matches!(flow, UpdateFlow::Finished(UpdateReport::Dropped)));
    assert!(matches!(request, StoreRequest::Nothing(UpdateReport::Dropped)));
    let (flow, _) =
        advance(UpdateFlow::AwaitingInsert, StoreReply::User(Ok(user_row(1, 2))), at(5));
    assert!(matches!(flow, UpdateFlow::Finished(UpdateReport::Dropped)));
}
