//! From one incoming update to the candidates that the store receives: the
//! sender, the conversation and the message, its payload classified by
//! precedence and flattened into the shared shape.

use vstd::prelude::*;
use vstd::string::*;
use crate::clock::{
    current_time, event_time, fresh_id, is_random_identity, spec_event_time, Timestamp,
};
use crate::models::{
    ChatKind, MessageKind, NewTelegramGroup, NewTelegramMessage, NewTelegramUser, StorageError,
    TelegramGroup, TelegramMessage, TelegramUser,
};
use crate::store::{
    chat_after_upsert, chat_found, chats_after_upsert, has_chat, is_duplicate,
    lemma_insert_message_found, lemma_upsert_chat_found, messages_after_insert,
    user_after_upsert, users_after_upsert, EntityStore,
};
use crate::text::{
    is_white_space, lemma_trimmed_has_bare_ends, trim, trim_end_of, trim_start_of, trimmed,
};

verus! {

/// The profile of a sender as an update shows it. It carries no phone number.
#[derive(Debug, Clone)]
pub struct SenderProfile {
    pub id: i64,
    pub first_name: Option<String>,
    pub last_name: Option<String>,
    pub username: Option<String>,
    pub is_bot: bool,
    pub is_verified: bool,
    pub is_premium: bool,
    pub language_code: Option<String>,
}

/// The conversation that an update comes from, with what its kind exposes.
#[derive(Debug, Clone)]
pub enum ChatOrigin {
    Private { id: i64, first_name: String, last_name: Option<String>, username: Option<String> },
    Group { id: i64, title: String },
    Supergroup { id: i64, title: String, username: Option<String>, description: Option<String> },
    Channel { id: i64, title: String, username: Option<String>, description: Option<String> },
}

/// A photo or a video: the two identities of its file.
#[derive(Debug, Clone)]
pub struct MediaFile {
    pub file_id: String,
    pub file_unique_id: String,
}

/// A document, an audio file or a sticker: the identities of its file and
/// what the sender declared of it.
#[derive(Debug, Clone)]
pub struct DocumentFile {
    pub file_id: String,
    pub file_unique_id: String,
    pub mime_type: Option<String>,
    pub file_name: Option<String>,
}

/// A place, each coordinate as the bits of its IEEE 754 double.
#[derive(Debug, Clone, Copy, PartialEq, Eq, Structural)]
pub struct GeoPoint {
    pub latitude: u64,
    pub longitude: u64,
}

/// A contact card.
#[derive(Debug, Clone)]
pub struct ContactCard {
    pub phone_number: String,
    pub first_name: String,
    pub last_name: Option<String>,
}

/// What a raw event carries. More than one part may be present.
#[derive(Debug, Clone)]
pub struct RawContent {
    pub text: Option<String>,
    pub photo: Option<MediaFile>,
    pub video: Option<MediaFile>,
    pub audio: Option<DocumentFile>,
    pub document: Option<DocumentFile>,
    pub sticker: Option<DocumentFile>,
    pub location: Option<GeoPoint>,
    pub contact: Option<ContactCard>,
}

/// The payload of a message once its kind is resolved: one case per kind,
/// each with the fields of that kind only.
#[derive(Debug, Clone)]
pub enum Payload {
    Text(String),
    Photo(MediaFile),
    Video(MediaFile),
    Audio(DocumentFile),
    Document(DocumentFile),
    Sticker(DocumentFile),
    Location(GeoPoint),
    Contact(ContactCard),
    Unknown,
}

/// One incoming message. `date` and `edit_date` are epoch seconds.
#[derive(Debug, Clone)]
pub struct IncomingMessage {
    pub id: i64,
    pub sender: Option<SenderProfile>,
    pub chat: ChatOrigin,
    pub content: RawContent,
    pub date: i64,
    pub edit_date: Option<i64>,
    pub reply_to_message_id: Option<i64>,
}

/// How the processing of one update ended.
#[derive(Debug, Clone, Copy, PartialEq, Eq, Structural)]
pub enum UpdateReport {
    /// The message has a new row.
    Saved,
    /// The message was there already; nothing was written.
    DuplicateSuppressed,
    /// The store failed on the message; the update is dropped.
    Dropped,
    /// The conversation could not be resolved; no message was submitted.
    Abandoned,
}

/// The kind of a raw event: the first part present, in the order text,
/// photo, video, audio, document, sticker, location, contact.
pub open spec fn kind_of(content: RawContent) -> MessageKind {
    if content.text is Some {
        MessageKind::Text
    } else if content.photo is Some {
        MessageKind::Photo
    } else if content.video is Some {
        MessageKind::Video
    } else if content.audio is Some {
        MessageKind::Audio
    } else if content.document is Some {
        MessageKind::Document
    } else if content.sticker is Some {
        MessageKind::Sticker
    } else if content.location is Some {
        MessageKind::Location
    } else if content.contact is Some {
        MessageKind::Contact
    } else {
        MessageKind::Unknown
    }
}

/// The payload of a raw event: the part that decides its kind, and none of
/// the others.
pub open spec fn payload_of(content: RawContent) -> Payload {
    match kind_of(content) {
        MessageKind::Text => Payload::Text(content.text.unwrap()),
        MessageKind::Photo => Payload::Photo(content.photo.unwrap()),
        MessageKind::Video => Payload::Video(content.video.unwrap()),
        MessageKind::Audio => Payload::Audio(content.audio.unwrap()),
        MessageKind::Document => Payload::Document(content.document.unwrap()),
        MessageKind::Sticker => Payload::Sticker(content.sticker.unwrap()),
        MessageKind::Location => Payload::Location(content.location.unwrap()),
        MessageKind::Contact => Payload::Contact(content.contact.unwrap()),
        MessageKind::Unknown => Payload::Unknown,
    }
}

/// The title of a private conversation: the counterpart's first name, a
/// space and the last name where there is one, trimmed.
pub open spec fn private_title_of(first_name: Seq<char>, last_name: Option<Seq<char>>) -> Seq<
    char,
> {
    trimmed(
        first_name + seq![' '] + match last_name {
            Some(name) => name,
            None => Seq::<char>::empty(),
        },
    )
}

impl Payload {
    /// The kind that the payload belongs to.
    pub open spec fn kind(self) -> MessageKind {
        match self {
            Payload::Text(_) => MessageKind::Text,
            Payload::Photo(_) => MessageKind::Photo,
            Payload::Video(_) => MessageKind::Video,
            Payload::Audio(_) => MessageKind::Audio,
            Payload::Document(_) => MessageKind::Document,
            Payload::Sticker(_) => MessageKind::Sticker,
            Payload::Location(_) => MessageKind::Location,
            Payload::Contact(_) => MessageKind::Contact,
            Payload::Unknown => MessageKind::Unknown,
        }
    }

    /// The body text: that of a text message.
    pub open spec fn text(self) -> Option<String> {
        match self {
            Payload::Text(body) => Some(body),
            _ => None,
        }
    }

    /// The file identity of a media kind.
    pub open spec fn file_id(self) -> Option<String> {
        match self {
            Payload::Photo(file) | Payload::Video(file) => Some(file.file_id),
            Payload::Audio(file) | Payload::Document(file) | Payload::Sticker(file) => Some(
                file.file_id,
            ),
            _ => None,
        }
    }

    /// The unique file identity of a media kind.
    pub open spec fn file_unique_id(self) -> Option<String> {
        match self {
            Payload::Photo(file) | Payload::Video(file) => Some(file.file_unique_id),
            Payload::Audio(file) | Payload::Document(file) | Payload::Sticker(file) => Some(
                file.file_unique_id,
            ),
            _ => None,
        }
    }

    /// The mime type of a media kind: fixed for a photo and a video, else
    /// what the sender declared.
    pub open spec fn mime_type(self) -> Option<Seq<char>> {
        match self {
            Payload::Photo(_) => Some("image/jpeg"@),
            Payload::Video(_) => Some("video/mp4"@),
            Payload::Audio(file) | Payload::Document(file) | Payload::Sticker(file) => match file.mime_type {
                Some(mime) => Some(mime@),
                None => None,
            },
            _ => None,
        }
    }

    /// The file name: that of a document.
    pub open spec fn file_name(self) -> Option<String> {
        match self {
            Payload::Document(file) => file.file_name,
            _ => None,
        }
    }

    /// The place of a location message.
    pub open spec fn place(self) -> Option<GeoPoint> {
        match self {
            Payload::Location(point) => Some(point),
            _ => None,
        }
    }

    /// The card of a contact message.
    pub open spec fn card(self) -> Option<ContactCard> {
        match self {
            Payload::Contact(card) => Some(card),
            _ => None,
        }
    }

    /// The kind that the payload belongs to.
    pub fn message_kind(&self) -> (r: MessageKind)
        ensures
            r == self.kind(),
    {
        match self {
            Payload::Text(_) => MessageKind::Text,
            Payload::Photo(_) => MessageKind::Photo,
            Payload::Video(_) => MessageKind::Video,
            Payload::Audio(_) => MessageKind::Audio,
            Payload::Document(_) => MessageKind::Document,
            Payload::Sticker(_) => MessageKind::Sticker,
            Payload::Location(_) => MessageKind::Location,
            Payload::Contact(_) => MessageKind::Contact,
            Payload::Unknown => MessageKind::Unknown,
        }
    }
}

impl ChatOrigin {
    /// The remote identity of the conversation.
    pub open spec fn remote_id(self) -> i64 {
        match self {
            ChatOrigin::Private { id, .. } => id,
            ChatOrigin::Group { id, .. } => id,
            ChatOrigin::Supergroup { id, .. } => id,
            ChatOrigin::Channel { id, .. } => id,
        }
    }

    /// The kind of the conversation.
    pub open spec fn kind(self) -> ChatKind {
        match self {
            ChatOrigin::Private { .. } => ChatKind::Private,
            ChatOrigin::Group { .. } => ChatKind::Group,
            ChatOrigin::Supergroup { .. } => ChatKind::Supergroup,
            ChatOrigin::Channel { .. } => ChatKind::Channel,
        }
    }

    /// The title: synthesized from the counterpart's name for a private
    /// conversation, verbatim for the others.
    pub open spec fn title(self) -> Seq<char> {
        match self {
            ChatOrigin::Private { first_name, last_name, .. } => private_title_of(
                first_name@,
                match last_name {
                    Some(name) => Some(name@),
                    None => None,
                },
            ),
            ChatOrigin::Group { title, .. } => title@,
            ChatOrigin::Supergroup { title, .. } => title@,
            ChatOrigin::Channel { title, .. } => title@,
        }
    }

    /// The handle: none for a group.
    pub open spec fn username(self) -> Option<String> {
        match self {
            ChatOrigin::Private { username, .. } => username,
            ChatOrigin::Group { .. } => None,
            ChatOrigin::Supergroup { username, .. } => username,
            ChatOrigin::Channel { username, .. } => username,
        }
    }

    /// The description: that of a supergroup or a channel.
    pub open spec fn description(self) -> Option<String> {
        match self {
            ChatOrigin::Private { .. } => None,
            ChatOrigin::Group { .. } => None,
            ChatOrigin::Supergroup { description, .. } => description,
            ChatOrigin::Channel { description, .. } => description,
        }
    }
}

/// The candidate of a sender: the profile as it is, and no phone number.
pub open spec fn sender_candidate_of(sender: SenderProfile) -> NewTelegramUser {
    NewTelegramUser {
        telegram_user_id: sender.id,
        username: sender.username,
        first_name: sender.first_name,
        last_name: sender.last_name,
        phone_number: None,
        is_bot: sender.is_bot,
        is_verified: sender.is_verified,
        is_premium: sender.is_premium,
        language_code: sender.language_code,
    }
}

/// Whether `candidate` is the candidate of the conversation `chat`: identity,
/// kind, title, handle and description as the kind exposes them; no invite
/// link, no member count, and every trust flag unset.
pub open spec fn is_chat_candidate(candidate: NewTelegramGroup, chat: ChatOrigin) -> bool {
    &&& candidate.telegram_chat_id == chat.remote_id()
    &&& candidate.chat_type == chat.kind()
    &&& candidate.title is Some
    &&& candidate.title.unwrap()@ == chat.title()
    &&& candidate.username == chat.username()
    &&& candidate.description == chat.description()
    &&& candidate.invite_link is None
    &&& candidate.member_count is None
    &&& !candidate.is_verified
    &&& !candidate.is_restricted
    &&& !candidate.is_scam
    &&& !candidate.is_fake
}

/// Whether `candidate` is the message with the given identity, references,
/// times and reply target whose payload is `payload`, flattened: the fields
/// of the payload's kind are set from it, all others are unset, and the
/// forward provenance is unset.
pub open spec fn is_message_candidate(
    candidate: NewTelegramMessage,
    id: i64,
    payload: Payload,
    date: Timestamp,
    edit_date: Option<Timestamp>,
    reply_to_message_id: Option<i64>,
    user_id: Option<u128>,
    group_id: u128,
) -> bool {
    &&& candidate.telegram_message_id == id
    &&& candidate.user_id == user_id
    &&& candidate.group_id == group_id
    &&& candidate.message_text == payload.text()
    &&& candidate.message_type == payload.kind()
    &&& candidate.date == date
    &&& candidate.edit_date == edit_date
    &&& candidate.forward_from_user_id is None
    &&& candidate.forward_from_group_id is None
    &&& candidate.forward_date is None
    &&& candidate.reply_to_message_id == reply_to_message_id
    &&& candidate.media_file_id == payload.file_id()
    &&& candidate.media_file_unique_id == payload.file_unique_id()
    &&& candidate.media_file_size is None
    &&& candidate.media_mime_type is Some <==> payload.mime_type() is Some
    &&& candidate.media_mime_type is Some ==> candidate.media_mime_type.unwrap()@
        == payload.mime_type().unwrap()
    &&& candidate.media_file_name == payload.file_name()
    &&& candidate.location_latitude == match payload.place() {
        Some(point) => Some(point.latitude),
        None => None,
    }
    &&& candidate.location_longitude == match payload.place() {
        Some(point) => Some(point.longitude),
        None => None,
    }
    &&& candidate.contact_phone_number == match payload.card() {
        Some(card) => Some(card.phone_number),
        None => None,
    }
    &&& candidate.contact_first_name == match payload.card() {
        Some(card) => Some(card.first_name),
        None => None,
    }
    &&& candidate.contact_last_name == match payload.card() {
        Some(card) => card.last_name,
        None => None,
    }
}

/// The time of an edit, where there was one.
pub open spec fn edit_time_of(edit_date: Option<i64>, now: Timestamp) -> Option<Timestamp> {
    match edit_date {
        Some(seconds) => Some(spec_event_time(seconds, now)),
        None => None,
    }
}

/// Classifies a raw event by the first part present, in the order text,
/// photo, video, audio, document, sticker, location, contact.
pub fn classify(content: &RawContent) -> (r: MessageKind)
    ensures
        r == kind_of(*content),
{
    if content.text.is_some() {
        MessageKind::Text
    } else if content.photo.is_some() {
        MessageKind::Photo
    } else if content.video.is_some() {
        MessageKind::Video
    } else if content.audio.is_some() {
        MessageKind::Audio
    } else if content.document.is_some() {
        MessageKind::Document
    } else if content.sticker.is_some() {
        MessageKind::Sticker
    } else if content.location.is_some() {
        MessageKind::Location
    } else if content.contact.is_some() {
        MessageKind::Contact
    } else {
        MessageKind::Unknown
    }
}

/// Resolves a raw event to the payload of its kind; the parts that did not
/// decide the kind are dropped.
pub fn resolve_payload(content: RawContent) -> (r: Payload)
    ensures
        r == payload_of(content),
        r.kind() == kind_of(content),
{
    if let Some(body) = content.text {
        Payload::Text(body)
    } else if let Some(file) = content.photo {
        Payload::Photo(file)
    } else if let Some(file) = content.video {
        Payload::Video(file)
    } else if let Some(file) = content.audio {
        Payload::Audio(file)
    } else if let Some(file) = content.document {
        Payload::Document(file)
    } else if let Some(file) = content.sticker {
        Payload::Sticker(file)
    } else if let Some(point) = content.location {
        Payload::Location(point)
    } else if let Some(card) = content.contact {
        Payload::Contact(card)
    } else {
        Payload::Unknown
    }
}

/// Synthesizes the title of a private conversation from the counterpart's
/// name.
pub fn private_title(first_name: &str, last_name: &Option<String>) -> (r: String)
    ensures
        r@ == private_title_of(
            first_name@,
            match *last_name {
                Some(name) => Some(name@),
                None => None,
            },
        ),
{
    let mut joined = String::from_str(first_name);
    joined.append(" ");
    match last_name {
        Some(name) => {
            joined.append(name.as_str());
        },
        None => {},
    }
    proof {
        reveal_strlit(" ");
        assert(" "@ =~= seq![' ']);
        assert(joined@ =~= first_name@ + seq![' '] + match *last_name {
            Some(name) => name@,
            None => Seq::<char>::empty(),
        });
    }
    String::from_str(trim(joined.as_str()))
}

/// The profile of a sender that is no user, a group or a channel: its
/// identity and nothing else.
pub fn anonymous_sender(id: i64) -> (r: SenderProfile)
    ensures
        r == (SenderProfile {
            id,
            first_name: None,
            last_name: None,
            username: None,
            is_bot: false,
            is_verified: false,
            is_premium: false,
            language_code: None,
        }),
{
    SenderProfile {
        id,
        first_name: None,
        last_name: None,
        username: None,
        is_bot: false,
        is_verified: false,
        is_premium: false,
        language_code: None,
    }
}

/// The candidate of a sender. The phone number stays unset: an update does
/// not expose it.
pub fn sender_candidate(sender: SenderProfile) -> (r: NewTelegramUser)
    ensures
        r == sender_candidate_of(sender),
{
    NewTelegramUser {
        telegram_user_id: sender.id,
        username: sender.username,
        first_name: sender.first_name,
        last_name: sender.last_name,
        phone_number: None,
        is_bot: sender.is_bot,
        is_verified: sender.is_verified,
        is_premium: sender.is_premium,
        language_code: sender.language_code,
    }
}

/// The candidate of a conversation, by its kind.
pub fn chat_candidate(chat: ChatOrigin) -> (r: NewTelegramGroup)
    ensures
        is_chat_candidate(r, chat),
{
    let (telegram_chat_id, chat_type, title, username, description) = match chat {
        ChatOrigin::Private { id, first_name, last_name, username } => (
            id,
            ChatKind::Private,
            private_title(first_name.as_str(), &last_name),
            username,
            None,
        ),
        ChatOrigin::Group { id, title } => (id, ChatKind::Group, title, None, None),
        ChatOrigin::Supergroup { id, title, username, description } => (
            id,
            ChatKind::Supergroup,
            title,
            username,
            description,
        ),
        ChatOrigin::Channel { id, title, username, description } => (
            id,
            ChatKind::Channel,
            title,
            username,
            description,
        ),
    };
    NewTelegramGroup {
        telegram_chat_id,
        chat_type,
        title: Some(title),
        username,
        description,
        invite_link: None,
        member_count: None,
        is_verified: false,
        is_restricted: false,
        is_scam: false,
        is_fake: false,
    }
}

/// Flattens a resolved payload into the shared message shape.
pub fn message_candidate(
    id: i64,
    payload: Payload,
    date: Timestamp,
    edit_date: Option<Timestamp>,
    reply_to_message_id: Option<i64>,
    user_id: Option<u128>,
    group_id: u128,
) -> (r: NewTelegramMessage)
    ensures
        is_message_candidate(
            r,
            id,
            payload,
            date,
            edit_date,
            reply_to_message_id,
            user_id,
            group_id,
        ),
{
    let mut candidate = NewTelegramMessage {
        telegram_message_id: id,
        user_id,
        group_id,
        message_text: None,
        message_type: payload.message_kind(),
        date,
        edit_date,
        forward_from_user_id: None,
        forward_from_group_id: None,
        forward_date: None,
        reply_to_message_id,
        media_file_id: None,
        media_file_unique_id: None,
        media_file_size: None,
        media_mime_type: None,
        media_file_name: None,
        location_latitude: None,
        location_longitude: None,
        contact_phone_number: None,
        contact_first_name: None,
        contact_last_name: None,
    };
    match payload {
        Payload::Text(body) => {
            candidate.message_text = Some(body);
        },
        Payload::Photo(file) => {
            candidate.media_file_id = Some(file.file_id);
            candidate.media_file_unique_id = Some(file.file_unique_id);
            candidate.media_mime_type = Some(String::from_str("image/jpeg"));
        },
        Payload::Video(file) => {
            candidate.media_file_id = Some(file.file_id);
            candidate.media_file_unique_id = Some(file.file_unique_id);
            candidate.media_mime_type = Some(String::from_str("video/mp4"));
        },
        Payload::Audio(file) => {
            candidate.media_file_id = Some(file.file_id);
            candidate.media_file_unique_id = Some(file.file_unique_id);
            candidate.media_mime_type = file.mime_type;
        },
        Payload::Document(file) => {
            candidate.media_file_id = Some(file.file_id);
            candidate.media_file_unique_id = Some(file.file_unique_id);
            candidate.media_mime_type = file.mime_type;
            candidate.media_file_name = file.file_name;
        },
        Payload::Sticker(file) => {
            candidate.media_file_id = Some(file.file_id);
            candidate.media_file_unique_id = Some(file.file_unique_id);
            candidate.media_mime_type = file.mime_type;
        },
        Payload::Location(point) => {
            candidate.location_latitude = Some(point.latitude);
            candidate.location_longitude = Some(point.longitude);
        },
        Payload::Contact(card) => {
            candidate.contact_phone_number = Some(card.phone_number);
            candidate.contact_first_name = Some(card.first_name);
            candidate.contact_last_name = card.last_name;
        },
        Payload::Unknown => {},
    }
    candidate
}

/// The time of an edit, where there was one; an epoch out of range yields
/// `now`.
pub fn edit_time(edit_date: Option<i64>, now: Timestamp) -> (r: Option<Timestamp>)
    ensures
        r == edit_time_of(edit_date, now),
{
    match edit_date {
        Some(seconds) => Some(event_time(seconds, now)),
        None => None,
    }
}

/// The reference to the sender's row: set where there was a sender and the
/// store resolved it, unset otherwise.
pub open spec fn user_reference_of(
    resolution: Option<Result<TelegramUser, StorageError>>,
) -> Option<u128> {
    match resolution {
        Some(Ok(user)) => Some(user.id),
        _ => None,
    }
}

/// The report on an update, by what the store answered to its message;
/// `None` where no message was submitted.
pub open spec fn report_of(
    outcome: Option<Result<Option<TelegramMessage>, StorageError>>,
) -> UpdateReport {
    match outcome {
        Some(Ok(Some(_))) => UpdateReport::Saved,
        Some(Ok(None)) => UpdateReport::DuplicateSuppressed,
        Some(Err(_)) => UpdateReport::Dropped,
        None => UpdateReport::Abandoned,
    }
}

/// The reference to the sender's row. `resolution` is what the store
/// answered to the sender's upsert, or `None` where the update had no
/// sender. A failed resolution leaves the reference unset.
pub fn user_reference(resolution: Option<Result<TelegramUser, StorageError>>) -> (r: Option<u128>)
    ensures
        r == user_reference_of(resolution),
{
    match resolution {
        Some(Ok(user)) => Some(user.id),
        _ => None,
    }
}

/// Assembles the message of an update once sender and conversation went to
/// the store. Where the conversation was not resolved the update is
/// abandoned: `None`. Otherwise the message is returned, attached to the
/// conversation's row, and to the sender's row where that was resolved.
pub fn assemble_message(
    id: i64,
    content: RawContent,
    date: i64,
    edit_date: Option<i64>,
    reply_to_message_id: Option<i64>,
    user: Option<Result<TelegramUser, StorageError>>,
    chat: Result<TelegramGroup, StorageError>,
    now: Timestamp,
) -> (r: Option<NewTelegramMessage>)
    ensures
        r is Some <==> chat is Ok,
        r is Some ==> is_message_candidate(
            r.unwrap(),
            id,
            payload_of(content),
            spec_event_time(date, now),
            edit_time_of(edit_date, now),
            reply_to_message_id,
            user_reference_of(user),
            chat.unwrap().id,
        ),
{
    match chat {
        Err(_) => None,
        Ok(group) => Some(
            message_candidate(
                id,
                resolve_payload(content),
                event_time(date, now),
                edit_time(edit_date, now),
                reply_to_message_id,
                user_reference(user),
                group.id,
            ),
        ),
    }
}

/// Reports on an update. `outcome` is what the store answered to the
/// message: a new row, a suppressed duplicate, or a failure, after which the
/// update is dropped; it is `None` where the update was abandoned before a
/// message was submitted.
pub fn conclude(outcome: Option<Result<Option<TelegramMessage>, StorageError>>) -> (r:
    UpdateReport)
    ensures
        r == report_of(outcome),
{
    match outcome {
        Some(Ok(Some(_))) => UpdateReport::Saved,
        Some(Ok(None)) => UpdateReport::DuplicateSuppressed,
        Some(Err(_)) => UpdateReport::Dropped,
        None => UpdateReport::Abandoned,
    }
}

/// What of a message is kept while sender and conversation go to the store.
#[derive(Debug, Clone)]
pub struct MessageParts {
    pub id: i64,
    pub content: RawContent,
    pub date: i64,
    pub edit_date: Option<i64>,
    pub reply_to_message_id: Option<i64>,
}

/// Where the processing of one update stands: which answer of the store it
/// awaits, with what it keeps for the steps that follow.
#[derive(Debug, Clone)]
pub enum UpdateFlow {
    /// The sender's upsert was asked for.
    AwaitingUser { chat: ChatOrigin, parts: MessageParts },
    /// The conversation's upsert was asked for. `user_id` is the reference
    /// to the sender's row, unset where there is none.
    AwaitingChat { user_id: Option<u128>, parts: MessageParts },
    /// The message's insert was asked for.
    AwaitingInsert,
    /// The update is done with.
    Finished(UpdateReport),
}

/// What the store is asked to do next.
#[derive(Debug, Clone)]
pub enum StoreRequest {
    UpsertUser(NewTelegramUser),
    UpsertChat(NewTelegramGroup),
    InsertMessage(NewTelegramMessage),
    /// Nothing more: the update ended with the report.
    Nothing(UpdateReport),
}

/// What the store answered to the last request.
#[derive(Debug)]
pub enum StoreReply {
    User(Result<TelegramUser, StorageError>),
    Chat(Result<TelegramGroup, StorageError>),
    /// `Ok(None)` reports a suppressed duplicate.
    Message(Result<Option<TelegramMessage>, StorageError>),
}

/// What is kept of a message.
pub open spec fn parts_of(message: IncomingMessage) -> MessageParts {
    MessageParts {
        id: message.id,
        content: message.content,
        date: message.date,
        edit_date: message.edit_date,
        reply_to_message_id: message.reply_to_message_id,
    }
}

/// Whether the request is the upsert of the conversation `chat`.
pub open spec fn asks_for_chat(request: StoreRequest, chat: ChatOrigin) -> bool {
    match request {
        StoreRequest::UpsertChat(candidate) => is_chat_candidate(candidate, chat),
        _ => false,
    }
}

/// Whether the request is the insert of the message made of `parts`,
/// attached to the given rows, with `now` for a time out of range.
pub open spec fn asks_for_message(
    request: StoreRequest,
    parts: MessageParts,
    user_id: Option<u128>,
    group_id: u128,
    now: Timestamp,
) -> bool {
    match request {
        StoreRequest::InsertMessage(candidate) => is_message_candidate(
            candidate,
            parts.id,
            payload_of(parts.content),
            spec_event_time(parts.date, now),
            edit_time_of(parts.edit_date, now),
            parts.reply_to_message_id,
            user_id,
            group_id,
        ),
        _ => false,
    }
}

/// Whether the update ended with `report`.
pub open spec fn ends_with(flow: UpdateFlow, request: StoreRequest, report: UpdateReport) -> bool {
    flow == UpdateFlow::Finished(report) && request == StoreRequest::Nothing(report)
}

/// Whether `flow` and `request` are the start of the processing of
/// `message`: the sender goes to the store first where there is one, else
/// the conversation.
pub open spec fn begins_with(
    message: IncomingMessage,
    flow: UpdateFlow,
    request: StoreRequest,
) -> bool {
    match message.sender {
        Some(sender) => flow == (UpdateFlow::AwaitingUser {
            chat: message.chat,
            parts: parts_of(message),
        }) && request == StoreRequest::UpsertUser(sender_candidate_of(sender)),
        None => flow == (UpdateFlow::AwaitingChat { user_id: None, parts: parts_of(message) })
            && asks_for_chat(request, message.chat),
    }
}

/// Whether `next` and `request` answer `reply` in `flow`.
///
/// After the sender comes the conversation, whatever the store made of the
/// sender: a failure leaves the user reference unset. After the
/// conversation comes the message, unless the conversation failed: then the
/// update is abandoned. The answer to the message ends the update. An
/// answer that was not awaited drops it.
pub open spec fn advances_to(
    flow: UpdateFlow,
    reply: StoreReply,
    now: Timestamp,
    next: UpdateFlow,
    request: StoreRequest,
) -> bool {
    match (flow, reply) {
        (UpdateFlow::AwaitingUser { chat, parts }, StoreReply::User(result)) => next == (
        UpdateFlow::AwaitingChat { user_id: user_reference_of(Some(result)), parts })
            && asks_for_chat(request, chat),
        (UpdateFlow::AwaitingChat { user_id, parts }, StoreReply::Chat(Ok(group))) => next
            == UpdateFlow::AwaitingInsert && asks_for_message(
            request,
            parts,
            user_id,
            group.id,
            now,
        ),
        (UpdateFlow::AwaitingChat { .. }, StoreReply::Chat(Err(_))) => ends_with(
            next,
            request,
            UpdateReport::Abandoned,
        ),
        (UpdateFlow::AwaitingInsert, StoreReply::Message(outcome)) => ends_with(
            next,
            request,
            report_of(Some(outcome)),
        ),
        (UpdateFlow::Finished(report), _) => ends_with(next, request, report),
        _ => ends_with(next, request, UpdateReport::Dropped),
    }
}

/// The update has ended with the report.
fn end_with(report: UpdateReport) -> (r: (UpdateFlow, StoreRequest))
    ensures
        ends_with(r.0, r.1, report),
{
    (UpdateFlow::Finished(report), StoreRequest::Nothing(report))
}

/// Starts the processing of one update: says what the store is asked first.
pub fn begin(message: IncomingMessage) -> (r: (UpdateFlow, StoreRequest))
    ensures
        begins_with(message, r.0, r.1),
{
    let parts = MessageParts {
        id: message.id,
        content: message.content,
        date: message.date,
        edit_date: message.edit_date,
        reply_to_message_id: message.reply_to_message_id,
    };
    match message.sender {
        Some(sender) => (
            UpdateFlow::AwaitingUser { chat: message.chat, parts },
            StoreRequest::UpsertUser(sender_candidate(sender)),
        ),
        None => (
            UpdateFlow::AwaitingChat { user_id: None, parts },
            StoreRequest::UpsertChat(chat_candidate(message.chat)),
        ),
    }
}

/// Takes the store's answer to the last request and says what comes next.
/// `now` is the time of processing.
pub fn advance(flow: UpdateFlow, reply: StoreReply, now: Timestamp) -> (r: (
    UpdateFlow,
    StoreRequest,
))
    ensures
        advances_to(flow, reply, now, r.0, r.1),
{
    match flow {
        UpdateFlow::Finished(report) => end_with(report),
        UpdateFlow::AwaitingUser { chat, parts } => match reply {
            StoreReply::User(result) => (
                UpdateFlow::AwaitingChat { user_id: user_reference(Some(result)), parts },
                StoreRequest::UpsertChat(chat_candidate(chat)),
            ),
            _ => end_with(UpdateReport::Dropped),
        },
        UpdateFlow::AwaitingChat { user_id, parts } => match reply {
            StoreReply::Chat(Ok(group)) => (
                UpdateFlow::AwaitingInsert,
                StoreRequest::InsertMessage(
                    message_candidate(
                        parts.id,
                        resolve_payload(parts.content),
                        event_time(parts.date, now),
                        edit_time(parts.edit_date, now),
                        parts.reply_to_message_id,
                        user_id,
                        group.id,
                    ),
                ),
            ),
            StoreReply::Chat(Err(_)) => end_with(UpdateReport::Abandoned),
            _ => end_with(UpdateReport::Dropped),
        },
        UpdateFlow::AwaitingInsert => match reply {
            StoreReply::Message(outcome) => end_with(conclude(Some(outcome))),
            _ => end_with(UpdateReport::Dropped),
        },
    }
}

/// An update whose sender the store did not resolve is recorded all the
/// same: once the conversation is resolved, the store is asked to insert
/// its message, with the user reference unset.
pub proof fn lemma_failed_sender_still_inserts(
    chat: ChatOrigin,
    parts: MessageParts,
    failure: StorageError,
    group: TelegramGroup,
    now: Timestamp,
    asked: UpdateFlow,
    first: StoreRequest,
    next: UpdateFlow,
    second: StoreRequest,
)
    requires
        advances_to(
            UpdateFlow::AwaitingUser { chat, parts },
            StoreReply::User(Err(failure)),
            now,
            asked,
            first,
        ),
        advances_to(asked, StoreReply::Chat(Ok(group)), now, next, second),
    ensures
        asks_for_chat(first, chat),
        next == UpdateFlow::AwaitingInsert,
        second is InsertMessage,
        second->InsertMessage_0.user_id is None,
        second->InsertMessage_0.group_id == group.id,
        second->InsertMessage_0.telegram_message_id == parts.id,
{
}

/// The title of a private conversation whose counterpart has no last name
/// is the first name alone, with nothing after it, where the first name
/// neither starts nor ends with white space.
pub proof fn lemma_title_without_last_name(first_name: Seq<char>)
    requires
        first_name.len() > 0,
        !is_white_space(first_name.first()),
        !is_white_space(first_name.last()),
    ensures
        private_title_of(first_name, None) == first_name,
{
    let joined = first_name + seq![' '] + Seq::<char>::empty();
    assert(joined =~= first_name.push(' '));
    assert(joined.first() == first_name.first());
    assert(joined.last() == ' ');
    assert(is_white_space(' '));
    assert(joined.drop_last() =~= first_name);
    assert(trim_start_of(joined) == joined);
    assert(trim_end_of(first_name) == first_name);
    assert(trim_end_of(joined) == trim_end_of(joined.drop_last()));
}

/// The title of a private conversation neither starts nor ends with white
/// space, whatever the names are.
pub proof fn lemma_title_has_bare_ends(first_name: Seq<char>, last_name: Option<Seq<char>>)
    ensures
        ({
            let title = private_title_of(first_name, last_name);
            title.len() > 0 ==> !is_white_space(title.first()) && !is_white_space(title.last())
        }),
{
    lemma_trimmed_has_bare_ends(
        first_name + seq![' '] + match last_name {
            Some(name) => name,
            None => Seq::<char>::empty(),
        },
    );
}

/// Text takes precedence: a raw event with a text is a text message whatever
/// else it carries, and its candidate has the text as body and every media,
/// location and contact field unset.
pub proof fn lemma_text_takes_precedence(
    candidate: NewTelegramMessage,
    content: RawContent,
    date: Timestamp,
    edit_date: Option<Timestamp>,
    reply_to_message_id: Option<i64>,
    user_id: Option<u128>,
    group_id: u128,
)
    requires
        content.text is Some,
        is_message_candidate(
            candidate,
            candidate.telegram_message_id,
            payload_of(content),
            date,
            edit_date,
            reply_to_message_id,
            user_id,
            group_id,
        ),
    ensures
        kind_of(content) == MessageKind::Text,
        candidate.message_type == MessageKind::Text,
        candidate.message_text == content.text,
        candidate.media_file_id is None,
        candidate.media_file_unique_id is None,
        candidate.media_file_size is None,
        candidate.media_mime_type is None,
        candidate.media_file_name is None,
        candidate.location_latitude is None,
        candidate.location_longitude is None,
        candidate.contact_phone_number is None,
        candidate.contact_first_name is None,
        candidate.contact_last_name is None,
{
}

/// The surrogate identities that one update may use, one per entity kind.
#[derive(Debug, Clone, Copy, PartialEq, Eq, Structural)]
pub struct SurrogateIds {
    pub user: u128,
    pub chat: u128,
    pub message: u128,
}

/// The user rows after the sender of `message` went to the store.
pub open spec fn users_after_update(
    rows: Seq<TelegramUser>,
    message: IncomingMessage,
    ids: SurrogateIds,
    now: Timestamp,
) -> Seq<TelegramUser> {
    match message.sender {
        Some(sender) => users_after_upsert(rows, ids.user, sender_candidate_of(sender), now),
        None => rows,
    }
}

/// The reference to the sender's row after the sender of `message` went to
/// the store.
pub open spec fn sender_reference(
    rows: Seq<TelegramUser>,
    message: IncomingMessage,
    ids: SurrogateIds,
    now: Timestamp,
) -> Option<u128> {
    match message.sender {
        Some(sender) => Some(
            user_after_upsert(rows, ids.user, sender_candidate_of(sender), now).id,
        ),
        None => None,
    }
}

/// Whether `after` and `report` are what processing `message` makes of the
/// store `before`: the sender upserted where there is one, the conversation
/// upserted, and the message, attached to both rows, inserted unless it is a
/// duplicate.
pub open spec fn is_processed(
    before: EntityStore,
    after: EntityStore,
    message: IncomingMessage,
    ids: SurrogateIds,
    now: Timestamp,
    report: UpdateReport,
) -> bool {
    exists|chat: NewTelegramGroup, draft: NewTelegramMessage|
        {
            &&& #[trigger] is_chat_candidate(chat, message.chat)
            &&& #[trigger] is_message_candidate(
                draft,
                message.id,
                payload_of(message.content),
                spec_event_time(message.date, now),
                edit_time_of(message.edit_date, now),
                message.reply_to_message_id,
                sender_reference(before.users(), message, ids, now),
                chat_after_upsert(before.chats(), ids.chat, chat, now).id,
            )
            &&& after.users() == users_after_update(before.users(), message, ids, now)
            &&& after.chats() == chats_after_upsert(before.chats(), ids.chat, chat, now)
            &&& after.messages() == messages_after_insert(
                before.messages(),
                ids.message,
                draft,
                now,
            )
            &&& report == if is_duplicate(before.messages(), draft) {
                UpdateReport::DuplicateSuppressed
            } else {
                UpdateReport::Saved
            }
        }
}

/// Processing is idempotent on messages: an update that is processed a
/// second time, at whatever time and with whatever surrogate identities, is
/// reported as a suppressed duplicate and leaves the message rows as they
/// were.
pub proof fn lemma_reprocessing_is_suppressed(
    before: EntityStore,
    once: EntityStore,
    twice: EntityStore,
    message: IncomingMessage,
    first_ids: SurrogateIds,
    first_now: Timestamp,
    first_report: UpdateReport,
    second_ids: SurrogateIds,
    second_now: Timestamp,
    second_report: UpdateReport,
)
    requires
        before.wf(),
        is_processed(before, once, message, first_ids, first_now, first_report),
        is_processed(once, twice, message, second_ids, second_now, second_report),
    ensures
        second_report == UpdateReport::DuplicateSuppressed,
        twice.messages() == once.messages(),
{
    let (chat1, draft1) = choose|chat: NewTelegramGroup, draft: NewTelegramMessage|
        {
            &&& #[trigger] is_chat_candidate(chat, message.chat)
            &&& #[trigger] is_message_candidate(
                draft,
                message.id,
                payload_of(message.content),
                spec_event_time(message.date, first_now),
                edit_time_of(message.edit_date, first_now),
                message.reply_to_message_id,
                sender_reference(before.users(), message, first_ids, first_now),
                chat_after_upsert(before.chats(), first_ids.chat, chat, first_now).id,
            )
            &&& once.users() == users_after_update(before.users(), message, first_ids, first_now)
            &&& once.chats() == chats_after_upsert(before.chats(), first_ids.chat, chat, first_now)
            &&& once.messages() == messages_after_insert(
                before.messages(),
                first_ids.message,
                draft,
                first_now,
            )
            &&& first_report == if is_duplicate(before.messages(), draft) {
                UpdateReport::DuplicateSuppressed
            } else {
                UpdateReport::Saved
            }
        };
    let (chat2, draft2) = choose|chat: NewTelegramGroup, draft: NewTelegramMessage|
        {
            &&& #[trigger] is_chat_candidate(chat, message.chat)
            &&& #[trigger] is_message_candidate(
                draft,
                message.id,
                payload_of(message.content),
                spec_event_time(message.date, second_now),
                edit_time_of(message.edit_date, second_now),
                message.reply_to_message_id,
                sender_reference(once.users(), message, second_ids, second_now),
                chat_after_upsert(once.chats(), second_ids.chat, chat, second_now).id,
            )
            &&& twice.users() == users_after_update(once.users(), message, second_ids, second_now)
            &&& twice.chats() == chats_after_upsert(once.chats(), second_ids.chat, chat, second_now)
            &&& twice.messages() == messages_after_insert(
                once.messages(),
                second_ids.message,
                draft,
                second_now,
            )
            &&& second_report == if is_duplicate(once.messages(), draft) {
                UpdateReport::DuplicateSuppressed
            } else {
                UpdateReport::Saved
            }
        };
    let remote = message.chat.remote_id();
    let row = chat_after_upsert(before.chats(), first_ids.chat, chat1, first_now);
    lemma_upsert_chat_found(before.chats(), first_ids.chat, chat1, first_now);
    assert(chat_found(once.chats(), remote) == Some(row));
    assert(has_chat(once.chats(), chat2.telegram_chat_id));
    assert(chat_after_upsert(once.chats(), second_ids.chat, chat2, second_now).id == row.id);
    lemma_insert_message_found(before.messages(), first_ids.message, draft1, first_now);
    assert(draft2.group_id == draft1.group_id);
    assert(draft2.telegram_message_id == draft1.telegram_message_id);
    assert(is_duplicate(once.messages(), draft2));
}

/// Normalizes updates into a store that it owns.
pub struct MessageProcessor {
    database: EntityStore,
}

impl MessageProcessor {
    /// The store as it stands.
    pub closed spec fn store(&self) -> EntityStore {
        self.database
    }

    /// A processor over the given store.
    pub fn new(database: EntityStore) -> (r: Self)
        ensures
            r.store() == database,
    {
        Self { database }
    }

    /// The store as it stands.
    pub fn database(&self) -> (r: &EntityStore)
        ensures
            *r == self.store(),
    {
        &self.database
    }

    /// Processes one update at the time `now`, with the surrogate identities
    /// `ids` for the rows that are new: upserts the sender where there is
    /// one, upserts the conversation, then inserts the message.
    pub fn process_message_at(
        &mut self,
        message: IncomingMessage,
        ids: SurrogateIds,
        now: Timestamp,
    ) -> (r: UpdateReport)
        requires
            old(self).store().wf(),
        ensures
            final(self).store().wf(),
            is_processed(old(self).store(), final(self).store(), message, ids, now, r),
    {
        let user = match message.sender {
            Some(sender) => Some(
                Ok(self.database.upsert_user(sender_candidate(sender), ids.user, now)),
            ),
            None => None,
        };
        let chat = chat_candidate(message.chat);
        let ghost chat_seen = chat;
        let group = self.database.upsert_chat(chat, ids.chat, now);
        let draft = assemble_message(
            message.id,
            message.content,
            message.date,
            message.edit_date,
            message.reply_to_message_id,
            user,
            Ok(group),
            now,
        );
        match draft {
            Some(draft) => {
                let ghost draft_seen = draft;
                let stored = self.database.insert_message(draft, ids.message, now);
                let report = conclude(Some(Ok(stored)));
                proof {
                    assert(is_chat_candidate(chat_seen, message.chat));
                    assert(is_message_candidate(
                        draft_seen,
                        message.id,
                        payload_of(message.content),
                        spec_event_time(message.date, now),
                        edit_time_of(message.edit_date, now),
                        message.reply_to_message_id,
                        sender_reference(old(self).store().users(), message, ids, now),
                        chat_after_upsert(old(self).store().chats(), ids.chat, chat_seen, now).id,
                    ));
                }
                report
            },
            None => conclude(None),
        }
    }

    /// Processes one update at the current time, with freshly generated
    /// surrogate identities.
    pub fn process_message(&mut self, message: IncomingMessage) -> (r: UpdateReport)
        requires
            old(self).store().wf(),
        ensures
            final(self).store().wf(),
            exists|ids: SurrogateIds, now: Timestamp|
                is_random_identity(ids.user) && is_random_identity(ids.chat) && is_random_identity(
                    ids.message,
                ) && is_processed(old(self).store(), final(self).store(), message, ids, now, r),
    {
        let ids = SurrogateIds { user: fresh_id(), chat: fresh_id(), message: fresh_id() };
        let now = current_time();
        self.process_message_at(message, ids, now)
    }
}

} // verus!
