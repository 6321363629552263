//! The three entity kinds of the relational store, and the rows that a
//! candidate becomes.

use vstd::prelude::*;
use crate::clock::Timestamp;
use crate::text::{copy_text, str_eq};

verus! {

/// The category of a conversation.
#[derive(Clone, Copy, Debug, PartialEq, Eq, Structural)]
pub enum ChatKind {
    Private,
    Group,
    Supergroup,
    Channel,
}

impl ChatKind {
    /// The name under which the kind is stored.
    pub open spec fn label(self) -> Seq<char> {
        match self {
            ChatKind::Private => "private"@,
            ChatKind::Group => "group"@,
            ChatKind::Supergroup => "supergroup"@,
            ChatKind::Channel => "channel"@,
        }
    }

    /// The name under which the kind is stored.
    pub fn as_str(&self) -> (r: &'static str)
        ensures
            r@ == self.label(),
    {
        match self {
            ChatKind::Private => "private",
            ChatKind::Group => "group",
            ChatKind::Supergroup => "supergroup",
            ChatKind::Channel => "channel",
        }
    }
}

/// The category of a message, by the payload it carries.
#[derive(Clone, Copy, Debug, PartialEq, Eq, Structural)]
pub enum MessageKind {
    Text,
    Photo,
    Video,
    Audio,
    Document,
    Sticker,
    Location,
    Contact,
    Unknown,
}

impl MessageKind {
    /// The name under which the kind is stored.
    pub open spec fn label(self) -> Seq<char> {
        match self {
            MessageKind::Text => "text"@,
            MessageKind::Photo => "photo"@,
            MessageKind::Video => "video"@,
            MessageKind::Audio => "audio"@,
            MessageKind::Document => "document"@,
            MessageKind::Sticker => "sticker"@,
            MessageKind::Location => "location"@,
            MessageKind::Contact => "contact"@,
            MessageKind::Unknown => "unknown"@,
        }
    }

    /// The name under which the kind is stored.
    pub fn as_str(&self) -> (r: &'static str)
        ensures
            r@ == self.label(),
    {
        match self {
            MessageKind::Text => "text",
            MessageKind::Photo => "photo",
            MessageKind::Video => "video",
            MessageKind::Audio => "audio",
            MessageKind::Document => "document",
            MessageKind::Sticker => "sticker",
            MessageKind::Location => "location",
            MessageKind::Contact => "contact",
            MessageKind::Unknown => "unknown",
        }
    }
}

/// A failure of the store that is no duplicate: lost connectivity or a
/// violated constraint, in the words of the store.
#[derive(Debug, Clone)]
pub struct StorageError {
    pub reason: String,
}

/// A user as observed, before it has a row.
#[derive(Debug, Clone)]
pub struct NewTelegramUser {
    pub telegram_user_id: i64,
    pub username: Option<String>,
    pub first_name: Option<String>,
    pub last_name: Option<String>,
    pub phone_number: Option<String>,
    pub is_bot: bool,
    pub is_verified: bool,
    pub is_premium: bool,
    pub language_code: Option<String>,
}

/// A user row. `id` is the surrogate identity, `telegram_user_id` the
/// remote one.
#[derive(Debug)]
pub struct TelegramUser {
    pub id: u128,
    pub telegram_user_id: i64,
    pub username: Option<String>,
    pub first_name: Option<String>,
    pub last_name: Option<String>,
    pub phone_number: Option<String>,
    pub is_bot: bool,
    pub is_verified: bool,
    pub is_premium: bool,
    pub language_code: Option<String>,
    pub created_at: Timestamp,
    pub updated_at: Timestamp,
}

/// A conversation as observed, before it has a row.
#[derive(Debug, Clone)]
pub struct NewTelegramGroup {
    pub telegram_chat_id: i64,
    pub chat_type: ChatKind,
    pub title: Option<String>,
    pub username: Option<String>,
    pub description: Option<String>,
    pub invite_link: Option<String>,
    pub member_count: Option<i32>,
    pub is_verified: bool,
    pub is_restricted: bool,
    pub is_scam: bool,
    pub is_fake: bool,
}

/// A conversation row. `id` is the surrogate identity, `telegram_chat_id`
/// the remote one.
#[derive(Debug)]
pub struct TelegramGroup {
    pub id: u128,
    pub telegram_chat_id: i64,
    pub chat_type: ChatKind,
    pub title: Option<String>,
    pub username: Option<String>,
    pub description: Option<String>,
    pub invite_link: Option<String>,
    pub member_count: Option<i32>,
    pub is_verified: bool,
    pub is_restricted: bool,
    pub is_scam: bool,
    pub is_fake: bool,
    pub created_at: Timestamp,
    pub updated_at: Timestamp,
}

/// A message as observed, before it has a row. `group_id` is the surrogate
/// identity of the conversation's row, `user_id` that of the sender's.
/// A coordinate is held as the bits of its IEEE 754 double.
#[derive(Debug, Clone)]
pub struct NewTelegramMessage {
    pub telegram_message_id: i64,
    pub user_id: Option<u128>,
    pub group_id: u128,
    pub message_text: Option<String>,
    pub message_type: MessageKind,
    pub date: Timestamp,
    pub edit_date: Option<Timestamp>,
    pub forward_from_user_id: Option<u128>,
    pub forward_from_group_id: Option<u128>,
    pub forward_date: Option<Timestamp>,
    pub reply_to_message_id: Option<i64>,
    pub media_file_id: Option<String>,
    pub media_file_unique_id: Option<String>,
    pub media_file_size: Option<i64>,
    pub media_mime_type: Option<String>,
    pub media_file_name: Option<String>,
    pub location_latitude: Option<u64>,
    pub location_longitude: Option<u64>,
    pub contact_phone_number: Option<String>,
    pub contact_first_name: Option<String>,
    pub contact_last_name: Option<String>,
}

/// A message row.
#[derive(Debug)]
pub struct TelegramMessage {
    pub id: u128,
    pub telegram_message_id: i64,
    pub user_id: Option<u128>,
    pub group_id: u128,
    pub message_text: Option<String>,
    pub message_type: MessageKind,
    pub date: Timestamp,
    pub edit_date: Option<Timestamp>,
    pub forward_from_user_id: Option<u128>,
    pub forward_from_group_id: Option<u128>,
    pub forward_date: Option<Timestamp>,
    pub reply_to_message_id: Option<i64>,
    pub media_file_id: Option<String>,
    pub media_file_unique_id: Option<String>,
    pub media_file_size: Option<i64>,
    pub media_mime_type: Option<String>,
    pub media_file_name: Option<String>,
    pub location_latitude: Option<u64>,
    pub location_longitude: Option<u64>,
    pub contact_phone_number: Option<String>,
    pub contact_first_name: Option<String>,
    pub contact_last_name: Option<String>,
    pub created_at: Timestamp,
}

/// The row that a user seen for the first time gets.
pub open spec fn user_row(id: u128, candidate: NewTelegramUser, now: Timestamp) -> TelegramUser {
    TelegramUser {
        id,
        telegram_user_id: candidate.telegram_user_id,
        username: candidate.username,
        first_name: candidate.first_name,
        last_name: candidate.last_name,
        phone_number: candidate.phone_number,
        is_bot: candidate.is_bot,
        is_verified: candidate.is_verified,
        is_premium: candidate.is_premium,
        language_code: candidate.language_code,
        created_at: now,
        updated_at: now,
    }
}

/// The row of a user seen again: surrogate identity and creation time
/// stay, every other field is the candidate's, and the update time is `now`.
pub open spec fn refreshed_user(
    row: TelegramUser,
    candidate: NewTelegramUser,
    now: Timestamp,
) -> TelegramUser {
    TelegramUser { created_at: row.created_at, ..user_row(row.id, candidate, now) }
}

/// The row that a conversation seen for the first time gets.
pub open spec fn group_row(id: u128, candidate: NewTelegramGroup, now: Timestamp) -> TelegramGroup {
    TelegramGroup {
        id,
        telegram_chat_id: candidate.telegram_chat_id,
        chat_type: candidate.chat_type,
        title: candidate.title,
        username: candidate.username,
        description: candidate.description,
        invite_link: candidate.invite_link,
        member_count: candidate.member_count,
        is_verified: candidate.is_verified,
        is_restricted: candidate.is_restricted,
        is_scam: candidate.is_scam,
        is_fake: candidate.is_fake,
        created_at: now,
        updated_at: now,
    }
}

/// The row of a conversation seen again: surrogate identity and creation
/// time stay, every other field is the candidate's, and the update time is
/// `now`.
pub open spec fn refreshed_group(
    row: TelegramGroup,
    candidate: NewTelegramGroup,
    now: Timestamp,
) -> TelegramGroup {
    TelegramGroup { created_at: row.created_at, ..group_row(row.id, candidate, now) }
}

/// The row that a message gets: every field of the candidate as it is,
/// absent ones absent.
pub open spec fn message_row(
    id: u128,
    candidate: NewTelegramMessage,
    now: Timestamp,
) -> TelegramMessage {
    TelegramMessage {
        id,
        telegram_message_id: candidate.telegram_message_id,
        user_id: candidate.user_id,
        group_id: candidate.group_id,
        message_text: candidate.message_text,
        message_type: candidate.message_type,
        date: candidate.date,
        edit_date: candidate.edit_date,
        forward_from_user_id: candidate.forward_from_user_id,
        forward_from_group_id: candidate.forward_from_group_id,
        forward_date: candidate.forward_date,
        reply_to_message_id: candidate.reply_to_message_id,
        media_file_id: candidate.media_file_id,
        media_file_unique_id: candidate.media_file_unique_id,
        media_file_size: candidate.media_file_size,
        media_mime_type: candidate.media_mime_type,
        media_file_name: candidate.media_file_name,
        location_latitude: candidate.location_latitude,
        location_longitude: candidate.location_longitude,
        contact_phone_number: candidate.contact_phone_number,
        contact_first_name: candidate.contact_first_name,
        contact_last_name: candidate.contact_last_name,
        created_at: now,
    }
}

/// A user row as the store hands it out: the flags and the two times may
/// be null.
#[derive(Debug, Clone)]
pub struct UserColumns {
    pub id: u128,
    pub telegram_user_id: i64,
    pub username: Option<String>,
    pub first_name: Option<String>,
    pub last_name: Option<String>,
    pub phone_number: Option<String>,
    pub is_bot: Option<bool>,
    pub is_verified: Option<bool>,
    pub is_premium: Option<bool>,
    pub language_code: Option<String>,
    pub created_at: Option<Timestamp>,
    pub updated_at: Option<Timestamp>,
}

/// A conversation row as the store hands it out: the flags and the two
/// times may be null.
#[derive(Debug, Clone)]
pub struct GroupColumns {
    pub id: u128,
    pub telegram_chat_id: i64,
    pub chat_type: ChatKind,
    pub title: Option<String>,
    pub username: Option<String>,
    pub description: Option<String>,
    pub invite_link: Option<String>,
    pub member_count: Option<i32>,
    pub is_verified: Option<bool>,
    pub is_restricted: Option<bool>,
    pub is_scam: Option<bool>,
    pub is_fake: Option<bool>,
    pub created_at: Option<Timestamp>,
    pub updated_at: Option<Timestamp>,
}

/// A flag that may be null: unset where it is.
pub open spec fn flag_of(column: Option<bool>) -> bool {
    match column {
        Some(flag) => flag,
        None => false,
    }
}

/// A time that may be null: `now` where it is.
pub open spec fn time_of(column: Option<Timestamp>, now: Timestamp) -> Timestamp {
    match column {
        Some(at) => at,
        None => now,
    }
}

/// The user row that the columns stand for: a null flag is unset, a null
/// time is `now`.
pub open spec fn user_of_columns(columns: UserColumns, now: Timestamp) -> TelegramUser {
    TelegramUser {
        id: columns.id,
        telegram_user_id: columns.telegram_user_id,
        username: columns.username,
        first_name: columns.first_name,
        last_name: columns.last_name,
        phone_number: columns.phone_number,
        is_bot: flag_of(columns.is_bot),
        is_verified: flag_of(columns.is_verified),
        is_premium: flag_of(columns.is_premium),
        language_code: columns.language_code,
        created_at: time_of(columns.created_at, now),
        updated_at: time_of(columns.updated_at, now),
    }
}

/// The conversation row that the columns stand for: a null flag is unset, a
/// null time is `now`.
pub open spec fn group_of_columns(columns: GroupColumns, now: Timestamp) -> TelegramGroup {
    TelegramGroup {
        id: columns.id,
        telegram_chat_id: columns.telegram_chat_id,
        chat_type: columns.chat_type,
        title: columns.title,
        username: columns.username,
        description: columns.description,
        invite_link: columns.invite_link,
        member_count: columns.member_count,
        is_verified: flag_of(columns.is_verified),
        is_restricted: flag_of(columns.is_restricted),
        is_scam: flag_of(columns.is_scam),
        is_fake: flag_of(columns.is_fake),
        created_at: time_of(columns.created_at, now),
        updated_at: time_of(columns.updated_at, now),
    }
}

/// The chat kind that a stored name stands for, if it is one of the four.
pub open spec fn chat_kind_of(name: Seq<char>) -> Option<ChatKind> {
    if name == ChatKind::Private.label() {
        Some(ChatKind::Private)
    } else if name == ChatKind::Group.label() {
        Some(ChatKind::Group)
    } else if name == ChatKind::Supergroup.label() {
        Some(ChatKind::Supergroup)
    } else if name == ChatKind::Channel.label() {
        Some(ChatKind::Channel)
    } else {
        None
    }
}

/// A flag that may be null, unset where it is.
fn flag(column: Option<bool>) -> (r: bool)
    ensures
        r == flag_of(column),
{
    match column {
        Some(flag) => flag,
        None => false,
    }
}

/// A time that may be null, `now` where it is.
fn time(column: Option<Timestamp>, now: Timestamp) -> (r: Timestamp)
    ensures
        r == time_of(column, now),
{
    match column {
        Some(at) => at,
        None => now,
    }
}

impl ChatKind {
    /// Reads a stored name back; a name that is none of the four kinds
    /// gives nothing.
    pub fn from_name(name: &str) -> (r: Option<ChatKind>)
        ensures
            r == chat_kind_of(name@),
    {
        if str_eq(name, "private") {
            Some(ChatKind::Private)
        } else if str_eq(name, "group") {
            Some(ChatKind::Group)
        } else if str_eq(name, "supergroup") {
            Some(ChatKind::Supergroup)
        } else if str_eq(name, "channel") {
            Some(ChatKind::Channel)
        } else {
            None
        }
    }
}

impl Clone for TelegramUser {
    fn clone(&self) -> (r: Self)
        ensures
            r == *self,
    {
        TelegramUser {
            id: self.id,
            telegram_user_id: self.telegram_user_id,
            username: copy_text(&self.username),
            first_name: copy_text(&self.first_name),
            last_name: copy_text(&self.last_name),
            phone_number: copy_text(&self.phone_number),
            is_bot: self.is_bot,
            is_verified: self.is_verified,
            is_premium: self.is_premium,
            language_code: copy_text(&self.language_code),
            created_at: self.created_at,
            updated_at: self.updated_at,
        }
    }
}

impl Clone for TelegramGroup {
    fn clone(&self) -> (r: Self)
        ensures
            r == *self,
    {
        TelegramGroup {
            id: self.id,
            telegram_chat_id: self.telegram_chat_id,
            chat_type: self.chat_type,
            title: copy_text(&self.title),
            username: copy_text(&self.username),
            description: copy_text(&self.description),
            invite_link: copy_text(&self.invite_link),
            member_count: self.member_count,
            is_verified: self.is_verified,
            is_restricted: self.is_restricted,
            is_scam: self.is_scam,
            is_fake: self.is_fake,
            created_at: self.created_at,
            updated_at: self.updated_at,
        }
    }
}

impl Clone for TelegramMessage {
    fn clone(&self) -> (r: Self)
        ensures
            r == *self,
    {
        TelegramMessage {
            id: self.id,
            telegram_message_id: self.telegram_message_id,
            user_id: self.user_id,
            group_id: self.group_id,
            message_text: copy_text(&self.message_text),
            message_type: self.message_type,
            date: self.date,
            edit_date: self.edit_date,
            forward_from_user_id: self.forward_from_user_id,
            forward_from_group_id: self.forward_from_group_id,
            forward_date: self.forward_date,
            reply_to_message_id: self.reply_to_message_id,
            media_file_id: copy_text(&self.media_file_id),
            media_file_unique_id: copy_text(&self.media_file_unique_id),
            media_file_size: self.media_file_size,
            media_mime_type: copy_text(&self.media_mime_type),
            media_file_name: copy_text(&self.media_file_name),
            location_latitude: self.location_latitude,
            location_longitude: self.location_longitude,
            contact_phone_number: copy_text(&self.contact_phone_number),
            contact_first_name: copy_text(&self.contact_first_name),
            contact_last_name: copy_text(&self.contact_last_name),
            created_at: self.created_at,
        }
    }
}

impl TelegramUser {
    /// The row of a user seen for the first time.
    pub fn first_seen(id: u128, candidate: NewTelegramUser, now: Timestamp) -> (r: TelegramUser)
        ensures
            r == user_row(id, candidate, now),
    {
        TelegramUser {
            id,
            telegram_user_id: candidate.telegram_user_id,
            username: candidate.username,
            first_name: candidate.first_name,
            last_name: candidate.last_name,
            phone_number: candidate.phone_number,
            is_bot: candidate.is_bot,
            is_verified: candidate.is_verified,
            is_premium: candidate.is_premium,
            language_code: candidate.language_code,
            created_at: now,
            updated_at: now,
        }
    }
}

impl TelegramUser {
    /// The row that the columns of the store stand for.
    pub fn from_columns(columns: UserColumns, now: Timestamp) -> (r: TelegramUser)
        ensures
            r == user_of_columns(columns, now),
    {
        TelegramUser {
            id: columns.id,
            telegram_user_id: columns.telegram_user_id,
            username: columns.username,
            first_name: columns.first_name,
            last_name: columns.last_name,
            phone_number: columns.phone_number,
            is_bot: flag(columns.is_bot),
            is_verified: flag(columns.is_verified),
            is_premium: flag(columns.is_premium),
            language_code: columns.language_code,
            created_at: time(columns.created_at, now),
            updated_at: time(columns.updated_at, now),
        }
    }
}

impl TelegramGroup {
    /// The row that the columns of the store stand for.
    pub fn from_columns(columns: GroupColumns, now: Timestamp) -> (r: TelegramGroup)
        ensures
            r == group_of_columns(columns, now),
    {
        TelegramGroup {
            id: columns.id,
            telegram_chat_id: columns.telegram_chat_id,
            chat_type: columns.chat_type,
            title: columns.title,
            username: columns.username,
            description: columns.description,
            invite_link: columns.invite_link,
            member_count: columns.member_count,
            is_verified: flag(columns.is_verified),
            is_restricted: flag(columns.is_restricted),
            is_scam: flag(columns.is_scam),
            is_fake: flag(columns.is_fake),
            created_at: time(columns.created_at, now),
            updated_at: time(columns.updated_at, now),
        }
    }
}

impl TelegramGroup {
    /// The row of a conversation seen for the first time.
    pub fn first_seen(id: u128, candidate: NewTelegramGroup, now: Timestamp) -> (r: TelegramGroup)
        ensures
            r == group_row(id, candidate, now),
    {
        TelegramGroup {
            id,
            telegram_chat_id: candidate.telegram_chat_id,
            chat_type: candidate.chat_type,
            title: candidate.title,
            username: candidate.username,
            description: candidate.description,
            invite_link: candidate.invite_link,
            member_count: candidate.member_count,
            is_verified: candidate.is_verified,
            is_restricted: candidate.is_restricted,
            is_scam: candidate.is_scam,
            is_fake: candidate.is_fake,
            created_at: now,
            updated_at: now,
        }
    }
}

impl TelegramMessage {
    /// The row of a message.
    pub fn first_seen(id: u128, candidate: NewTelegramMessage, now: Timestamp) -> (r:
        TelegramMessage)
        ensures
            r == message_row(id, candidate, now),
    {
        TelegramMessage {
            id,
            telegram_message_id: candidate.telegram_message_id,
            user_id: candidate.user_id,
            group_id: candidate.group_id,
            message_text: candidate.message_text,
            message_type: candidate.message_type,
            date: candidate.date,
            edit_date: candidate.edit_date,
            forward_from_user_id: candidate.forward_from_user_id,
            forward_from_group_id: candidate.forward_from_group_id,
            forward_date: candidate.forward_date,
            reply_to_message_id: candidate.reply_to_message_id,
            media_file_id: candidate.media_file_id,
            media_file_unique_id: candidate.media_file_unique_id,
            media_file_size: candidate.media_file_size,
            media_mime_type: candidate.media_mime_type,
            media_file_name: candidate.media_file_name,
            location_latitude: candidate.location_latitude,
            location_longitude: candidate.location_longitude,
            contact_phone_number: candidate.contact_phone_number,
            contact_first_name: candidate.contact_first_name,
            contact_last_name: candidate.contact_last_name,
            created_at: now,
        }
    }
}

} // verus!
