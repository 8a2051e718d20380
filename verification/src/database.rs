//! Records stored in the bot's Postgres database, and the conversions the
//! library performs on them between the database and the bot.

use vstd::prelude::*;

use crate::text::{decimal, lemma_parse_decimal, parse_bounded, parse_u64, u64_to_decimal};

verus! {

/// Errors of the database layer.
pub enum DbError {
    /// A stored webhook id that is not a decimal `u64`; holds the stored text.
    ParseInt(String),
    /// An error reported by `sqlx`.
    Sqlx(sqlx::Error),
}

/// Settings of the bot, one row per application.
#[derive(Clone, Debug)]
pub struct BotSettings {
    /// Application ID of the bot
    pub application_id: String,
    /// Bot name
    pub name: String,
    /// Current status (online, idle, etc.)
    pub status: String,
    /// Current activity (optional)
    pub activity: Option<String>,
}

/// A patch notes entry, joined with the information on its game.
#[derive(Clone, Debug)]
pub struct PatchNotes {
    /// Internal name for the target game
    pub target_game: String,
    /// Link to the patch notes page
    pub link: String,
    /// Title of the patch notes
    pub title: String,
    /// Content of the patch notes
    pub content: String,
    /// Official title of the game
    pub game_title: String,
    /// Steam App ID for the game
    pub steam_app_id: Option<String>,
    /// Thumbnail URL for the game
    pub thumbnail_url: Option<String>,
}

/// Fields for a new [`PatchNotes`] entry.
#[derive(Clone, Debug)]
pub struct CreatePatchNotes {
    /// Internal name for the target game
    pub target_game: String,
    /// ID of the patch notes
    pub patch_id: String,
    /// Link to the patch notes page
    pub link: String,
    /// Title of the patch notes
    pub title: String,
    /// Content of the patch notes
    pub content: String,
    /// Date and time it was posted
    pub posted_at: chrono::NaiveDateTime,
}

/// Metadata for a Steam game's latest patch notes entry.
#[derive(Clone, Debug)]
pub struct SteamPatchMetadata {
    /// Internal name for the target game
    pub target_game: String,
    /// Steam App ID for the game
    pub steam_app_id: String,
    /// ID of the latest patch notes (if it exists)
    pub latest_patch_id: Option<String>,
    /// Date and time the latest patch notes were posted (if it exists)
    pub latest_posted_at: Option<chrono::NaiveDateTime>,
}

/// A channel's subscription to a game's patch notes.
#[derive(Clone, Debug)]
pub struct PatchNotesSub {
    /// Internal name for the target game
    pub target_game: String,
    /// Guild ID of the subscription
    pub guild_id: String,
    /// Channel ID of the subscription
    pub channel_id: String,
    /// Webhook ID for sending alerts to the subscribed channel
    pub webhook_id: u64,
    /// Webhook token used for authentication
    pub webhook_token: String,
    /// Date and time of creation
    pub created_at: chrono::NaiveDateTime,
}

/// A subscription as the database stores it, with the webhook id as text.
#[derive(Clone, Debug)]
pub struct PatchNotesSubRow {
    /// Internal name for the target game
    pub target_game: String,
    /// Guild ID of the subscription
    pub guild_id: String,
    /// Channel ID of the subscription
    pub channel_id: String,
    /// Webhook ID, in decimal
    pub webhook_id: String,
    /// Webhook token used for authentication
    pub webhook_token: String,
    /// Date and time of creation
    pub created_at: chrono::NaiveDateTime,
}

/// Fields for a new [`PatchNotesSub`] entry.
#[derive(Clone, Debug)]
pub struct CreatePatchNotesSub {
    /// Internal name for the target game
    pub target_game: String,
    /// Guild ID of the subscription
    pub guild_id: String,
    /// Channel ID of the subscription
    pub channel_id: String,
    /// Webhook ID for sending alerts to the subscribed channel
    pub webhook_id: u64,
    /// Webhook token used for authentication
    pub webhook_token: String,
}

/// A picture saved in a guild.
#[derive(Clone, Debug)]
pub struct Picture {
    /// Name of the picture
    pub name: String,
    /// ID of the guild that added the picture
    pub guild_id: String,
    /// URL to the picture
    pub url: String,
    /// ID of the user that added the picture
    pub added_by_user: String,
    /// Whether the picture is explicit
    pub is_nsfw: bool,
    /// Date and time of creation
    pub created_at: chrono::NaiveDateTime,
}

/// Fields for a new [`Picture`] entry.
#[derive(Clone, Debug)]
pub struct CreatePicture {
    /// Name of the picture
    pub name: String,
    /// ID of the guild that added the picture
    pub guild_id: String,
    /// URL to the picture
    pub url: String,
    /// ID of the user that added the picture
    pub added_by_user: String,
    /// Whether the picture is explicit
    pub is_nsfw: bool,
}

/// An OAuth token of an outside site.
#[derive(Clone, Debug)]
pub struct AuthToken {
    /// Site the token is for
    pub source_site: String,
    /// The access token
    pub access_token: String,
    /// Kind of token
    pub token_type: String,
    /// When the token expires
    pub expires_at: chrono::NaiveDateTime,
    /// Token to obtain a new access token
    pub refresh_token: String,
    /// Scope of the token
    pub scope: String,
    /// Date and time of creation
    pub created_at: chrono::NaiveDateTime,
    /// Date and time of the last update
    pub updated_at: chrono::NaiveDateTime,
}

/// Fields for a new [`AuthToken`] entry.
#[derive(Clone, Debug)]
pub struct CreateAuthToken {
    /// Site the token is for
    pub source_site: String,
    /// The access token
    pub access_token: String,
    /// Kind of token
    pub token_type: String,
    /// When the token expires
    pub expires_at: chrono::NaiveDateTime,
    /// Token to obtain a new access token
    pub refresh_token: String,
    /// Scope of the token
    pub scope: String,
}

/// The subscription a stored row describes, when its webhook id is a
/// decimal `u64`.
pub open spec fn sub_of_row(row: PatchNotesSubRow) -> Option<PatchNotesSub> {
    match parse_bounded(row.webhook_id@, u64::MAX as nat) {
        Some(id) => Some(
            PatchNotesSub {
                target_game: row.target_game,
                guild_id: row.guild_id,
                channel_id: row.channel_id,
                webhook_id: id as u64,
                webhook_token: row.webhook_token,
                created_at: row.created_at,
            },
        ),
        None => None,
    }
}

impl PatchNotesSub {
    /// Reads a stored row, parsing its webhook id.
    pub fn try_from(value: PatchNotesSubRow) -> (r: Result<PatchNotesSub, DbError>)
        ensures
            match r {
                Ok(sub) => sub_of_row(value) == Some(sub),
                Err(DbError::ParseInt(text)) => sub_of_row(value) is None && text@
                    == value.webhook_id@,
                Err(DbError::Sqlx(_)) => false,
            },
    {
        match parse_u64(value.webhook_id.as_str()) {
            Some(webhook_id) => Ok(
                PatchNotesSub {
                    target_game: value.target_game,
                    guild_id: value.guild_id,
                    channel_id: value.channel_id,
                    webhook_id,
                    webhook_token: value.webhook_token,
                    created_at: value.created_at,
                },
            ),
            None => Err(DbError::ParseInt(value.webhook_id)),
        }
    }
}

/// The subscriptions of `rows` whose webhook id can be read, in order.
pub open spec fn readable_subs(rows: Seq<PatchNotesSubRow>) -> Seq<PatchNotesSub>
    decreases rows.len(),
{
    if rows.len() == 0 {
        seq![]
    } else {
        let rest = readable_subs(rows.drop_last());
        match sub_of_row(rows.last()) {
            Some(sub) => rest.push(sub),
            None => rest,
        }
    }
}

/// The subscriptions read from `rows`, skipping rows whose webhook id cannot
/// be read.
pub fn subs_from_rows(rows: Vec<PatchNotesSubRow>) -> (subs: Vec<PatchNotesSub>)
    ensures
        subs@ == readable_subs(rows@),
{
    let mut subs: Vec<PatchNotesSub> = Vec::new();
    let ghost all = rows@;
    for row in it: rows
        invariant
            it.seq() == all,
            subs@ == readable_subs(all.take(it.index())),
    {
        assert(all.take(it.index() + 1).drop_last() =~= all.take(it.index()));
        match PatchNotesSub::try_from(row) {
            Ok(sub) => subs.push(sub),
            Err(_) => {},
        }
    }
    assert(all.take(all.len() as int) =~= all);
    subs
}

/// The subscription a lookup found, read from its row.
pub fn sub_from_lookup(row: Option<PatchNotesSubRow>) -> (r: Option<Result<PatchNotesSub, DbError>>)
    ensures
        row is None <==> r is None,
        row matches Some(rw) ==> match r {
            Some(Ok(sub)) => sub_of_row(rw) == Some(sub),
            Some(Err(_)) => sub_of_row(rw) is None,
            None => false,
        },
{
    match row {
        Some(rw) => Some(PatchNotesSub::try_from(rw)),
        None => None,
    }
}

/// The text the database stores for a new subscription's webhook id.
pub fn webhook_id_text(create_sub: &CreatePatchNotesSub) -> (s: String)
    ensures
        s@ == decimal(create_sub.webhook_id as nat),
{
    u64_to_decimal(create_sub.webhook_id)
}

/// A subscription stored through [`webhook_id_text`] reads back with the
/// same webhook id and fields.
pub proof fn lemma_subscription_roundtrip(create_sub: CreatePatchNotesSub, row: PatchNotesSubRow)
    requires
        row.target_game == create_sub.target_game,
        row.guild_id == create_sub.guild_id,
        row.channel_id == create_sub.channel_id,
        row.webhook_id@ == decimal(create_sub.webhook_id as nat),
        row.webhook_token == create_sub.webhook_token,
    ensures
        sub_of_row(row) matches Some(sub) && sub.webhook_id == create_sub.webhook_id
            && sub.target_game == create_sub.target_game && sub.guild_id == create_sub.guild_id
            && sub.channel_id == create_sub.channel_id && sub.webhook_token
            == create_sub.webhook_token,
{
    lemma_parse_decimal(create_sub.webhook_id as nat);
}

} // verus!
