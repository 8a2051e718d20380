//! Errors and small rules of the Discord bot's commands and events.

use vstd::prelude::*;

use crate::database::{BotSettings, DbError};
use crate::env::EnvError;
use crate::text::{append_decimal, append_str, decimal, owned, str_eq, u64_to_decimal};

verus! {

/// Errors of the bot's commands and events.
pub enum BotError {
    /// An error of the database layer.
    LibDatabase(DbError),
    /// An error while reading the configuration.
    LibUtils(EnvError),
    /// The command's arguments could not be read.
    CommandArgParse,
    /// A role could not be toggled for a user.
    ToggleRoleFailure,
    /// No voice channel could be found.
    InvalidVoiceChannel,
    /// No guild could be found.
    InvalidGuild,
    /// The bot's application id is unknown.
    InvalidApplicationID,
    /// A video's details could not be read.
    VideoDetailParse,
    /// No video was found.
    VideoNotFound,
}

/// How Discord writes a mention of a user (`<@id>`).
pub open spec fn user_mention(user_id: u64) -> Seq<char> {
    "<@"@ + decimal(user_id as nat) + ">"@
}

/// The mention of the user `user_id`, as serenity formats `Mention::User`.
pub fn mention_user(user_id: u64) -> (s: String)
    ensures
        s@ == user_mention(user_id),
{
    let mut s = owned("<@");
    append_decimal(&mut s, user_id);
    append_str(&mut s, ">");
    s
}


/// A status the bot can show.
#[derive(Clone, Copy, Debug, PartialEq, Eq, Structural)]
pub enum BotStatus {
    DoNotDisturb,
    Idle,
    Invisible,
    Offline,
    Online,
}

impl BotStatus {
    /// The status's name, as the command offers it and the database stores it.
    pub open spec fn spec_name(self) -> Seq<char> {
        match self {
            BotStatus::DoNotDisturb => "dnd"@,
            BotStatus::Idle => "idle"@,
            BotStatus::Invisible => "invisible"@,
            BotStatus::Offline => "offline"@,
            BotStatus::Online => "online"@,
        }
    }

    /// The status named `input`; an unknown name is [`BotStatus::Online`].
    pub open spec fn spec_from_name(input: Seq<char>) -> BotStatus {
        if input == "dnd"@ {
            BotStatus::DoNotDisturb
        } else if input == "idle"@ {
            BotStatus::Idle
        } else if input == "invisible"@ {
            BotStatus::Invisible
        } else if input == "offline"@ {
            BotStatus::Offline
        } else {
            BotStatus::Online
        }
    }

    /// Exec form of [`BotStatus::spec_from_name`].
    pub fn from_str(input: &str) -> (s: BotStatus)
        ensures
            s == BotStatus::spec_from_name(input@),
    {
        if str_eq(input, "dnd") {
            BotStatus::DoNotDisturb
        } else if str_eq(input, "idle") {
            BotStatus::Idle
        } else if str_eq(input, "invisible") {
            BotStatus::Invisible
        } else if str_eq(input, "offline") {
            BotStatus::Offline
        } else {
            BotStatus::Online
        }
    }

    /// Exec form of [`BotStatus::spec_name`] (also what `{}` shows).
    pub fn name(&self) -> (s: String)
        ensures
            s@ == self.spec_name(),
    {
        match self {
            BotStatus::DoNotDisturb => owned("dnd"),
            BotStatus::Idle => owned("idle"),
            BotStatus::Invisible => owned("invisible"),
            BotStatus::Offline => owned("offline"),
            BotStatus::Online => owned("online"),
        }
    }
}

/// A status stored by its name reads back as the same status.
pub proof fn lemma_status_roundtrip(status: BotStatus)
    ensures
        BotStatus::spec_from_name(status.spec_name()) == status,
{
    reveal_strlit("dnd");
    reveal_strlit("idle");
    reveal_strlit("invisible");
    reveal_strlit("offline");
    reveal_strlit("online");
    assert("dnd"@.len() == 3 && "idle"@.len() == 4 && "invisible"@.len() == 9
        && "offline"@.len() == 7 && "online"@.len() == 6);
    assert("idle"@ != "dnd"@);
    assert("invisible"@ != "dnd"@ && "invisible"@ != "idle"@);
    assert("offline"@ != "dnd"@ && "offline"@ != "idle"@ && "offline"@ != "invisible"@);
    assert("online"@ != "dnd"@ && "online"@ != "idle"@ && "online"@ != "invisible"@
        && "online"@ != "offline"@);
}

/// A game whose patch notes can be followed.
#[derive(Clone, Copy, Debug, PartialEq, Eq, Structural)]
pub enum PatchGame {
    Deadlock,
}

impl PatchGame {
    /// The game's title, as `{}` shows it.
    pub open spec fn spec_title(self) -> Seq<char> {
        match self {
            PatchGame::Deadlock => "Deadlock"@,
        }
    }

    /// Exec form of [`PatchGame::spec_title`].
    pub fn title(&self) -> (s: String)
        ensures
            s@ == self.spec_title(),
    {
        match self {
            PatchGame::Deadlock => owned("Deadlock"),
        }
    }
}

/// The presence the bot shows: a custom activity, and a status.
pub struct Presence {
    pub activity: Option<String>,
    pub status: BotStatus,
}

/// The presence that stored `settings` call for.
pub fn presence_from_settings(settings: &BotSettings) -> (p: Presence)
    ensures
        p.activity == settings.activity,
        p.status == BotStatus::spec_from_name(settings.status@),
{
    let activity = match &settings.activity {
        Some(a) => Some(a.clone()),
        None => None,
    };
    Presence { activity, status: BotStatus::from_str(settings.status.as_str()) }
}

/// The settings recorded for a bot seen for the first time: online, with no
/// activity.
pub fn new_bot_settings(application_id: String, name: String) -> (s: BotSettings)
    ensures
        s.application_id == application_id,
        s.name == name,
        s.status@ == BotStatus::Online.spec_name(),
        s.activity is None,
{
    BotSettings { application_id, name, status: BotStatus::Online.name(), activity: None }
}

/// Where setting up the bot's presence at start-up stands.
pub enum InitStage {
    /// Looking up the stored settings of the bot `application_id`.
    LookingUp { application_id: String },
    /// Asking Discord for the bot's name, to store new settings.
    Naming { application_id: String },
    /// Storing the new settings.
    Storing,
    /// Done.
    Finished,
}

/// What the caller learned from the last action.
pub enum InitEvent {
    /// The stored settings, if there are any.
    Found(Option<BotSettings>),
    /// The bot's name.
    Named(String),
    /// The settings as stored, or `None` when storing them failed.
    Stored(Option<BotSettings>),
}

/// What the caller does next.
pub enum InitAction {
    /// Look up the settings of the bot `application_id`.
    LookupSettings { application_id: String },
    /// Ask Discord for the bot's name.
    FetchName,
    /// Store these settings (or update the stored ones).
    Store(BotSettings),
    /// Show this presence, and end.
    ShowPresence(Presence),
    /// Warn that the settings could not be stored, and end.
    Warn,
}

/// Setting up the bot's presence from its stored settings, storing new ones
/// for a bot seen for the first time.
pub struct BotInit {
    pub stage: InitStage,
}

impl BotInit {
    /// Starts with the bot's application id; there is nothing to do without one.
    pub fn start(application_id: Option<u64>) -> (r: Result<(BotInit, InitAction), BotError>)
        ensures
            application_id is None ==> r matches Err(BotError::InvalidApplicationID),
            application_id matches Some(a) ==> r matches Ok((f, action)) && f.stage
                matches InitStage::LookingUp { application_id: s } && s@ == decimal(a as nat)
                && action == (InitAction::LookupSettings { application_id: s }),
    {
        match application_id {
            None => Err(BotError::InvalidApplicationID),
            Some(a) => {
                let s = u64_to_decimal(a);
                let action = InitAction::LookupSettings { application_id: s.clone() };
                Ok((BotInit { stage: InitStage::LookingUp { application_id: s } }, action))
            },
        }
    }

    /// Whether `event` answers the action of the current stage.
    pub open spec fn accepts(&self, event: InitEvent) -> bool {
        match self.stage {
            InitStage::LookingUp { .. } => event is Found,
            InitStage::Naming { .. } => event is Named,
            InitStage::Storing => event is Stored,
            InitStage::Finished => false,
        }
    }

    /// Exec form of [`BotInit::accepts`].
    pub fn expects(&self, event: &InitEvent) -> (b: bool)
        ensures
            b == self.accepts(*event),
    {
        match (&self.stage, event) {
            (InitStage::LookingUp { .. }, InitEvent::Found(_)) => true,
            (InitStage::Naming { .. }, InitEvent::Named(_)) => true,
            (InitStage::Storing, InitEvent::Stored(_)) => true,
            _ => false,
        }
    }

    /// Takes in what the last action gave and decides the next one.
    pub fn step(self, event: InitEvent) -> (r: (BotInit, InitAction))
        requires
            self.accepts(event),
        ensures
            (r.1 is ShowPresence || r.1 is Warn) <==> r.0.stage is Finished,
            match (self.stage, event) {
                (InitStage::LookingUp { application_id }, InitEvent::Found(found)) => match found {
                    Some(st) => r.1 matches InitAction::ShowPresence(p) && p.activity == st.activity
                        && p.status == BotStatus::spec_from_name(st.status@),
                    None => r.1 is FetchName && r.0.stage == InitStage::Naming { application_id },
                },
                (InitStage::Naming { application_id }, InitEvent::Named(name)) => {
                    &&& r.0.stage is Storing
                    &&& r.1 matches InitAction::Store(st)
                    &&& st.application_id == application_id
                    &&& st.name == name
                    &&& st.status@ == BotStatus::Online.spec_name()
                    &&& st.activity is None
                },
                (InitStage::Storing, InitEvent::Stored(stored)) => match stored {
                    Some(st) => r.1 matches InitAction::ShowPresence(p) && p.activity == st.activity
                        && p.status == BotStatus::spec_from_name(st.status@),
                    None => r.1 is Warn,
                },
                _ => false,
            },
    {
        match (self.stage, event) {
            (InitStage::LookingUp { application_id }, InitEvent::Found(found)) => match found {
                Some(st) => (
                    BotInit { stage: InitStage::Finished },
                    InitAction::ShowPresence(presence_from_settings(&st)),
                ),
                None => (BotInit { stage: InitStage::Naming { application_id } }, InitAction::FetchName),
            },
            (InitStage::Naming { application_id }, InitEvent::Named(name)) => (
                BotInit { stage: InitStage::Storing },
                InitAction::Store(new_bot_settings(application_id, name)),
            ),
            (InitStage::Storing, InitEvent::Stored(stored)) => match stored {
                Some(st) => (
                    BotInit { stage: InitStage::Finished },
                    InitAction::ShowPresence(presence_from_settings(&st)),
                ),
                None => (BotInit { stage: InitStage::Finished }, InitAction::Warn),
            },
            (stage, _) => {
                proof {
                    assert(false);
                }
                (BotInit { stage }, InitAction::Warn)
            },
        }
    }
}

/// The reply after trying to set the bot's activity to `activity`.
pub open spec fn activity_reply_text(updated: bool, activity: Option<Seq<char>>) -> Seq<char> {
    if updated {
        match activity {
            Some(act) => "Bot activity updated to: \""@ + act + "\""@,
            None => "Bot activity cleared"@,
        }
    } else {
        "Unable to update bot activity"@
    }
}

/// Exec form of [`activity_reply_text`].
pub fn activity_reply(updated: bool, activity: Option<&str>) -> (s: String)
    ensures
        s@ == activity_reply_text(
            updated,
            match activity {
                Some(a) => Some(a@),
                None => None,
            },
        ),
{
    if updated {
        match activity {
            Some(act) => {
                let mut s = owned("Bot activity updated to: \"");
                append_str(&mut s, act);
                append_str(&mut s, "\"");
                s
            },
            None => owned("Bot activity cleared"),
        }
    } else {
        owned("Unable to update bot activity")
    }
}

/// The reply after trying to set the bot's status.
pub fn status_reply(updated: bool, status: BotStatus) -> (s: String)
    ensures
        s@ == if updated {
            "Bot status updated to: "@ + status.spec_name()
        } else {
            "Unable to update bot status"@
        },
{
    if updated {
        let mut s = owned("Bot status updated to: ");
        append_str(&mut s, status.name().as_str());
        s
    } else {
        owned("Unable to update bot status")
    }
}

/// Whether the user `user_id`, an administrator when `is_admin` is
/// `Some(true)`, may remove a picture added by `added_by_user`: its author
/// and administrators may.
pub fn may_remove_picture(user_id: u64, added_by_user: &str, is_admin: Option<bool>) -> (b: bool)
    ensures
        b == (decimal(user_id as nat) == added_by_user@ || is_admin == Some(true)),
{
    let id = u64_to_decimal(user_id);
    let is_author = str_eq(id.as_str(), added_by_user);
    let admin = match is_admin {
        Some(a) => a,
        None => false,
    };
    is_author || admin
}

/// The reply listing a guild's pictures by name.
pub open spec fn picture_list_text(names: Seq<Seq<char>>) -> Seq<char> {
    if names.len() == 0 {
        "No pictures found."@
    } else {
        "Available pictures: "@ + crate::embed::join_with(names, ", "@)
    }
}

/// Exec form of [`picture_list_text`].
pub fn picture_list_message(names: &Vec<String>) -> (s: String)
    ensures
        s@ == picture_list_text(names@.map_values(|n: String| n@)),
{
    let ghost ns = names@.map_values(|n: String| n@);
    if names.len() == 0 {
        return owned("No pictures found.");
    }
    let mut joined = String::new();
    let mut i: usize = 0;
    while i < names.len()
        invariant
            ns == names@.map_values(|n: String| n@),
            i <= names@.len(),
            joined@ == crate::embed::join_with(ns.take(i as int), ", "@),
        decreases names@.len() - i,
    {
        assert(ns.take(i + 1).drop_last() =~= ns.take(i as int));
        assert(ns[i as int] == names@[i as int]@);
        if i > 0 {
            append_str(&mut joined, ", ");
        }
        append_str(&mut joined, names[i].as_str());
        i = i + 1;
    }
    assert(ns.take(i as int) =~= ns);
    let mut s = owned("Available pictures: ");
    append_str(&mut s, joined.as_str());
    s
}

} // verus!
