//! The picture commands: the steps of adding and removing a guild's picture,
//! and the replies of all picture commands.

use vstd::prelude::*;

use crate::bot::{may_remove_picture, picture_list_message, picture_list_text};
use crate::database::{CreatePicture, Picture};
use crate::text::{append_str, decimal, lemma_decimal_injective, owned, u64_to_decimal};

verus! {

/// The reply when the command's guild cannot be found.
pub const NO_GUILD_TEXT: &'static str = "Could not find current guild.";

/// The reply when the pictures of a guild could not be read.
pub const LIST_FAILED_TEXT: &'static str = "An error occurred while fetching pictures.";

/// The reply when no random picture could be found.
pub const NO_RANDOM_TEXT: &'static str = "Could not find random picture.";

/// The reply when the member running the command cannot be found.
pub const NO_MEMBER_TEXT: &'static str = "Guild member not found.";

/// The key of the command's guild `guild_id`, or the reply when there is
/// none.
pub fn guild_key(guild_id: Option<u64>) -> (r: Result<String, String>)
    ensures
        match guild_id {
            Some(g) => r matches Ok(k) && k@ == decimal(g as nat),
            None => r matches Err(t) && t@ == NO_GUILD_TEXT@,
        },
{
    match guild_id {
        Some(g) => Ok(u64_to_decimal(g)),
        None => Err(owned(NO_GUILD_TEXT)),
    }
}

/// The reply listing a guild's pictures by `names`, or saying they could not
/// be read.
pub fn picture_list_reply(names: Option<Vec<String>>) -> (s: String)
    ensures
        match names {
            Some(v) => s@ == picture_list_text(v@.map_values(|n: String| n@)),
            None => s@ == LIST_FAILED_TEXT@,
        },
{
    match names {
        Some(v) => picture_list_message(&v),
        None => owned(LIST_FAILED_TEXT),
    }
}

/// `before`, the picture's name in quotes, then `after`.
pub open spec fn quoted(before: Seq<char>, name: Seq<char>, after: Seq<char>) -> Seq<char> {
    before + "'"@ + name + "'"@ + after
}

/// Exec form of [`quoted`].
pub fn quoted_reply(before: &str, name: &str, after: &str) -> (s: String)
    ensures
        s@ == quoted(before@, name@, after@),
{
    let mut s = owned(before);
    append_str(&mut s, "'");
    append_str(&mut s, name);
    append_str(&mut s, "'");
    append_str(&mut s, after);
    s
}

/// The reply when no picture is called `name`.
pub fn missing_picture_reply(name: &str) -> (s: String)
    ensures
        s@ == quoted("Could not find picture "@, name@, "."@),
{
    quoted_reply("Could not find picture ", name, ".")
}

/// Where adding a picture stands.
pub enum PicAddStage {
    /// Looking for a picture of the same name.
    Checking { guild_id: String },
    /// Storing the new picture.
    Inserting,
    /// Done.
    Finished,
}

/// What the caller learned from the last action.
pub enum PicAddEvent {
    /// Whether a picture of that name exists in the guild.
    LookedUp { exists: bool },
    /// Whether the picture was stored.
    Inserted { ok: bool },
}

/// What the caller does next.
pub enum PicAddAction {
    /// Look up the picture called `name` in `guild_id`.
    Lookup { name: String, guild_id: String },
    /// Store this picture.
    Insert(CreatePicture),
    /// Reply this and end.
    Reply(String),
}

/// Adding the picture `name` at `url`, asked by user `author_id`.
pub struct PicAddFlow {
    pub name: String,
    pub url: String,
    pub is_nsfw: bool,
    pub author_id: u64,
    pub stage: PicAddStage,
}

impl PicAddFlow {
    /// Starts adding a picture in the guild `guild_id`, if the command has one.
    pub fn start(guild_id: Option<u64>, name: String, url: String, is_nsfw: bool, author_id: u64) -> (r: (
        PicAddFlow,
        PicAddAction,
    ))
        ensures
            r.0.name == name,
            r.0.url == url,
            r.0.is_nsfw == is_nsfw,
            r.0.author_id == author_id,
            r.1 is Reply <==> r.0.stage is Finished,
            match guild_id {
                None => r.1 matches PicAddAction::Reply(t) && t@ == NO_GUILD_TEXT@,
                Some(g) => {
                    &&& r.0.stage matches PicAddStage::Checking { guild_id: gs }
                    &&& gs@ == decimal(g as nat)
                    &&& r.1 matches PicAddAction::Lookup { name: n, guild_id: gl }
                    &&& n == name
                    &&& gl == gs
                },
            },
    {
        match guild_id {
            None => (
                PicAddFlow { name, url, is_nsfw, author_id, stage: PicAddStage::Finished },
                PicAddAction::Reply(owned(NO_GUILD_TEXT)),
            ),
            Some(g) => {
                let guild = u64_to_decimal(g);
                let action = PicAddAction::Lookup { name: name.clone(), guild_id: guild.clone() };
                (PicAddFlow { name, url, is_nsfw, author_id, stage: PicAddStage::Checking { guild_id: guild } }, action)
            },
        }
    }

    /// Whether `event` answers the action of the current stage.
    pub open spec fn accepts(&self, event: PicAddEvent) -> bool {
        match self.stage {
            PicAddStage::Checking { .. } => event is LookedUp,
            PicAddStage::Inserting => event is Inserted,
            PicAddStage::Finished => false,
        }
    }

    /// Exec form of [`PicAddFlow::accepts`].
    pub fn expects(&self, event: &PicAddEvent) -> (b: bool)
        ensures
            b == self.accepts(*event),
    {
        match (&self.stage, event) {
            (PicAddStage::Checking { .. }, PicAddEvent::LookedUp { .. }) => true,
            (PicAddStage::Inserting, PicAddEvent::Inserted { .. }) => true,
            _ => false,
        }
    }

    /// Takes in what the last action gave and decides the next one.
    pub fn step(self, event: PicAddEvent) -> (r: (PicAddFlow, PicAddAction))
        requires
            self.accepts(event),
        ensures
            r.0.name == self.name,
            r.0.author_id == self.author_id,
            r.1 is Reply <==> r.0.stage is Finished,
            match (self.stage, event) {
                (PicAddStage::Checking { guild_id }, PicAddEvent::LookedUp { exists }) => if exists {
                    r.1 matches PicAddAction::Reply(t) && t@ == quoted(
                        "Picture "@,
                        self.name@,
                        " already exists."@,
                    )
                } else {
                    &&& r.0.stage is Inserting
                    &&& r.1 == PicAddAction::Insert(
                        CreatePicture {
                            name: self.name,
                            guild_id,
                            url: self.url,
                            added_by_user: r.1->Insert_0.added_by_user,
                            is_nsfw: self.is_nsfw,
                        },
                    )
                    &&& r.1->Insert_0.added_by_user@ == decimal(self.author_id as nat)
                },
                (PicAddStage::Inserting, PicAddEvent::Inserted { ok }) => r.1 matches PicAddAction::Reply(
                    t,
                ) && t@ == if ok {
                    quoted("Picture "@, self.name@, " successfully added."@)
                } else {
                    quoted("An error occurred while adding picture "@, self.name@, "."@)
                },
                _ => false,
            },
    {
        let PicAddFlow { name, url, is_nsfw, author_id, stage } = self;
        match (stage, event) {
            (PicAddStage::Checking { guild_id }, PicAddEvent::LookedUp { exists }) => {
                if exists {
                    let text = quoted_reply("Picture ", name.as_str(), " already exists.");
                    (PicAddFlow { name, url, is_nsfw, author_id, stage: PicAddStage::Finished }, PicAddAction::Reply(text))
                } else {
                    let create_pic = CreatePicture {
                        name: name.clone(),
                        guild_id,
                        url: url.clone(),
                        added_by_user: u64_to_decimal(author_id),
                        is_nsfw,
                    };
                    (PicAddFlow { name, url, is_nsfw, author_id, stage: PicAddStage::Inserting }, PicAddAction::Insert(create_pic))
                }
            },
            (PicAddStage::Inserting, PicAddEvent::Inserted { ok }) => {
                let text = if ok {
                    quoted_reply("Picture ", name.as_str(), " successfully added.")
                } else {
                    quoted_reply("An error occurred while adding picture ", name.as_str(), ".")
                };
                (PicAddFlow { name, url, is_nsfw, author_id, stage: PicAddStage::Finished }, PicAddAction::Reply(text))
            },
            (stage, _) => {
                proof {
                    assert(false);
                }
                (PicAddFlow { name, url, is_nsfw, author_id, stage }, PicAddAction::Reply(String::new()))
            },
        }
    }
}

/// Where removing a picture stands.
pub enum PicRemoveStage {
    /// Looking up the picture.
    Checking { guild_id: String },
    /// Looking up the member running the command; the picture was added by
    /// `added_by_user`.
    CheckingMember { guild_id: String, added_by_user: String },
    /// Deleting the picture.
    Removing,
    /// Done.
    Finished,
}

/// What the caller learned from the last action.
pub enum PicRemoveEvent {
    /// The picture, if there is one of that name.
    LookedUp(Option<Picture>),
    /// The member's id and, if its permissions are known, whether it is an
    /// administrator; `None` when the member cannot be found.
    MemberFound(Option<(u64, Option<bool>)>),
    /// Whether the picture was deleted.
    Removed { ok: bool },
}

/// What the caller does next.
pub enum PicRemoveAction {
    /// Look up the picture called `name` in `guild_id`.
    Lookup { name: String, guild_id: String },
    /// Look up the member running the command.
    FetchMember,
    /// Delete the picture called `name` in `guild_id`.
    Remove { name: String, guild_id: String },
    /// Reply this and end.
    Reply(String),
}

/// Removing the picture `name`.
pub struct PicRemoveFlow {
    pub name: String,
    pub stage: PicRemoveStage,
}

/// The reply when a member may not remove the picture `name`.
pub open spec fn not_allowed_text(name: Seq<char>) -> Seq<char> {
    quoted(
        "Cannot remove "@,
        name,
        ". Pictures can only be removed by admins or the user that added them."@,
    )
}

/// The member who added a picture may remove it; a member who did not add
/// it may remove it only as an administrator.
pub proof fn lemma_who_may_remove(author_id: u64, member_id: u64, added_by_user: Seq<char>, is_admin: Option<bool>)
    requires
        added_by_user == decimal(author_id as nat),
    ensures
        (decimal(member_id as nat) == added_by_user || is_admin == Some(true)) <==> (member_id
            == author_id || is_admin == Some(true)),
{
    if decimal(member_id as nat) == added_by_user {
        lemma_decimal_injective(member_id as nat, author_id as nat);
    }
}

impl PicRemoveFlow {
    /// Starts removing a picture in the guild `guild_id`, if the command has
    /// one.
    pub fn start(guild_id: Option<u64>, name: String) -> (r: (PicRemoveFlow, PicRemoveAction))
        ensures
            r.0.name == name,
            r.1 is Reply <==> r.0.stage is Finished,
            match guild_id {
                None => r.1 matches PicRemoveAction::Reply(t) && t@ == NO_GUILD_TEXT@,
                Some(g) => {
                    &&& r.0.stage matches PicRemoveStage::Checking { guild_id: gs }
                    &&& gs@ == decimal(g as nat)
                    &&& r.1 matches PicRemoveAction::Lookup { name: n, guild_id: gl }
                    &&& n == name
                    &&& gl == gs
                },
            },
    {
        match guild_id {
            None => (
                PicRemoveFlow { name, stage: PicRemoveStage::Finished },
                PicRemoveAction::Reply(owned(NO_GUILD_TEXT)),
            ),
            Some(g) => {
                let guild = u64_to_decimal(g);
                let action = PicRemoveAction::Lookup { name: name.clone(), guild_id: guild.clone() };
                (PicRemoveFlow { name, stage: PicRemoveStage::Checking { guild_id: guild } }, action)
            },
        }
    }

    /// Whether `event` answers the action of the current stage.
    pub open spec fn accepts(&self, event: PicRemoveEvent) -> bool {
        match self.stage {
            PicRemoveStage::Checking { .. } => event is LookedUp,
            PicRemoveStage::CheckingMember { .. } => event is MemberFound,
            PicRemoveStage::Removing => event is Removed,
            PicRemoveStage::Finished => false,
        }
    }

    /// Exec form of [`PicRemoveFlow::accepts`].
    pub fn expects(&self, event: &PicRemoveEvent) -> (b: bool)
        ensures
            b == self.accepts(*event),
    {
        match (&self.stage, event) {
            (PicRemoveStage::Checking { .. }, PicRemoveEvent::LookedUp(_)) => true,
            (PicRemoveStage::CheckingMember { .. }, PicRemoveEvent::MemberFound(_)) => true,
            (PicRemoveStage::Removing, PicRemoveEvent::Removed { .. }) => true,
            _ => false,
        }
    }

    /// Takes in what the last action gave and decides the next one.
    pub fn step(self, event: PicRemoveEvent) -> (r: (PicRemoveFlow, PicRemoveAction))
        requires
            self.accepts(event),
        ensures
            r.0.name == self.name,
            r.1 is Reply <==> r.0.stage is Finished,
            match (self.stage, event) {
                (PicRemoveStage::Checking { guild_id }, PicRemoveEvent::LookedUp(found)) => match found {
                    None => r.1 matches PicRemoveAction::Reply(t) && t@ == quoted(
                        "Picture "@,
                        self.name@,
                        " not found."@,
                    ),
                    Some(pic) => r.1 is FetchMember && r.0.stage == PicRemoveStage::CheckingMember {
                        guild_id,
                        added_by_user: pic.added_by_user,
                    },
                },
                (
                    PicRemoveStage::CheckingMember { guild_id, added_by_user },
                    PicRemoveEvent::MemberFound(member),
                ) => match member {
                    None => r.1 matches PicRemoveAction::Reply(t) && t@ == NO_MEMBER_TEXT@,
                    Some((user_id, is_admin)) => if decimal(user_id as nat) == added_by_user@
                        || is_admin == Some(true) {
                        r.0.stage is Removing && r.1 == PicRemoveAction::Remove {
                            name: self.name,
                            guild_id,
                        }
                    } else {
                        r.1 matches PicRemoveAction::Reply(t) && t@ == not_allowed_text(self.name@)
                    },
                },
                (PicRemoveStage::Removing, PicRemoveEvent::Removed { ok }) => r.1 matches PicRemoveAction::Reply(
                    t,
                ) && t@ == if ok {
                    quoted("Picture "@, self.name@, " successfully removed."@)
                } else {
                    quoted("An error occurred while removing picture "@, self.name@, "."@)
                },
                _ => false,
            },
    {
        let PicRemoveFlow { name, stage } = self;
        match (stage, event) {
            (PicRemoveStage::Checking { guild_id }, PicRemoveEvent::LookedUp(found)) => match found {
                None => {
                    let text = quoted_reply("Picture ", name.as_str(), " not found.");
                    (PicRemoveFlow { name, stage: PicRemoveStage::Finished }, PicRemoveAction::Reply(text))
                },
                Some(pic) => {
                    let stage = PicRemoveStage::CheckingMember {
                        guild_id,
                        added_by_user: pic.added_by_user,
                    };
                    (PicRemoveFlow { name, stage }, PicRemoveAction::FetchMember)
                },
            },
            (
                PicRemoveStage::CheckingMember { guild_id, added_by_user },
                PicRemoveEvent::MemberFound(member),
            ) => match member {
                None => (
                    PicRemoveFlow { name, stage: PicRemoveStage::Finished },
                    PicRemoveAction::Reply(owned(NO_MEMBER_TEXT)),
                ),
                Some((user_id, is_admin)) => {
                    if may_remove_picture(user_id, added_by_user.as_str(), is_admin) {
                        let action = PicRemoveAction::Remove { name: name.clone(), guild_id };
                        (PicRemoveFlow { name, stage: PicRemoveStage::Removing }, action)
                    } else {
                        let text = quoted_reply(
                            "Cannot remove ",
                            name.as_str(),
                            ". Pictures can only be removed by admins or the user that added them.",
                        );
                        (PicRemoveFlow { name, stage: PicRemoveStage::Finished }, PicRemoveAction::Reply(text))
                    }
                },
            },
            (PicRemoveStage::Removing, PicRemoveEvent::Removed { ok }) => {
                let text = if ok {
                    quoted_reply("Picture ", name.as_str(), " successfully removed.")
                } else {
                    quoted_reply("An error occurred while removing picture ", name.as_str(), ".")
                };
                (PicRemoveFlow { name, stage: PicRemoveStage::Finished }, PicRemoveAction::Reply(text))
            },
            (stage, _) => {
                proof {
                    assert(false);
                }
                (PicRemoveFlow { name, stage }, PicRemoveAction::Reply(String::new()))
            },
        }
    }
}

} // verus!
