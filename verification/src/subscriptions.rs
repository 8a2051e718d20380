//! The patch notes commands: the steps of subscribing a channel to a game's
//! patch notes and of unsubscribing it, and their replies.

use vstd::prelude::*;

use crate::bot::PatchGame;
use crate::database::{CreatePatchNotesSub, DbError, PatchNotesSub};
use crate::text::{append_str, decimal, owned, u64_to_decimal};

verus! {

/// The reply when the command's channel cannot be found.
pub const NO_CHANNEL_TEXT: &'static str = "Could not find current channel";

/// The reply, and the reason given when deleting the webhook, when a new
/// webhook came without a token.
pub const NO_TOKEN_TEXT: &'static str = "Unable to create patch notes webhook";

/// `text`, then the game's title in bold, as the replies end.
pub open spec fn with_game(text: Seq<char>, game: PatchGame) -> Seq<char> {
    text + "**"@ + game.spec_title() + "**"@
}

/// Appends the game's title in bold.
fn append_game(s: &mut String, game: PatchGame)
    ensures
        final(s)@ == old(s)@ + "**"@ + game.spec_title() + "**"@,
{
    append_str(s, "**");
    append_str(s, game.title().as_str());
    append_str(s, "**");
}

/// The reply when no patch notes of `game` are stored.
pub fn missing_patch_reply(game: PatchGame) -> (s: String)
    ensures
        s@ == "Could not find patch notes for game: "@ + game.spec_title(),
{
    let mut s = owned("Could not find patch notes for game: ");
    append_str(&mut s, game.title().as_str());
    s
}

/// The name of the webhook that the bot `bot_name` creates for `game`.
pub open spec fn webhook_name_text(bot_name: Seq<char>, game: PatchGame) -> Seq<char> {
    bot_name + " Patch Notes - "@ + game.spec_title()
}

/// Exec form of [`webhook_name_text`].
pub fn webhook_name(bot_name: &str, game: PatchGame) -> (s: String)
    ensures
        s@ == webhook_name_text(bot_name@, game),
{
    let mut s = owned(bot_name);
    append_str(&mut s, " Patch Notes - ");
    append_str(&mut s, game.title().as_str());
    s
}

/// Where subscribing a channel stands.
pub enum SubStage {
    /// Looking for the command's channel.
    FindingChannel,
    /// Looking up an existing subscription of the channel.
    CheckingSub { guild_id: u64, channel_id: u64 },
    /// Creating the channel's webhook.
    CreatingWebhook { guild_id: u64, channel_id: u64 },
    /// Storing the new subscription.
    Saving,
    /// Done.
    Finished,
}

/// What the caller learned from the last action.
pub enum SubEvent {
    /// The command's channel and its guild.
    ChannelFound { guild_id: u64, channel_id: u64 },
    /// The command's channel could not be found.
    ChannelMissing,
    /// Whether the channel is already subscribed for the game.
    SubLookedUp { exists: bool },
    /// The webhook was created, with this id and, maybe, a token.
    WebhookCreated { webhook_id: u64, token: Option<String> },
    /// The subscription was stored.
    Saved,
}

/// What the caller does next.
pub enum SubAction {
    /// Look up the subscription of `channel_id` in `guild_id` for `target_game`.
    LookupSub { target_game: String, guild_id: String, channel_id: String },
    /// Create a webhook named `name` in the channel.
    CreateWebhook { name: String },
    /// Store this subscription.
    Save(CreatePatchNotesSub),
    /// Reply `text` and end; first delete the new webhook, giving `text` as
    /// the reason, when `delete_webhook`.
    Reply { text: String, delete_webhook: bool },
}

/// Subscribing a channel to `game`'s patch notes, for the bot named
/// `bot_name`.
pub struct SubFlow {
    pub game: PatchGame,
    pub bot_name: String,
    pub stage: SubStage,
}

impl SubFlow {
    /// A new subscription: the caller first looks for the command's channel.
    pub fn new(game: PatchGame, bot_name: String) -> (f: SubFlow)
        ensures
            f.game == game,
            f.bot_name == bot_name,
            f.stage is FindingChannel,
    {
        SubFlow { game, bot_name, stage: SubStage::FindingChannel }
    }

    /// Whether `event` answers the action of the current stage.
    pub open spec fn accepts(&self, event: SubEvent) -> bool {
        match self.stage {
            SubStage::FindingChannel => event is ChannelFound || event is ChannelMissing,
            SubStage::CheckingSub { .. } => event is SubLookedUp,
            SubStage::CreatingWebhook { .. } => event is WebhookCreated,
            SubStage::Saving => event is Saved,
            SubStage::Finished => false,
        }
    }

    /// Exec form of [`SubFlow::accepts`].
    pub fn expects(&self, event: &SubEvent) -> (b: bool)
        ensures
            b == self.accepts(*event),
    {
        match (&self.stage, event) {
            (SubStage::FindingChannel, SubEvent::ChannelFound { .. }) => true,
            (SubStage::FindingChannel, SubEvent::ChannelMissing) => true,
            (SubStage::CheckingSub { .. }, SubEvent::SubLookedUp { .. }) => true,
            (SubStage::CreatingWebhook { .. }, SubEvent::WebhookCreated { .. }) => true,
            (SubStage::Saving, SubEvent::Saved) => true,
            _ => false,
        }
    }

    /// Takes in what the last action gave and decides the next one.
    pub fn step(self, event: SubEvent) -> (r: (SubFlow, SubAction))
        requires
            self.accepts(event),
        ensures
            r.0.game == self.game,
            r.0.bot_name == self.bot_name,
            r.1 is Reply <==> r.0.stage is Finished,
            match (self.stage, event) {
                (SubStage::FindingChannel, SubEvent::ChannelMissing) => r.1 matches SubAction::Reply {
                    text,
                    delete_webhook,
                } && !delete_webhook && text@ == NO_CHANNEL_TEXT@,
                (SubStage::FindingChannel, SubEvent::ChannelFound { guild_id, channel_id }) => {
                    &&& r.0.stage == SubStage::CheckingSub { guild_id, channel_id }
                    &&& r.1 matches SubAction::LookupSub { target_game, guild_id: g, channel_id: c }
                    &&& target_game@ == self.game.spec_title()
                    &&& g@ == decimal(guild_id as nat)
                    &&& c@ == decimal(channel_id as nat)
                },
                (SubStage::CheckingSub { guild_id, channel_id }, SubEvent::SubLookedUp { exists }) => if exists {
                    r.1 matches SubAction::Reply { text, delete_webhook } && !delete_webhook
                        && text@ == with_game("This channel is already subscribed for: "@, self.game)
                } else {
                    &&& r.0.stage == SubStage::CreatingWebhook { guild_id, channel_id }
                    &&& r.1 matches SubAction::CreateWebhook { name }
                    &&& name@ == webhook_name_text(self.bot_name@, self.game)
                },
                (
                    SubStage::CreatingWebhook { guild_id, channel_id },
                    SubEvent::WebhookCreated { webhook_id, token },
                ) => match token {
                    None => r.1 matches SubAction::Reply { text, delete_webhook } && delete_webhook
                        && text@ == NO_TOKEN_TEXT@,
                    Some(t) => {
                        &&& r.0.stage is Saving
                        &&& r.1 matches SubAction::Save(sub)
                        &&& sub.target_game@ == self.game.spec_title()
                        &&& sub.guild_id@ == decimal(guild_id as nat)
                        &&& sub.channel_id@ == decimal(channel_id as nat)
                        &&& sub.webhook_id == webhook_id
                        &&& sub.webhook_token == t
                    },
                },
                (SubStage::Saving, SubEvent::Saved) => r.1 matches SubAction::Reply {
                    text,
                    delete_webhook,
                } && !delete_webhook && text@ == with_game(
                    "This channel will now receive patch notifications for: "@,
                    self.game,
                ),
                _ => false,
            },
    {
        let SubFlow { game, bot_name, stage } = self;
        let (stage, action) = match (stage, event) {
            (SubStage::FindingChannel, SubEvent::ChannelMissing) => {
                (SubStage::Finished, SubAction::Reply { text: owned(NO_CHANNEL_TEXT), delete_webhook: false })
            },
            (SubStage::FindingChannel, SubEvent::ChannelFound { guild_id, channel_id }) => {
                let action = SubAction::LookupSub {
                    target_game: game.title(),
                    guild_id: u64_to_decimal(guild_id),
                    channel_id: u64_to_decimal(channel_id),
                };
                (SubStage::CheckingSub { guild_id, channel_id }, action)
            },
            (SubStage::CheckingSub { guild_id, channel_id }, SubEvent::SubLookedUp { exists }) => {
                if exists {
                    let mut text = owned("This channel is already subscribed for: ");
                    append_game(&mut text, game);
                    (SubStage::Finished, SubAction::Reply { text, delete_webhook: false })
                } else {
                    let name = webhook_name(bot_name.as_str(), game);
                    (SubStage::CreatingWebhook { guild_id, channel_id }, SubAction::CreateWebhook { name })
                }
            },
            (
                SubStage::CreatingWebhook { guild_id, channel_id },
                SubEvent::WebhookCreated { webhook_id, token },
            ) => {
                match token {
                    None => (
                        SubStage::Finished,
                        SubAction::Reply { text: owned(NO_TOKEN_TEXT), delete_webhook: true },
                    ),
                    Some(t) => {
                        let sub = CreatePatchNotesSub {
                            target_game: game.title(),
                            guild_id: u64_to_decimal(guild_id),
                            channel_id: u64_to_decimal(channel_id),
                            webhook_id,
                            webhook_token: t,
                        };
                        (SubStage::Saving, SubAction::Save(sub))
                    },
                }
            },
            (SubStage::Saving, SubEvent::Saved) => {
                let mut text = owned("This channel will now receive patch notifications for: ");
                append_game(&mut text, game);
                (SubStage::Finished, SubAction::Reply { text, delete_webhook: false })
            },
            _ => {
                proof {
                    assert(false);
                }
                (SubStage::Finished, SubAction::Reply { text: String::new(), delete_webhook: false })
            },
        };
        (SubFlow { game, bot_name, stage }, action)
    }
}

/// Where unsubscribing a channel stands.
pub enum UnsubStage {
    /// Looking for the command's channel.
    FindingChannel,
    /// Looking up the channel's subscription.
    CheckingSub,
    /// Deleting the subscription's webhook.
    RemovingWebhook { sub: PatchNotesSub },
    /// Deleting the subscription.
    RemovingSub,
    /// Done.
    Finished,
}

/// What the caller learned from the last action.
pub enum UnsubEvent {
    /// The command's channel and its guild.
    ChannelFound { guild_id: u64, channel_id: u64 },
    /// The command's channel could not be found.
    ChannelMissing,
    /// What the lookup of the channel's subscription gave.
    SubLookedUp(Option<Result<PatchNotesSub, DbError>>),
    /// The webhook is gone, or could not be found.
    WebhookRemoved,
    /// The subscription was deleted.
    SubRemoved,
}

/// What the caller does next.
pub enum UnsubAction {
    /// Look up the subscription of `channel_id` in `guild_id` for `target_game`.
    LookupSub { target_game: String, guild_id: String, channel_id: String },
    /// Delete the webhook with this id and token, if it can be found.
    RemoveWebhook { webhook_id: u64, webhook_token: String },
    /// Delete the subscription of `channel_id` in `guild_id` for `target_game`.
    RemoveSub { target_game: String, guild_id: String, channel_id: String },
    /// Reply `text` and end.
    Reply(String),
}

/// Unsubscribing a channel from `game`'s patch notes.
pub struct UnsubFlow {
    pub game: PatchGame,
    pub stage: UnsubStage,
}

impl UnsubFlow {
    /// A new unsubscription: the caller first looks for the command's channel.
    pub fn new(game: PatchGame) -> (f: UnsubFlow)
        ensures
            f.game == game,
            f.stage is FindingChannel,
    {
        UnsubFlow { game, stage: UnsubStage::FindingChannel }
    }

    /// Whether `event` answers the action of the current stage.
    pub open spec fn accepts(&self, event: UnsubEvent) -> bool {
        match self.stage {
            UnsubStage::FindingChannel => event is ChannelFound || event is ChannelMissing,
            UnsubStage::CheckingSub => event is SubLookedUp,
            UnsubStage::RemovingWebhook { .. } => event is WebhookRemoved,
            UnsubStage::RemovingSub => event is SubRemoved,
            UnsubStage::Finished => false,
        }
    }

    /// Exec form of [`UnsubFlow::accepts`].
    pub fn expects(&self, event: &UnsubEvent) -> (b: bool)
        ensures
            b == self.accepts(*event),
    {
        match (&self.stage, event) {
            (UnsubStage::FindingChannel, UnsubEvent::ChannelFound { .. }) => true,
            (UnsubStage::FindingChannel, UnsubEvent::ChannelMissing) => true,
            (UnsubStage::CheckingSub, UnsubEvent::SubLookedUp(_)) => true,
            (UnsubStage::RemovingWebhook { .. }, UnsubEvent::WebhookRemoved) => true,
            (UnsubStage::RemovingSub, UnsubEvent::SubRemoved) => true,
            _ => false,
        }
    }

    /// Takes in what the last action gave and decides the next one.
    pub fn step(self, event: UnsubEvent) -> (r: (UnsubFlow, UnsubAction))
        requires
            self.accepts(event),
        ensures
            r.0.game == self.game,
            r.1 is Reply <==> r.0.stage is Finished,
            match (self.stage, event) {
                (UnsubStage::FindingChannel, UnsubEvent::ChannelMissing) => r.1 matches UnsubAction::Reply(
                    text,
                ) && text@ == NO_CHANNEL_TEXT@,
                (UnsubStage::FindingChannel, UnsubEvent::ChannelFound { guild_id, channel_id }) => {
                    &&& r.0.stage is CheckingSub
                    &&& r.1 matches UnsubAction::LookupSub { target_game, guild_id: g, channel_id: c }
                    &&& target_game@ == self.game.spec_title()
                    &&& g@ == decimal(guild_id as nat)
                    &&& c@ == decimal(channel_id as nat)
                },
                (UnsubStage::CheckingSub, UnsubEvent::SubLookedUp(found)) => match found {
                    Some(Ok(sub)) => {
                        &&& r.0.stage == UnsubStage::RemovingWebhook { sub }
                        &&& r.1 == UnsubAction::RemoveWebhook {
                            webhook_id: sub.webhook_id,
                            webhook_token: sub.webhook_token,
                        }
                    },
                    _ => r.1 matches UnsubAction::Reply(text) && text@ == with_game(
                        "This channel is not subscribed for: "@,
                        self.game,
                    ),
                },
                (UnsubStage::RemovingWebhook { sub }, UnsubEvent::WebhookRemoved) => {
                    &&& r.0.stage is RemovingSub
                    &&& r.1 == UnsubAction::RemoveSub {
                        target_game: sub.target_game,
                        guild_id: sub.guild_id,
                        channel_id: sub.channel_id,
                    }
                },
                (UnsubStage::RemovingSub, UnsubEvent::SubRemoved) => r.1 matches UnsubAction::Reply(
                    text,
                ) && text@ == with_game(
                    "This channel will no longer receive notifications for: "@,
                    self.game,
                ),
                _ => false,
            },
    {
        let UnsubFlow { game, stage } = self;
        let (stage, action) = match (stage, event) {
            (UnsubStage::FindingChannel, UnsubEvent::ChannelMissing) => {
                (UnsubStage::Finished, UnsubAction::Reply(owned(NO_CHANNEL_TEXT)))
            },
            (UnsubStage::FindingChannel, UnsubEvent::ChannelFound { guild_id, channel_id }) => {
                let action = UnsubAction::LookupSub {
                    target_game: game.title(),
                    guild_id: u64_to_decimal(guild_id),
                    channel_id: u64_to_decimal(channel_id),
                };
                (UnsubStage::CheckingSub, action)
            },
            (UnsubStage::CheckingSub, UnsubEvent::SubLookedUp(found)) => {
                match found {
                    Some(Ok(sub)) => {
                        let action = UnsubAction::RemoveWebhook {
                            webhook_id: sub.webhook_id,
                            webhook_token: sub.webhook_token.clone(),
                        };
                        (UnsubStage::RemovingWebhook { sub }, action)
                    },
                    _ => {
                        let mut text = owned("This channel is not subscribed for: ");
                        append_game(&mut text, game);
                        (UnsubStage::Finished, UnsubAction::Reply(text))
                    },
                }
            },
            (UnsubStage::RemovingWebhook { sub }, UnsubEvent::WebhookRemoved) => {
                let PatchNotesSub { target_game, guild_id, channel_id, .. } = sub;
                (UnsubStage::RemovingSub, UnsubAction::RemoveSub { target_game, guild_id, channel_id })
            },
            (UnsubStage::RemovingSub, UnsubEvent::SubRemoved) => {
                let mut text = owned("This channel will no longer receive notifications for: ");
                append_game(&mut text, game);
                (UnsubStage::Finished, UnsubAction::Reply(text))
            },
            _ => {
                proof {
                    assert(false);
                }
                (UnsubStage::Finished, UnsubAction::Reply(String::new()))
            },
        };
        (UnsubFlow { game, stage }, action)
    }
}

} // verus!
