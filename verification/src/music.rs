//! The music commands: where a sound comes from, the steps of `play`, and the
//! replies of `play`, `skip` and `stop`.

use vstd::prelude::*;

use crate::bot::BotError;
use crate::text::{append_decimal, append_str, decimal, owned, str_eq, trim, trim_str};

verus! {

/// Longest sound that can be queued, in seconds (two hours).
pub const MAX_SOUND_SECONDS: u64 = 7200;

/// The host of `input` parsed as a URL: `None` when it does not parse, and
/// `Some(None)` when it parses without a host (`url::Url::parse`, then
/// `Url::host_str`).
pub uninterp spec fn url_host(input: Seq<char>) -> Option<Option<Seq<char>>>;

/// The view of a parsed host.
pub open spec fn host_view(host: Option<Option<String>>) -> Option<Option<Seq<char>>> {
    match host {
        Some(Some(h)) => Some(Some(h@)),
        Some(None) => Some(None),
        None => None,
    }
}

/// Parses `input` as a URL and gives its host (`url::Url::parse`, then
/// `Url::host_str`).
///
/// The contract names the result and claims only that it depends on the
/// text alone; what the URL standard accepts is left to the `url` crate.
#[verifier::external_body]
fn parse_url_host(input: &str) -> (r: Option<Option<String>>)
    ensures
        host_view(r) == url_host(input@),
{
    match url::Url::parse(input) {
        Ok(parsed) => Some(parsed.host_str().map(String::from)),
        Err(_) => None,
    }
}

/// Where a sound is downloaded from.
#[derive(Clone, Copy, Debug, PartialEq, Eq, Structural)]
pub enum SoundSource {
    Soundcloud,
    Youtube,
    Other,
}

/// The source that a parsed host stands for; `None` when the text is no URL
/// with a host.
pub open spec fn source_of_host(host: Option<Option<Seq<char>>>) -> Option<SoundSource> {
    match host {
        Some(Some(h)) => if h == "soundcloud.com"@ {
            Some(SoundSource::Soundcloud)
        } else if h == "youtube.com"@ {
            Some(SoundSource::Youtube)
        } else {
            Some(SoundSource::Other)
        },
        _ => None,
    }
}

/// The source that a parsed host stands for.
pub fn source_from_host(host: Option<Option<String>>) -> (r: Option<SoundSource>)
    ensures
        r == source_of_host(host_view(host)),
{
    match host {
        Some(Some(h)) => {
            if str_eq(h.as_str(), "soundcloud.com") {
                Some(SoundSource::Soundcloud)
            } else if str_eq(h.as_str(), "youtube.com") {
                Some(SoundSource::Youtube)
            } else {
                Some(SoundSource::Other)
            }
        },
        _ => None,
    }
}

/// The source of a sound given as `url_or_search`.
pub fn get_source(url_or_search: &str) -> (r: Option<SoundSource>)
    ensures
        r == source_of_host(url_host(url_or_search@)),
{
    source_from_host(parse_url_host(url_or_search))
}

/// Whether `url` parses as a URL.
pub fn is_valid_url(url: &str) -> (b: bool)
    ensures
        b == url_host(url@) is Some,
{
    parse_url_host(url).is_some()
}

/// How a sound is found.
pub enum SoundPlan {
    /// Download the sound at this URL.
    Download(String),
    /// Search Soundcloud for this text, then download what it finds.
    Search(String),
    /// Nothing to queue (YouTube links are not downloaded this way).
    Nothing,
}

/// How to find the sound asked for by `url_or_search`, once trimmed.
pub fn sound_plan(url_or_search: &str) -> (p: SoundPlan)
    ensures
        match source_of_host(url_host(trim(url_or_search@))) {
            Some(SoundSource::Youtube) => p is Nothing,
            Some(_) => p matches SoundPlan::Download(u) && u@ == trim(url_or_search@),
            None => p matches SoundPlan::Search(q) && q@ == trim(url_or_search@),
        },
{
    let source_str = trim_str(url_or_search);
    match get_source(source_str.as_str()) {
        Some(SoundSource::Soundcloud) => SoundPlan::Download(source_str),
        Some(SoundSource::Youtube) => SoundPlan::Nothing,
        Some(SoundSource::Other) => SoundPlan::Download(source_str),
        None => SoundPlan::Search(source_str),
    }
}

/// How a video is found.
pub enum VideoPlan {
    /// Fetch the video at this URL.
    Url(String),
    /// Search YouTube for this text.
    Search(String),
}

/// How to find the video asked for by `url_or_search`, once trimmed.
pub fn video_plan(url_or_search: &str) -> (p: VideoPlan)
    ensures
        if url_host(trim(url_or_search@)) is Some {
            p matches VideoPlan::Url(u) && u@ == trim(url_or_search@)
        } else {
            p matches VideoPlan::Search(q) && q@ == trim(url_or_search@)
        },
{
    let trimmed = trim_str(url_or_search);
    if is_valid_url(trimmed.as_str()) {
        VideoPlan::Url(trimmed)
    } else {
        VideoPlan::Search(trimmed)
    }
}

/// The reply shown while `play` works.
pub const PLAY_PENDING_TEXT: &'static str = "Attempting to queue sound...";

/// The reply when the details of `request` could not be read.
pub open spec fn details_error_text(request: Seq<char>) -> Seq<char> {
    "Error occurred while getting video details for \""@ + request + "\"."@
}

/// The reply when the queue already holds `max_sounds` sounds.
pub open spec fn max_sounds_text(max_sounds: usize) -> Seq<char> {
    "Maximum sounds ("@ + decimal(max_sounds as nat) + ") already in queue."@
}

/// The reply once the sound at `url` is queued and the queue holds
/// `queue_len` sounds.
pub open spec fn queued_text(queue_len: usize, url: Seq<char>) -> Seq<char> {
    if queue_len > 1 {
        "Added to queue ("@ + decimal(queue_len as nat) + "): "@ + url
    } else {
        "Playing sound: "@ + url
    }
}

/// After queueing, a sound that waits behind another (the queue then holds
/// two or more) is announced as added, with the queue's length; only the
/// sound that plays at once (the queue holds just it) is announced as
/// playing. Both replies end with the sound's link.
pub proof fn lemma_queued_reply(queue_len: usize, url: Seq<char>)
    ensures
        queue_len >= 2 ==> queued_text(queue_len, url) == "Added to queue ("@ + decimal(
            queue_len as nat,
        ) + "): "@ + url,
        queue_len < 2 ==> queued_text(queue_len, url) == "Playing sound: "@ + url,
        queued_text(queue_len, url).len() >= url.len() && queued_text(queue_len, url).subrange(
            queued_text(queue_len, url).len() - url.len(),
            queued_text(queue_len, url).len() as int,
        ) == url,
{
    let t = queued_text(queue_len, url);
    assert(t.subrange(t.len() - url.len(), t.len() as int) =~= url);
}

/// Where `play` stands.
pub enum PlayStage {
    /// Waiting for the sound's details.
    FetchingDetails,
    /// Joining the user's voice channel, to play the sound at `source_url`.
    Joining { source_url: String },
    /// Looking for the call, to play the sound at `source_url`.
    FindingCall { source_url: String },
    /// Queueing the sound at `source_url`.
    Enqueueing { source_url: String },
    /// Done.
    Finished,
}

/// What the caller learned from the last action.
pub enum PlayEvent {
    /// The sound's details: its length and its URL.
    DetailsFound { num_seconds: u64, source_url: String },
    /// The sound's details could not be read.
    DetailsFailed,
    /// The bot is in the user's voice channel.
    Joined,
    /// The bot could not join; `not_in_voice` when the user is in no voice
    /// channel.
    JoinFailed { not_in_voice: bool },
    /// The call was found; its queue holds `queue_len` sounds (after it was
    /// stopped, if it had to be).
    CallFound { queue_len: usize },
    /// There is no call in this guild.
    CallMissing,
    /// Looking for the call failed.
    CallFailed,
    /// The sound was queued; the queue now holds `queue_len` sounds.
    Enqueued { queue_len: usize },
}

/// What the caller does next.
pub enum PlayAction {
    /// Join the user's voice channel.
    JoinVoice,
    /// Find the call, and first stop its queue when `stop_first`.
    FindCall { stop_first: bool },
    /// Queue the sound.
    Enqueue,
    /// Edit the pending reply to `text` and end; `failed` when the command
    /// ends with the error that was met.
    Reply { text: String, failed: bool },
}

/// The `play` command: the request as typed, whether to clear the queue
/// first, the most sounds a queue may hold, and where it stands.
pub struct PlayFlow {
    pub request: String,
    pub force: bool,
    pub max_sounds: usize,
    pub stage: PlayStage,
}

impl PlayFlow {
    /// A new `play` for `request`: the caller first reads the sound's details.
    pub fn new(request: String, force: bool, max_sounds: usize) -> (f: PlayFlow)
        ensures
            f.request == request,
            f.force == force,
            f.max_sounds == max_sounds,
            f.stage is FetchingDetails,
    {
        PlayFlow { request, force, max_sounds, stage: PlayStage::FetchingDetails }
    }

    /// Whether `event` answers the action of the current stage.
    pub open spec fn accepts(&self, event: PlayEvent) -> bool {
        match self.stage {
            PlayStage::FetchingDetails => event is DetailsFound || event is DetailsFailed,
            PlayStage::Joining { .. } => event is Joined || event is JoinFailed,
            PlayStage::FindingCall { .. } => event is CallFound || event is CallMissing
                || event is CallFailed,
            PlayStage::Enqueueing { .. } => event is Enqueued,
            PlayStage::Finished => false,
        }
    }

    /// Exec form of [`PlayFlow::accepts`].
    pub fn expects(&self, event: &PlayEvent) -> (b: bool)
        ensures
            b == self.accepts(*event),
    {
        match (&self.stage, event) {
            (PlayStage::FetchingDetails, PlayEvent::DetailsFound { .. }) => true,
            (PlayStage::FetchingDetails, PlayEvent::DetailsFailed) => true,
            (PlayStage::Joining { .. }, PlayEvent::Joined) => true,
            (PlayStage::Joining { .. }, PlayEvent::JoinFailed { .. }) => true,
            (PlayStage::FindingCall { .. }, PlayEvent::CallFound { .. }) => true,
            (PlayStage::FindingCall { .. }, PlayEvent::CallMissing) => true,
            (PlayStage::FindingCall { .. }, PlayEvent::CallFailed) => true,
            (PlayStage::Enqueueing { .. }, PlayEvent::Enqueued { .. }) => true,
            _ => false,
        }
    }

    /// Takes in what the last action gave and decides the next one.
    pub fn step(self, event: PlayEvent) -> (r: (PlayFlow, PlayAction))
        requires
            self.accepts(event),
        ensures
            r.0.request == self.request,
            r.0.force == self.force,
            r.0.max_sounds == self.max_sounds,
            r.1 is Reply <==> r.0.stage is Finished,
            match (self.stage, event) {
                (PlayStage::FetchingDetails, PlayEvent::DetailsFailed) => r.1 matches PlayAction::Reply {
                    text,
                    failed,
                } && failed && text@ == details_error_text(self.request@),
                (PlayStage::FetchingDetails, PlayEvent::DetailsFound { num_seconds, source_url }) => if num_seconds
                    > MAX_SOUND_SECONDS {
                    r.1 matches PlayAction::Reply { text, failed } && !failed && text@
                        == "Cannot queue sounds longer than 2 hours."@
                } else {
                    r.1 is JoinVoice && r.0.stage == PlayStage::Joining { source_url }
                },
                (PlayStage::Joining { source_url }, PlayEvent::Joined) => r.1
                    == PlayAction::FindCall { stop_first: self.force } && r.0.stage
                    == PlayStage::FindingCall { source_url },
                (PlayStage::Joining { .. }, PlayEvent::JoinFailed { not_in_voice }) => if not_in_voice {
                    r.1 matches PlayAction::Reply { text, failed } && !failed && text@
                        == "User is not currently in a voice channel."@
                } else {
                    r.1 matches PlayAction::Reply { text, failed } && failed && text@
                        == "Bot could not join voice channel."@
                },
                (PlayStage::FindingCall { source_url }, PlayEvent::CallFound { queue_len }) => if queue_len
                    < self.max_sounds {
                    r.1 is Enqueue && r.0.stage == PlayStage::Enqueueing { source_url }
                } else {
                    r.1 matches PlayAction::Reply { text, failed } && !failed && text@
                        == max_sounds_text(self.max_sounds)
                },
                (PlayStage::FindingCall { .. }, PlayEvent::CallMissing) => r.1 matches PlayAction::Reply {
                    text,
                    failed,
                } && !failed && text@ == "Could not find current voice channel."@,
                (PlayStage::FindingCall { .. }, PlayEvent::CallFailed) => r.1 matches PlayAction::Reply {
                    text,
                    failed,
                } && failed && text@ == "Bot could not join voice channel."@,
                (PlayStage::Enqueueing { source_url }, PlayEvent::Enqueued { queue_len }) => r.1 matches PlayAction::Reply {
                    text,
                    failed,
                } && !failed && text@ == queued_text(queue_len, source_url@),
                _ => false,
            },
    {
        let PlayFlow { request, force, max_sounds, stage } = self;
        let (stage, action) = match (stage, event) {
            (PlayStage::FetchingDetails, PlayEvent::DetailsFailed) => {
                let mut text = owned("Error occurred while getting video details for \"");
                append_str(&mut text, request.as_str());
                append_str(&mut text, "\".");
                (PlayStage::Finished, PlayAction::Reply { text, failed: true })
            },
            (PlayStage::FetchingDetails, PlayEvent::DetailsFound { num_seconds, source_url }) => {
                if num_seconds > MAX_SOUND_SECONDS {
                    let text = owned("Cannot queue sounds longer than 2 hours.");
                    (PlayStage::Finished, PlayAction::Reply { text, failed: false })
                } else {
                    (PlayStage::Joining { source_url }, PlayAction::JoinVoice)
                }
            },
            (PlayStage::Joining { source_url }, PlayEvent::Joined) => {
                (PlayStage::FindingCall { source_url }, PlayAction::FindCall { stop_first: force })
            },
            (PlayStage::Joining { .. }, PlayEvent::JoinFailed { not_in_voice }) => {
                if not_in_voice {
                    let text = owned("User is not currently in a voice channel.");
                    (PlayStage::Finished, PlayAction::Reply { text, failed: false })
                } else {
                    let text = owned("Bot could not join voice channel.");
                    (PlayStage::Finished, PlayAction::Reply { text, failed: true })
                }
            },
            (PlayStage::FindingCall { source_url }, PlayEvent::CallFound { queue_len }) => {
                if queue_len < max_sounds {
                    (PlayStage::Enqueueing { source_url }, PlayAction::Enqueue)
                } else {
                    let mut text = owned("Maximum sounds (");
                    append_decimal(&mut text, max_sounds as u64);
                    append_str(&mut text, ") already in queue.");
                    (PlayStage::Finished, PlayAction::Reply { text, failed: false })
                }
            },
            (PlayStage::FindingCall { .. }, PlayEvent::CallMissing) => {
                let text = owned("Could not find current voice channel.");
                (PlayStage::Finished, PlayAction::Reply { text, failed: false })
            },
            (PlayStage::FindingCall { .. }, PlayEvent::CallFailed) => {
                let text = owned("Bot could not join voice channel.");
                (PlayStage::Finished, PlayAction::Reply { text, failed: true })
            },
            (PlayStage::Enqueueing { source_url }, PlayEvent::Enqueued { queue_len }) => {
                let text = if queue_len > 1 {
                    let mut t = owned("Added to queue (");
                    append_decimal(&mut t, queue_len as u64);
                    append_str(&mut t, "): ");
                    append_str(&mut t, source_url.as_str());
                    t
                } else {
                    let mut t = owned("Playing sound: ");
                    append_str(&mut t, source_url.as_str());
                    t
                };
                (PlayStage::Finished, PlayAction::Reply { text, failed: false })
            },
            _ => {
                proof {
                    assert(false);
                }
                (PlayStage::Finished, PlayAction::Reply { text: String::new(), failed: true })
            },
        };
        (PlayFlow { request, force, max_sounds, stage }, action)
    }
}

/// The voice channel to join, for a command in the guild `guild_id` (if it
/// has one): `in_call` when the bot is already in a call there,
/// `guild_cached` when the guild's state is known, and `user_channel` the
/// channel of the user's voice state, if any. `Ok(None)` when the bot stays
/// in its call.
pub fn channel_to_join(
    guild_id: Option<u64>,
    in_call: bool,
    guild_cached: bool,
    user_channel: Option<u64>,
) -> (r: Result<Option<u64>, BotError>)
    ensures
        guild_id is None ==> r matches Err(BotError::InvalidGuild),
        guild_id is Some && in_call ==> r matches Ok(None),
        guild_id is Some && !in_call && !guild_cached ==> r matches Err(BotError::InvalidGuild),
        guild_id is Some && !in_call && guild_cached ==> match user_channel {
            Some(c) => r matches Ok(Some(j)) && j == c,
            None => r matches Err(BotError::InvalidVoiceChannel),
        },
{
    if guild_id.is_none() {
        return Err(BotError::InvalidGuild);
    }
    if in_call {
        return Ok(None);
    }
    if !guild_cached {
        return Err(BotError::InvalidGuild);
    }
    match user_channel {
        Some(c) => Ok(Some(c)),
        None => Err(BotError::InvalidVoiceChannel),
    }
}

/// The reply when a command needs the bot in a voice channel and it is in none.
pub const NOT_IN_VOICE_TEXT: &'static str = "Bot is not currently in a voice channel.";

/// The reply of `skip` when skipping failed.
pub const SKIP_FAILED_TEXT: &'static str = "Error occurred while trying to skip sound.";

/// The reply of `skip` after skipping the current sound of a queue that held
/// `queue_len` sounds.
pub open spec fn skip_text(queue_len: usize) -> Seq<char> {
    if queue_len - 1 == 0 {
        "Skipping sound, queue empty."@
    } else {
        "Skipping sound, "@ + decimal((queue_len - 1) as nat) + " in queue."@
    }
}

/// After skipping the current sound of a queue that held `queue_len` sounds:
/// the reply, and whether the bot then leaves the voice channel (when
/// nothing is left).
pub fn skip_outcome(queue_len: usize) -> (r: (String, bool))
    requires
        queue_len >= 1,
    ensures
        r.0@ == skip_text(queue_len),
        r.1 == (queue_len == 1),
{
    let left = queue_len - 1;
    if left == 0 {
        (owned("Skipping sound, queue empty."), true)
    } else {
        let mut s = owned("Skipping sound, ");
        append_decimal(&mut s, left as u64);
        append_str(&mut s, " in queue.");
        (s, false)
    }
}

/// The reply of `stop` for a queue of `queue_len` sounds.
pub open spec fn stop_text(queue_len: usize) -> Seq<char> {
    "Playback stopped, clearing "@ + decimal(queue_len as nat) + " sound"@ + (if queue_len > 1 {
        "s"@
    } else {
        ""@
    }) + " in queue."@
}

/// Exec form of [`stop_text`].
pub fn stop_reply(queue_len: usize) -> (s: String)
    ensures
        s@ == stop_text(queue_len),
{
    let mut s = owned("Playback stopped, clearing ");
    append_decimal(&mut s, queue_len as u64);
    append_str(&mut s, " sound");
    if queue_len > 1 {
        append_str(&mut s, "s");
    } else {
        append_str(&mut s, "");
    }
    append_str(&mut s, " in queue.");
    s
}

} // verus!
