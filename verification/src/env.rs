//! The bot's configuration, read from environment variables.

use vstd::prelude::*;

use crate::text::{
    append_decimal, append_str, chars_of, copy_range, owned, parse_bounded, parse_chars_bounded,
    split_on, str_eq, trim, trim_bounds, index_of_or_len, lemma_index_of,
};

verus! {

/// Configuration of the bot.
#[derive(Clone, Debug)]
pub struct EnvVariables {
    pub audit_enabled_servers: Vec<u64>,
    pub custom_status: String,
    pub database_url: String,
    pub discord_token: String,
    pub lottery_odds: u32,
    pub queue_max_sounds: usize,
    pub reaction_target_ids: Vec<u64>,
    pub reaction_target_odds: u32,
    pub redis_url: String,
    pub soundcloud_client_id: String,
    pub soundcloud_client_secret: String,
    pub webdriver_port: u16,
}

/// The value of an [`EnvVariables`].
pub struct EnvConfig {
    pub audit_enabled_servers: Seq<u64>,
    pub custom_status: Seq<char>,
    pub database_url: Seq<char>,
    pub discord_token: Seq<char>,
    pub lottery_odds: u32,
    pub queue_max_sounds: usize,
    pub reaction_target_ids: Seq<u64>,
    pub reaction_target_odds: u32,
    pub redis_url: Seq<char>,
    pub soundcloud_client_id: Seq<char>,
    pub soundcloud_client_secret: Seq<char>,
    pub webdriver_port: u16,
}

impl View for EnvVariables {
    type V = EnvConfig;

    open spec fn view(&self) -> EnvConfig {
        EnvConfig {
            audit_enabled_servers: self.audit_enabled_servers@,
            custom_status: self.custom_status@,
            database_url: self.database_url@,
            discord_token: self.discord_token@,
            lottery_odds: self.lottery_odds,
            queue_max_sounds: self.queue_max_sounds,
            reaction_target_ids: self.reaction_target_ids@,
            reaction_target_odds: self.reaction_target_odds,
            redis_url: self.redis_url@,
            soundcloud_client_id: self.soundcloud_client_id@,
            soundcloud_client_secret: self.soundcloud_client_secret@,
            webdriver_port: self.webdriver_port,
        }
    }
}

/// Errors while reading the configuration.
#[derive(Debug)]
pub enum EnvError {
    /// The variable is not set, or cannot be read as the number it should be.
    MissingVar(String),
    /// The variable's number is outside `min..=max`.
    InvalidRangeVar(String, u32, u32),
}

/// The value of an [`EnvError`].
pub enum EnvFailure {
    MissingVar(Seq<char>),
    InvalidRangeVar(Seq<char>, u32, u32),
}

impl View for EnvError {
    type V = EnvFailure;

    open spec fn view(&self) -> EnvFailure {
        match self {
            EnvError::MissingVar(k) => EnvFailure::MissingVar(k@),
            EnvError::InvalidRangeVar(k, lo, hi) => EnvFailure::InvalidRangeVar(k@, *lo, *hi),
        }
    }
}

/// The value of the first variable of `env` named `key`.
pub open spec fn env_lookup(env: Seq<(String, String)>, key: Seq<char>) -> Option<Seq<char>>
    decreases env.len(),
{
    if env.len() == 0 {
        None
    } else if env[0].0@ == key {
        Some(env[0].1@)
    } else {
        env_lookup(env.skip(1), key)
    }
}

/// Reading a text variable.
pub open spec fn string_var(env: Seq<(String, String)>, key: Seq<char>) -> Result<
    Seq<char>,
    EnvFailure,
> {
    match env_lookup(env, key) {
        Some(v) => Ok(v),
        None => Err(EnvFailure::MissingVar(key)),
    }
}

/// Reading a number no larger than `max`.
pub open spec fn number_var(env: Seq<(String, String)>, key: Seq<char>, max: nat) -> Result<
    nat,
    EnvFailure,
> {
    match env_lookup(env, key) {
        Some(v) => match parse_bounded(v, max) {
            Some(n) => Ok(n),
            None => Err(EnvFailure::MissingVar(key)),
        },
        None => Err(EnvFailure::MissingVar(key)),
    }
}

/// Reading a `u32` that must lie in `min..=max`.
pub open spec fn ranged_var(env: Seq<(String, String)>, key: Seq<char>, min: u32, max: u32) -> Result<
    nat,
    EnvFailure,
> {
    match number_var(env, key, u32::MAX as nat) {
        Ok(n) => if n < min || n > max {
            Err(EnvFailure::InvalidRangeVar(key, min, max))
        } else {
            Ok(n)
        },
        Err(e) => Err(e),
    }
}

/// The numbers read from comma-separated pieces, skipping pieces that are
/// not numbers.
pub open spec fn parse_pieces(pieces: Seq<Seq<char>>) -> Seq<u64>
    decreases pieces.len(),
{
    if pieces.len() == 0 {
        seq![]
    } else {
        let rest = parse_pieces(pieces.drop_last());
        match parse_bounded(trim(pieces.last()), u64::MAX as nat) {
            Some(v) => rest.push(v as u64),
            None => rest,
        }
    }
}

/// Reading a comma-separated list of `u64`.
pub open spec fn list_var(env: Seq<(String, String)>, key: Seq<char>) -> Result<
    Seq<u64>,
    EnvFailure,
> {
    match env_lookup(env, key) {
        Some(v) => Ok(parse_pieces(split_on(v, ','))),
        None => Err(EnvFailure::MissingVar(key)),
    }
}

/// Looks `key` up in `env`.
fn lookup(env: &Vec<(String, String)>, key: &str) -> (r: Option<String>)
    ensures
        match r {
            Some(v) => env_lookup(env@, key@) == Some(v@),
            None => env_lookup(env@, key@) is None,
        },
{
    let mut i: usize = 0;
    assert(env@.skip(0) =~= env@);
    while i < env.len()
        invariant
            i <= env@.len(),
            env_lookup(env@, key@) == env_lookup(env@.skip(i as int), key@),
        decreases env@.len() - i,
    {
        assert(env@.skip(i as int)[0] == env@[i as int]);
        assert(env@.skip(i as int).skip(1) =~= env@.skip(i + 1));
        if str_eq(env[i].0.as_str(), key) {
            return Some(env[i].1.clone());
        }
        i = i + 1;
    }
    None
}

/// Reads the text variable `key`.
pub fn load_var_string(env: &Vec<(String, String)>, key: &str) -> (r: Result<String, EnvError>)
    ensures
        match r {
            Ok(v) => string_var(env@, key@) == Ok::<Seq<char>, EnvFailure>(v@),
            Err(e) => string_var(env@, key@) == Err::<Seq<char>, EnvFailure>(e@),
        },
{
    match lookup(env, key) {
        Some(v) => Ok(v),
        None => Err(EnvError::MissingVar(owned(key))),
    }
}

/// Reads the variable `key` as a number no larger than `max`.
fn load_var_number(env: &Vec<(String, String)>, key: &str, max: u64) -> (r: Result<u64, EnvError>)
    ensures
        match r {
            Ok(n) => number_var(env@, key@, max as nat) == Ok::<nat, EnvFailure>(n as nat),
            Err(e) => number_var(env@, key@, max as nat) == Err::<nat, EnvFailure>(e@),
        },
{
    match lookup(env, key) {
        Some(v) => match parse_chars_bounded(&chars_of(v.as_str()), max) {
            Some(n) => Ok(n),
            None => Err(EnvError::MissingVar(owned(key))),
        },
        None => Err(EnvError::MissingVar(owned(key))),
    }
}

/// Reads the variable `key` as a `usize`.
pub fn load_var_usize(env: &Vec<(String, String)>, key: &str) -> (r: Result<usize, EnvError>)
    ensures
        match r {
            Ok(n) => number_var(env@, key@, usize::MAX as nat) == Ok::<nat, EnvFailure>(n as nat),
            Err(e) => number_var(env@, key@, usize::MAX as nat) == Err::<nat, EnvFailure>(e@),
        },
{
    match load_var_number(env, key, usize::MAX as u64) {
        Ok(n) => Ok(n as usize),
        Err(e) => Err(e),
    }
}

/// Reads the variable `key` as a `u16`.
pub fn load_var_u16(env: &Vec<(String, String)>, key: &str) -> (r: Result<u16, EnvError>)
    ensures
        match r {
            Ok(n) => number_var(env@, key@, u16::MAX as nat) == Ok::<nat, EnvFailure>(n as nat),
            Err(e) => number_var(env@, key@, u16::MAX as nat) == Err::<nat, EnvFailure>(e@),
        },
{
    match load_var_number(env, key, u16::MAX as u64) {
        Ok(n) => Ok(n as u16),
        Err(e) => Err(e),
    }
}

/// Reads the variable `key` as a `u32` in `min..=max`.
pub fn load_var_u32(env: &Vec<(String, String)>, key: &str, min: u32, max: u32) -> (r: Result<
    u32,
    EnvError,
>)
    ensures
        match r {
            Ok(n) => ranged_var(env@, key@, min, max) == Ok::<nat, EnvFailure>(n as nat),
            Err(e) => ranged_var(env@, key@, min, max) == Err::<nat, EnvFailure>(e@),
        },
{
    let value = match load_var_number(env, key, u32::MAX as u64) {
        Ok(n) => n as u32,
        Err(e) => return Err(e),
    };
    if value < min || value > max {
        return Err(EnvError::InvalidRangeVar(owned(key), min, max));
    }
    Ok(value)
}

/// The numbers of a comma-separated list, skipping pieces that are not
/// numbers.
pub fn parse_u64_list(s: &str) -> (r: Vec<u64>)
    ensures
        r@ == parse_pieces(split_on(s@, ',')),
{
    let v = chars_of(s);
    let len = v.len();
    let mut out: Vec<u64> = Vec::new();
    let ghost mut done: Seq<Seq<char>> = seq![];
    let mut j: usize = 0;
    let mut i: usize = 0;
    assert(v@.skip(0) =~= v@);
    while i < len
        invariant
            len == v@.len(),
            j <= i <= len,
            split_on(v@, ',') == done + split_on(v@.skip(j as int), ','),
            forall|m: int| j <= m < i ==> v@[m] != ',',
            out@ == parse_pieces(done),
        decreases len - i,
    {
        if v[i] == ',' {
            let ghost piece = v@.subrange(j as int, i as int);
            let ghost tail = v@.skip(j as int);
            proof {
                assert forall|m: int| 0 <= m < i - j implies tail[m] != ',' by {
                    assert(tail[m] == v@[j + m]);
                }
                assert(tail[i - j] == v@[i as int]);
                lemma_index_of(tail, ',', (i - j) as nat);
                assert(done.push(piece).drop_last() =~= done);
                assert(tail.take(i - j) =~= piece);
                assert(tail.skip(i - j + 1) =~= v@.skip(i + 1));
                assert(done + split_on(tail, ',') =~= done.push(piece) + split_on(
                    v@.skip(i + 1),
                    ',',
                ));
            }
            let (a, b) = trim_bounds(&v, j, i);
            match parse_chars_bounded(&copy_range(&v, a, b), u64::MAX) {
                Some(n) => out.push(n),
                None => {},
            }
            proof {
                done = done.push(piece);
            }
            j = i + 1;
        }
        i = i + 1;
    }
    let ghost piece = v@.subrange(j as int, len as int);
    proof {
        let tail = v@.skip(j as int);
        assert forall|m: int| 0 <= m < len - j implies tail[m] != ',' by {
            assert(tail[m] == v@[j + m]);
        }
        lemma_index_of(tail, ',', (len - j) as nat);
        assert(tail =~= piece);
        assert(split_on(v@, ',') =~= done.push(piece));
        assert(done.push(piece).drop_last() =~= done);
    }
    let (a, b) = trim_bounds(&v, j, len);
    match parse_chars_bounded(&copy_range(&v, a, b), u64::MAX) {
        Some(n) => out.push(n),
        None => {},
    }
    out
}

/// Reads the variable `key` as a comma-separated list of `u64`.
pub fn load_vec_u64(env: &Vec<(String, String)>, key: &str) -> (r: Result<Vec<u64>, EnvError>)
    ensures
        match r {
            Ok(v) => list_var(env@, key@) == Ok::<Seq<u64>, EnvFailure>(v@),
            Err(e) => list_var(env@, key@) == Err::<Seq<u64>, EnvFailure>(e@),
        },
{
    match lookup(env, key) {
        Some(v) => Ok(parse_u64_list(v.as_str())),
        None => Err(EnvError::MissingVar(owned(key))),
    }
}


/// The configuration that `env` describes, or the error for the first
/// variable, in field order, that cannot be read.
pub open spec fn env_config(env: Seq<(String, String)>) -> Result<EnvConfig, EnvFailure> {
    match list_var(env, "AUDIT_ENABLED_SERVERS"@) {
        Err(e) => Err(e),
        Ok(audit_enabled_servers) => match string_var(env, "CUSTOM_STATUS"@) {
            Err(e) => Err(e),
            Ok(custom_status) => match string_var(env, "DATABASE_URL"@) {
                Err(e) => Err(e),
                Ok(database_url) => match string_var(env, "DISCORD_TOKEN"@) {
                    Err(e) => Err(e),
                    Ok(discord_token) => match ranged_var(env, "LOTTERY_ODDS"@, 1, u32::MAX) {
                        Err(e) => Err(e),
                        Ok(lottery_odds) => match number_var(
                            env,
                            "QUEUE_MAX_SOUNDS"@,
                            usize::MAX as nat,
                        ) {
                            Err(e) => Err(e),
                            Ok(queue_max_sounds) => match list_var(env, "REACTION_TARGET_IDS"@) {
                                Err(e) => Err(e),
                                Ok(reaction_target_ids) => match ranged_var(
                                    env,
                                    "REACTION_TARGET_ODDS"@,
                                    1,
                                    u32::MAX,
                                ) {
                                    Err(e) => Err(e),
                                    Ok(reaction_target_odds) => match string_var(
                                        env,
                                        "REDIS_URL"@,
                                    ) {
                                        Err(e) => Err(e),
                                        Ok(redis_url) => match string_var(
                                            env,
                                            "SOUNDCLOUD_CLIENT_ID"@,
                                        ) {
                                            Err(e) => Err(e),
                                            Ok(soundcloud_client_id) => match string_var(
                                                env,
                                                "SOUNDCLOUD_CLIENT_SECRET"@,
                                            ) {
                                                Err(e) => Err(e),
                                                Ok(soundcloud_client_secret) => match number_var(
                                                    env,
                                                    "WEBDRIVER_PORT"@,
                                                    u16::MAX as nat,
                                                ) {
                                                    Err(e) => Err(e),
                                                    Ok(webdriver_port) => Ok(
                                                        EnvConfig {
                                                            audit_enabled_servers,
                                                            custom_status,
                                                            database_url,
                                                            discord_token,
                                                            lottery_odds: lottery_odds as u32,
                                                            queue_max_sounds: queue_max_sounds as usize,
                                                            reaction_target_ids,
                                                            reaction_target_odds: reaction_target_odds as u32,
                                                            redis_url,
                                                            soundcloud_client_id,
                                                            soundcloud_client_secret,
                                                            webdriver_port: webdriver_port as u16,
                                                        },
                                                    ),
                                                },
                                            },
                                        },
                                    },
                                },
                            },
                        },
                    },
                },
            },
        },
    }
}

/// Reads the whole configuration from `env`, stopping at the first variable
/// that cannot be read.
pub fn load_env(env: &Vec<(String, String)>) -> (r: Result<EnvVariables, EnvError>)
    ensures
        match r {
            Ok(c) => env_config(env@) == Ok::<EnvConfig, EnvFailure>(c@),
            Err(e) => env_config(env@) == Err::<EnvConfig, EnvFailure>(e@),
        },
{
    Ok(
        EnvVariables {
            audit_enabled_servers: load_vec_u64(env, "AUDIT_ENABLED_SERVERS")?,
            custom_status: load_var_string(env, "CUSTOM_STATUS")?,
            database_url: load_var_string(env, "DATABASE_URL")?,
            discord_token: load_var_string(env, "DISCORD_TOKEN")?,
            lottery_odds: load_var_u32(env, "LOTTERY_ODDS", 1, u32::MAX)?,
            queue_max_sounds: load_var_usize(env, "QUEUE_MAX_SOUNDS")?,
            reaction_target_ids: load_vec_u64(env, "REACTION_TARGET_IDS")?,
            reaction_target_odds: load_var_u32(env, "REACTION_TARGET_ODDS", 1, u32::MAX)?,
            redis_url: load_var_string(env, "REDIS_URL")?,
            soundcloud_client_id: load_var_string(env, "SOUNDCLOUD_CLIENT_ID")?,
            soundcloud_client_secret: load_var_string(env, "SOUNDCLOUD_CLIENT_SECRET")?,
            webdriver_port: load_var_u16(env, "WEBDRIVER_PORT")?,
        },
    )
}

/// The configuration that `env` describes; it must describe one (a caller
/// that cannot tell uses [`get_config_safe`]).
pub fn get_config(env: &Vec<(String, String)>) -> (c: EnvVariables)
    requires
        env_config(env@) is Ok,
    ensures
        env_config(env@) == Ok::<EnvConfig, EnvFailure>(c@),
{
    match load_env(env) {
        Ok(c) => c,
        Err(_) => vstd::pervasive::unreached(),
    }
}

/// The configuration that `env` describes, or why it cannot be read.
pub fn get_config_safe(env: &Vec<(String, String)>) -> (r: Result<EnvVariables, EnvError>)
    ensures
        match r {
            Ok(c) => env_config(env@) == Ok::<EnvConfig, EnvFailure>(c@),
            Err(e) => env_config(env@) == Err::<EnvConfig, EnvFailure>(e@),
        },
{
    load_env(env)
}

/// The lottery and reaction odds of any configuration that loads are at
/// least 1, so a draw of one chance in that many can always be made.
pub proof fn lemma_loaded_odds_positive(env: Seq<(String, String)>)
    requires
        env_config(env) is Ok,
    ensures
        env_config(env)->Ok_0.lottery_odds >= 1,
        env_config(env)->Ok_0.reaction_target_odds >= 1,
{
}

/// A configuration that loads holds, in each field, what the environment
/// variable of that field's name says: text variables as they are, numbers
/// read in decimal (the odds at least 1), and id lists read from their
/// comma-separated pieces.
pub proof fn lemma_config_reads_its_variables(env: Seq<(String, String)>)
    requires
        env_config(env) is Ok,
    ensures
        ({
            let c = env_config(env)->Ok_0;
            &&& env_lookup(env, "CUSTOM_STATUS"@) == Some(c.custom_status)
            &&& env_lookup(env, "DATABASE_URL"@) == Some(c.database_url)
            &&& env_lookup(env, "DISCORD_TOKEN"@) == Some(c.discord_token)
            &&& env_lookup(env, "REDIS_URL"@) == Some(c.redis_url)
            &&& env_lookup(env, "SOUNDCLOUD_CLIENT_ID"@) == Some(c.soundcloud_client_id)
            &&& env_lookup(env, "SOUNDCLOUD_CLIENT_SECRET"@) == Some(c.soundcloud_client_secret)
            &&& env_lookup(env, "LOTTERY_ODDS"@) matches Some(v) && parse_bounded(v, u32::MAX as nat)
                == Some(c.lottery_odds as nat) && c.lottery_odds >= 1
            &&& env_lookup(env, "REACTION_TARGET_ODDS"@) matches Some(v) && parse_bounded(
                v,
                u32::MAX as nat,
            ) == Some(c.reaction_target_odds as nat) && c.reaction_target_odds >= 1
            &&& env_lookup(env, "QUEUE_MAX_SOUNDS"@) matches Some(v) && parse_bounded(
                v,
                usize::MAX as nat,
            ) == Some(c.queue_max_sounds as nat)
            &&& env_lookup(env, "WEBDRIVER_PORT"@) matches Some(v) && parse_bounded(v, u16::MAX as nat)
                == Some(c.webdriver_port as nat)
            &&& env_lookup(env, "AUDIT_ENABLED_SERVERS"@) matches Some(v)
                && c.audit_enabled_servers == parse_pieces(split_on(v, ','))
            &&& env_lookup(env, "REACTION_TARGET_IDS"@) matches Some(v)
                && c.reaction_target_ids == parse_pieces(split_on(v, ','))
        }),
{
}

impl EnvError {
    /// The error message.
    pub fn message(&self) -> (s: String)
        ensures
            s@ == match self@ {
                EnvFailure::MissingVar(k) => "Could not find environment variable: "@ + k,
                EnvFailure::InvalidRangeVar(k, lo, hi) => "Environment variable '"@ + k
                    + "' not in valid range: "@ + crate::text::decimal(lo as nat) + " - "@
                    + crate::text::decimal(hi as nat),
            },
    {
        match self {
            EnvError::MissingVar(k) => {
                let mut s = owned("Could not find environment variable: ");
                append_str(&mut s, k.as_str());
                s
            },
            EnvError::InvalidRangeVar(k, lo, hi) => {
                let mut s = owned("Environment variable '");
                append_str(&mut s, k.as_str());
                append_str(&mut s, "' not in valid range: ");
                append_decimal(&mut s, *lo as u64);
                append_str(&mut s, " - ");
                append_decimal(&mut s, *hi as u64);
                s
            },
        }
    }
}

} // verus!
