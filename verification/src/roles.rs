//! The role commands: where they may be used, which role names they accept,
//! and their replies. The roles channel's name and the reaction emoji are
//! given by the caller.

use vstd::prelude::*;

use crate::text::{append_str, owned, str_eq};

verus! {

/// The reply when a role command is used outside the roles channel.
pub open spec fn wrong_channel_text(role_channel: Seq<char>) -> Seq<char> {
    "Command can only be used in #"@ + role_channel + " channel"@
}

/// Exec form of [`wrong_channel_text`].
pub fn wrong_channel_reply(role_channel: &str) -> (s: String)
    ensures
        s@ == wrong_channel_text(role_channel@),
{
    let mut s = owned("Command can only be used in #");
    append_str(&mut s, role_channel);
    append_str(&mut s, " channel");
    s
}

/// Whether a command runs in the roles channel: `channel_name` is the name
/// of its guild channel or thread, `None` for any other channel.
pub fn in_roles_channel(channel_name: Option<&str>, role_channel: &str) -> (b: bool)
    ensures
        b == (channel_name matches Some(n) && n@ == role_channel@),
{
    match channel_name {
        Some(n) => str_eq(n, role_channel),
        None => false,
    }
}

/// Whether a role name is refused: one that starts like a mention (`@` or `<`).
pub open spec fn role_name_refused(role: Seq<char>) -> bool {
    role.len() > 0 && (role[0] == '@' || role[0] == '<')
}

/// The reply when a new role cannot be made yet, before its guild is read:
/// outside the roles channel, or with a refused name. `None` when the
/// command goes on.
pub fn new_role_precheck(in_channel: bool, role: &str, role_channel: &str) -> (r: Option<String>)
    ensures
        !in_channel ==> (r matches Some(t) && t@ == wrong_channel_text(role_channel@)),
        in_channel && role_name_refused(role@) ==> (r matches Some(t) && t@ == "Invalid role name: '"@
            + role@ + "'"@),
        in_channel && !role_name_refused(role@) ==> r is None,
{
    if !in_channel {
        return Some(wrong_channel_reply(role_channel));
    }
    let refused = match role.chars().next() {
        Some(c) => c == '@' || c == '<',
        None => false,
    };
    if refused {
        let mut s = owned("Invalid role name: '");
        append_str(&mut s, role);
        append_str(&mut s, "'");
        Some(s)
    } else {
        None
    }
}

/// The reply when a new role cannot be made once its guild was looked up:
/// no guild, or a role of that name exists. `None` when the role is created.
pub fn new_role_guild_check(guild_found: bool, role_exists: bool, role: &str) -> (r: Option<String>)
    ensures
        !guild_found ==> (r matches Some(t) && t@ == "Could not find guild"@),
        guild_found && role_exists ==> (r matches Some(t) && t@ == "Role '"@ + role@
            + "' already exists"@),
        guild_found && !role_exists ==> r is None,
{
    if !guild_found {
        Some(owned("Could not find guild"))
    } else if role_exists {
        let mut s = owned("Role '");
        append_str(&mut s, role);
        append_str(&mut s, "' already exists");
        Some(s)
    } else {
        None
    }
}

/// The reply when an existing role cannot be posted once its guild was
/// looked up: no guild, or no role of that name in it. `None` when the role
/// is posted.
pub fn post_role_guild_check(guild_found: bool, role_found: bool, role_name: &str) -> (r: Option<
    String,
>)
    ensures
        !guild_found ==> (r matches Some(t) && t@ == "Could not find guild"@),
        guild_found && !role_found ==> (r matches Some(t) && t@ == "Could not find role '"@
            + role_name@ + "' in current guild"@),
        guild_found && role_found ==> r is None,
{
    if !guild_found {
        Some(owned("Could not find guild"))
    } else if !role_found {
        let mut s = owned("Could not find role '");
        append_str(&mut s, role_name);
        append_str(&mut s, "' in current guild");
        Some(s)
    } else {
        None
    }
}

/// The message that members react to, with `reaction`, to join `role_name`.
pub fn role_message(reaction: &str, role_name: &str) -> (s: String)
    ensures
        s@ == "React to this message with "@ + reaction@ + " to be added to role '"@ + role_name@
            + "'"@,
{
    let mut s = owned("React to this message with ");
    append_str(&mut s, reaction);
    append_str(&mut s, " to be added to role '");
    append_str(&mut s, role_name);
    append_str(&mut s, "'");
    s
}

} // verus!
