//! The keys under which users and bots are stored: the name of the server,
//! an underscore, and the identity on that server.

use vstd::prelude::*;
use vstd::string::StringExecFns;
use crate::utils::text::{occurs_at, occurs_in, split_once, splits_at_first};

verus! {

/// The key of an identity on a server.
pub open spec fn key_of(server: Seq<char>, id: Seq<char>) -> Seq<char> {
    server + "_"@ + id
}

/// Makes the key of an identity on a server.
pub fn make_key(server: &str, id: &str) -> (key: String)
    ensures
        key@ == key_of(server@, id@),
{
    let mut key = server.to_owned();
    key.append("_");
    key.append(id);
    key
}

/// The keys of the user who wrote a message and of the bot that took it,
/// where both are known.
pub fn get_user_bot_from(server: &str, user_id: Option<&str>, bot_id: Option<&str>) -> (keys: Option<
    (String, String),
>)
    ensures
        keys is Some <==> user_id is Some && bot_id is Some,
        keys matches Some(pair) ==> pair.0@ == key_of(server@, user_id->0@) && pair.1@ == key_of(
            server@,
            bot_id->0@,
        ),
{
    match user_id {
        None => None,
        Some(user_id) => match bot_id {
            None => None,
            Some(bot_id) => Some((make_key(server, user_id), make_key(server, bot_id))),
        },
    }
}

/// Why a message cannot be addressed.
#[derive(Clone, Copy, Debug, PartialEq, Eq, Structural)]
pub enum TargetError {
    /// The bot's key holds no underscore.
    InvalidBot,
    /// The user's key holds no underscore.
    InvalidUser,
}

/// Where a message goes: through which bot, to which user.
#[derive(Debug, PartialEq, Eq)]
pub struct Target {
    /// The server of the bot.
    pub server: String,
    /// The bot's identity on the server.
    pub bot_id: String,
    /// The user's identity on the server.
    pub user_id: String,
}

/// Whether `target` is where a message for `user` through `bot` goes: the
/// bot's key falls into server and identity at its first underscore, and
/// the user's identity is what follows the first underscore of the user's
/// key.
pub open spec fn is_target_of(target: Target, user: Seq<char>, bot: Seq<char>) -> bool {
    &&& splits_at_first(bot, "_"@, target.server@, target.bot_id@)
    &&& exists|user_server: Seq<char>| splits_at_first(user, "_"@, user_server, target.user_id@)
}

/// Works out where a message for `user` through `bot` goes. The bot's key
/// is looked at first.
pub fn message_target(user: &str, bot: &str) -> (target: Result<Target, TargetError>)
    ensures
        !occurs_in(bot@, "_"@) ==> target == Err::<Target, TargetError>(TargetError::InvalidBot),
        occurs_in(bot@, "_"@) && !occurs_in(user@, "_"@) ==> target == Err::<Target, TargetError>(
            TargetError::InvalidUser,
        ),
        occurs_in(bot@, "_"@) && occurs_in(user@, "_"@) ==> (target matches Ok(found)
            && is_target_of(found, user@, bot@)),
{
    proof {
        reveal_strlit("_");
    }
    match split_once(bot, "_") {
        None => Err(TargetError::InvalidBot),
        Some(bot_parts) => match split_once(user, "_") {
            None => Err(TargetError::InvalidUser),
            Some(user_parts) => {
                let found = Target {
                    server: bot_parts.0.to_owned(),
                    bot_id: bot_parts.1.to_owned(),
                    user_id: user_parts.1.to_owned(),
                };
                assert(splits_at_first(user@, "_"@, user_parts.0@, found.user_id@));
                Ok(found)
            },
        },
    }
}

/// A key made of a server's name without an underscore falls apart into
/// that name and the identity again.
pub proof fn law_key_round_trip(server: Seq<char>, id: Seq<char>, before: Seq<char>, after: Seq<char>)
    requires
        !server.contains('_'),
        splits_at_first(key_of(server, id), "_"@, before, after),
    ensures
        before == server,
        after == id,
{
    reveal_strlit("_");
    let key = key_of(server, id);
    let mark = "_"@;
    assert(mark.len() == 1 && mark[0] == '_');
    // The underscore behind the server's name is an occurrence, so the
    // first one is not behind it.
    assert(key.subrange(server.len() as int, server.len() as int + 1) =~= mark);
    assert(occurs_at(key, mark, server.len() as int));
    assert(before.len() <= server.len());
    // The first occurrence is an underscore of the key, and the server's
    // name has none.
    assert(key[before.len() as int] == (before + mark + after)[before.len() as int]);
    assert((before + mark + after)[before.len() as int] == '_');
    if before.len() < server.len() {
        assert(key[before.len() as int] == server[before.len() as int]);
        assert(server.contains('_'));
    }
    assert(before =~= key.subrange(0, before.len() as int));
    assert(server =~= key.subrange(0, server.len() as int));
    assert(after =~= key.subrange(before.len() as int + 1, key.len() as int));
    assert(id =~= key.subrange(server.len() as int + 1, key.len() as int));
}

} // verus!
