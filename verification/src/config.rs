//! The client's stored profile record: the last-used server and username and
//! a short most-recent-first list of past connections, plus the naming of the
//! files the store and the identity keys live in. Reading and writing the
//! files themselves is the caller's business; this module owns the record's
//! shape and update rules.

use vstd::prelude::*;

use crate::text::str_eq;
use vstd::string::StringExecFns;

verus! {

/// One remembered connection.
#[derive(Debug, Clone)]
pub struct ServerProfile {
    pub server: String,
    pub username: String,
}

/// The persisted record: recent profiles (most recent first, no duplicates,
/// at most `PROFILE_LIMIT`), and the last-used server and username.
#[derive(Debug, Clone)]
pub struct Config {
    pub profiles: Vec<ServerProfile>,
    pub last_server: Option<String>,
    pub last_username: Option<String>,
}

/// The most recent connections kept in the record.
pub const PROFILE_LIMIT: usize = 10;

impl Config {
    pub fn empty() -> (r: Config)
        ensures
            r.profiles@.len() == 0,
            r.last_server is None,
            r.last_username is None,
    {
        Config { profiles: Vec::new(), last_server: None, last_username: None }
    }

    /// The record's file under the given configuration directory.
    pub fn config_path(config_dir: &str) -> (r: String)
        ensures
            r@ == config_dir@ + "/config.json"@,
    {
        let mut out = config_dir.to_owned();
        out.append("/config.json");
        out
    }
}

/// Whether the given profile names the given connection.
pub open spec fn profile_is(p: ServerProfile, server: Seq<char>, username: Seq<char>) -> bool {
    p.server@ == server && p.username@ == username
}

/// The profiles that survive remembering a connection: those naming some
/// other connection.
pub open spec fn keeps(server: Seq<char>, username: Seq<char>) -> spec_fn(ServerProfile) -> bool {
    |p: ServerProfile| !profile_is(p, server, username)
}

/// The update rule for the recent-connection list: the connection just used
/// moves to the front, older entries for the same connection disappear, the
/// rest keep their order, and the list is cut to `PROFILE_LIMIT`.
pub open spec fn remembered_ok(
    old_profiles: Seq<ServerProfile>,
    server: Seq<char>,
    username: Seq<char>,
    r: Seq<ServerProfile>,
) -> bool {
    let kept = old_profiles.filter(keeps(server, username));
    &&& r.len() == if kept.len() + 1 <= PROFILE_LIMIT {
        (kept.len() + 1) as int
    } else {
        PROFILE_LIMIT as int
    }
    &&& r.len() >= 1
    &&& profile_is(r[0], server, username)
    &&& r.drop_first() =~= kept.take(r.len() - 1)
}

/// Moves the given connection to the front of the recent list, dropping any
/// older entry for it and cutting the list to `PROFILE_LIMIT`.
#[verifier::loop_isolation(false)]
pub fn remember_profile(profiles: &Vec<ServerProfile>, server: &str, username: &str) -> (r: Vec<
    ServerProfile,
>)
    ensures
        remembered_ok(profiles@, server@, username@, r@),
{
    let mut out: Vec<ServerProfile> = Vec::new();
    out.push(ServerProfile { server: server.to_owned(), username: username.to_owned() });
    let n = profiles.len();
    let mut i: usize = 0;
    while i < n
        invariant
            i <= n,
            out@.len() >= 1,
            profile_is(out@[0], server@, username@),
            out@.drop_first() =~= profiles@.take(i as int).filter(keeps(server@, username@)),
        decreases n - i,
    {
        let p = &profiles[i];
        let keep = !(str_eq(p.server.as_str(), server) && str_eq(p.username.as_str(), username));
        proof {
            assert(profiles@.take(i + 1).drop_last() =~= profiles@.take(i as int));
            assert(profiles@.take(i + 1).last() == profiles@[i as int]);
            broadcast use vstd::seq_lib::group_seq_properties;
        }
        let ghost pre = out@;
        if keep {
            out.push(
                ServerProfile { server: p.server.clone(), username: p.username.clone() },
            );
            proof {
                assert(out@.last() == profiles@[i as int]);
                assert(out@.drop_first() =~= pre.drop_first().push(profiles@[i as int]));
            }
        }
        proof {
            let f = keeps(server@, username@);
            assert(profiles@.take(i + 1).filter(f) =~= if f(profiles@[i as int]) {
                profiles@.take(i as int).filter(f).push(profiles@[i as int])
            } else {
                profiles@.take(i as int).filter(f)
            }) by {
                broadcast use vstd::seq_lib::group_seq_properties;
                reveal_with_fuel(Seq::filter, 2);
            }
        }
        i += 1;
    }
    proof {
        assert(profiles@.take(n as int) =~= profiles@);
    }
    let ghost full = out@;
    let ghost kept = profiles@.filter(keeps(server@, username@));
    proof {
        assert(full.drop_first() == kept);
        assert(full.len() == kept.len() + 1);
    }
    if out.len() > PROFILE_LIMIT {
        out.truncate(PROFILE_LIMIT);
        proof {
            assert(out@ == full.take(PROFILE_LIMIT as int));
            assert(out@.drop_first() =~= kept.take(out@.len() - 1));
        }
    } else {
        proof {
            assert(out@.drop_first() =~= kept.take(out@.len() - 1));
        }
    }
    out
}

/// Relies on char::is_alphanumeric: whether the character counts as a letter
/// or digit (a property of the character alone).
pub uninterp spec fn char_is_alnum(c: char) -> bool;

/// Relies on char::is_alphanumeric, which the key-file naming goes by.
#[verifier::external_body]
fn is_alphanumeric_char(c: char) -> (r: bool)
    ensures
        r == char_is_alnum(c),
{
    c.is_alphanumeric()
}

/// How a username is sanitized for use in a file name: every character that
/// is not alphanumeric becomes an underscore.
pub open spec fn sanitized(user: Seq<char>) -> Seq<char> {
    user.map_values(|c: char| if char_is_alnum(c) { c } else { '_' })
}

/// The key file's name for a username: `identity_<sanitized>.key`, or the
/// bare historical `identity.key` for an empty username.
pub open spec fn key_file_name(user: Seq<char>) -> Seq<char> {
    if user.len() == 0 {
        "identity.key"@
    } else {
        "identity_"@ + sanitized(user) + ".key"@
    }
}

/// The identity key file for a username, under the given configuration
/// directory.
#[verifier::loop_isolation(false)]
pub fn key_path(config_dir: &str, username: &str) -> (r: String)
    ensures
        r@ == config_dir@ + "/"@ + key_file_name(username@),
{
    let cs = crate::text::chars_of(username);
    let mut out = config_dir.to_owned();
    out.append("/");
    if cs.len() == 0 {
        out.append("identity.key");
        return out;
    }
    out.append("identity_");
    let ghost base = config_dir@ + "/"@ + "identity_"@;
    let n = cs.len();
    let mut i: usize = 0;
    while i < n
        invariant
            i <= n,
            out@ == base + sanitized(username@.take(i as int)),
        decreases n - i,
    {
        let c = cs[i];
        if is_alphanumeric_char(c) {
            crate::text::push_char(&mut out, c);
        } else {
            crate::text::push_char(&mut out, '_');
        }
        proof {
            assert(sanitized(username@.take(i + 1)) =~= sanitized(username@.take(i as int)).push(
                if char_is_alnum(username@[i as int]) {
                    username@[i as int]
                } else {
                    '_'
                },
            ));
        }
        i += 1;
    }
    proof {
        assert(username@.take(n as int) =~= username@);
    }
    out.append(".key");
    out
}

} // verus!
