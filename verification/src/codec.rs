//! Tolerant decoding of inbound lines: from a parsed JSON tree to the typed
//! messages of the protocol. A message whose shape does not fit is rejected
//! as a whole (the caller drops the line); unknown extra fields are ignored.

use vstd::prelude::*;

use crate::clock::TimestampValue;
use crate::json::JsonVal;
use crate::json::obj_get;
use crate::json::obj_lookup;
use crate::wire::AuthResponse;
use crate::wire::Challenge;
use crate::wire::ServerMsg;

verus! {

/// An optional string field is acceptable when absent, null, or a string.
pub open spec fn opt_text_ok(fs: Seq<(String, JsonVal)>, name: Seq<char>) -> bool {
    match obj_lookup(fs, name) {
        None => true,
        Some(v) => v is Text || v is Null,
    }
}

/// The value of an optional string field, when it is present as a string.
pub open spec fn opt_text_val(fs: Seq<(String, JsonVal)>, name: Seq<char>) -> Option<Seq<char>> {
    match obj_lookup(fs, name) {
        Some(v) => match v {
            JsonVal::Text(s) => Some(s@),
            _ => None,
        },
        None => None,
    }
}

/// How a decoded optional string field relates to the document.
pub open spec fn opt_text_matches(
    o: Option<String>,
    fs: Seq<(String, JsonVal)>,
    name: Seq<char>,
) -> bool {
    match opt_text_val(fs, name) {
        Some(s) => o matches Some(x) && x@ == s,
        None => o is None,
    }
}

/// An optional list-of-names field is acceptable when absent, null, or an
/// array whose elements are all strings.
pub open spec fn opt_strarr_ok(fs: Seq<(String, JsonVal)>, name: Seq<char>) -> bool {
    match obj_lookup(fs, name) {
        None => true,
        Some(v) => match v {
            JsonVal::Null => true,
            JsonVal::Arr(a) => forall|i: int| 0 <= i < a@.len() ==> a@[i] is Text,
            _ => false,
        },
    }
}

pub open spec fn text_of(v: JsonVal) -> Seq<char> {
    match v {
        JsonVal::Text(s) => s@,
        _ => Seq::empty(),
    }
}

/// The value of an optional list-of-names field, when present as an array.
pub open spec fn opt_strarr_val(fs: Seq<(String, JsonVal)>, name: Seq<char>) -> Option<
    Seq<Seq<char>>,
> {
    match obj_lookup(fs, name) {
        Some(v) => match v {
            JsonVal::Arr(a) => Some(a@.map_values(|x: JsonVal| text_of(x))),
            _ => None,
        },
        None => None,
    }
}

/// The string elements of an array, in order; other elements are skipped.
pub open spec fn texts_of(a: Seq<JsonVal>) -> Seq<Seq<char>>
    decreases a.len(),
{
    if a.len() == 0 {
        Seq::empty()
    } else if a.last() is Text {
        texts_of(a.drop_last()).push(text_of(a.last()))
    } else {
        texts_of(a.drop_last())
    }
}

/// The user count read from a numeric `users` field.
pub open spec fn users_count_val(fs: Seq<(String, JsonVal)>) -> Option<u64> {
    match obj_lookup(fs, "users"@) {
        Some(v) => match v {
            JsonVal::Num { int_val: _, uint_val } => uint_val,
            _ => None,
        },
        None => None,
    }
}

/// The name list read from an array-valued `users` field: its string
/// elements, non-strings skipped.
pub open spec fn users_arr_val(fs: Seq<(String, JsonVal)>) -> Option<Seq<Seq<char>>> {
    match obj_lookup(fs, "users"@) {
        Some(v) => match v {
            JsonVal::Arr(a) => Some(texts_of(a@)),
            _ => None,
        },
        None => None,
    }
}

/// The name list the message carries, folding the aliased presence fields:
/// of `users` (as an array), `online`, `names`, `list` and `user_list`, the
/// last-applicable field wins. This precedence mirrors the order in which
/// the fields were historically applied; it is a preserved quirk, not a
/// design choice.
pub open spec fn names_expected(fs: Seq<(String, JsonVal)>) -> Option<Seq<Seq<char>>> {
    if opt_strarr_val(fs, "user_list"@) is Some {
        opt_strarr_val(fs, "user_list"@)
    } else if opt_strarr_val(fs, "list"@) is Some {
        opt_strarr_val(fs, "list"@)
    } else if opt_strarr_val(fs, "names"@) is Some {
        opt_strarr_val(fs, "names"@)
    } else if opt_strarr_val(fs, "online"@) is Some {
        opt_strarr_val(fs, "online"@)
    } else {
        users_arr_val(fs)
    }
}

pub open spec fn strvec_view(v: Vec<String>) -> Seq<Seq<char>> {
    v@.map_values(|s: String| s@)
}

pub open spec fn names_match(o: Option<Vec<String>>, fs: Seq<(String, JsonVal)>) -> bool {
    match names_expected(fs) {
        Some(ns) => o matches Some(v) && strvec_view(v) == ns,
        None => o is None,
    }
}

pub open spec fn alias_present(fs: Seq<(String, JsonVal)>, name: Seq<char>) -> int {
    if obj_lookup(fs, name) is Some {
        1
    } else {
        0
    }
}

/// How many of the historical timestamp field names are present. More than
/// one is ambiguous and rejects the message, as a duplicate field would.
pub open spec fn ts_alias_total(fs: Seq<(String, JsonVal)>) -> int {
    alias_present(fs, "timestamp"@) + alias_present(fs, "time"@) + alias_present(fs, "ts"@)
        + alias_present(fs, "created"@) + alias_present(fs, "created_at"@) + alias_present(
        fs,
        "datetime"@,
    ) + alias_present(fs, "date"@)
}

/// The timestamp field, under whichever of its names is present.
pub open spec fn ts_field(fs: Seq<(String, JsonVal)>) -> Option<JsonVal> {
    if obj_lookup(fs, "timestamp"@) is Some {
        obj_lookup(fs, "timestamp"@)
    } else if obj_lookup(fs, "time"@) is Some {
        obj_lookup(fs, "time"@)
    } else if obj_lookup(fs, "ts"@) is Some {
        obj_lookup(fs, "ts"@)
    } else if obj_lookup(fs, "created"@) is Some {
        obj_lookup(fs, "created"@)
    } else if obj_lookup(fs, "created_at"@) is Some {
        obj_lookup(fs, "created_at"@)
    } else if obj_lookup(fs, "datetime"@) is Some {
        obj_lookup(fs, "datetime"@)
    } else {
        obj_lookup(fs, "date"@)
    }
}

/// How a decoded timestamp relates to the document: a string field is kept
/// as text, a number with an i64 reading as an epoch value, anything else
/// (including a number with no i64 reading) is treated as absent.
pub open spec fn ts_matches(t: TimestampValue, fs: Seq<(String, JsonVal)>) -> bool {
    match ts_field(fs) {
        None => t is Absent,
        Some(v) => match v {
            JsonVal::Text(s) => t matches TimestampValue::Text(x) && x@ == s@,
            JsonVal::Num { int_val, uint_val: _ } => match int_val {
                Some(n) => t matches TimestampValue::Epoch(m) && m == n,
                None => t is Absent,
            },
            _ => t is Absent,
        },
    }
}

/// Whether an object has the shape of a tolerated server message.
pub open spec fn server_msg_ok(fs: Seq<(String, JsonVal)>) -> bool {
    &&& opt_text_val(fs, "type"@) is Some
    &&& opt_text_ok(fs, "from"@)
    &&& opt_text_ok(fs, "text"@)
    &&& opt_text_ok(fs, "action"@)
    &&& opt_text_ok(fs, "data"@)
    &&& opt_strarr_ok(fs, "online"@)
    &&& opt_strarr_ok(fs, "names"@)
    &&& opt_strarr_ok(fs, "list"@)
    &&& opt_strarr_ok(fs, "user_list"@)
    &&& ts_alias_total(fs) <= 1
}

/// How a decoded server message relates to the document it came from.
pub open spec fn server_msg_matches(m: ServerMsg, fs: Seq<(String, JsonVal)>) -> bool {
    &&& opt_text_val(fs, "type"@) == Some(m.msg_type@)
    &&& opt_text_matches(m.from, fs, "from"@)
    &&& opt_text_matches(m.text, fs, "text"@)
    &&& opt_text_matches(m.action, fs, "action"@)
    &&& opt_text_matches(m.data, fs, "data"@)
    &&& ts_matches(m.timestamp, fs)
    &&& m.users_count == users_count_val(fs)
    &&& names_match(m.user_names, fs)
}

fn get_opt_text(fs: &Vec<(String, JsonVal)>, name: &str) -> (r: Result<Option<String>, ()>)
    ensures
        match r {
            Ok(o) => opt_text_ok(fs@, name@) && opt_text_matches(o, fs@, name@),
            Err(_) => !opt_text_ok(fs@, name@),
        },
{
    match obj_get(fs, name) {
        None => Ok(None),
        Some(v) => match v {
            JsonVal::Null => Ok(None),
            JsonVal::Text(s) => Ok(Some(s.clone())),
            _ => Err(()),
        },
    }
}

#[verifier::loop_isolation(false)]
fn get_opt_strarr(fs: &Vec<(String, JsonVal)>, name: &str) -> (r: Result<Option<Vec<String>>, ()>)
    ensures
        match r {
            Ok(o) => opt_strarr_ok(fs@, name@) && match opt_strarr_val(fs@, name@) {
                Some(ns) => o matches Some(v) && strvec_view(v) == ns,
                None => o is None,
            },
            Err(_) => !opt_strarr_ok(fs@, name@),
        },
{
    match obj_get(fs, name) {
        None => Ok(None),
        Some(v) => match v {
            JsonVal::Null => Ok(None),
            JsonVal::Arr(a) => {
                let n = a.len();
                let mut out: Vec<String> = Vec::new();
                let mut i: usize = 0;
                while i < n
                    invariant
                        n == a@.len(),
                        i <= n,
                        out@.len() == i,
                        forall|j: int| 0 <= j < i ==> a@[j] is Text,
                        forall|j: int| 0 <= j < i ==> #[trigger] out@[j]@ == text_of(a@[j]),
                    decreases n - i,
                {
                    match &a[i] {
                        JsonVal::Text(s) => {
                            out.push(s.clone());
                        },
                        _ => {
                            proof {
                                assert(!(a@[i as int] is Text));
                            }
                            return Err(());
                        },
                    }
                    i += 1;
                }
                proof {
                    assert(strvec_view(out) =~~= a@.map_values(|x: JsonVal| text_of(x)));
                }
                Ok(Some(out))
            },
            _ => Err(()),
        },
    }
}

/// Reads the `users` field: a nonnegative integer becomes a count, an array
/// becomes the list of its string elements, anything else is ignored.
#[verifier::loop_isolation(false)]
fn get_users(fs: &Vec<(String, JsonVal)>) -> (r: (Option<u64>, Option<Vec<String>>))
    ensures
        r.0 == users_count_val(fs@),
        match users_arr_val(fs@) {
            Some(ns) => r.1 matches Some(v) && strvec_view(v) == ns,
            None => r.1 is None,
        },
{
    match obj_get(fs, "users") {
        None => (None, None),
        Some(v) => match v {
            JsonVal::Num { int_val: _, uint_val } => (*uint_val, None),
            JsonVal::Arr(a) => {
                let n = a.len();
                let mut out: Vec<String> = Vec::new();
                let mut i: usize = 0;
                while i < n
                    invariant
                        n == a@.len(),
                        i <= n,
                        strvec_view(out) == texts_of(a@.take(i as int)),
                    decreases n - i,
                {
                    proof {
                        assert(a@.take(i + 1).drop_last() =~= a@.take(i as int));
                        assert(a@.take(i + 1).last() == a@[i as int]);
                    }
                    match &a[i] {
                        JsonVal::Text(s) => {
                            out.push(s.clone());
                            proof {
                                assert(strvec_view(out) =~~= texts_of(a@.take(i as int)).push(
                                    s@,
                                ));
                            }
                        },
                        _ => {},
                    }
                    i += 1;
                }
                proof {
                    assert(a@.take(n as int) =~= a@);
                }
                (None, Some(out))
            },
            _ => (None, None),
        },
    }
}

/// Decodes a server message from a parsed line. A document that is not an
/// object, or whose fields do not fit the tolerated shape, yields nothing:
/// the caller drops such a line and the stream goes on.
pub fn decode_server_msg(doc: &JsonVal) -> (r: Option<ServerMsg>)
    ensures
        match doc {
            JsonVal::Obj(fs) => {
                &&& (r is Some <==> server_msg_ok(fs@))
                &&& match r {
                    Some(m) => server_msg_matches(m, fs@),
                    None => true,
                }
            },
            _ => r is None,
        },
{
    let fs = match doc {
        JsonVal::Obj(fs) => fs,
        _ => {
            return None;
        },
    };
    let msg_type = match get_opt_text(fs, "type") {
        Ok(Some(t)) => t,
        _ => {
            return None;
        },
    };
    let from = match get_opt_text(fs, "from") {
        Ok(o) => o,
        Err(_) => {
            return None;
        },
    };
    let text = match get_opt_text(fs, "text") {
        Ok(o) => o,
        Err(_) => {
            return None;
        },
    };
    let action = match get_opt_text(fs, "action") {
        Ok(o) => o,
        Err(_) => {
            return None;
        },
    };
    let data = match get_opt_text(fs, "data") {
        Ok(o) => o,
        Err(_) => {
            return None;
        },
    };
    let online = match get_opt_strarr(fs, "online") {
        Ok(o) => o,
        Err(_) => {
            return None;
        },
    };
    let names = match get_opt_strarr(fs, "names") {
        Ok(o) => o,
        Err(_) => {
            return None;
        },
    };
    let list = match get_opt_strarr(fs, "list") {
        Ok(o) => o,
        Err(_) => {
            return None;
        },
    };
    let user_list = match get_opt_strarr(fs, "user_list") {
        Ok(o) => o,
        Err(_) => {
            return None;
        },
    };
    let (users_count, users_names) = get_users(fs);

    // Scan the aliases in precedence order; more than one present is
    // ambiguous and rejects the message.
    let mut alias_hits: usize = 0;
    let mut ts_val: Option<&JsonVal> = None;
    if let Some(v) = obj_get(fs, "timestamp") {
        alias_hits += 1;
        ts_val = Some(v);
    }
    if let Some(v) = obj_get(fs, "time") {
        alias_hits += 1;
        if ts_val.is_none() {
            ts_val = Some(v);
        }
    }
    if let Some(v) = obj_get(fs, "ts") {
        alias_hits += 1;
        if ts_val.is_none() {
            ts_val = Some(v);
        }
    }
    if let Some(v) = obj_get(fs, "created") {
        alias_hits += 1;
        if ts_val.is_none() {
            ts_val = Some(v);
        }
    }
    if let Some(v) = obj_get(fs, "created_at") {
        alias_hits += 1;
        if ts_val.is_none() {
            ts_val = Some(v);
        }
    }
    if let Some(v) = obj_get(fs, "datetime") {
        alias_hits += 1;
        if ts_val.is_none() {
            ts_val = Some(v);
        }
    }
    if let Some(v) = obj_get(fs, "date") {
        alias_hits += 1;
        if ts_val.is_none() {
            ts_val = Some(v);
        }
    }
    if alias_hits > 1 {
        return None;
    }

    let timestamp = match ts_val {
        None => TimestampValue::Absent,
        Some(v) => match v {
            JsonVal::Text(s) => TimestampValue::Text(s.clone()),
            JsonVal::Num { int_val: Some(n), uint_val: _ } => TimestampValue::Epoch(*n),
            _ => TimestampValue::Absent,
        },
    };

    let user_names = if user_list.is_some() {
        user_list
    } else if list.is_some() {
        list
    } else if names.is_some() {
        names
    } else if online.is_some() {
        online
    } else {
        users_names
    };

    Some(
        ServerMsg {
            msg_type,
            from,
            text,
            timestamp,
            users_count,
            user_names,
            action,
            data,
        },
    )
}

/// Whether an object has the shape of a challenge: `type` and `nonce`
/// present as strings.
pub open spec fn challenge_ok(fs: Seq<(String, JsonVal)>) -> bool {
    opt_text_val(fs, "type"@) is Some && opt_text_val(fs, "nonce"@) is Some
}

/// Decodes the handshake challenge.
pub fn decode_challenge(doc: &JsonVal) -> (r: Option<Challenge>)
    ensures
        match doc {
            JsonVal::Obj(fs) => {
                &&& (r is Some <==> challenge_ok(fs@))
                &&& match r {
                    Some(c) => Some(c.msg_type@) == opt_text_val(fs@, "type"@) && Some(c.nonce@)
                        == opt_text_val(fs@, "nonce"@),
                    None => true,
                }
            },
            _ => r is None,
        },
{
    let fs = match doc {
        JsonVal::Obj(fs) => fs,
        _ => {
            return None;
        },
    };
    let msg_type = match get_opt_text(fs, "type") {
        Ok(Some(t)) => t,
        _ => {
            return None;
        },
    };
    let nonce = match get_opt_text(fs, "nonce") {
        Ok(Some(t)) => t,
        _ => {
            return None;
        },
    };
    Some(Challenge { msg_type, nonce })
}

/// Whether an object has the shape of an authentication response: `type`
/// present as a string, `reason` absent, null or a string.
pub open spec fn auth_resp_ok(fs: Seq<(String, JsonVal)>) -> bool {
    opt_text_val(fs, "type"@) is Some && opt_text_ok(fs, "reason"@)
}

/// Decodes the server's answer to a credential message.
pub fn decode_auth_response(doc: &JsonVal) -> (r: Option<AuthResponse>)
    ensures
        match doc {
            JsonVal::Obj(fs) => {
                &&& (r is Some <==> auth_resp_ok(fs@))
                &&& match r {
                    Some(a) => Some(a.msg_type@) == opt_text_val(fs@, "type"@) && opt_text_matches(
                        a.reason,
                        fs@,
                        "reason"@,
                    ),
                    None => true,
                }
            },
            _ => r is None,
        },
{
    let fs = match doc {
        JsonVal::Obj(fs) => fs,
        _ => {
            return None;
        },
    };
    let msg_type = match get_opt_text(fs, "type") {
        Ok(Some(t)) => t,
        _ => {
            return None;
        },
    };
    let reason = match get_opt_text(fs, "reason") {
        Ok(o) => o,
        Err(_) => {
            return None;
        },
    };
    Some(AuthResponse { msg_type, reason })
}

} // verus!
