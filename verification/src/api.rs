//! Access to the HTTP API: every route asks for the master API key, and the system
//! command route runs only a few read-only commands.
use vstd::prelude::*;
use crate::text::{append_chars, chars_of, has_prefix, same_text, starts_with};

verus! {

/// The key every API request must carry.
pub const MASTER_API_KEY: &'static str = "Invertedskynet2$";

/// The key a request carries: its `X-API-Key` header, else its `Authorization` header
/// with the `Bearer ` prefix removed (a header that is not text counts as absent).
pub open spec fn request_key(x_api_key: Option<Seq<char>>, authorization: Option<Seq<char>>) -> Option<Seq<char>> {
    match x_api_key {
        Some(k) => Some(k),
        None => match authorization {
            Some(a) => if has_prefix(a, "Bearer "@) {
                Some(a.skip(7))
            } else {
                None
            },
            None => None,
        },
    }
}

/// The view of an optional string.
pub open spec fn opt_text(o: Option<String>) -> Option<Seq<char>> {
    match o {
        Some(s) => Some(s@),
        None => None,
    }
}

/// The key a request carries, from its two headers.
pub fn api_key(x_api_key: Option<String>, authorization: Option<String>) -> (k: Option<String>)
    ensures
        opt_text(k) == request_key(opt_text(x_api_key), opt_text(authorization)),
{
    proof {
        reveal_strlit("Bearer ");
    }
    match x_api_key {
        Some(k) => Some(k),
        None => match authorization {
            Some(a) => {
                if starts_with(a.as_str(), "Bearer ") {
                    let v = chars_of(a.as_str());
                    let mut k = String::new();
                    append_chars(&mut k, &v, 7, v.len());
                    assert(k@ =~= a@.skip(7));
                    Some(k)
                } else {
                    None
                }
            },
            None => None,
        },
    }
}

/// A request is let through exactly when the key it carries is the master key.
pub fn authorize(x_api_key: Option<String>, authorization: Option<String>) -> (ok: bool)
    ensures
        ok == (request_key(opt_text(x_api_key), opt_text(authorization)) == Some(MASTER_API_KEY@)),
{
    match api_key(x_api_key, authorization) {
        Some(k) => same_text(k.as_str(), MASTER_API_KEY),
        None => false,
    }
}


/// The commands the system command route runs: uptime, disk and memory use, and the
/// process list.
pub open spec fn allowed_commands() -> Seq<Seq<char>> {
    seq!["uptime"@, "df"@, "free"@, "ps"@, "top -b -n 1"@]
}

/// Whether the system command route runs `command`: exactly when it is one of the
/// allowed commands, letter for letter.
pub fn is_allowed_command(command: &str) -> (ok: bool)
    ensures
        ok == allowed_commands().contains(command@),
{
    proof {
        reveal_strlit("uptime");
        reveal_strlit("df");
        reveal_strlit("free");
        reveal_strlit("ps");
        reveal_strlit("top -b -n 1");
    }
    let ok = same_text(command, "uptime") || same_text(command, "df") || same_text(command, "free")
        || same_text(command, "ps") || same_text(command, "top -b -n 1");
    proof {
        let a = allowed_commands();
        if ok {
            if command@ == "uptime"@ { assert(a[0] == command@); }
            else if command@ == "df"@ { assert(a[1] == command@); }
            else if command@ == "free"@ { assert(a[2] == command@); }
            else if command@ == "ps"@ { assert(a[3] == command@); }
            else { assert(a[4] == command@); }
        } else {
            assert forall|i: int| 0 <= i < a.len() implies a[i] != command@ by {}
        }
    }
    ok
}

} // verus!
