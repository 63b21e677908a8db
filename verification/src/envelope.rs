//! The response envelope a backend process emits on its standard
//! output, and its classification into the caller's outcome.

use vstd::prelude::*;
use vstd::string::StringExecFns;

verus! {

/// One decoded backend response: `ok` discriminates success from
/// failure, `data` carries the success value, `error` carries a
/// failure message.
pub struct Envelope {
    pub ok: bool,
    pub data: Option<serde_json::Value>,
    pub error: Option<String>,
}

/// The text of an optional message.
pub open spec fn option_text(o: Option<String>) -> Option<Seq<char>> {
    match o {
        Some(s) => Some(s@),
        None => None,
    }
}

/// The failure message of an `ok = false` envelope: its `error`
/// member when present, else the trimmed stderr text when non-empty,
/// else a fixed sentinel.
pub open spec fn failure_message(error: Option<Seq<char>>, stderr_trimmed: Seq<char>) -> Seq<
    char,
> {
    if error is Some {
        error->0
    } else if stderr_trimmed.len() > 0 {
        stderr_trimmed
    } else {
        "Unknown bridge error"@
    }
}

/// [`failure_message`], read off one envelope.
pub open spec fn failure_text(env: Envelope, stderr_trimmed: Seq<char>) -> Seq<char> {
    failure_message(option_text(env.error), stderr_trimmed)
}

/// Turns one envelope into the caller's outcome. On success the `data`
/// value is handed back exactly as it stands, `None` meaning an
/// explicit null result; on failure the message follows
/// [`failure_text`], so a present `error` field wins over any stderr
/// text.
pub fn classify_envelope(env: Envelope, stderr_trimmed: &str) -> (r: Result<
    Option<serde_json::Value>,
    String,
>)
    ensures
        env.ok ==> r == Result::<Option<serde_json::Value>, String>::Ok(env.data),
        !env.ok ==> r is Err && r->Err_0@ == failure_text(env, stderr_trimmed@),
{
    if env.ok {
        Ok(env.data)
    } else {
        match env.error {
            Some(message) => Err(message),
            None => {
                if stderr_trimmed.is_empty() {
                    Err(String::from_str("Unknown bridge error"))
                } else {
                    Err(stderr_trimmed.to_owned())
                }
            },
        }
    }
}

} // verus!
