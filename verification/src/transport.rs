//! The bridge transport: one request/response exchange with the
//! backend process, minus the spawn itself. The embedding application
//! resolves the configuration, runs the process, and hands the
//! captured streams to [`interpret_output`].

use vstd::prelude::*;
use vstd::string::StringExecFns;
use crate::envelope::{classify_envelope, failure_message, option_text};
use crate::jsonio;
use crate::strings;

verus! {

/// The failure message when the backend wrote nothing to stdout: the
/// trimmed stderr text when non-empty, else a fixed sentinel.
pub open spec fn empty_failure_text(stderr_trimmed: Seq<char>) -> Seq<char> {
    if stderr_trimmed.len() == 0 {
        "Bridge returned empty response"@
    } else {
        stderr_trimmed
    }
}

/// Whether the text is one JSON document of the envelope shape.
pub open spec fn envelope_wf(s: Seq<char>) -> bool {
    jsonio::json_wf(s) && jsonio::env_shape_ok(s)
}

/// What decoding one pair of captured streams guarantees, with
/// `so`/`se` the trimmed stream texts: empty `so` fails with
/// [`empty_failure_text`] of `se`; `so` that is not one JSON document
/// of the envelope shape fails with the prefixed parse message; an
/// `ok = true` envelope succeeds, with a value exactly when its
/// `data` member is present; an `ok = false` envelope fails with
/// [`failure_message`] of its `error` member and `se`. So for
/// well-formed stdout the outcome is a function of the stdout text
/// and, on the error fallback alone, the stderr text.
pub open spec fn decode_post(
    stdout: Seq<char>,
    stderr: Seq<char>,
    r: Result<Option<serde_json::Value>, String>,
) -> bool {
    let so = strings::trim_text(stdout);
    let se = strings::trim_text(stderr);
    &&& (so.len() == 0 ==> r is Err && r->Err_0@ == empty_failure_text(se))
    &&& (so.len() > 0 && !envelope_wf(so) ==> r is Err && r->Err_0@ == "Invalid bridge JSON: "@
        + jsonio::env_parse_err_of(so))
    &&& (so.len() > 0 && envelope_wf(so) && jsonio::env_ok_of(so) ==> r is Ok && ((r->Ok_0
        is Some) <==> !jsonio::env_data_absent(so)))
    &&& (so.len() > 0 && envelope_wf(so) && !jsonio::env_ok_of(so) ==> r is Err && r->Err_0@
        == failure_message(jsonio::env_err_of(so), se))
}

/// Wraps a decode failure's detail in the fixed parse-failure prefix.
fn prefix_parse_error(detail: String) -> (r: String)
    ensures
        r@ == "Invalid bridge JSON: "@ + detail@,
{
    String::from_str("Invalid bridge JSON: ").concat(detail.as_str())
}

/// Decodes one backend exchange from its captured stream texts.
///
/// Empty trimmed stdout is a failure whose message is the trimmed
/// stderr text, or the empty-response sentinel when stderr is empty
/// too. Non-empty stdout is parsed as one envelope; malformed text
/// fails with a prefixed parse message, and a well-formed envelope is
/// classified by [`classify_envelope`].
pub fn decode_bridge_output(stdout: &str, stderr: &str) -> (r: Result<
    Option<serde_json::Value>,
    String,
>)
    ensures
        decode_post(stdout@, stderr@, r),
{
    let se = strings::trim_chars(&strings::str_chars(stderr));
    let so = strings::trim_chars(&strings::str_chars(stdout));
    if so.len() == 0 {
        if se.len() == 0 {
            Err(String::from_str("Bridge returned empty response"))
        } else {
            Err(strings::chars_string(&se))
        }
    } else {
        let so_text = strings::chars_string(&so);
        let se_text = strings::chars_string(&se);
        match jsonio::parse_envelope(so_text.as_str()) {
            Err(detail) => Err(prefix_parse_error(detail)),
            Ok(env) => {
                proof {
                    assert(option_text(env.error) == jsonio::env_err_of(so_text@));
                }
                classify_envelope(env, se_text.as_str())
            },
        }
    }
}

/// Decodes one backend exchange from its captured byte streams:
/// stdout must be valid UTF-8 or the call fails with the decode
/// error's text; stderr is decoded lossily, so invalid stderr bytes
/// never cause a failure by themselves.
pub fn interpret_output(stdout: Vec<u8>, stderr: Vec<u8>) -> (r: Result<
    Option<serde_json::Value>,
    String,
>)
    ensures
        strings::utf8_decode(stdout@) is None ==> r is Err && r->Err_0@ == strings::utf8_err_of(
            stdout@,
        ),
        strings::utf8_decode(stdout@) is Some ==> decode_post(
            strings::utf8_decode(stdout@)->0,
            strings::lossy_utf8(stderr@),
            r,
        ),
{
    let out_text = match strings::utf8_string(stdout) {
        Ok(s) => s,
        Err(m) => {
            return Err(m);
        },
    };
    let err_text = strings::utf8_lossy_string(stderr);
    decode_bridge_output(out_text.as_str(), err_text.as_str())
}

/// The backend executable to run: the configured name when one is
/// set, else the platform default `node`.
pub fn node_binary(configured: Option<String>) -> (r: String)
    ensures
        configured is Some ==> r == configured->0,
        configured is None ==> r@ == "node"@,
{
    match configured {
        Some(name) => name,
        None => String::from_str("node"),
    }
}

/// The installation-relative path of the backend entry script, laid
/// out beside the host application's manifest directory.
pub fn bridge_script_path(manifest_dir: &str) -> (r: String)
    ensures
        r@ == manifest_dir@ + "/../backend/desktop-bridge.cjs"@,
{
    manifest_dir.to_owned().concat("/../backend/desktop-bridge.cjs")
}

/// The transport-level failure message when the backend process could
/// not be started at all.
pub fn spawn_failure_message(detail: &str) -> (r: String)
    ensures
        r@ == "Failed to run bridge: "@ + detail@,
{
    String::from_str("Failed to run bridge: ").concat(detail)
}

} // verus!
