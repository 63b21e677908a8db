//! The command dispatcher: the closed set of named operations the
//! host exposes, each a thin shape-adapter over the transport. Every
//! operation has a fixed wire action name and packs its arguments
//! into one JSON object whose field names are part of the wire
//! contract.

use vstd::prelude::*;
use vstd::string::StringExecFns;
use crate::json::{
    JsonValue, fields_text, member_text, quoted, text_of, to_json_text, wf, wf_fields,
};

verus! {

/// One host-facing operation together with its arguments.
pub enum Operation {
    ImportToken { base_url: String, token: String },
    Connect,
    SetMode { mode: String },
    Disconnect,
    UpdateDisguise {
        base_url: String,
        server_id: String,
        admin_api_key: String,
        disguise: JsonValue,
    },
    Status,
}

/// The fixed wire action name of each operation.
pub open spec fn action_text(op: Operation) -> Seq<char> {
    match op {
        Operation::ImportToken { .. } => "importToken"@,
        Operation::Connect => "connect"@,
        Operation::SetMode { .. } => "setMode"@,
        Operation::Disconnect => "disconnect"@,
        Operation::UpdateDisguise { .. } => "updateDisguise"@,
        Operation::Status => "status"@,
    }
}

/// The payload text of each operation: every operation sends one
/// JSON object with the documented field names in a fixed order, the
/// argument-less ones an empty object.
pub open spec fn payload_text(op: Operation) -> Seq<char> {
    match op {
        Operation::ImportToken { base_url, token } => seq!['{'] + (member_text(
            "baseUrl"@,
            quoted(base_url@),
        ) + seq![','] + member_text("token"@, quoted(token@))) + seq!['}'],
        Operation::Connect => seq!['{'] + seq!['}'],
        Operation::SetMode { mode } => seq!['{'] + member_text("mode"@, quoted(mode@)) + seq!['}'],
        Operation::Disconnect => seq!['{'] + seq!['}'],
        Operation::UpdateDisguise { base_url, server_id, admin_api_key, disguise } => seq!['{'] + (
        member_text("baseUrl"@, quoted(base_url@)) + seq![','] + member_text(
            "serverId"@,
            quoted(server_id@),
        ) + seq![','] + member_text("adminApiKey"@, quoted(admin_api_key@)) + seq![',']
            + member_text("disguise"@, text_of(disguise))) + seq!['}'],
        Operation::Status => seq!['{'] + seq!['}'],
    }
}

/// Whether the operation's arguments are well formed: only a
/// disguise configuration can carry a number token, so only it can
/// carry a malformed one.
pub open spec fn operation_wf(op: Operation) -> bool {
    match op {
        Operation::UpdateDisguise { disguise, .. } => wf(disguise),
        _ => true,
    }
}

/// Whether the operation is declared "no value": a successful payload
/// is discarded rather than surfaced.
pub open spec fn discards_value(op: Operation) -> bool {
    match op {
        Operation::ImportToken { .. } => true,
        Operation::Disconnect => true,
        _ => false,
    }
}

/// The empty-object payload of the argument-less operations.
fn empty_object() -> (r: JsonValue)
    ensures
        text_of(r) == seq!['{'] + seq!['}'],
        wf(r),
{
    let r = JsonValue::Obj(Vec::new());
    proof {
        assert(r->Obj_0@ =~= Seq::<(String, JsonValue)>::empty());
        assert(text_of(r) =~= seq!['{'] + seq!['}']);
        assert(wf(r));
    }
    r
}

impl Operation {
    /// The fixed wire action name.
    pub fn action(&self) -> (r: &'static str)
        ensures
            r@ == action_text(*self),
    {
        match self {
            Operation::ImportToken { .. } => "importToken",
            Operation::Connect => "connect",
            Operation::SetMode { .. } => "setMode",
            Operation::Disconnect => "disconnect",
            Operation::UpdateDisguise { .. } => "updateDisguise",
            Operation::Status => "status",
        }
    }

    /// The argument payload, as the JSON value whose wire text is
    /// [`payload_text`]; it is well formed whenever the operation's
    /// own arguments are.
    pub fn payload(self) -> (r: JsonValue)
        ensures
            text_of(r) == payload_text(self),
            operation_wf(self) ==> wf(r),
    {
        match self {
            Operation::ImportToken { base_url, token } => {
                let fields: Vec<(String, JsonValue)> = vec![
                    (String::from_str("baseUrl"), JsonValue::Str(base_url)),
                    (String::from_str("token"), JsonValue::Str(token)),
                ];
                let r = JsonValue::Obj(fields);
                proof {
                    reveal_with_fuel(fields_text, 3);
                    reveal_with_fuel(text_of, 3);
                    assert(text_of(r) =~= payload_text(self));
                    reveal_with_fuel(wf_fields, 3);
                    reveal_with_fuel(wf, 2);
                    assert(fields@.drop_last() =~= fields@.subrange(0, 1));
                    assert(wf(fields@[0].1) && wf(fields@[1].1));
                    assert(wf_fields(fields@.drop_last()));
                    assert(wf_fields(fields@));
                    assert(wf(r));
                }
                r
            },
            Operation::Connect => empty_object(),
            Operation::SetMode { mode } => {
                let fields: Vec<(String, JsonValue)> = vec![
                    (String::from_str("mode"), JsonValue::Str(mode)),
                ];
                let r = JsonValue::Obj(fields);
                proof {
                    reveal_with_fuel(fields_text, 2);
                    reveal_with_fuel(text_of, 3);
                    assert(text_of(r) =~= payload_text(self));
                    reveal_with_fuel(wf_fields, 2);
                    reveal_with_fuel(wf, 2);
                    assert(wf(fields@[0].1));
                    assert(wf_fields(fields@));
                    assert(wf(r));
                }
                r
            },
            Operation::Disconnect => empty_object(),
            Operation::UpdateDisguise { base_url, server_id, admin_api_key, disguise } => {
                let fields: Vec<(String, JsonValue)> = vec![
                    (String::from_str("baseUrl"), JsonValue::Str(base_url)),
                    (String::from_str("serverId"), JsonValue::Str(server_id)),
                    (String::from_str("adminApiKey"), JsonValue::Str(admin_api_key)),
                    (String::from_str("disguise"), disguise),
                ];
                let r = JsonValue::Obj(fields);
                proof {
                    reveal_with_fuel(fields_text, 5);
                    reveal_with_fuel(text_of, 5);
                    assert(text_of(r) =~= payload_text(self));
                    reveal_with_fuel(wf_fields, 5);
                    reveal_with_fuel(wf, 2);
                    if operation_wf(self) {
                        assert(fields@.drop_last() =~= fields@.subrange(0, 3));
                        assert(fields@.subrange(0, 3).drop_last() =~= fields@.subrange(0, 2));
                        assert(fields@.subrange(0, 2).drop_last() =~= fields@.subrange(0, 1));
                        assert(wf(fields@[0].1) && wf(fields@[1].1) && wf(fields@[2].1));
                        assert(wf(fields@[3].1));
                        assert(wf_fields(fields@.subrange(0, 1)));
                        assert(wf_fields(fields@.subrange(0, 2)));
                        assert(wf_fields(fields@.subrange(0, 3)));
                        assert(wf_fields(fields@));
                        assert(wf(r));
                    }
                }
                r
            },
            Operation::Status => empty_object(),
        }
    }

    /// Whether a successful result is discarded rather than surfaced.
    pub fn discards_success_value(&self) -> (r: bool)
        ensures
            r == discards_value(*self),
    {
        match self {
            Operation::ImportToken { .. } => true,
            Operation::Disconnect => true,
            _ => false,
        }
    }
}

/// The argument vector handed to the backend binary: the entry-script
/// path, the action name and the payload text, in that order.
pub fn command_args(script_path: &str, op: Operation) -> (r: Vec<String>)
    ensures
        r@.len() == 3,
        r@[0]@ == script_path@,
        r@[1]@ == action_text(op),
        r@[2]@ == payload_text(op),
{
    let mut args: Vec<String> = Vec::new();
    args.push(script_path.to_owned());
    args.push(op.action().to_owned());
    let p = op.payload();
    args.push(to_json_text(&p));
    args
}

/// Adapts a transport outcome for an operation declared "no value":
/// a success payload is discarded, a failure message passes through
/// verbatim.
pub fn finish_unit(r: Result<Option<serde_json::Value>, String>) -> (out: Result<(), String>)
    ensures
        out is Ok <==> r is Ok,
        r is Err ==> out is Err && out->Err_0 == r->Err_0,
{
    match r {
        Ok(_) => Ok(()),
        Err(m) => Err(m),
    }
}

} // verus!
