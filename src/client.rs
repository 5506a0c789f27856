//! The command-line client's choices: which request a command sends and in
//! which encoding.
use crate::protocol::Request;
use crate::text::{ascii_lower, chars_equal, lower_text, owned, str_eq};
use vstd::prelude::*;

verus! {

pub open spec fn arg(args: Seq<String>, i: int) -> Seq<char> {
    args[i]@
}

/// The request of a command line (`args[0]` is the program): `meta`,
/// `list`, `health`, `set <control> <value>`; anything else asks for stats.
pub fn request_for(args: &Vec<String>, token: Option<String>) -> (r: Result<Request, String>)
    ensures
        ({
            let cmd = if args@.len() > 1 {
                arg(args@, 1)
            } else {
                "stats"@
            };
            if cmd == "meta"@ {
                r matches Ok(Request::GetMeta)
            } else if cmd == "list"@ {
                r matches Ok(Request::ListControls)
            } else if cmd == "health"@ {
                r matches Ok(Request::GetHealth)
            } else if cmd == "set"@ {
                if args@.len() < 4 {
                    r matches Err(m) && m@ == "Usage: jetsonscopectl set <control> <value>"@
                } else {
                    r matches Ok(Request::SetControl { control, value, token: t }) && control@ == arg(
                        args@,
                        2,
                    ) && value@ == arg(args@, 3) && t == token
                }
            } else {
                r matches Ok(Request::GetStats)
            }
        }),
{
    let cmd = if args.len() > 1 {
        args[1].clone()
    } else {
        owned("stats")
    };
    if str_eq(cmd.as_str(), "meta") {
        Ok(Request::GetMeta)
    } else if str_eq(cmd.as_str(), "list") {
        Ok(Request::ListControls)
    } else if str_eq(cmd.as_str(), "health") {
        Ok(Request::GetHealth)
    } else if str_eq(cmd.as_str(), "set") {
        if args.len() < 4 {
            return Err(owned("Usage: jetsonscopectl set <control> <value>"));
        }
        Ok(Request::SetControl { control: args[2].clone(), value: args[3].clone(), token })
    } else {
        Ok(Request::GetStats)
    }
}

/// Whether the configured protocol asks for the binary encoding: `cbor`, in
/// any ASCII case.
pub fn wants_binary(proto: &Option<String>) -> (r: bool)
    ensures
        r == (match *proto {
            Some(p) => lower_text(p@) == "cbor"@,
            None => false,
        }),
{
    match proto {
        Some(p) => chars_equal(&ascii_lower(p.as_str()), &crate::pattern::chars_of("cbor")),
        None => false,
    }
}

} // verus!
