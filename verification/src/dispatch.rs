//! Command dispatcher: the steady-state step of the control loop. Each
//! parsed command is routed by name — `led` to the indicator controller,
//! `show` to the display controller, anything else is rejected — and the
//! result is formatted as the reply to send back. A routing failure yields
//! an error reply, never a crash.

use vstd::prelude::*;
use crate::epd::{render_seq, BusOp, DisplayState, EPDMgr};
use crate::errors::{error_payload, CmdError};
use crate::leds::{led_post_state, led_result, LedsMgr};
use crate::proto_parser::{err_suffix, ok_suffix, reply_err, reply_ok, str_eq, ParserMgr};

verus! {

/// The reply a command outcome is formatted into.
pub open spec fn reply_of(res: Result<Seq<char>, CmdError>) -> Seq<char> {
    match res {
        Ok(p) => p + ok_suffix(),
        Err(e) => error_payload(e) + err_suffix(),
    }
}

/// Routes one parsed command and returns the formatted reply together with
/// the bus operations the display driver must perform (empty unless the
/// command was `show`).
pub fn dispatch(leds: &mut LedsMgr, epd: &mut EPDMgr, pkg: ParserMgr) -> (r: (String, Vec<BusOp>))
    ensures
        ({
            let name = pkg.cmd@;
            let args = pkg.args.deep_view();
            &&& name == "led"@ ==> ({
                &&& *final(leds) == led_post_state(*old(leds), args)
                &&& *final(epd) == *old(epd)
                &&& r.0@ == reply_of(led_result(args))
                &&& r.1@ == Seq::<BusOp>::empty()
            })
            &&& name == "show"@ ==> ({
                &&& *final(leds) == *old(leds)
                &&& final(epd).frame == old(epd).frame
                &&& final(epd).state == DisplayState::Idle
                &&& r.0@ == "Update"@ + ok_suffix()
                &&& r.1@ == render_seq(old(epd).frame@)
            })
            &&& (name != "led"@ && name != "show"@) ==> ({
                &&& *final(leds) == *old(leds)
                &&& *final(epd) == *old(epd)
                &&& r.0@ == error_payload(CmdError::UnknownCommand) + err_suffix()
                &&& r.1@ == Seq::<BusOp>::empty()
            })
        }),
{
    proof {
        reveal_strlit("On");
        reveal_strlit("Off");
        reveal_strlit("Update");
        reveal_strlit("led");
        reveal_strlit("show");
        // the two command names differ, so exactly one routing case applies
        assert("led"@.len() == 3);
        assert("show"@.len() == 4);
    }
    if str_eq(pkg.cmd.as_str(), "led") {
        let reply = match leds.cmd(pkg) {
            Ok(p) => reply_ok(p),
            Err(e) => reply_err(e.payload()),
        };
        (reply, Vec::new())
    } else if str_eq(pkg.cmd.as_str(), "show") {
        let (res, ops) = epd.cmd(pkg);
        let reply = match res {
            Ok(p) => reply_ok(p),
            Err(e) => reply_err(e.payload()),
        };
        (reply, ops)
    } else {
        let reply = reply_err(CmdError::UnknownCommand.payload());
        (reply, Vec::new())
    }
}

} // verus!
