//! Indicator controller: maps a parsed command to an on/off effect on one of
//! three named output lines.
//!
//! The controller tracks the requested level of each line (`true` is high);
//! the shell that owns the physical pins drives them to these levels right
//! after each command.

use vstd::prelude::*;
use crate::errors::CmdError;
use crate::proto_parser::{str_eq, ParserMgr};

verus! {

/// One of the three indicator output lines.
#[derive(Clone, Copy, Debug, PartialEq, Eq, Structural)]
pub enum Channel {
    Red,
    Green,
    Blue,
}

/// The indicator bank: the level requested for each output line.
#[derive(Clone, Copy, Debug, PartialEq, Eq, Structural)]
pub struct LedsMgr {
    pub red: bool,
    pub green: bool,
    pub blue: bool,
}

/// The output line a label selects, if any.
pub open spec fn spec_channel(label: Seq<char>) -> Option<Channel> {
    if label == "red"@ {
        Some(Channel::Red)
    } else if label == "green"@ {
        Some(Channel::Green)
    } else if label == "blue"@ {
        Some(Channel::Blue)
    } else {
        None
    }
}

/// The bank with one line driven to `v` and the others unchanged.
pub open spec fn led_update(pre: LedsMgr, c: Channel, v: bool) -> LedsMgr {
    match c {
        Channel::Red => LedsMgr { red: v, ..pre },
        Channel::Green => LedsMgr { green: v, ..pre },
        Channel::Blue => LedsMgr { blue: v, ..pre },
    }
}

/// The outcome a `led` command owes for these arguments: the confirmation
/// payload on success, or exactly which user error is reported.
pub open spec fn led_result(args: Seq<Seq<char>>) -> Result<Seq<char>, CmdError> {
    if args.len() < 2 {
        Err(CmdError::ArgumentCount)
    } else {
        match spec_channel(args[0]) {
            None => Err(CmdError::UnknownChannel),
            Some(c) => {
                if args[1] == "on"@ {
                    Ok("On"@)
                } else if args[1] == "off"@ {
                    Ok("Off"@)
                } else {
                    Err(CmdError::InvalidValue)
                }
            },
        }
    }
}

/// The bank after a `led` command: the named line driven on a valid
/// command, every line untouched on a rejected one.
pub open spec fn led_post_state(pre: LedsMgr, args: Seq<Seq<char>>) -> LedsMgr {
    if args.len() >= 2 && spec_channel(args[0]) is Some && (args[1] == "on"@ || args[1]
        == "off"@) {
        led_update(pre, spec_channel(args[0])->Some_0, args[1] == "on"@)
    } else {
        pre
    }
}

impl LedsMgr {
    /// A fresh bank with every output line low.
    pub fn new() -> (r: LedsMgr)
        ensures
            !r.red,
            !r.green,
            !r.blue,
    {
        LedsMgr { red: false, green: false, blue: false }
    }

    /// Resolves an output line by its label; an unknown label fails with
    /// `UnknownChannel`.
    pub fn get_led(&self, label: &str) -> (r: Result<Channel, CmdError>)
        ensures
            r == match spec_channel(label@) {
                Some(c) => Result::<Channel, CmdError>::Ok(c),
                None => Result::<Channel, CmdError>::Err(CmdError::UnknownChannel),
            },
    {
        if str_eq(label, "red") {
            Ok(Channel::Red)
        } else if str_eq(label, "green") {
            Ok(Channel::Green)
        } else if str_eq(label, "blue") {
            Ok(Channel::Blue)
        } else {
            Err(CmdError::UnknownChannel)
        }
    }

    fn set(&mut self, c: Channel, v: bool)
        ensures
            *final(self) == led_update(*old(self), c, v),
    {
        match c {
            Channel::Red => self.red = v,
            Channel::Green => self.green = v,
            Channel::Blue => self.blue = v,
        }
    }

    /// Executes a `led` command: `args[0]` names the line, `args[1]` is
    /// `"on"` or `"off"`. On success the line is driven accordingly and the
    /// confirmation payload is returned; bad input leaves every line as it
    /// was and reports why.
    pub fn cmd(&mut self, pkg: ParserMgr) -> (r: Result<&'static str, CmdError>)
        ensures
            *final(self) == led_post_state(*old(self), pkg.args.deep_view()),
            led_result(pkg.args.deep_view()) matches Ok(p) ==> (r matches Ok(q) && q@ == p),
            led_result(pkg.args.deep_view()) matches Err(e) ==> (r matches Err(f) && f == e),
    {
        if pkg.args.len() < 2 {
            return Err(CmdError::ArgumentCount);
        }
        proof {
            assert(pkg.args.deep_view()[0] == pkg.args@[0].deep_view());
            assert(pkg.args.deep_view()[1] == pkg.args@[1].deep_view());
        }
        let ch = match self.get_led(pkg.args[0].as_str()) {
            Ok(c) => c,
            Err(e) => {
                return Err(e);
            },
        };
        if str_eq(pkg.args[1].as_str(), "on") {
            self.set(ch, true);
            Ok("On")
        } else if str_eq(pkg.args[1].as_str(), "off") {
            self.set(ch, false);
            Ok("Off")
        } else {
            Err(CmdError::InvalidValue)
        }
    }
}

} // verus!
