use rustlogger::errors::CmdError;
use rustlogger::leds::{Channel, LedsMgr};
use rustlogger::proto_parser::ParserMgr;

#[test]
fn led_red_on_sets_output_high() {
    let mut leds = LedsMgr::new();
    let pkg = ParserMgr::new("led red on").unwrap();
    assert_eq!(leds.cmd(pkg), Ok("On"));
    assert!(leds.red);
    assert!(!leds.green);
    assert!(!leds.blue);
}

#[test]
fn led_red_off_sets_output_low() {
    let mut leds = LedsMgr::new();
    let on = ParserMgr::new("led red on").unwrap();
    assert_eq!(leds.cmd(on), Ok("On"));
    let off = ParserMgr::new("led red off").unwrap();
    assert_eq!(leds.cmd(off), Ok("Off"));
    assert!(!leds.red);
}

#[test]
fn led_unknown_channel_is_rejected() {
    let mut leds = LedsMgr::new();
    let pkg = ParserMgr::new("led purple on").unwrap();
    assert_eq!(leds.cmd(pkg), Err(CmdError::UnknownChannel));
    assert!(!leds.red && !leds.green && !leds.blue);
}

#[test]
fn led_missing_argument_is_rejected() {
    let mut leds = LedsMgr::new();
    let pkg = ParserMgr::new("led red").unwrap();
    assert_eq!(leds.cmd(pkg), Err(CmdError::ArgumentCount));
    assert!(!leds.red && !leds.green && !leds.blue);
}

#[test]
fn led_bad_value_is_rejected() {
    let mut leds = LedsMgr::new();
    let pkg = ParserMgr::new("led red bogus").unwrap();
    assert_eq!(leds.cmd(pkg), Err(CmdError::InvalidValue));
    assert!(!leds.red);
}

#[test]
fn led_other_lines_untouched() {
    let mut leds = LedsMgr::new();
    let a = ParserMgr::new("led green on").unwrap();
    assert_eq!(leds.cmd(a), Ok("On"));
    let b = ParserMgr::new("led blue on").unwrap();
    assert_eq!(leds.cmd(b), Ok("On"));
    assert!(!leds.red && leds.green && leds.blue);
}

#[test]
fn get_led_resolves_labels() {
    let leds = LedsMgr::new();
    assert_eq!(leds.get_led("red"), Ok(Channel::Red));
    assert_eq!(leds.get_led("green"), Ok(Channel::Green));
    assert_eq!(leds.get_led("blue"), Ok(Channel::Blue));
    assert_eq!(leds.get_led("mauve"), Err(CmdError::UnknownChannel));
    assert_eq!(leds.get_led(""), Err(CmdError::UnknownChannel));
}
