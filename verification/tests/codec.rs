use rustlogger::proto_parser::{reply_err, reply_ok, ParseError, ParserMgr};

#[test]
fn parse_name_and_args() {
    let p = ParserMgr::new("led blue on").unwrap();
    assert_eq!(p.cmd, "led");
    assert_eq!(p.args.len(), 2);
    assert_eq!(p.args[0], "blue");
    assert_eq!(p.args[1], "on");
}

#[test]
fn parse_blank_line_gives_empty_name() {
    let p = ParserMgr::new("").unwrap();
    assert_eq!(p.cmd, "");
    assert!(p.args.is_empty());
    let p = ParserMgr::new(" \t\r\n ").unwrap();
    assert_eq!(p.cmd, "");
    assert!(p.args.is_empty());
}

#[test]
fn parse_splits_on_whitespace_runs() {
    let p = ParserMgr::new("  show\t\t now  \n").unwrap();
    assert_eq!(p.cmd, "show");
    assert_eq!(p.args.len(), 1);
    assert_eq!(p.args[0], "now");
}

#[test]
fn parse_keeps_argument_order() {
    let p = ParserMgr::new("led red off").unwrap();
    assert_eq!(p.args[0], "red");
    assert_eq!(p.args[1], "off");
}

#[test]
fn parse_rejects_long_name() {
    let long = "x".repeat(33);
    assert!(matches!(ParserMgr::new(&long), Err(ParseError::CapacityExceeded)));
    let fits = "x".repeat(32);
    assert!(ParserMgr::new(&fits).is_ok());
}

#[test]
fn parse_rejects_long_argument() {
    let long = format!("led {}", "y".repeat(17));
    assert!(matches!(ParserMgr::new(&long), Err(ParseError::CapacityExceeded)));
    let fits = format!("led {}", "y".repeat(16));
    assert!(ParserMgr::new(&fits).is_ok());
}

#[test]
fn parse_rejects_too_many_arguments() {
    let eleven = format!("cmd{}", " a".repeat(11));
    assert!(matches!(ParserMgr::new(&eleven), Err(ParseError::CapacityExceeded)));
    let ten = format!("cmd{}", " a".repeat(10));
    assert!(ParserMgr::new(&ten).is_ok());
}

#[test]
fn reply_ok_appends_suffix() {
    assert_eq!(reply_ok("On"), "On\nOK\n");
    assert_eq!(reply_ok(""), "\nOK\n");
    assert!(reply_ok("Update").ends_with("OK\n"));
    assert!(reply_ok("Update").starts_with("Update"));
}

#[test]
fn reply_err_appends_suffix() {
    assert_eq!(reply_err("Wrong args"), "Wrong args\nErr\n");
    assert_eq!(reply_err(""), "\nErr\n");
    assert!(reply_err("x").ends_with("Err\n"));
    assert!(reply_err("x").starts_with("x"));
}
