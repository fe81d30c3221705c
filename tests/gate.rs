use net_route::command::{RemoveTarget, less_than_one_error, remove_target};
use net_route::error::{ErrorKind, NetRouteError};
use net_route::input::{
    SelectionReply, check_prompt, check_select_range, confirmation_reply, is_approval, parse_usize,
    selection_reply, trim,
};

#[test]
fn approval_accepts_y_and_yes_in_any_case() {
    for s in ["y", "Y", "yes", "YES", "yEs", "  y\r\n", "\tYes \n"] {
        assert!(is_approval(s), "{s:?}");
        assert!(confirmation_reply(s).is_ok());
    }
}

#[test]
fn approval_refuses_everything_else() {
    for s in ["", "n", "no", "ye", "yess", "y e s", "ok", "1"] {
        assert!(!is_approval(s), "{s:?}");
        assert_eq!(confirmation_reply(s).unwrap_err().kind, ErrorKind::UserCancelled);
    }
}

#[test]
fn trim_removes_unicode_white_space() {
    assert_eq!(trim("\u{3000} 12 \n"), "12");
    assert_eq!(trim("   "), "");
    assert_eq!(trim("a b"), "a b");
}

#[test]
fn parse_usize_follows_std() {
    assert_eq!(parse_usize("0"), Some(0));
    assert_eq!(parse_usize("+42"), Some(42));
    assert_eq!(parse_usize("007"), Some(7));
    assert_eq!(parse_usize(""), None);
    assert_eq!(parse_usize("+"), None);
    assert_eq!(parse_usize("-1"), None);
    assert_eq!(parse_usize("1a"), None);
    assert_eq!(parse_usize(&usize::MAX.to_string()), Some(usize::MAX));
    assert_eq!(parse_usize("99999999999999999999999"), None);
}

#[test]
fn selection_reply_reads_numbers_and_cancel() {
    assert_eq!(selection_reply(" 2\n", 0, 3), SelectionReply::Chosen(2));
    assert_eq!(selection_reply("N", 0, 3), SelectionReply::Cancelled);
    assert_eq!(selection_reply("n\n", 0, 3), SelectionReply::Cancelled);
    assert_eq!(selection_reply("4", 0, 3), SelectionReply::Invalid);
    assert_eq!(selection_reply("x", 0, 3), SelectionReply::Invalid);
    assert_eq!(selection_reply("", 0, 3), SelectionReply::Invalid);
}

#[test]
fn gate_argument_errors() {
    assert_eq!(check_select_range(3, 1).unwrap_err().kind, ErrorKind::InvalidRange);
    assert!(check_select_range(1, 1).is_ok());
    assert_eq!(check_prompt("").unwrap_err().kind, ErrorKind::EmptyPrompt);
    assert!(check_prompt("删除?").is_ok());
}

#[test]
fn page_argument_must_be_positive() {
    assert_eq!(less_than_one_error("5"), Ok(5));
    assert_eq!(less_than_one_error("0"), Err("Page size must be at least 1".to_string()));
    assert_eq!(less_than_one_error("x"), Err("Invalid page size".to_string()));
}

#[test]
fn remove_command_target() {
    assert_eq!(remove_target("", "example.com").unwrap(), RemoveTarget::Domain);
    assert_eq!(remove_target("10.0.0.1", "").unwrap(), RemoveTarget::Address);
    assert!(remove_target("10.0.0.1", "example.com").is_err());
}

#[test]
fn error_constructors() {
    let e = NetRouteError::new("boom".to_string());
    assert_eq!(e.kind, ErrorKind::Other);
    assert_eq!(e.message, "boom");
    let e = NetRouteError::with_kind(ErrorKind::ConfigParseError, "bad".to_string());
    assert_eq!(e.kind, ErrorKind::ConfigParseError);
    let io = std::io::Error::new(std::io::ErrorKind::Other, "disk");
    let e = NetRouteError::from_err(io);
    assert_eq!(e.message, "disk");
}

#[test]
fn error_from_string() {
    let e = NetRouteError::from("配置文件路径不能为空".to_string());
    assert_eq!(e.kind, ErrorKind::Other);
    assert_eq!(e.message, "配置文件路径不能为空");
}
