use urtask::handlers::command::{parse_trello_config, Command};

#[test]
fn parses_board_key_token() {
    let c = parse_trello_config("board1-key1-token1", 42).unwrap();
    assert_eq!(c.board, "board1");
    assert_eq!(c.key, "key1");
    assert_eq!(c.token, "token1");
    assert_eq!(c.user_id, 42);
}

#[test]
fn trims_each_field() {
    let c = parse_trello_config("  b \t-\n k  - t ", -7).unwrap();
    assert_eq!(c.board, "b");
    assert_eq!(c.key, "k");
    assert_eq!(c.token, "t");
    assert_eq!(c.user_id, -7);
}

#[test]
fn drops_empty_fields() {
    let c = parse_trello_config("-a--b- -c-", 1).unwrap();
    assert_eq!((c.board.as_str(), c.key.as_str(), c.token.as_str()), ("a", "b", "c"));
}

#[test]
fn rejects_two_fields() {
    let e = parse_trello_config("a-b", 1).unwrap_err();
    assert_eq!(e, "Invalid format. Expected 'board-key-token'");
}

#[test]
fn rejects_four_fields() {
    let e = parse_trello_config("a-b-c-d", 1).unwrap_err();
    assert_eq!(e, "Invalid format. Expected 'board-key-token'");
}

#[test]
fn rejects_empty_argument() {
    assert!(parse_trello_config("", 1).is_err());
    assert!(parse_trello_config(" - - ", 1).is_err());
}

#[test]
fn roundtrip_of_joined_fields() {
    let (b, k, t) = ("5f2a9c", "0123456789abcdef", "ATTA_tok.en");
    let joined = format!("{}-{}-{}", b, k, t);
    let c = parse_trello_config(&joined, 9).unwrap();
    assert_eq!((c.board.as_str(), c.key.as_str(), c.token.as_str()), (b, k, t));
}

#[test]
fn unicode_fields_are_kept_whole() {
    let c = parse_trello_config("bảng-khóa-mã", 3).unwrap();
    assert_eq!((c.board.as_str(), c.key.as_str(), c.token.as_str()), ("bảng", "khóa", "mã"));
}

#[test]
fn command_names() {
    assert_eq!(Command::Start.name(), "start");
    assert_eq!(Command::Help.name(), "help");
    assert_eq!(Command::SetConfig("x".to_string()).name(), "setconfig");
    assert_eq!(Command::TestConfig.name(), "testconfig");
    assert_eq!(Command::ReportNow.name(), "reportnow");
}
