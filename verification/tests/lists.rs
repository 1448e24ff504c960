use urtask::models::trello::{TrelloConfig, TrelloList};
use urtask::services::telegram::{send_failure, send_message_url};
use urtask::services::trello::{api_error, board_cards_url, board_lists_url, cards_parse_error, find_list_ids};
use urtask::trello as legacy;

fn list(id: &str, name: &str) -> TrelloList {
    TrelloList { id: id.to_string(), name: name.to_string() }
}

#[test]
fn finds_the_three_lists() {
    let lists = vec![list("1", "Backlog"), list("2", "ToDo"), list("3", "Doing"), list("4", "Done")];
    let (t, g, d) = find_list_ids(&lists).unwrap();
    assert_eq!((t.as_str(), g.as_str(), d.as_str()), ("2", "3", "4"));
}

#[test]
fn last_list_of_a_name_counts() {
    let lists = vec![list("1", "ToDo"), list("2", "Doing"), list("3", "Done"), list("9", "ToDo")];
    let (t, _, _) = find_list_ids(&lists).unwrap();
    assert_eq!(t, "9");
}

#[test]
fn missing_list_is_an_error() {
    let lists = vec![list("1", "ToDo"), list("2", "doing"), list("3", "Done")];
    let e = find_list_ids(&lists).unwrap_err();
    assert_eq!(e.message(), "Không tìm thấy đủ 3 danh sách 'ToDo', 'Doing' và 'Done'");
    assert!(find_list_ids(&Vec::new()).is_err());
}

#[test]
fn legacy_classification() {
    let lists = vec![
        legacy::TrelloList { id: "a".into(), name: "ToDo".into(), closed: false, idBoard: "b".into() },
        legacy::TrelloList { id: "c".into(), name: "Doing".into(), closed: false, idBoard: "b".into() },
        legacy::TrelloList { id: "e".into(), name: "Done".into(), closed: true, idBoard: "b".into() },
    ];
    let r = legacy::classify_lists(&lists).unwrap();
    assert!(r.status);
    assert_eq!(r.todo_id.as_deref(), Some("a"));
    assert_eq!(r.doing_id.as_deref(), Some("c"));
    assert_eq!(r.done_id.as_deref(), Some("e"));
    let e = legacy::classify_lists(&lists[..2].iter().map(|l| legacy::TrelloList {
        id: l.id.clone(), name: l.name.clone(), closed: l.closed, idBoard: l.idBoard.clone() }).collect()).unwrap_err();
    assert_eq!(e, "Danh sách KHÔNG có đủ 3 tên 'ToDo', 'Doing', và 'Done'.");
}

fn config() -> TrelloConfig {
    TrelloConfig { board: "B1".into(), key: "K1".into(), token: "T1".into(), user_id: 5 }
}

#[test]
fn trello_addresses() {
    assert_eq!(board_lists_url(&config()), "https://api.trello.com/1/boards/B1/lists?key=K1&token=T1");
    assert_eq!(board_cards_url(&config()), "https://api.trello.com/1/boards/B1/cards?key=K1&token=T1");
}

#[test]
fn trello_errors() {
    assert_eq!(api_error("401 Unauthorized", "invalid key").message(),
        "Trello API error: Status 401 Unauthorized, Body: invalid key");
    assert_eq!(cards_parse_error("expected value").message(), "Failed to parse Trello cards: expected value");
}

#[test]
fn telegram_address_and_error() {
    assert_eq!(send_message_url("123:abc"), "https://api.telegram.org/bot123:abc/sendMessage");
    assert_eq!(send_failure("Bad Request").message(), "Failed to send message: Bad Request");
}
