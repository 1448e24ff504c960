use urtask::models::trello::TrelloCard;
use urtask::services::trello::map_cards_to_lists;
use urtask::trello as legacy;

fn card(id: &str, name: &str, list: &str) -> TrelloCard {
    TrelloCard { id: id.to_string(), name: name.to_string(), id_list: list.to_string() }
}

fn ids(cards: &[TrelloCard]) -> Vec<&str> {
    cards.iter().map(|c| c.id.as_str()).collect()
}

#[test]
fn splits_cards_by_list_in_order() {
    let cards = vec![
        card("1", "a", "L_todo"),
        card("2", "b", "L_done"),
        card("3", "c", "L_doing"),
        card("4", "d", "L_other"),
        card("5", "e", "L_todo"),
        card("6", "f", "L_done"),
    ];
    let (todo, doing, done) = map_cards_to_lists(cards, "L_todo", "L_doing", "L_done");
    assert_eq!(ids(&todo), vec!["1", "5"]);
    assert_eq!(ids(&doing), vec!["3"]);
    assert_eq!(ids(&done), vec!["2", "6"]);
}

#[test]
fn partition_counts_add_up() {
    let cards = vec![
        card("1", "a", "T"),
        card("2", "b", "X"),
        card("3", "c", "D"),
        card("4", "d", "N"),
        card("5", "e", "Y"),
    ];
    let (todo, doing, done) = map_cards_to_lists(cards, "T", "D", "N");
    assert_eq!(todo.len() + doing.len() + done.len(), 3);
}

#[test]
fn first_matching_list_wins() {
    let cards = vec![card("1", "a", "same"), card("2", "b", "done")];
    let (todo, doing, done) = map_cards_to_lists(cards, "same", "same", "done");
    assert_eq!(ids(&todo), vec!["1"]);
    assert!(doing.is_empty());
    assert_eq!(ids(&done), vec!["2"]);
}

#[test]
fn no_cards_give_empty_lists() {
    let (todo, doing, done) = map_cards_to_lists(Vec::new(), "a", "b", "c");
    assert!(todo.is_empty() && doing.is_empty() && done.is_empty());
}

fn legacy_card(id: &str, list: &str) -> legacy::TrelloCard {
    legacy::TrelloCard { id: id.to_string(), name: format!("card {}", id), idList: list.to_string() }
}

#[test]
fn legacy_split_uses_found_ids() {
    let result = legacy::TrelloCheckResult {
        status: true,
        todo_id: Some("t".to_string()),
        doing_id: Some("g".to_string()),
        done_id: Some("d".to_string()),
    };
    let cards = vec![legacy_card("1", "d"), legacy_card("2", "t"), legacy_card("3", "g"), legacy_card("4", "z")];
    let (todo, doing, done) = legacy::map_cards_to_lists(result, cards);
    assert_eq!(todo.iter().map(|c| c.id.as_str()).collect::<Vec<_>>(), vec!["2"]);
    assert_eq!(doing.iter().map(|c| c.id.as_str()).collect::<Vec<_>>(), vec!["3"]);
    assert_eq!(done.iter().map(|c| c.id.as_str()).collect::<Vec<_>>(), vec!["1"]);
}

#[test]
fn legacy_missing_id_matches_nothing() {
    let result = legacy::TrelloCheckResult {
        status: false,
        todo_id: None,
        doing_id: Some("g".to_string()),
        done_id: None,
    };
    let cards = vec![legacy_card("1", "t"), legacy_card("2", "g")];
    let (todo, doing, done) = legacy::map_cards_to_lists(result, cards);
    assert!(todo.is_empty());
    assert_eq!(doing.len(), 1);
    assert!(done.is_empty());
}
