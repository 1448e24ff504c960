use vstd::prelude::*;
use crate::error::AppError;
use crate::models::trello::{TrelloCard, TrelloConfig, TrelloList};
use crate::text::same_text;

verus! {

/// The cards of `cards` that the "ToDo" list holds, in their order.
pub open spec fn todo_cards(cards: Seq<TrelloCard>, todo_id: Seq<char>) -> Seq<TrelloCard> {
    cards.filter(|c: TrelloCard| c.id_list@ == todo_id)
}

/// The cards of `cards` that the "Doing" list holds and that no earlier list
/// (ToDo) claims.
pub open spec fn doing_cards(cards: Seq<TrelloCard>, todo_id: Seq<char>, doing_id: Seq<char>) -> Seq<
    TrelloCard,
> {
    cards.filter(|c: TrelloCard| c.id_list@ != todo_id && c.id_list@ == doing_id)
}

/// The cards of `cards` that the "Done" list holds and that no earlier list
/// (ToDo, Doing) claims.
pub open spec fn done_cards(
    cards: Seq<TrelloCard>,
    todo_id: Seq<char>,
    doing_id: Seq<char>,
    done_id: Seq<char>,
) -> Seq<TrelloCard> {
    cards.filter(
        |c: TrelloCard| c.id_list@ != todo_id && c.id_list@ != doing_id && c.id_list@ == done_id,
    )
}

/// Splits `cards` by the list that holds each: the ToDo cards, the Doing cards
/// and the Done cards, each in the order of `cards`. A card is given to the
/// first of the three ids that its list id equals; cards of other lists are
/// dropped.
pub fn map_cards_to_lists(cards: Vec<TrelloCard>, todo_id: &str, doing_id: &str, done_id: &str) -> (r: (
    Vec<TrelloCard>,
    Vec<TrelloCard>,
    Vec<TrelloCard>,
))
    ensures
        r.0@ == todo_cards(cards@, todo_id@),
        r.1@ == doing_cards(cards@, todo_id@, doing_id@),
        r.2@ == done_cards(cards@, todo_id@, doing_id@, done_id@),
{
    let ghost all = cards@;
    let mut todo: Vec<TrelloCard> = Vec::new();
    let mut doing: Vec<TrelloCard> = Vec::new();
    let mut done: Vec<TrelloCard> = Vec::new();
    for card in it: cards
        invariant
            it.seq() == all,
            todo@ == todo_cards(all.take(it.index() as int), todo_id@),
            doing@ == doing_cards(all.take(it.index() as int), todo_id@, doing_id@),
            done@ == done_cards(all.take(it.index() as int), todo_id@, doing_id@, done_id@),
    {
        let ghost i = it.index() as int;
        proof {
            reveal_with_fuel(Seq::filter, 1);
            assert(all.take(i + 1).drop_last() =~= all.take(i));
            assert(all.take(i + 1).last() == card);
        }
        if crate::text::same_text(card.id_list.as_str(), todo_id) {
            todo.push(card);
        } else if crate::text::same_text(card.id_list.as_str(), doing_id) {
            doing.push(card);
        } else if crate::text::same_text(card.id_list.as_str(), done_id) {
            done.push(card);
        }
    }
    proof {
        assert(all.take(all.len() as int) =~= all);
    }
    (todo, doing, done)
}


/// The cards whose list is one of the three given ones.
pub open spec fn cards_of_three(
    cards: Seq<TrelloCard>,
    todo_id: Seq<char>,
    doing_id: Seq<char>,
    done_id: Seq<char>,
) -> Seq<TrelloCard> {
    cards.filter(
        |c: TrelloCard| c.id_list@ == todo_id || c.id_list@ == doing_id || c.id_list@ == done_id,
    )
}

/// The split loses and duplicates nothing: the three results of
/// `map_cards_to_lists` hold, together and counting repetitions, exactly the
/// cards that one of the three lists holds (so as many of them); each result
/// only holds cards of its own list, all taken from the input.
pub proof fn lemma_cards_partition(
    cards: Seq<TrelloCard>,
    todo_id: Seq<char>,
    doing_id: Seq<char>,
    done_id: Seq<char>,
)
    ensures
        todo_cards(cards, todo_id).len() + doing_cards(cards, todo_id, doing_id).len() + done_cards(
            cards,
            todo_id,
            doing_id,
            done_id,
        ).len() == cards_of_three(cards, todo_id, doing_id, done_id).len(),
        todo_cards(cards, todo_id).to_multiset().add(
            doing_cards(cards, todo_id, doing_id).to_multiset(),
        ).add(done_cards(cards, todo_id, doing_id, done_id).to_multiset()) == cards_of_three(
            cards,
            todo_id,
            doing_id,
            done_id,
        ).to_multiset(),
        forall|i: int|
            0 <= i < todo_cards(cards, todo_id).len() ==> (#[trigger] todo_cards(cards, todo_id)[i]).id_list@
                == todo_id && cards.contains(todo_cards(cards, todo_id)[i]),
        forall|i: int|
            0 <= i < doing_cards(cards, todo_id, doing_id).len() ==> (#[trigger] doing_cards(
                cards,
                todo_id,
                doing_id,
            )[i]).id_list@ == doing_id && cards.contains(doing_cards(cards, todo_id, doing_id)[i]),
        forall|i: int|
            0 <= i < done_cards(cards, todo_id, doing_id, done_id).len() ==> (#[trigger] done_cards(
                cards,
                todo_id,
                doing_id,
                done_id,
            )[i]).id_list@ == done_id && cards.contains(
                done_cards(cards, todo_id, doing_id, done_id)[i],
            ),
    decreases cards.len(),
{
    broadcast use vstd::seq_lib::group_to_multiset_ensures;
    broadcast use vstd::multiset::group_multiset_axioms;

    reveal_with_fuel(Seq::filter, 1);
    if cards.len() > 0 {
        lemma_cards_partition(cards.drop_last(), todo_id, doing_id, done_id);
        let p = cards.drop_last();
        let t = todo_cards(p, todo_id).to_multiset();
        let g = doing_cards(p, todo_id, doing_id).to_multiset();
        let d = done_cards(p, todo_id, doing_id, done_id).to_multiset();
        let x = cards.last();
        assert(t.insert(x).add(g).add(d) =~= t.add(g).add(d).insert(x));
        assert(t.add(g.insert(x)).add(d) =~= t.add(g).add(d).insert(x));
        assert(t.add(g).add(d.insert(x)) =~= t.add(g).add(d).insert(x));
    } else {
        assert(cards.to_multiset() =~= vstd::multiset::Multiset::empty());
    }
    lemma_filter_members(cards, |c: TrelloCard| c.id_list@ == todo_id);
    lemma_filter_members(cards, |c: TrelloCard| c.id_list@ != todo_id && c.id_list@ == doing_id);
    lemma_filter_members(
        cards,
        |c: TrelloCard| c.id_list@ != todo_id && c.id_list@ != doing_id && c.id_list@ == done_id,
    );
}

proof fn lemma_filter_members(cards: Seq<TrelloCard>, pred: spec_fn(TrelloCard) -> bool)
    ensures
        forall|i: int|
            0 <= i < cards.filter(pred).len() ==> pred(#[trigger] cards.filter(pred)[i])
                && cards.contains(cards.filter(pred)[i]),
    decreases cards.len(),
{
    reveal_with_fuel(Seq::filter, 1);
    if cards.len() > 0 {
        lemma_filter_members(cards.drop_last(), pred);
        let sub = cards.drop_last().filter(pred);
        assert forall|i: int| 0 <= i < cards.filter(pred).len() implies pred(
            #[trigger] cards.filter(pred)[i],
        ) && cards.contains(cards.filter(pred)[i]) by {
            if i < sub.len() {
                assert(cards.filter(pred)[i] == sub[i]);
                let k = choose|k: int| 0 <= k < cards.drop_last().len() && cards.drop_last()[k] == sub[i];
                assert(cards[k] == sub[i]);
            } else {
                assert(cards[cards.len() - 1] == cards.last());
            }
        }
    }
}

/// The id of the last list of `lists` whose name is exactly `name`, if any.
pub open spec fn last_id_named(lists: Seq<TrelloList>, name: Seq<char>) -> Option<Seq<char>>
    decreases lists.len(),
{
    if lists.len() == 0 {
        None
    } else if lists.last().name@ == name {
        Some(lists.last().id@)
    } else {
        last_id_named(lists.drop_last(), name)
    }
}

/// The message of the error when a board lacks one of the three lists.
pub open spec fn missing_lists_message() -> Seq<char> {
    "Không tìm thấy đủ 3 danh sách 'ToDo', 'Doing' và 'Done'"@
}

/// Finds the ids of the lists named exactly "ToDo", "Doing" and "Done" among
/// the lists of a board (where a name occurs more than once, the last such
/// list counts). Fails, with the error that says so, when one of the three
/// names is missing.
pub fn find_list_ids(lists: &Vec<TrelloList>) -> (r: Result<(String, String, String), AppError>)
    ensures
        r is Ok <==> {
            &&& last_id_named(lists@, "ToDo"@) is Some
            &&& last_id_named(lists@, "Doing"@) is Some
            &&& last_id_named(lists@, "Done"@) is Some
        },
        r matches Ok(ids) ==> {
            &&& last_id_named(lists@, "ToDo"@) == Some(ids.0@)
            &&& last_id_named(lists@, "Doing"@) == Some(ids.1@)
            &&& last_id_named(lists@, "Done"@) == Some(ids.2@)
        },
        r matches Err(e) ==> e@ == missing_lists_message(),
{
    let mut todo_id: Option<String> = None;
    let mut doing_id: Option<String> = None;
    let mut done_id: Option<String> = None;
    let mut i: usize = 0;
    while i < lists.len()
        invariant
            i <= lists.len(),
            todo_id matches Some(t) ==> last_id_named(lists@.take(i as int), "ToDo"@) == Some(t@),
            todo_id is None ==> last_id_named(lists@.take(i as int), "ToDo"@) is None,
            doing_id matches Some(t) ==> last_id_named(lists@.take(i as int), "Doing"@) == Some(t@),
            doing_id is None ==> last_id_named(lists@.take(i as int), "Doing"@) is None,
            done_id matches Some(t) ==> last_id_named(lists@.take(i as int), "Done"@) == Some(t@),
            done_id is None ==> last_id_named(lists@.take(i as int), "Done"@) is None,
        decreases lists.len() - i,
    {
        let list = &lists[i];
        proof {
            reveal_strlit("ToDo");
            reveal_strlit("Doing");
            reveal_strlit("Done");
            assert("ToDo"@[0] != "Doing"@[0]);
            assert("ToDo"@[0] != "Done"@[0]);
            assert("Doing"@.len() != "Done"@.len());
            assert(lists@.take(i + 1).drop_last() =~= lists@.take(i as int));
            assert(lists@.take(i + 1).last() == lists@[i as int]);
        }
        if same_text(list.name.as_str(), "ToDo") {
            todo_id = Some(list.id.clone());
        } else if same_text(list.name.as_str(), "Doing") {
            doing_id = Some(list.id.clone());
        } else if same_text(list.name.as_str(), "Done") {
            done_id = Some(list.id.clone());
        }
        i = i + 1;
    }
    proof {
        assert(lists@.take(lists.len() as int) =~= lists@);
    }
    match (todo_id, doing_id, done_id) {
        (Some(todo), Some(doing), Some(done)) => Ok((todo, doing, done)),
        _ => Err(AppError::from(String::from_str("Không tìm thấy đủ 3 danh sách 'ToDo', 'Doing' và 'Done'"))),
    }
}

/// A list id that `last_id_named` finds is the id of a list of that exact
/// name; and where it finds none, no list has that name.
pub proof fn lemma_found_list_is_named(lists: Seq<TrelloList>, name: Seq<char>)
    ensures
        last_id_named(lists, name) matches Some(id) ==> exists|k: int|
            0 <= k < lists.len() && (#[trigger] lists[k]).name@ == name && lists[k].id@ == id,
        last_id_named(lists, name) is None ==> forall|k: int|
            0 <= k < lists.len() ==> (#[trigger] lists[k]).name@ != name,
    decreases lists.len(),
{
    if lists.len() > 0 {
        lemma_found_list_is_named(lists.drop_last(), name);
        let prev = lists.drop_last();
        if lists.last().name@ != name {
            if last_id_named(prev, name) is Some {
                let k = choose|k: int| 0 <= k < prev.len() && (#[trigger] prev[k]).name@ == name
                    && prev[k].id@ == last_id_named(prev, name)->0;
                assert(lists[k] == prev[k]);
            } else {
                assert forall|k: int| 0 <= k < lists.len() implies (#[trigger] lists[k]).name@ != name by {
                    if k < prev.len() {
                        assert(lists[k] == prev[k]);
                    }
                }
            }
        } else {
            assert(lists[lists.len() - 1] == lists.last());
        }
    }
}

/// The Trello API address of the lists of the configured board.
pub open spec fn lists_url(board: Seq<char>, key: Seq<char>, token: Seq<char>) -> Seq<char> {
    "https://api.trello.com/1/boards/"@ + board + "/lists?key="@ + key + "&token="@ + token
}

/// The Trello API address of the cards of the configured board.
pub open spec fn cards_url(board: Seq<char>, key: Seq<char>, token: Seq<char>) -> Seq<char> {
    "https://api.trello.com/1/boards/"@ + board + "/cards?key="@ + key + "&token="@ + token
}

/// The address from which the lists of the configured board are read.
pub fn board_lists_url(config: &TrelloConfig) -> (r: String)
    ensures
        r@ == lists_url(config.board@, config.key@, config.token@),
{
    let mut url = String::from_str("https://api.trello.com/1/boards/");
    url.append(config.board.as_str());
    url.append("/lists?key=");
    url.append(config.key.as_str());
    url.append("&token=");
    url.append(config.token.as_str());
    url
}

/// The address from which the cards of the configured board are read.
pub fn board_cards_url(config: &TrelloConfig) -> (r: String)
    ensures
        r@ == cards_url(config.board@, config.key@, config.token@),
{
    let mut url = String::from_str("https://api.trello.com/1/boards/");
    url.append(config.board.as_str());
    url.append("/cards?key=");
    url.append(config.key.as_str());
    url.append("&token=");
    url.append(config.token.as_str());
    url
}

/// The error for a Trello answer whose status is not a success: its status
/// line and its body.
pub fn api_error(status: &str, body: &str) -> (r: AppError)
    ensures
        r@ == "Trello API error: Status "@ + status@ + ", Body: "@ + body@,
{
    let mut message = String::from_str("Trello API error: Status ");
    message.append(status);
    message.append(", Body: ");
    message.append(body);
    AppError::from(message)
}

/// The error for a card list that could not be parsed, with the parser's
/// explanation.
pub fn cards_parse_error(detail: &str) -> (r: AppError)
    ensures
        r@ == "Failed to parse Trello cards: "@ + detail@,
{
    let mut message = String::from_str("Failed to parse Trello cards: ");
    message.append(detail);
    AppError::from(message)
}

} // verus!
