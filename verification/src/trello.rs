use vstd::prelude::*;

verus! {

/// A list of a Trello board, as the board-check endpoint describes it (its
/// position on the board is not read here).
#[allow(non_snake_case)]
#[derive(Debug)]
pub struct TrelloList {
    pub id: String,
    pub name: String,
    pub closed: bool,
    pub idBoard: String,
}

/// A card of a Trello board, with the id of the list that holds it.
#[allow(non_snake_case)]
#[derive(Debug)]
pub struct TrelloCard {
    pub id: String,
    pub name: String,
    pub idList: String,
}

/// The ids of a board's "ToDo", "Doing" and "Done" lists, where found, and
/// whether all three were.
#[derive(Debug)]
pub struct TrelloCheckResult {
    pub status: bool,
    pub todo_id: Option<String>,
    pub doing_id: Option<String>,
    pub done_id: Option<String>,
}

/// A user's Trello access: board id, API key and token, and the Telegram
/// chat (user) that receives the reports.
#[derive(Clone, Debug)]
pub struct TrelloConfig {
    pub board: String,
    pub key: String,
    pub token: String,
    pub user_id: i64,
}

/// Whether `id` is the list id `slot` holds.
pub open spec fn holds_id(slot: Option<String>, id: Seq<char>) -> bool {
    match slot {
        Some(s) => s@ == id,
        None => false,
    }
}

/// The cards that fall to the first, second and third of the three slots
/// `a`, `b`, `c`: a card goes to the first slot that holds its list id.
pub open spec fn cards_of_slot(
    cards: Seq<TrelloCard>,
    a: Option<String>,
    b: Option<String>,
    c: Option<String>,
    which: int,
) -> Seq<TrelloCard> {
    if which == 0 {
        cards.filter(|x: TrelloCard| holds_id(a, x.idList@))
    } else if which == 1 {
        cards.filter(|x: TrelloCard| !holds_id(a, x.idList@) && holds_id(b, x.idList@))
    } else {
        cards.filter(
            |x: TrelloCard| !holds_id(a, x.idList@) && !holds_id(b, x.idList@) && holds_id(c, x.idList@),
        )
    }
}

/// Whether `id` equals the list id that `slot` holds (never, for an empty slot).
fn slot_matches(slot: &Option<String>, id: &str) -> (r: bool)
    ensures
        r == holds_id(*slot, id@),
{
    match slot {
        Some(s) => crate::text::same_text(s.as_str(), id),
        None => false,
    }
}

/// Splits `cards` by the list that holds each, using the ids that `result`
/// found: the ToDo cards, the Doing cards and the Done cards, each in the
/// order of `cards`. A card goes to the first of the three ids that its list
/// id equals; a missing id matches no card; cards of other lists are dropped.
pub fn map_cards_to_lists(result: TrelloCheckResult, cards: Vec<TrelloCard>) -> (r: (
    Vec<TrelloCard>,
    Vec<TrelloCard>,
    Vec<TrelloCard>,
))
    ensures
        r.0@ == cards_of_slot(cards@, result.todo_id, result.doing_id, result.done_id, 0),
        r.1@ == cards_of_slot(cards@, result.todo_id, result.doing_id, result.done_id, 1),
        r.2@ == cards_of_slot(cards@, result.todo_id, result.doing_id, result.done_id, 2),
{
    let ghost all = cards@;
    let mut todo_cards: Vec<TrelloCard> = Vec::new();
    let mut doing_cards: Vec<TrelloCard> = Vec::new();
    let mut done_cards: Vec<TrelloCard> = Vec::new();
    for card in it: cards
        invariant
            it.seq() == all,
            todo_cards@ == cards_of_slot(
                all.take(it.index() as int),
                result.todo_id,
                result.doing_id,
                result.done_id,
                0,
            ),
            doing_cards@ == cards_of_slot(
                all.take(it.index() as int),
                result.todo_id,
                result.doing_id,
                result.done_id,
                1,
            ),
            done_cards@ == cards_of_slot(
                all.take(it.index() as int),
                result.todo_id,
                result.doing_id,
                result.done_id,
                2,
            ),
    {
        let ghost i = it.index() as int;
        proof {
            reveal_with_fuel(Seq::filter, 1);
            assert(all.take(i + 1).drop_last() =~= all.take(i));
            assert(all.take(i + 1).last() == card);
        }
        if slot_matches(&result.todo_id, card.idList.as_str()) {
            todo_cards.push(card);
        } else if slot_matches(&result.doing_id, card.idList.as_str()) {
            doing_cards.push(card);
        } else if slot_matches(&result.done_id, card.idList.as_str()) {
            done_cards.push(card);
        }
    }
    proof {
        assert(all.take(all.len() as int) =~= all);
    }
    (todo_cards, doing_cards, done_cards)
}


/// The id of the last list of `lists` whose name is exactly `name`, if any.
pub open spec fn last_list_named(lists: Seq<TrelloList>, name: Seq<char>) -> Option<Seq<char>>
    decreases lists.len(),
{
    if lists.len() == 0 {
        None
    } else if lists.last().name@ == name {
        Some(lists.last().id@)
    } else {
        last_list_named(lists.drop_last(), name)
    }
}

/// The view of an optional string.
pub open spec fn opt_view(o: Option<String>) -> Option<Seq<char>> {
    match o {
        Some(s) => Some(s@),
        None => None,
    }
}

/// The message when a board lacks one of the three lists.
pub open spec fn lists_missing_message() -> Seq<char> {
    "Danh sách KHÔNG có đủ 3 tên 'ToDo', 'Doing', và 'Done'."@
}

/// Looks for the lists named exactly "ToDo", "Doing" and "Done" among a
/// board's lists (the last of a name counts). With all three, the result
/// holds their ids and a true status; otherwise the error says that one is
/// missing.
pub fn classify_lists(lists: &Vec<TrelloList>) -> (r: Result<TrelloCheckResult, String>)
    ensures
        r is Ok <==> {
            &&& last_list_named(lists@, "ToDo"@) is Some
            &&& last_list_named(lists@, "Doing"@) is Some
            &&& last_list_named(lists@, "Done"@) is Some
        },
        r matches Ok(res) ==> {
            &&& res.status
            &&& opt_view(res.todo_id) == last_list_named(lists@, "ToDo"@)
            &&& opt_view(res.doing_id) == last_list_named(lists@, "Doing"@)
            &&& opt_view(res.done_id) == last_list_named(lists@, "Done"@)
        },
        r matches Err(e) ==> e@ == lists_missing_message(),
{
    let mut result = TrelloCheckResult { status: false, todo_id: None, doing_id: None, done_id: None };
    let mut i: usize = 0;
    while i < lists.len()
        invariant
            i <= lists.len(),
            !result.status,
            opt_view(result.todo_id) == last_list_named(lists@.take(i as int), "ToDo"@),
            opt_view(result.doing_id) == last_list_named(lists@.take(i as int), "Doing"@),
            opt_view(result.done_id) == last_list_named(lists@.take(i as int), "Done"@),
        decreases lists.len() - i,
    {
        let list = &lists[i];
        proof {
            reveal_strlit("ToDo");
            reveal_strlit("Doing");
            reveal_strlit("Done");
            assert("ToDo"@[0] != "Doing"@[0]);
            assert("ToDo"@[0] != "Done"@[0]);
            assert("Doing"@.len() != "Done"@.len());
            assert(lists@.take(i + 1).drop_last() =~= lists@.take(i as int));
            assert(lists@.take(i + 1).last() == lists@[i as int]);
        }
        if crate::text::same_text(list.name.as_str(), "ToDo") {
            result.todo_id = Some(list.id.clone());
        } else if crate::text::same_text(list.name.as_str(), "Doing") {
            result.doing_id = Some(list.id.clone());
        } else if crate::text::same_text(list.name.as_str(), "Done") {
            result.done_id = Some(list.id.clone());
        }
        i = i + 1;
    }
    proof {
        assert(lists@.take(lists.len() as int) =~= lists@);
    }
    if result.todo_id.is_some() && result.doing_id.is_some() && result.done_id.is_some() {
        result.status = true;
        Ok(result)
    } else {
        Err(String::from_str("Danh sách KHÔNG có đủ 3 tên 'ToDo', 'Doing', và 'Done'."))
    }
}

} // verus!
