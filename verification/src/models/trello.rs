use vstd::prelude::*;

verus! {

/// A user's Trello access: board id, API key and token, and the Telegram
/// chat (user) that receives the reports.
#[derive(Debug)]
pub struct TrelloConfig {
    pub board: String,
    pub key: String,
    pub token: String,
    pub user_id: i64,
}

/// A list of a Trello board.
#[derive(Debug)]
pub struct TrelloList {
    pub id: String,
    pub name: String,
}

/// A card of a Trello board, with the id of the list that holds it.
#[derive(Debug)]
pub struct TrelloCard {
    pub id: String,
    pub name: String,
    pub id_list: String,
}

impl Clone for TrelloConfig {
    fn clone(&self) -> (r: Self)
        ensures
            r == *self,
    {
        TrelloConfig {
            board: self.board.clone(),
            key: self.key.clone(),
            token: self.token.clone(),
            user_id: self.user_id,
        }
    }
}

impl Clone for TrelloCard {
    fn clone(&self) -> (r: Self)
        ensures
            r == *self,
    {
        TrelloCard { id: self.id.clone(), name: self.name.clone(), id_list: self.id_list.clone() }
    }
}

} // verus!
