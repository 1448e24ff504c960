pub mod telegram;
pub mod trello;
