pub mod trello;
