pub mod answer;
pub mod command;
