pub mod app;
pub mod error;
pub mod highlight;
pub mod lemmas;
pub mod list;
pub mod listing;
pub mod text;
