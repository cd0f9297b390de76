//! The reader page of a terminal manga reader: what it holds, how it answers keys, ticks and
//! background events, and what it asks to be drawn, fetched and searched.
pub mod agent;
pub mod area;
pub mod chapter;
pub mod events;
pub mod laws;
pub mod list_state;
pub mod outcomes;
pub mod page;
pub mod reader;
pub mod text;
pub mod url;
