//! A personal note store: notes with a title and a body, their textual form
//! for editing, the editor round trip, and persistence in an SQLite database.

pub mod decimal;
pub mod editor;
pub mod lines;
pub mod markdown;
pub mod note;
pub mod persistence;
pub mod rows;
pub mod sqlite;
