//! The verified core of a terminal snippet manager.
//!
//! A session keeps short notes, each with a title and a language, edits
//! one of them at a time, searches them by title and saves them to a tree
//! of files that is kept in step with a remote. This library holds what
//! the session decides: the cycle of input modes ([`key`]), where a note
//! is stored ([`note`]), the list of notes and its selection ([`list`]),
//! the search ([`search`]), the reaction to each key ([`session`]), what
//! follows from the outcome of a file operation ([`store`]), the calls
//! that synchronise the tree ([`sync`]) and the configuration ([`env`]).
//! Keys, files, the clipboard and the remote are handled by the program
//! around it.

pub mod env;
pub mod key;
pub mod list;
pub mod note;
pub mod search;
pub mod session;
pub mod store;
pub mod sync;
pub mod text;
