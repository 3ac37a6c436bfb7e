//! CollaBoard: the verified core of a collaborative whiteboard service.
//!
//! The library holds the rules of the service (who may see, share and
//! delete a board, how invitations are accepted, how passwords are hashed
//! and checked, how a drawing room keeps its state) as verified Rust. The
//! I/O around it (HTTP, PostgreSQL, files, e-mail, websockets, the browser)
//! lives in the application crate, which drives the request handlers of
//! [`handlers`] as state machines.
#![allow(unused_imports)]

pub mod error;
pub mod text;
pub mod password;
pub mod model;
pub mod dto;
pub mod ctx;
pub mod validation;
pub mod json;
pub mod random;
pub mod clock;
pub mod invitation;
pub mod keyed;
pub mod ws;
pub mod client;
pub mod forms;
pub mod endpoints;
pub mod board_file;
pub mod laws;
pub mod handlers;
