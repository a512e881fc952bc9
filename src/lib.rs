//! A chat command bot's logic: message dispatch, the grocery list engine and
//! the invitation gate, each stated and proved without the chat transport or
//! the document store it runs against.

pub mod text;
pub mod dispatch;
pub mod grocery;
pub mod session;
pub mod gate;
pub mod store;
