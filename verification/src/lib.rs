//! A conversational client for a completion service, without its network.
//!
//! The library holds a dialogue, decides for each message of the user which
//! handler answers it, builds the requests that the handlers send, and reads
//! what comes back. One of the handlers answers from an offline
//! encyclopedia, in several stages. Sending and receiving is left to the
//! caller: every step names the request to perform next and takes the
//! outcome of the one before.
//!
//! - [`app`] is the orchestrator of a dialogue.
//! - [`llm`] builds the two kinds of request and reads the two kinds of
//!   response.
//! - [`chat`], [`resume`] and [`wikipedia`] are the handlers.
//! - [`html`] and [`url`] read the pages of the encyclopedia mirror and
//!   build its addresses.
//! - [`json`], [`message`] and [`text`] are the values underneath.
//! - [`inputfield`] is the text field in which the user writes, and [`ui`]
//!   says what each key does.

pub mod app;
pub mod chat;
pub mod html;
pub mod inputfield;
pub mod json;
pub mod llm;
pub mod message;
pub mod resume;
pub mod text;
pub mod ui;
pub mod url;
pub mod wikipedia;
