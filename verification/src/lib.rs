//! Voice-memo organizer core: a recording-session state machine, a
//! three-stage enrichment pipeline (transcribe, summarize, categorize),
//! an in-memory metadata store, and a derived PARA folder index.

pub mod category;
pub mod classify;
pub mod clock;
pub mod errors;
pub mod ident;
pub mod para;
pub mod pipeline;
pub mod recording;
pub mod session;
pub mod store;
pub mod text;
