//! Session orchestration for an interactive story companion: the screen
//! navigation state machine, the conversation context handed to the
//! completion service, the assembly of streamed completions, and the ordered
//! commit of each new page.

pub mod context;
pub mod guarantees;
pub mod models;
pub mod prompt;
pub mod session;
pub mod stream;
