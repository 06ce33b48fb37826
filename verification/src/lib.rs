//! A small runtime for programs written in the Elm architecture.
//!
//! A program is four functions: `init`, `view`, `update` and `subscriptions`.
//! The runtime threads one model through `update`, one message at a time, and
//! turns each command that `update` returns into a background producer whose
//! messages come back to the loop.
//!
//! Everything here is synchronous and total. Waiting (for an effect to
//! resolve, for a stream to yield, for room on the bus) is left to the
//! embedding: each component is a state machine that says what to wait for
//! next and is told what came of it.
//!
//! - [`cmd`]: what `update` may ask for.
//! - [`program`]: the loop, from `init` to its end.
//! - [`dispatch`]: the producer that carries a command out, with what holds
//!   of every producer in [`dispatch_laws`].
//! - [`cancel`]: the scope that stops a source, and the cutoff behind which
//!   such a source stands.
//! - [`system`]: the loop, the bus and the producers taken together, with
//!   what holds of them whatever happens.
//! - [`random`], [`time`], [`websocket`], [`http`]: four small programs.

pub mod cancel;
pub mod cmd;
pub mod dispatch;
pub mod dispatch_laws;
pub mod http;
pub mod program;
pub mod random;
pub mod system;
pub mod text;
pub mod time;
pub mod websocket;

pub use cancel::{scope, Cutoff, Scope};
pub use cmd::Cmd;
pub use dispatch::{process_cmd, Signal, Task, BUS_CAPACITY};
pub use program::{Program, Report, Session, Sources, Started, Step};
