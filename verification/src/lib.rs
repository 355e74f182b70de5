//! A verified core for W3C trace-context propagation: the `traceparent`
//! header codec, a header-carrier abstraction, and a span recorder with
//! parenting and export-queue discipline, together with the small pieces
//! of game logic (dice roll, guess parsing) that the surrounding dice
//! server and client need.

pub mod carrier;
pub mod codec;
pub mod context;
pub mod game;
pub mod hex;
pub mod propagation;
pub mod recorder;
pub mod rng;
pub mod text;
