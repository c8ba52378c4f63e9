//! A conversational agent that keeps memories of past conversations: how a
//! finished conversation becomes a memory, which memory a search recalls, which
//! memories fade with time, and how the agent's state changes turn by turn.
//!
//! The library holds the rules and leaves the asking to its caller. Each
//! function that changes the state is one step, to be taken under the lock that
//! guards the state; what the generators answer, the time, and the similarity
//! scores come in as arguments. Numbers in floating point come in as their
//! IEEE 754 binary64 bit patterns.

pub mod binary64;
pub mod decay;
pub mod memory;
pub mod monikai;
pub mod openai;
pub mod print;
pub mod prompts;
pub mod ranker;
pub mod repl;
pub mod text;
