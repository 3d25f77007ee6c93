//! The decisions of the `prove` command: the order of its stages, what each
//! stage asks of the outside world, where the inputs are read from and the
//! proof is written to, and how a failure ends the run.
//!
//! The command itself touches the file system, the compiler and the prover.
//! None of that happens here. A caller performs each [`pipeline::Action`] and
//! reports what came of it as a [`pipeline::Event`]; [`pipeline::Stage::advance`]
//! answers with the next action. What holds of every run that is walked in
//! this way is proved in [`laws`].

pub mod command;
pub mod errors;
pub mod package;
pub mod pipeline;
pub mod laws;
