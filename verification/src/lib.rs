//! Decision core of a chat relay that binds each chat to a persistent
//! assistant thread on a remote service, submits messages as runs,
//! polls each run on a fixed budget, and answers with the run's result.
//!
//! The library holds everything that decides: how a message is
//! classified ([`turn`]), how a run is polled to an outcome ([`run`]),
//! and how a completed run's reply is assembled ([`reply`]). Talking to
//! the chat platform, the session store and the assistant service is
//! left to the host around it, which feeds the observations in and
//! carries the decided effects out.

pub mod reply;
pub mod run;
pub mod turn;
