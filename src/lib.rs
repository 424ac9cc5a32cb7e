//! Agent Ops Room: the room protocol of a multi-participant coordination
//! fabric over a publish/subscribe bus.
//!
//! The library holds the envelope schema and its JSON object model, the topic
//! grammar, the heartbeat registry, the moderator's grant bookkeeping and
//! validation, and the decision steps of the facilitator and of a worker.
//! The bus, the language-model service and the timers are driven by the
//! caller, which hands in what they produced and publishes what comes back.

pub mod agent_registry;
pub mod clock;
pub mod codec;
pub mod config;
pub mod error;
pub mod facilitator;
pub mod json;
pub mod llm;
pub mod memory;
pub mod message;
pub mod mic_grant;
pub mod prompt;
pub mod text;
pub mod topics;
pub mod validator;
pub mod worker;
