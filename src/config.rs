//! Configuration of the room's components, as plain values. Reading it from
//! flags and the environment is the caller's business.

use vstd::prelude::*;

verus! {

/// Facilitator configuration.
#[derive(Clone, Debug)]
pub struct FacilitatorConfig {
    pub openai_api_key: String,
    pub openai_model: String,
    pub openai_base_url: String,
    /// How long a worker stays active after its last heartbeat, in seconds.
    pub agent_heartbeat_timeout_secs: u64,
    pub mqtt_host: String,
    pub mqtt_port: u16,
    pub mqtt_client_id_prefix: String,
    pub mqtt_keep_alive_secs: u64,
    pub room_id: String,
    /// How long a grant lasts, in seconds.
    pub default_mic_duration_secs: u64,
    /// How many messages a grant allows.
    pub default_max_messages: u32,
}

/// Moderator configuration.
#[derive(Clone, Debug)]
pub struct GatewayConfig {
    pub mqtt_host: String,
    pub mqtt_port: u16,
    pub mqtt_client_id_prefix: String,
    pub mqtt_keep_alive_secs: u64,
    pub room_id: String,
    pub max_validation_time_ms: u64,
    pub verbose_rejections: bool,
}

/// Specialist worker configuration.
#[derive(Clone, Debug)]
pub struct AgentConfig {
    pub mqtt_host: String,
    pub mqtt_port: u16,
    pub mqtt_client_id_prefix: String,
    pub mqtt_keep_alive_secs: u64,
    pub room_id: String,
    pub agent_id: String,
    pub openai_api_key: String,
    pub openai_model: String,
    pub openai_base_url: String,
    /// How many public envelopes the worker remembers.
    pub max_memory_messages: usize,
}

} // verus!
