//! Configuration of the endpoints, as read from a configuration document.
use vstd::prelude::*;

verus! {

/// A policy flag that may be absent; absent means off.
pub open spec fn flag_or_off(f: Option<bool>) -> bool {
    match f {
        Some(b) => b,
        None => false,
    }
}

/// Reads a policy flag that may be absent; absent means off.
pub fn flag_value(f: Option<bool>) -> (r: bool)
    ensures
        r == flag_or_off(f),
{
    match f {
        Some(b) => b,
        None => false,
    }
}

/// Configuration of a Discord endpoint.
pub struct DiscordConfig {
    /// The bot's token.
    pub token: String,
    /// The channels to relay, by id.
    pub channel_ids: Vec<u64>,
    /// Do not relay between this endpoint's own channels.
    pub isolate_channels: Option<bool>,
    /// Only forward to other endpoints; never post what they send.
    pub forward_only: Option<bool>,
}

/// Configuration of a Twitch endpoint.
pub struct TwitchConfig {
    /// The bot's token.
    pub token: String,
    /// The bot's login name.
    pub name: String,
    /// The channels to relay, by name.
    pub channels: Vec<String>,
    /// Do not relay between this endpoint's own channels.
    pub isolate_channels: Option<bool>,
    /// Only forward to other endpoints; never post what they send.
    pub forward_only: Option<bool>,
}

/// The configuration of one endpoint, by platform.
pub enum ClientConfig {
    DiscordConfig(DiscordConfig),
    TwitchConfig(TwitchConfig),
}

/// The configuration of a whole relay: one entry per endpoint.
pub struct PipeFitterConfig {
    stream_configs: Vec<ClientConfig>,
}

impl PipeFitterConfig {
    /// A relay configuration from its endpoint entries.
    pub fn new(stream_configs: Vec<ClientConfig>) -> (r: PipeFitterConfig)
        ensures
            r.entries() == stream_configs@,
    {
        PipeFitterConfig { stream_configs }
    }

    /// The endpoint entries, in order.
    pub closed spec fn entries(&self) -> Seq<ClientConfig> {
        self.stream_configs@
    }

    /// The number of endpoint entries.
    pub fn len(&self) -> (r: usize)
        ensures
            r == self.entries().len(),
    {
        self.stream_configs.len()
    }

    /// Takes the endpoint entries out of the configuration.
    pub fn into_entries(self) -> (r: Vec<ClientConfig>)
        ensures
            r@ == self.entries(),
    {
        self.stream_configs
    }
}

} // verus!
