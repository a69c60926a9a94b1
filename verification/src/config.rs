//! The configuration that is loaded once at startup.

use vstd::prelude::*;

verus! {

/// Settings of one run. All four fields are required; a run never starts
/// with a partial configuration.
#[derive(Debug)]
pub struct Config {
    /// Opaque credential presented to the gateway.
    pub token: String,
    /// Identifier of the target server.
    pub guild_id: u64,
    /// Identifier of the entity that every message mentions.
    pub ping_id: u64,
    /// Whether channels are bulk-created before the fan-out.
    pub create_channel: bool,
}

/// Mathematical content of a `Config`.
pub struct ConfigView {
    pub token: Seq<char>,
    pub guild_id: u64,
    pub ping_id: u64,
    pub create_channel: bool,
}

impl View for Config {
    type V = ConfigView;

    open spec fn view(&self) -> ConfigView {
        ConfigView {
            token: self.token@,
            guild_id: self.guild_id,
            ping_id: self.ping_id,
            create_channel: self.create_channel,
        }
    }
}

impl Config {
    /// Assembles a configuration from its four fields.
    pub fn new(token: String, guild_id: u64, ping_id: u64, create_channel: bool) -> (c: Config)
        ensures
            c == (Config { token, guild_id, ping_id, create_channel }),
    {
        Config { token, guild_id, ping_id, create_channel }
    }
}

impl Clone for Config {
    fn clone(&self) -> (c: Config)
        ensures
            c@ == self@,
    {
        Config {
            token: self.token.clone(),
            guild_id: self.guild_id,
            ping_id: self.ping_id,
            create_channel: self.create_channel,
        }
    }
}

} // verus!
