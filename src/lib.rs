//! Relays chat messages among a full mesh of chat endpoints.
pub mod client;
pub mod config;
pub mod errors;
pub mod mailbox;
pub mod message;
pub mod pipe_fitter;

pub use client::{Action, ChannelKey, Client, Discord, EndpointState, Identity, InboundHandle, NativeEvent, Twitch};
pub use config::{ClientConfig, DiscordConfig, PipeFitterConfig, TwitchConfig};
pub use errors::FitterErrorKind;
pub use mailbox::{Delivery, Mailbox, INBOUND_CAPACITY};
pub use message::Message;
pub use pipe_fitter::PipeFitter;
