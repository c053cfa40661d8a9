//! Client core for a streaming question/answer protocol carried as JSON text
//! frames over a persistent message connection: the typed message model, the
//! single-exchange state machine, and the configuration records around it.

pub mod cli;
pub mod commands;
pub mod config;
pub mod client;
pub mod messages;
pub mod text;

pub use cli::{help_text, parse_cli_command_from, CliCommand, CliOptions};
pub use client::{
    collect_stream_events, deduplicate_sources, Client, ClientError, Exchange, Frame, StreamEvent,
};
pub use commands::{
    assemble_reply, connection_status, do_disconnect, is_connected, ChatReply, ConfigForm,
    ConnectionSlot, ConnectionStatus,
};
pub use config::{default_config_path, ApiSection, Config, ConfigError, ServerSection};
pub use messages::{
    DecodeError, ErrorMessage, QueryMessage, ResponseMessage, ServerMessage, StatusMessage,
    StreamChunkMessage, StreamEndMessage, WireDoc, WireField, WireItem,
};
