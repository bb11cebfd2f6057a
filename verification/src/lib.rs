//! Verified logic of a Cyphal/CAN node: plug-and-play node-ID allocation, ExecuteCommand, firmware
//! updates over Cyphal and over ISO-TP, the main loop of the node, CAN services, and a command
//! line; with the logic of two applications built on it, a template and a shoulder sensor.
//!
//! Nothing here touches hardware. Functions decide; the firmware around the library performs what
//! they ask for and reports how it went.
pub mod byte_buf;
pub mod bytes;
pub mod can;
pub mod can_cli_commands;
pub mod can_consumer;
pub mod can_frame;
pub mod can_updater;
pub mod cli;
pub mod clock;
pub mod driver;
pub mod execute_command;
pub mod handler;
pub mod isotp;
pub mod node_info;
pub mod node_task;
pub mod ota;
pub mod outbox;
pub mod pnp;
pub mod settings;
pub mod shoulder;
pub mod template;
pub mod text;
pub mod time;
pub mod util;
pub mod wire;

pub use clock::TimerClock;
pub use execute_command::{DefaultCommandHandler, RESET_FACTORY, RESET_NONE, RESET_SOFT};
pub use handler::{CyphalHandler, NodeExtension, NoopHandler};
pub use node_info::NodeInfoConfig;
pub use node_task::assigned_node_id;
pub use ota::OtaSession;
pub use pnp::{pnp_unique_id_hash, PnpHandler};
