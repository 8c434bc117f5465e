//! A verified control plane for small file-serving daemons.
//!
//! The crate models the command and message vocabulary, the validation checks
//! that every start request must pass, the per-protocol lifecycle state
//! machine, and the server handle that publishes control messages on a
//! broadcast bus.  The actual byte-serving daemons, the CLI and the signal
//! handling live outside the library and drive it through these types.

pub mod bus;
pub mod dhcp;
pub mod errors;
pub mod ip;
pub mod logger;
pub mod messages;
pub mod orchestrator;
pub mod protocol;
pub mod runner;
pub mod server;
pub mod validation;

pub use bus::DefaultChannel;
pub use errors::QuickServeError;
pub use errors::QuickServeResult;
pub use logger::LogLevel;
pub use logger::MyLogger;
pub use logger::MyLoggerFn;
pub use messages::CommandMsg;
pub use messages::Intent;
pub use messages::Message;
pub use orchestrator::plan_start_commands;
pub use orchestrator::stop_all_commands;
pub use orchestrator::Invocation;
pub use protocol::Protocol;
pub use runner::runner_step;
pub use runner::RunnerAction;
pub use runner::RunnerState;
pub use runner::ServerConfig;
pub use server::DHCPRunner;
pub use server::FTPRunner;
pub use server::HTTPRunner;
pub use server::Server;
pub use server::TFTPRunner;
pub use validation::ensure_trailing_slash;
pub use validation::validate_file_path;
pub use validation::validate_ip_port;
pub use validation::validate_path;
pub use validation::PathStat;
pub use dhcp::DhcpAction;
pub use dhcp::DhcpMessageType;
pub use dhcp::DhcpRequest;
pub use dhcp::DhcpServer;
pub use dhcp::LeaseEntry;
