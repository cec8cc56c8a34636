//! The application handlers that the dispatch server routes to: echo,
//! reboot, telemetry, time sync, the UDP side channels, network reset, and
//! the file upload and download state machines.
pub mod download;
pub mod echo;
pub mod reboot;
pub mod reset_network;
pub mod telemetry;
pub mod time_sync;
pub mod udp_backup;
pub mod udp_control;
pub mod upload;

pub use download::DownloadCommand;
pub use echo::EchoCommand;
pub use reboot::Reboot;
pub use reset_network::ResetNetwork;
pub use telemetry::TeleMetry;
pub use time_sync::TimeSync;
pub use udp_backup::UdpBackup;
pub use udp_control::UdpControl;
pub use upload::UploadCommand;
