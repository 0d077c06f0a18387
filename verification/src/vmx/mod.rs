pub mod bringup;
pub mod bringup_sim;
pub mod config;
pub mod context;
pub mod ept;
pub mod exit;
pub mod init;
pub mod memory;
pub mod msr;
pub mod sim;
pub mod state;
pub mod vmcs;
pub mod vmlaunch;
