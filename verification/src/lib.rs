//! Decisions behind a Forza Horizon Discord Rich Presence companion: the game
//! modules, the telemetry packet layout, the presence that is shown for a
//! telemetry sample and the Xbox Live state, and the bookkeeping around the
//! Discord IPC sockets and the game monitor.

pub mod modules;
pub mod text;
pub mod telemetry;
pub mod car_database;
pub mod discord;
pub mod monitor;
pub mod sockets;
pub mod paths;
