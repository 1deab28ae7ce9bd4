//! Shot segmentation and metrics for a Doppler-radar golf launch monitor.
pub mod analysis;
pub mod config;
pub mod launch_monitor;
pub mod laws;
pub mod mock_radar;
pub mod ops243;
pub mod shot;
