//! Driver orchestration for a set of serial-attached input peripherals:
//! device autodetection, per-device protocol state machines (telemetry
//! parsing and calibration, actuator control, pedal calibration), a periodic
//! heartbeat over a broadcast bus, and a modal interface request/confirm
//! protocol layered on that bus.

pub mod api;
pub mod autodetect;
pub mod bus;
pub mod car;
pub mod decimal;
pub mod drivers;
pub mod game;
pub mod leaderboard;
pub mod messages;
pub mod mjpeg;
pub mod models;
pub mod numeric;
pub mod pedal;
pub mod pinentry;
pub mod profiling;
pub mod registry;
pub mod steering_wheel;
pub mod telemetry;
pub mod unit;
