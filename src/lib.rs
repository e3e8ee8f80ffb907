//! Orchestration core of a hardware stress tester: the stop-state arbitration,
//! the telemetry monitor's decisions, report assembly and the GPU device-session
//! lifecycle, each with a machine-checked contract.

pub mod stop;
pub mod thermal;
pub mod stressors;
pub mod config;
pub mod monitor;
pub mod report;
pub mod device;
pub mod components;
pub mod sensors;
pub mod progress;
pub mod session;
