//! A background telemetry agent's reporting core: the state machine that
//! starts, runs, and stops a recurring collect-and-send cycle, tracks its
//! outcome, and exposes that status to callers.

pub mod device_info;
pub mod sender;
