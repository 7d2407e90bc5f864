//! Display-power daemon core: capability discovery bookkeeping, idle-watchdog
//! arming, power-command planning, and the idle/resume transition state
//! machine with its race guard.

pub mod laws;
pub mod machine;
pub mod power;
pub mod registry;
pub mod watchdog;
