//! State coordination for a door lock actuator, a door hinge sensor and a
//! two-color status LED: the lock's debounce-guarded state machine, the
//! level-to-state mappings of both pins, the control loop's decision table
//! and the request logic of the HTTP interface. Pin I/O is handed in by the
//! caller as write operations and sampled levels.

pub mod hinge;
pub mod led;
pub mod level;
pub mod lock;
pub mod server;
