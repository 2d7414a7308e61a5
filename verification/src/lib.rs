//! A self-healing service supervisor core: a typed codec for the configuration
//! store's tagged binary values, a cooperative cancellation primitive, and the
//! supervision loop's state machine.

pub mod codec;
pub mod logging;
pub mod supervisor;
pub mod wait_stopper;
pub mod wide_string;
