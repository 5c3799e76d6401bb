//! Command-stream protocol and session logic for the CH341 USB-to-I2C adapter.
//!
//! The crate turns I2C operations into the adapter's command frames and decides,
//! reply by reply, how an exchange with the adapter proceeds. It performs no USB
//! transfer itself: the caller carries out each [`Step`] on the adapter's bulk
//! endpoints and hands the reply back.

pub mod discovery;
pub mod error;
pub mod exchange;
pub mod frame;
pub mod session;
pub mod speed;

pub use discovery::{Direction, EndpointInfo, InterfaceInfo, TransferType};
pub use error::{Error, TransferFault};
pub use exchange::Operation;
pub use session::{new, Device, Outcome, ReceivePending, SendPending, Step};
pub use speed::I2CSpeed;
