//! Telemetry streaming core: a fixed-size binary frame codec, a resilient
//! best-effort channel state machine, a producer-side rate gate, and the
//! relay logic that accumulates a byte stream into complete frames and
//! republishes them downstream.

pub mod channel;
pub mod codec;
pub mod gate;
pub mod relay;

pub use channel::TelemetrySocket;
pub use channel::WriteOutcome;
pub use codec::TelemetryV1;
pub use gate::RateGate;
pub use relay::FrameAccumulator;
pub use relay::Relay;
