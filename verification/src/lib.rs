//! Verified core of an HF physical-layer engine: constellation bookkeeping,
//! symbol timing, equalizer mode control, and the handle store that the
//! channel simulator keeps its instances in.
//!
//! The floating-point signal path (pulse shaping, mixing, fading, noise)
//! lives outside the verified library and builds on the contracts here.

pub mod constellation;
pub mod equalizer;
pub mod slab;
pub mod timing;

pub use constellation::Bpsk;
pub use constellation::ConstellationType;
pub use constellation::Psk8;
pub use constellation::Qam16;
pub use constellation::Qam32;
pub use constellation::Qam64;
pub use constellation::Qpsk;
pub use equalizer::EqMode;
pub use slab::ChannelSlab;
pub use slab::ChannelSlot;
pub use timing::FixedTiming;
pub use timing::SymbolTiming;
