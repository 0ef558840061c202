//! Device-side engine for the GUD (Generic USB Display) protocol.
//!
//! The crate holds the protocol logic of a USB display gadget: the wire
//! codec for the fixed-layout protocol structures, the control-request
//! dispatcher, the bulk-transfer reassembly and blit engine, and the
//! packet buffer pool.  The embedding program supplies the transport
//! (USB endpoints) and the destination surface, and calls into these
//! components with plain values.

pub mod codec;
pub mod dispatch;
pub mod engine;
pub mod pool;
pub mod proto;
