//! An echo over a dynamic virtual channel, whose transport delivers each
//! message in size-bounded chunks.
//!
//! Every chunk starts with an eight-byte header that tells whether it is
//! the first, a middle, the last or the only fragment of a message.
//!
//! - [`header`] decodes and encodes that header.
//! - [`reassembly`] puts the fragments of one message back together.
//! - [`framing`] builds fragments, and cuts a message into them.
//! - [`transport`] says what a blocking caller does with an operation that
//!   may complete later.
//! - [`session`] reads the commands of the prompt and leads a round trip.
//! - [`plugin`] holds what the host-side plugin decides, and
//!   [`registration`] what makes it known to the host.
//!
//! Nothing here reads, writes or waits: the caller does, and hands over
//! what came of it.

pub mod error;
pub mod framing;
pub mod header;
pub mod plugin;
pub mod reassembly;
pub mod registration;
pub mod session;
pub mod transport;
