//! Client-side codec for the fixed 48-byte SNTP packet format: building a
//! well-formed request buffer, decoding a response buffer into a structured
//! record, and rendering that record as text.

pub mod codec;
pub mod numtext;
pub mod packet;

pub use codec::LeapIndicator;
pub use codec::Mode;
pub use codec::Version;
pub use packet::DecodeError;
pub use packet::SNTPResponse;
