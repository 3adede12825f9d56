//! Decoder for Windows event log records: the tagged-variant decoder, the
//! fixed-schema system-context extractor, the two-phase render protocol and
//! message-resolution state machines, and the identifier/timestamp codec
//! (GUID, security identifier, tick and calendar time encodings).

pub mod buffer;
pub mod bytes;
pub mod calendar;
pub mod conversions;
pub mod display;
pub mod ident;
pub mod message;
pub mod numfmt;
pub mod protocol;
pub mod system;
pub mod text;
pub mod time;
pub mod variant;

pub use buffer::EventVariantBuffer;
pub use ident::{Guid, Sid};
pub use system::EventSystemContext;
pub use time::{FileTime, SystemTime, Timestamp};
pub use variant::{EventVariantValue, RawPayload, RawSlot};
