//! Strict codec for trading-card records exchanged as structured documents.
//!
//! The library decodes untrusted document values into strongly typed card
//! records, rejecting unknown, missing, or structurally invalid fields, and
//! re-encodes records into documents that round-trip losslessly.

use vstd::prelude::*;

pub mod datetime;
pub mod dec;
pub mod dec_card;
pub mod dec_parts;
pub mod dec_text;
pub mod doc;
pub mod enc;
pub mod enc_card;
pub mod err;
pub mod hex_id;
pub mod laws;
pub mod tokens;
pub mod types;
pub mod url_check;
pub mod util;

pub use doc::Doc;
pub use doc::DocV;
pub use err::DecodeError;
pub use err::ErrKind;
pub use err::PathStep;
pub use err::display;

verus! {

} // verus!
