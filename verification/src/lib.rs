//! Verified core of a Stratum V2 monitoring proxy: hex and decimal text
//! handling for metric labels, the decisions taken for each intercepted
//! message, block-reward lookups and the message-channel routing rules.

pub mod hex;
pub mod text;
pub mod json;
pub mod reward;
pub mod metric;
pub mod channel;
pub mod intercept;
pub mod setup;
pub mod lookup;

pub use channel::{MessageChannel, Remote};
pub use hex::{encode_hex, reverse_hash};
