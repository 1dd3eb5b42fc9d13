//! Verified core of the BOLT 12 payer-proof toolkit: BigSize and TLV stream
//! handling, hex codecs, test-vector records, and the decision logic of
//! payer-proof verification.

pub mod bigsize;
pub mod tlv;
pub mod hex_codec;
pub mod keys;
pub mod vectors;
pub mod invoice;
pub mod generator;
pub mod payer_proof;
pub mod run;
