//! JodyHash: a deterministic, fixed-width mixing hash over 64-bit words.
//!
//! The hash is meant for behavioural cross-checking: two systems hash the
//! values they observe and compare digests instead of raw data, so the digest
//! of a word sequence must be a pure function of the sequence alone —
//! bit-identical across platforms and runs. The crate is split in two layers:
//! [`mixing`] holds the pure arithmetic step that folds one word into the
//! running accumulator, and [`hasher`] exposes it as an accumulate-then-
//! finalize interface.

pub mod hasher;
pub mod mixing;

pub use hasher::hash_words;
pub use hasher::HashError;
pub use hasher::JodyHasher;
pub use hasher::XCheckHasher;
