//! Brute-force search for a deployment salt whose derived contract address
//! matches caller-supplied hex prefix/suffix rules.
//!
//! The search derives a deployment address from a deployer address, a 32-byte
//! salt and the init-code bytes, renders it as a lowercase `0x`-prefixed hex
//! string, and tests it against a list of prefix/suffix pattern rules. Worker
//! threads scan batches of random salts in parallel until the first match is
//! found, then shut down through a shared one-shot signal.

pub mod addresses;
pub mod config;
pub mod hexcodec;
pub mod keccak;
pub mod pattern;
pub mod salts;
pub mod search;
pub mod strutil;
