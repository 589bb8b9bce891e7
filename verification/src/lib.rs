//! Core of a filesystem-backed personal secrets manager: certificate
//! loading and validation, key generation and resolution, and
//! authenticated encryption/decryption of entry contents.
//!
//! Every entry of the store is an individually encrypted, ASCII-armored
//! message addressed to the user's own certificate.  The modules here
//! make and verify every decision of that core — which key protects the
//! store, whether a certificate is usable, which key components may
//! encrypt or decrypt, where an entry lives on disk — over plain
//! values; reading files, prompting and running the revision-control
//! tool stay with the caller.

pub mod cert;
pub mod edit;
pub mod engine;
pub mod errors;
pub mod keygen;
pub mod otp;
pub mod passgen;
pub mod resolver;
pub mod store;
pub mod text;
pub mod vcs;
