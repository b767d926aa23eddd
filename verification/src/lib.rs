//! A vault for short texts, sealed under one master password.
//!
//! [`crypto`] seals a text into a record and opens it again; [`api`] answers the requests of a
//! service around that. The other modules are what these two rest on: the ciphers and encodings
//! of outside crates behind stated contracts ([`cipher`], [`kdf`], [`random`], [`codec`]), values
//! that are overwritten when they go ([`secret`]), and the errors and their words ([`error`],
//! [`text`]). [`laws`] states what holds of them together, and [`calls`] what a call comes to in terms
//! of its arguments and result alone.

#![allow(unused_imports)]

pub mod api;
pub mod calls;
pub mod cipher;
pub mod codec;
pub mod config;
pub mod crypto;
pub mod error;
pub mod kdf;
pub mod laws;
pub mod random;
pub mod secret;
pub mod text;
