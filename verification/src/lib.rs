//! Proxu Desktop core: link parsing, Xray configuration building, API
//! response interpretation and local settings, with their contracts.
pub mod text;
pub mod json;
pub mod urls;
pub mod codec;
pub mod config;
pub mod xray;
pub mod api;
pub mod profiles;
pub mod commands;
pub mod setup;
pub mod traffic;
pub mod service;
pub mod archive;

use vstd::prelude::*;

verus! {

} // verus!
