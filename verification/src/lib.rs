use vstd::prelude::*;

pub mod config;
pub mod dispatcher;
pub mod error;
pub mod json;
pub mod path_guard;
pub mod protocol;
pub mod registry;
pub mod service;
pub mod telegram;
pub mod text;
pub mod tools;

verus! {
} // verus!
