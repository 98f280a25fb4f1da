//! Verified core of the Varnish VMOD toolkit.
pub mod model;
pub mod names;
pub mod parser;
pub mod parser_args;
pub mod docs;
pub mod errors;
pub mod json;
pub mod json_text;
pub mod fingerprint;
pub mod text;
pub mod types;
pub mod vsc;
pub mod ctx;
pub mod error;
pub mod vpriv;
pub mod processor;
pub mod ws;
pub mod http;
pub mod gen_func;
pub mod gen_objects;
pub mod generator;
pub mod stats;
pub mod backend;
pub mod probe;

use vstd::prelude::*;

verus! {
} // verus!
