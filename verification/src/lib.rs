//! Pre-compile orchestration for a schema build: loads module and workspace
//! manifests, drives the export of declared third-party dependencies into a
//! staging directory, decodes the discovered source-file listing, and
//! assembles the ordered search-path list handed to the downstream compiler.
//!
//! The outside work (file reads, subprocess invocations, the compiler itself)
//! is performed by a thin driver around this crate; every decision the
//! pipeline makes — what to run next, how to react to a failure, when to
//! clean up — is made here, with a verified contract.
use vstd::prelude::*;

pub mod discovery;
pub mod error;
pub mod laws;
pub mod manifest;
pub mod paths;
pub mod pipeline;

verus! {

/// Optional configuration for a pipeline run: where the module (or
/// workspace) root lies. Absent, the current directory is used.
pub struct TonicBufConfig {
    pub buf_dir: Option<String>,
}

impl core::default::Default for TonicBufConfig {
    fn default() -> (c: Self)
        ensures
            c.buf_dir is None,
    {
        TonicBufConfig { buf_dir: None }
    }
}

/// The directory a run works in: the configured one, or `"."`.
pub fn effective_buf_dir(config: &TonicBufConfig) -> (d: String)
    ensures
        match config.buf_dir {
            Some(p) => d@ == p@,
            None => d@ == "."@,
        },
{
    match &config.buf_dir {
        Some(p) => p.clone(),
        None => ".".to_owned(),
    }
}

} // verus!
