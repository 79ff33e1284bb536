//! A unified error-handling core for a request-processing service.
//!
//! Every failure is a `CargoError`: a description for diagnostics, an
//! optional owned cause (the lower-level failure it wraps), and a `human`
//! flag saying whether the description is safe to disclose externally.
//! Callers add context as a failure propagates with `ChainError`, which
//! preserves the original error as the cause of the new one; at the
//! boundary, `CargoError::response` walks the chain outward-in and lets
//! the first human error (or a sentinel) decide what is disclosed, and
//! `std_error` renders the whole chain as multi-line diagnostic text.

mod chain;
mod errors;
mod legacy;
mod response;

pub use chain::{
    chain_error_with, lemma_chain_err, lemma_chain_none, lemma_chain_ok, lemma_chain_some,
    ChainError,
};
pub use errors::{
    chained, human, internal, internal_error, lemma_chained_defers_to_cause,
    lemma_default_response_algorithm, lemma_sentinel_response_fixed, CargoError, CargoResult,
    NotFound, Unauthorized,
};
pub use legacy::{from_description, lemma_chain_rest_unfolds, std_error, LegacyError};
pub use response::{error_response, response_model, Bad, Response, StringError, DEFAULT_ERROR_STATUS};
