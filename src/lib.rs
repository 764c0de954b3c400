//! Fetches FASTA records of a nucleotide database by accession: accession
//! normalization, request addresses, retry decisions, response validation and
//! the bookkeeping of a batch in which one failed accession never stops the
//! others. Network and file access are left to the caller.

use vstd::prelude::*;

pub mod args;
pub mod errors;
pub mod text;
pub mod accession;
pub mod url;
pub mod fetch;
pub mod batch;
pub mod retry;

pub use args::App;
pub use accession::{accession_norm_filt, canonical_form, canonical_forms};
pub use batch::{Batch, Job, Outcome, Report, Tally};
pub use errors::AppError;
pub use fetch::validate_response;
pub use retry::{attempts_against, Retrier, RetryClass, Step};
pub use url::get_url;

verus! {

/// Number of retries the resilient client makes after the first attempt.
pub const MAX_RETRIES: u32 = 3;

} // verus!
