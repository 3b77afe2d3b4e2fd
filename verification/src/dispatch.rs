//! The batch dispatcher: fans one formatting job out per requested UFO path,
//! collects the outcomes in input order, and derives the aggregate
//! success/failure signal for the whole batch.

use vstd::prelude::*;
use rayon::iter::{IntoParallelRefIterator, ParallelIterator};
use crate::errors::UfoFmtError;
use crate::formatters::{format_outcome_matches, format_ufo};
use crate::utils::opt_view;

verus! {

/// The options one batch is formatted with. Shared read-only by every job;
/// never mutated after construction.
#[derive(Clone, Debug)]
pub struct FormatOptions {
    /// Suffix inserted after the file stem of the output path.
    pub unique_filename: Option<String>,
    /// Replacement extension for the output path, leading dot optional.
    pub unique_extension: Option<String>,
    /// Single-quote XML declaration style instead of double quotes.
    pub singlequotes: bool,
    /// Indent with spaces instead of tabs.
    pub indent_with_space: bool,
    /// Indentation characters per level.
    pub indent_number: u8,
}

impl FormatOptions {
    /// The indentation repeat count must lie in its documented range.
    pub open spec fn valid(&self) -> bool {
        1 <= self.indent_number <= 4
    }
}

/// Relies on rayon's par_iter, map and collect: runs `format_ufo` once per
/// input path, in parallel, and collects the outcomes in input order — an
/// order-preserving parallel map, never a first-completed queue. Each
/// element's shape is what `format_ufo` ensures of it.
#[verifier::external_body]
fn par_format(ufopaths: &Vec<String>, options: &FormatOptions) -> (r: Vec<
    Result<String, UfoFmtError>,
>)
    requires
        options.valid(),
    ensures
        r@.len() == ufopaths@.len(),
        forall|i: int|
            0 <= i < r@.len() ==> format_outcome_matches(
                ufopaths@[i]@,
                opt_view(options.unique_filename),
                opt_view(options.unique_extension),
                #[trigger] r@[i],
            ),
{
    ufopaths
        .par_iter()
        .map(
            |ufopath| {
                format_ufo(
                    ufopath.as_str(),
                    &options.unique_filename,
                    &options.unique_extension,
                    options.singlequotes,
                    options.indent_with_space,
                    options.indent_number,
                )
            },
        )
        .collect()
}

/// Whether any outcome of the batch is a failure. The batch as a whole
/// fails — the process must exit non-zero — exactly when at least one job
/// failed, even though every other job ran to completion.
pub fn batch_has_error(outcomes: &Vec<Result<String, UfoFmtError>>) -> (r: bool)
    ensures
        r == exists|i: int| 0 <= i < outcomes@.len() && outcomes@[i] is Err,
{
    let mut i: usize = 0;
    while i < outcomes.len()
        invariant
            i <= outcomes@.len(),
            forall|j: int| 0 <= j < i ==> !(#[trigger] outcomes@[j] is Err),
        decreases outcomes@.len() - i,
    {
        if outcomes[i].is_err() {
            proof {
                assert(0 <= i < outcomes@.len() && outcomes@[i as int] is Err);
            }
            return true;
        }
        i = i + 1;
    }
    false
}

/// Formats every requested UFO path concurrently and independently: one
/// job's failure never cancels a sibling job. Returns the per-path outcomes,
/// in input order, and whether the batch as a whole failed.
pub fn run_batch(ufopaths: &Vec<String>, options: &FormatOptions) -> (r: (
    Vec<Result<String, UfoFmtError>>,
    bool,
))
    requires
        options.valid(),
    ensures
        r.0@.len() == ufopaths@.len(),
        forall|i: int|
            0 <= i < r.0@.len() ==> format_outcome_matches(
                ufopaths@[i]@,
                opt_view(options.unique_filename),
                opt_view(options.unique_extension),
                #[trigger] r.0@[i],
            ),
        r.1 == exists|i: int| 0 <= i < r.0@.len() && r.0@[i] is Err,
{
    let outcomes = par_format(ufopaths, options);
    let failed = batch_has_error(&outcomes);
    (outcomes, failed)
}

} // verus!
