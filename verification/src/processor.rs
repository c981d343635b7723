//! Fail-fast batch collection. Batch processing runs the single-image
//! pipeline once per input on a pool of workers and keeps the results in
//! input order; the batch as a whole fails with the first failing item's
//! error, returning no partial output.

use vstd::prelude::*;

use crate::error::ImageProcessingError;
use crate::raster::Image;

verus! {

/// Combines per-item results into one batch result, fail-fast: the batch
/// succeeds, preserving input order, exactly when every item succeeded, and
/// otherwise reports the first item's error with no partial output.
#[verifier::loop_isolation(false)]
pub fn collect_batch(results: Vec<Result<Image, ImageProcessingError>>) -> (r: Result<
    Vec<Image>,
    ImageProcessingError,
>)
    ensures
        r is Ok <==> (forall|i: int| 0 <= i < results@.len() ==> results@[i] is Ok),
        r matches Ok(imgs) ==> imgs@.len() == results@.len() && forall|i: int|
            0 <= i < results@.len() ==> imgs@[i] == results@[i]->Ok_0,
        r matches Err(e) ==> exists|j: int|
            0 <= j < results@.len() && #[trigger] results@[j] is Err && e == results@[j]->Err_0
                && forall|i: int| 0 <= i < j ==> results@[i] is Ok,
{
    let ghost orig = results@;
    let mut rest = results;
    let mut out: Vec<Image> = Vec::new();
    while rest.len() > 0
        invariant
            orig.len() == out@.len() + rest@.len(),
            rest@ == orig.subrange(out@.len() as int, orig.len() as int),
            forall|i: int|
                0 <= i < out@.len() ==> #[trigger] orig[i] is Ok && out@[i] == orig[i]->Ok_0,
        decreases rest@.len(),
    {
        let ghost taken = out@.len() as int;
        let item = rest.remove(0);
        proof {
            assert(item == orig[taken]);
            assert(rest@ == orig.subrange(taken + 1, orig.len() as int));
        }
        match item {
            Ok(img) => {
                out.push(img);
            },
            Err(e) => {
                proof {
                    assert(results@[taken] is Err);
                    assert(e == results@[taken]->Err_0);
                    assert(forall|i: int| 0 <= i < taken ==> results@[i] is Ok);
                    assert(!(results@[taken] is Ok));
                }
                return Err(e);
            },
        }
    }
    Ok(out)
}

} // verus!
