//! Resolution of the catalog's fixed set of queries against what the store
//! returned.
//!
//! The caller performs the store round trip (an unfiltered find for
//! `recipes`, a find of at most one document by `title_filter` for `recipe`)
//! and hands the outcome here, with driver failures already classified.

use vstd::prelude::*;
use crate::document::{decode, decoded, Document};
use crate::error::{is_decode_failure, not_found_text, resolved_message, AppError, AppErrorType};
use crate::model::{Recipe, RecipeView};

verus! {

/// The catalog's query surface.
pub struct Query;

/// The version that `apiVersion` reports.
pub open spec fn api_version_text() -> Seq<char> {
    "0.1"@
}

/// An item read from the store is a document that decodes to a recipe.
pub open spec fn readable(item: Result<Document, AppError>) -> bool {
    item matches Ok(d) && decoded(d) is Some
}

/// The recipe that a readable item decodes to.
pub open spec fn recipe_of(item: Result<Document, AppError>) -> RecipeView {
    decoded(item->Ok_0)->Some_0
}

/// Item `k` is the first one that cannot be read.
pub open spec fn first_failure(items: Seq<Result<Document, AppError>>, k: int) -> bool {
    &&& 0 <= k < items.len()
    &&& !readable(items[k])
    &&& forall|j: int| 0 <= j < k ==> readable(#[trigger] items[j])
}

/// What the read of all items fails with when item `k` is the first failure:
/// the store's own error, or a `DbError` for a document that does not decode.
pub open spec fn fails_at(items: Seq<Result<Document, AppError>>, k: int, e: AppError) -> bool {
    &&& first_failure(items, k)
    &&& match items[k] {
        Err(stored) => e == stored,
        Ok(_) => is_decode_failure(e),
    }
}

/// `r` is the outcome of reading all of `items`: every recipe, in order, if
/// every item is readable; else the failure of the first item that is not.
pub open spec fn recipes_outcome(
    items: Seq<Result<Document, AppError>>,
    r: Result<Vec<Recipe>, AppError>,
) -> bool {
    match r {
        Ok(v) => {
            &&& forall|i: int| 0 <= i < items.len() ==> readable(#[trigger] items[i])
            &&& v@.map_values(|x: Recipe| x@) == items.map_values(
                |x: Result<Document, AppError>| recipe_of(x),
            )
        },
        Err(e) => exists|k: int| #[trigger] fails_at(items, k, e),
    }
}

/// Reading the same items twice gives the same outcome: both succeed with
/// the same recipes, or both fail at the same item with the same error.
pub proof fn lemma_recipes_repeatable(
    items: Seq<Result<Document, AppError>>,
    r1: Result<Vec<Recipe>, AppError>,
    r2: Result<Vec<Recipe>, AppError>,
)
    requires
        recipes_outcome(items, r1),
        recipes_outcome(items, r2),
    ensures
        r1 is Ok <==> r2 is Ok,
        r1 is Ok ==> r1->Ok_0@.map_values(|x: Recipe| x@) == r2->Ok_0@.map_values(|x: Recipe| x@),
        r1 is Err ==> {
            let (e1, e2) = (r1->Err_0, r2->Err_0);
            &&& e1.error_type == e2.error_type
            &&& resolved_message(e1) == resolved_message(e2)
            &&& e1.cause matches Some(c1) ==> e2.cause matches Some(c2) && c1@ == c2@
        },
{
    match (r1, r2) {
        (Ok(_), Err(e)) => {
            let k = choose|k: int| #[trigger] fails_at(items, k, e);
            assert(readable(items[k]));
        },
        (Err(e), Ok(_)) => {
            let k = choose|k: int| #[trigger] fails_at(items, k, e);
            assert(readable(items[k]));
        },
        (Err(e1), Err(e2)) => {
            let k1 = choose|k: int| #[trigger] fails_at(items, k, e1);
            let k2 = choose|k: int| #[trigger] fails_at(items, k, e2);
            if k1 < k2 {
                assert(readable(items[k1]));
            } else if k2 < k1 {
                assert(readable(items[k2]));
            }
        },
        _ => {},
    }
}

impl Query {
    /// The API version. Takes no input and never fails.
    pub fn api_version() -> (r: &'static str)
        ensures
            r@ == api_version_text(),
    {
        "0.1"
    }

    /// All recipes of the collection, given the items that an unfiltered find
    /// returned, in the store's order. All or nothing: the first item that is
    /// a store failure, or a document that does not decode, fails the whole
    /// query.
    pub fn recipes(items: Vec<Result<Document, AppError>>) -> (r: Result<Vec<Recipe>, AppError>)
        ensures
            recipes_outcome(items@, r),
    {
        let mut out: Vec<Recipe> = Vec::new();
        let mut i: usize = 0;
        while i < items.len()
            invariant
                0 <= i <= items@.len(),
                out@.len() == i,
                forall|j: int| 0 <= j < i ==> readable(#[trigger] items@[j]),
                forall|j: int| 0 <= j < i ==> #[trigger] out@[j]@ == recipe_of(items@[j]),
            decreases items@.len() - i,
        {
            match &items[i] {
                Ok(d) => match decode(d) {
                    Ok(rec) => out.push(rec),
                    Err(e) => {
                        assert(fails_at(items@, i as int, e));
                        return Err(e);
                    },
                },
                Err(stored) => {
                    let e = stored.duplicate();
                    assert(fails_at(items@, i as int, e));
                    return Err(e);
                },
            }
            i += 1;
        }
        assert(out@.map_values(|x: Recipe| x@) =~= items@.map_values(
            |x: Result<Document, AppError>| recipe_of(x),
        ));
        Ok(out)
    }

    /// The recipe with a given title, given what a find of at most one
    /// document by that title returned. No document is a `NotFoundError`.
    pub fn recipe(found: Option<Document>) -> (r: Result<Recipe, AppError>)
        ensures
            match found {
                None => r matches Err(e) && e.error_type == AppErrorType::NotFoundError
                    && e.message is None && e.cause is None
                    && resolved_message(e) == not_found_text(),
                Some(d) => match r {
                    Ok(rec) => decoded(d) == Some(rec@),
                    Err(e) => decoded(d) is None && is_decode_failure(e),
                },
            },
    {
        match found {
            Some(d) => decode(&d),
            None => Err(AppError::not_found()),
        }
    }
}

} // verus!
