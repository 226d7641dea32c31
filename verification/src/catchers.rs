//! The bodies sent when a request ends in an error that no route answered.

use vstd::prelude::*;
use crate::dtos::{not_found_body, unauthorized_body, DSErrorDto};

verus! {

/// The body for a request that found nothing.
pub fn not_found() -> (body: DSErrorDto)
    ensures
        body@ == not_found_body(),
{
    DSErrorDto::default_404()
}

/// The body for a request that was not let in.
pub fn unauthorized() -> (body: DSErrorDto)
    ensures
        body@ == unauthorized_body(),
{
    DSErrorDto::default_401()
}

} // verus!
