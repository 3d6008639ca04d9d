//! Validated application status codes: a number in `0..=40000` with an
//! optional canonical reason phrase.
use vstd::prelude::*;

pub mod status;

verus! {

} // verus!
