//! Checks of form fields.
use vstd::prelude::*;
use vstd::std_specs::cmp::PartialOrdSpec;

verus! {

/// The outcome of checking a form field.
#[derive(Debug)]
pub struct ValidationError {
    pub message: String,
}

/// The message of a failed comparison.
pub open spec fn validation_message() -> Seq<char> {
    "value does not match expected value"@
}

/// Accepts a form value that is at least `b`.
pub fn gte<A: PartialOrd<B>, B>(a: &A, b: B) -> (result: Result<(), ValidationError>)
    ensures
        A::obeys_partial_cmp_spec() ==> (result is Ok <==> a.partial_cmp_spec(&b) matches Some(
            core::cmp::Ordering::Greater | core::cmp::Ordering::Equal,
        )),
        result matches Err(e) ==> e.message@ == validation_message(),
{
    if a.ge(&b) {
        Ok(())
    } else {
        proof {
            reveal_strlit("value does not match expected value");
        }
        Err(ValidationError { message: "value does not match expected value".to_string() })
    }
}

} // verus!
