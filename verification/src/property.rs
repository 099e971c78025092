//! Properties: reading the sole value of a property.

use vstd::prelude::*;

use crate::error::IterError;
use crate::error::ScfEntityDescription;
use crate::error::SingleValueError;
use crate::value::Value;

verus! {

/// The sole value of a property, from the first item of its value iterator
/// and, when that item is a value, the second: no first item means no values,
/// and a second value means more than one. Iteration errors are passed on.
pub fn single_value_outcome(
    description: ScfEntityDescription,
    first: Option<Result<Value, IterError>>,
    second: Option<Result<Value, IterError>>,
) -> (res: Result<Value, SingleValueError>)
    ensures
        first is None ==> res == Err::<Value, _>(SingleValueError::NoValues { description }),
        first matches Some(Err(e)) ==> res == Err::<Value, _>(SingleValueError::IterError(e)),
        first matches Some(Ok(v)) ==> match second {
            None => res == Ok::<Value, SingleValueError>(v),
            Some(Ok(_)) => res == Err::<Value, _>(SingleValueError::MultipleValues { description }),
            Some(Err(e)) => res == Err::<Value, _>(SingleValueError::IterError(e)),
        },
{
    match first {
        None => Err(SingleValueError::NoValues { description }),
        Some(Err(e)) => Err(SingleValueError::IterError(e)),
        Some(Ok(v)) => match second {
            None => Ok(v),
            Some(Ok(_)) => Err(SingleValueError::MultipleValues { description }),
            Some(Err(e)) => Err(SingleValueError::IterError(e)),
        },
    }
}

} // verus!
