//! The field rule on dates: a date must not lie in the future.

use vstd::prelude::*;
use crate::date::{current_date, date_le, Date};
use crate::errors::{AppError, AppErrorV};

verus! {

/// Accepts `value` when it does not lie after the current local date. The
/// comparison date comes from the clock, so the contract says what holds of
/// every outcome: the verdict is the order against some well-formed date (the
/// one the clock returned); [`Date::le`] carries the exact comparison for a
/// known today.
pub fn past_or_present_validation(value: &Date) -> (r: Result<(), AppError>)
    ensures
        exists|t: Date| t.wf() && (r is Ok <==> date_le(*value, t)),
        r matches Err(e) ==> e@ == AppErrorV::Validation(
            "date must be in the past or present"@,
        ),
{
    let today = current_date();
    let ok = value.le(&today);
    proof {
        assert(today.wf() && (ok <==> date_le(*value, today)));
    }
    if ok {
        Ok(())
    } else {
        Err(AppError::ValidationError(String::from_str("date must be in the past or present")))
    }
}

} // verus!
