//! The exact texts of the user-facing failure messages.

use vstd::prelude::*;
use crate::date::{spec_dmy, Date};
use crate::text::{signed_decimal_string, spec_signed_decimal};

verus! {

/// The message of a lookup for a crop id that is not stored.
pub open spec fn spec_crop_not_found_msg(id: int) -> Seq<char> {
    "Crop with id "@ + spec_signed_decimal(id) + " not found"@
}

/// The message of a lookup for a batch id that is not stored.
pub open spec fn spec_batch_not_found_msg(id: int) -> Seq<char> {
    "Batch with id "@ + spec_signed_decimal(id) + " not found"@
}

/// The message of a crop whose harvest date precedes its planting date.
pub open spec fn spec_crop_dates_msg(harvested: Date, planted: Date) -> Seq<char> {
    "The harvest date ("@ + spec_dmy(harvested)
        + ") cannot be earlier than the planting date ("@ + spec_dmy(planted) + ")"@
}

/// The message of a batch whose date precedes its crop's planting date.
pub open spec fn spec_batch_dates_msg(date: Date, planted: Date) -> Seq<char> {
    "The batch date ("@ + spec_dmy(date)
        + ") cannot be earlier than the crop's planting date ("@ + spec_dmy(planted) + ")"@
}

/// The message of an update or delete of a crop that a batch references.
pub open spec fn spec_crop_in_use_msg(id: int) -> Seq<char> {
    "Crop with id "@ + spec_signed_decimal(id)
        + " is referenced by a batch and cannot be changed"@
}

/// The message of a tracking-code generation that ran out of attempts.
pub open spec fn spec_code_exhausted_msg() -> Seq<char> {
    "Could not generate a tracking code"@
}

/// The message of an insert whose tracking code is already stored.
pub open spec fn spec_duplicate_code_msg() -> Seq<char> {
    "A batch with this tracking code already exists"@
}

pub fn crop_not_found_msg(id: i64) -> (r: String)
    ensures
        r@ == spec_crop_not_found_msg(id as int),
{
    let mut s = String::from_str("Crop with id ");
    s.append(signed_decimal_string(id).as_str());
    s.append(" not found");
    proof {
        assert(s@ =~= spec_crop_not_found_msg(id as int));
    }
    s
}

pub fn batch_not_found_msg(id: i64) -> (r: String)
    ensures
        r@ == spec_batch_not_found_msg(id as int),
{
    let mut s = String::from_str("Batch with id ");
    s.append(signed_decimal_string(id).as_str());
    s.append(" not found");
    proof {
        assert(s@ =~= spec_batch_not_found_msg(id as int));
    }
    s
}

pub fn crop_dates_msg(harvested: &Date, planted: &Date) -> (r: String)
    ensures
        r@ == spec_crop_dates_msg(*harvested, *planted),
{
    let mut s = String::from_str("The harvest date (");
    s.append(harvested.format_dmy().as_str());
    s.append(") cannot be earlier than the planting date (");
    s.append(planted.format_dmy().as_str());
    s.append(")");
    proof {
        assert(s@ =~= spec_crop_dates_msg(*harvested, *planted));
    }
    s
}

pub fn batch_dates_msg(date: &Date, planted: &Date) -> (r: String)
    ensures
        r@ == spec_batch_dates_msg(*date, *planted),
{
    let mut s = String::from_str("The batch date (");
    s.append(date.format_dmy().as_str());
    s.append(") cannot be earlier than the crop's planting date (");
    s.append(planted.format_dmy().as_str());
    s.append(")");
    proof {
        assert(s@ =~= spec_batch_dates_msg(*date, *planted));
    }
    s
}

pub fn crop_in_use_msg(id: i64) -> (r: String)
    ensures
        r@ == spec_crop_in_use_msg(id as int),
{
    let mut s = String::from_str("Crop with id ");
    s.append(signed_decimal_string(id).as_str());
    s.append(" is referenced by a batch and cannot be changed");
    proof {
        assert(s@ =~= spec_crop_in_use_msg(id as int));
    }
    s
}

pub fn code_exhausted_msg() -> (r: String)
    ensures
        r@ == spec_code_exhausted_msg(),
{
    String::from_str("Could not generate a tracking code")
}

pub fn duplicate_code_msg() -> (r: String)
    ensures
        r@ == spec_duplicate_code_msg(),
{
    String::from_str("A batch with this tracking code already exists")
}

} // verus!
