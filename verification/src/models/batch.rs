//! A batch: a validated record of one harvest lot, referencing one crop.

use vstd::prelude::*;
use crate::date::Date;
use crate::errors::{AppError, AppErrorV};
use crate::models::crop::{spec_date_acceptable, Crop, CropV};
use crate::numeric::{spec_non_negative, Numeric64};

verus! {

/// The mathematical value of a [`Batch`].
pub struct BatchV {
    pub id: Option<i64>,
    pub crop: CropV,
    pub classification: Option<Seq<char>>,
    pub processing: Option<Seq<char>>,
    pub packing: Seq<char>,
    pub quantity: u64,
    pub tracking_code: Option<Seq<char>>,
    pub date: Date,
}

/// A harvest lot. It carries a full copy of its crop's data; the crop's id is
/// the durable relationship.
#[derive(Debug)]
pub struct Batch {
    id: Option<i64>,
    crop: Crop,
    classification: Option<String>,
    processing: Option<String>,
    packing: String,
    quantity: Numeric64,
    tracking_code: Option<String>,
    date: Date,
}

/// The view of an optional owned string.
pub open spec fn spec_opt_str(s: Option<String>) -> Option<Seq<char>> {
    match s {
        Some(s) => Some(s@),
        None => None,
    }
}

impl View for Batch {
    type V = BatchV;

    closed spec fn view(&self) -> BatchV {
        BatchV {
            id: self.id,
            crop: self.crop@,
            classification: spec_opt_str(self.classification),
            processing: spec_opt_str(self.processing),
            packing: self.packing@,
            quantity: self.quantity@,
            tracking_code: spec_opt_str(self.tracking_code),
            date: self.date,
        }
    }
}

/// The first field of a batch that fails validation, with its message;
/// `None` when every field passes.
pub open spec fn spec_batch_field_error(v: BatchV, today: Date) -> Option<Seq<char>> {
    if v.classification matches Some(c) && c.len() > 255 {
        Some("classification: length exceeds 255 characters"@)
    } else if v.processing matches Some(p) && p.len() > 255 {
        Some("processing: length exceeds 255 characters"@)
    } else if v.packing.len() > 255 {
        Some("packing: length exceeds 255 characters"@)
    } else if !spec_non_negative(v.quantity) {
        Some("quantity: must be non-negative"@)
    } else if !spec_date_acceptable(v.date, today) {
        Some("date: must be a date in the past or present"@)
    } else {
        None
    }
}

fn opt_len_at_most(s: &Option<String>, limit: usize) -> (r: bool)
    ensures
        r == match spec_opt_str(*s) {
            Some(v) => v.len() <= limit,
            None => true,
        },
{
    match s {
        Some(s) => s.as_str().unicode_len() <= limit,
        None => true,
    }
}

impl Batch {
    /// Builds a batch after validating every field against `today`.
    pub fn new(
        id: Option<i64>,
        crop: Crop,
        classification: Option<String>,
        processing: Option<String>,
        packing: String,
        quantity: Numeric64,
        tracking_code: Option<String>,
        date: Date,
        today: &Date,
    ) -> (r: Result<Batch, AppError>)
        ensures
            ({
                let v = BatchV {
                    id,
                    crop: crop@,
                    classification: spec_opt_str(classification),
                    processing: spec_opt_str(processing),
                    packing: packing@,
                    quantity: quantity@,
                    tracking_code: spec_opt_str(tracking_code),
                    date,
                };
                match r {
                    Ok(b) => b@ == v && spec_batch_field_error(v, *today) is None,
                    Err(e) => spec_batch_field_error(v, *today) matches Some(m) && e@
                        == AppErrorV::Validation(m),
                }
            }),
    {
        if !opt_len_at_most(&classification, 255) {
            return Err(
                AppError::ValidationError(
                    String::from_str("classification: length exceeds 255 characters"),
                ),
            );
        }
        if !opt_len_at_most(&processing, 255) {
            return Err(
                AppError::ValidationError(
                    String::from_str("processing: length exceeds 255 characters"),
                ),
            );
        }
        if packing.as_str().unicode_len() > 255 {
            return Err(
                AppError::ValidationError(
                    String::from_str("packing: length exceeds 255 characters"),
                ),
            );
        }
        if !quantity.is_non_negative() {
            return Err(
                AppError::ValidationError(String::from_str("quantity: must be non-negative")),
            );
        }
        if !(date.check_wf() && date.le(today)) {
            return Err(
                AppError::ValidationError(
                    String::from_str("date: must be a date in the past or present"),
                ),
            );
        }
        Ok(Batch { id, crop, classification, processing, packing, quantity, tracking_code, date })
    }

    pub fn id(&self) -> (r: &Option<i64>)
        ensures
            *r == self@.id,
    {
        &self.id
    }

    pub fn set_id(&mut self, id: Option<i64>)
        ensures
            final(self)@ == (BatchV { id, ..old(self)@ }),
    {
        self.id = id;
    }

    pub fn crop(&self) -> (r: &Crop)
        ensures
            r@ == self@.crop,
    {
        &self.crop
    }

    pub fn set_crop(&mut self, crop: Crop)
        ensures
            final(self)@ == (BatchV { crop: crop@, ..old(self)@ }),
    {
        self.crop = crop;
    }

    pub fn classification(&self) -> (r: &Option<String>)
        ensures
            spec_opt_str(*r) == self@.classification,
    {
        &self.classification
    }

    pub fn set_classification(&mut self, classification: Option<String>)
        ensures
            final(self)@ == (BatchV {
                classification: spec_opt_str(classification),
                ..old(self)@
            }),
    {
        self.classification = classification;
    }

    pub fn processing(&self) -> (r: &Option<String>)
        ensures
            spec_opt_str(*r) == self@.processing,
    {
        &self.processing
    }

    pub fn set_processing(&mut self, processing: Option<String>)
        ensures
            final(self)@ == (BatchV { processing: spec_opt_str(processing), ..old(self)@ }),
    {
        self.processing = processing;
    }

    pub fn packing(&self) -> (r: &str)
        ensures
            r@ == self@.packing,
    {
        self.packing.as_str()
    }

    pub fn set_packing(&mut self, packing: String)
        ensures
            final(self)@ == (BatchV { packing: packing@, ..old(self)@ }),
    {
        self.packing = packing;
    }

    pub fn quantity(&self) -> (r: Numeric64)
        ensures
            r@ == self@.quantity,
    {
        self.quantity
    }

    pub fn set_quantity(&mut self, quantity: Numeric64)
        ensures
            final(self)@ == (BatchV { quantity: quantity@, ..old(self)@ }),
    {
        self.quantity = quantity;
    }

    pub fn tracking_code(&self) -> (r: &Option<String>)
        ensures
            spec_opt_str(*r) == self@.tracking_code,
    {
        &self.tracking_code
    }

    pub fn set_tracking_code(&mut self, tracking_code: Option<String>)
        ensures
            final(self)@ == (BatchV {
                tracking_code: spec_opt_str(tracking_code),
                ..old(self)@
            }),
    {
        self.tracking_code = tracking_code;
    }

    pub fn date(&self) -> (r: Date)
        ensures
            r == self@.date,
    {
        self.date
    }

    pub fn set_date(&mut self, date: Date)
        ensures
            final(self)@ == (BatchV { date, ..old(self)@ }),
    {
        self.date = date;
    }
}

fn clone_opt_string(s: &Option<String>) -> (r: Option<String>)
    ensures
        spec_opt_str(r) == spec_opt_str(*s),
{
    match s {
        Some(s) => Some(s.clone()),
        None => None,
    }
}

impl Clone for Batch {
    fn clone(&self) -> (c: Self)
        ensures
            c@ == self@,
    {
        Batch {
            id: self.id,
            crop: self.crop.clone(),
            classification: clone_opt_string(&self.classification),
            processing: clone_opt_string(&self.processing),
            packing: self.packing.clone(),
            quantity: self.quantity,
            tracking_code: clone_opt_string(&self.tracking_code),
            date: self.date,
        }
    }
}

} // verus!
