//! A crop: a validated record of one planting.

use vstd::prelude::*;
use crate::date::{date_le, Date};
use crate::errors::{AppError, AppErrorV};
use crate::numeric::{spec_non_negative, Numeric64};

verus! {

/// The mathematical value of a [`Crop`].
pub struct CropV {
    pub id: Option<i64>,
    pub name: Seq<char>,
    pub area: u64,
    pub cultivation: Seq<char>,
    pub planted_at: Date,
    pub harvested_at: Option<Date>,
}

/// A planting record. Construction validates every field; the cross-record
/// rules (harvest not before planting, the in-use guard) live in the services.
#[derive(Debug)]
pub struct Crop {
    id: Option<i64>,
    name: String,
    area: Numeric64,
    cultivation: String,
    planted_at: Date,
    harvested_at: Option<Date>,
}

impl View for Crop {
    type V = CropV;

    closed spec fn view(&self) -> CropV {
        CropV {
            id: self.id,
            name: self.name@,
            area: self.area@,
            cultivation: self.cultivation@,
            planted_at: self.planted_at,
            harvested_at: self.harvested_at,
        }
    }
}

/// A date passes field validation when it is a real calendar date that is not
/// in the future.
pub open spec fn spec_date_acceptable(d: Date, today: Date) -> bool {
    d.wf() && date_le(d, today)
}

/// The first field of a crop that fails validation, with its message;
/// `None` when every field passes.
pub open spec fn spec_crop_field_error(v: CropV, today: Date) -> Option<Seq<char>> {
    if v.name.len() > 255 {
        Some("name: length exceeds 255 characters"@)
    } else if !spec_non_negative(v.area) {
        Some("area: must be non-negative"@)
    } else if v.cultivation.len() > 255 {
        Some("cultivation: length exceeds 255 characters"@)
    } else if !spec_date_acceptable(v.planted_at, today) {
        Some("plantedAt: must be a date in the past or present"@)
    } else if v.harvested_at matches Some(h) && !spec_date_acceptable(h, today) {
        Some("harvestedAt: must be a date in the past or present"@)
    } else {
        None
    }
}

impl Crop {
    /// Builds a crop after validating every field against `today`.
    pub fn new(
        id: Option<i64>,
        name: String,
        area: Numeric64,
        cultivation: String,
        planted_at: Date,
        harvested_at: Option<Date>,
        today: &Date,
    ) -> (r: Result<Crop, AppError>)
        ensures
            ({
                let v = CropV {
                    id,
                    name: name@,
                    area: area@,
                    cultivation: cultivation@,
                    planted_at,
                    harvested_at,
                };
                match r {
                    Ok(c) => c@ == v && spec_crop_field_error(v, *today) is None,
                    Err(e) => spec_crop_field_error(v, *today) matches Some(m) && e@
                        == AppErrorV::Validation(m),
                }
            }),
    {
        if name.as_str().unicode_len() > 255 {
            return Err(
                AppError::ValidationError(String::from_str("name: length exceeds 255 characters")),
            );
        }
        if !area.is_non_negative() {
            return Err(AppError::ValidationError(String::from_str("area: must be non-negative")));
        }
        if cultivation.as_str().unicode_len() > 255 {
            return Err(
                AppError::ValidationError(
                    String::from_str("cultivation: length exceeds 255 characters"),
                ),
            );
        }
        if !(planted_at.check_wf() && planted_at.le(today)) {
            return Err(
                AppError::ValidationError(
                    String::from_str("plantedAt: must be a date in the past or present"),
                ),
            );
        }
        if let Some(h) = harvested_at {
            if !(h.check_wf() && h.le(today)) {
                return Err(
                    AppError::ValidationError(
                        String::from_str("harvestedAt: must be a date in the past or present"),
                    ),
                );
            }
        }
        Ok(Crop { id, name, area, cultivation, planted_at, harvested_at })
    }

    pub fn id(&self) -> (r: &Option<i64>)
        ensures
            *r == self@.id,
    {
        &self.id
    }

    pub fn set_id(&mut self, id: Option<i64>)
        ensures
            final(self)@ == (CropV { id, ..old(self)@ }),
    {
        self.id = id;
    }

    pub fn name(&self) -> (r: &str)
        ensures
            r@ == self@.name,
    {
        self.name.as_str()
    }

    pub fn set_name(&mut self, name: String)
        ensures
            final(self)@ == (CropV { name: name@, ..old(self)@ }),
    {
        self.name = name;
    }

    pub fn area(&self) -> (r: Numeric64)
        ensures
            r@ == self@.area,
    {
        self.area
    }

    pub fn set_area(&mut self, area: Numeric64)
        ensures
            final(self)@ == (CropV { area: area@, ..old(self)@ }),
    {
        self.area = area;
    }

    pub fn cultivation(&self) -> (r: &str)
        ensures
            r@ == self@.cultivation,
    {
        self.cultivation.as_str()
    }

    pub fn set_cultivation(&mut self, cultivation: String)
        ensures
            final(self)@ == (CropV { cultivation: cultivation@, ..old(self)@ }),
    {
        self.cultivation = cultivation;
    }

    pub fn planted_at(&self) -> (r: Date)
        ensures
            r == self@.planted_at,
    {
        self.planted_at
    }

    pub fn set_planted_at(&mut self, planted_at: Date)
        ensures
            final(self)@ == (CropV { planted_at, ..old(self)@ }),
    {
        self.planted_at = planted_at;
    }

    pub fn harvested_at(&self) -> (r: &Option<Date>)
        ensures
            *r == self@.harvested_at,
    {
        &self.harvested_at
    }

    pub fn set_harvested_at(&mut self, harvested_at: Option<Date>)
        ensures
            final(self)@ == (CropV { harvested_at, ..old(self)@ }),
    {
        self.harvested_at = harvested_at;
    }
}

impl Clone for Crop {
    fn clone(&self) -> (c: Self)
        ensures
            c@ == self@,
    {
        Crop {
            id: self.id,
            name: self.name.clone(),
            area: self.area,
            cultivation: self.cultivation.clone(),
            planted_at: self.planted_at,
            harvested_at: self.harvested_at,
        }
    }
}

} // verus!
