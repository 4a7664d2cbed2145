//! The crop service: the harvest-after-planting rule and the guard that keeps
//! a crop referenced by a batch from being changed or deleted.

use vstd::prelude::*;
use crate::date::date_lt;
use crate::errors::{AppError, AppErrorV};
use crate::messages::{crop_dates_msg, crop_in_use_msg, spec_crop_dates_msg, spec_crop_in_use_msg,
    spec_crop_not_found_msg};
use crate::models::crop::{Crop, CropV};
use crate::repositories::batch_repository::crop_referenced;
use crate::repositories::crop_repository::{crop_views, crop_with_id, CropRepository};
use crate::services::batch_service::BatchService;

verus! {

/// The crop's harvest date precedes its planting date: the one ordering rule
/// on crops.
pub open spec fn crop_dates_invalid(v: CropV) -> bool {
    v.harvested_at matches Some(h) && date_lt(h, v.planted_at)
}

/// Validation and persistence of crops. The in-use guard asks the batch
/// service whether any batch references the crop.
pub struct CropService {
    repository: CropRepository,
}

impl View for CropService {
    type V = Seq<CropV>;

    closed spec fn view(&self) -> Seq<CropV> {
        self.repository@
    }
}

impl CropService {
    /// The store behind the service is well formed.
    pub closed spec fn wf(&self) -> bool {
        self.repository.wf()
    }

    /// Whether the store can still assign a fresh id.
    pub closed spec fn id_space_left(&self) -> bool {
        self.repository.id_space_left()
    }

    pub fn new() -> (r: CropService)
        ensures
            r@ == Seq::<CropV>::empty(),
            r.wf(),
            r.id_space_left(),
    {
        CropService { repository: CropRepository::new() }
    }

    /// Rejects a crop whose harvest date precedes its planting date, naming
    /// both dates.
    pub fn validate(&self, crop: &Crop) -> (r: Result<(), AppError>)
        ensures
            match r {
                Ok(_) => !crop_dates_invalid(crop@),
                Err(e) => crop_dates_invalid(crop@) && e@ == AppErrorV::BadRequest(
                    spec_crop_dates_msg(crop@.harvested_at->Some_0, crop@.planted_at),
                ),
            },
    {
        let planted = crop.planted_at();
        if let Some(harvested) = crop.harvested_at() {
            if harvested.lt(&planted) {
                return Err(AppError::BadRequest(crop_dates_msg(harvested, &planted)));
            }
        }
        Ok(())
    }

    /// Every stored crop, in store order.
    pub fn list(&self) -> (r: Result<Vec<Crop>, AppError>)
        ensures
            r matches Ok(v) && crop_views(v@) == self@,
    {
        self.repository.list()
    }

    /// The stored crop with `id`, or not-found naming the id.
    pub fn find_by_id(&self, id: i64) -> (r: Result<Crop, AppError>)
        ensures
            match r {
                Ok(c) => c@.id == Some(id) && exists|i: int|
                    0 <= i < self@.len() && self@[i] == c@,
                Err(e) => (forall|i: int|
                    0 <= i < self@.len() ==> (#[trigger] self@[i].id) != Some(id)) && e@
                    == AppErrorV::NotFound(spec_crop_not_found_msg(id as int)),
            },
    {
        self.repository.find_by_id(id)
    }

    /// Validates the date rule and stores the crop under a fresh id.
    pub fn insert(&mut self, crop: &Crop) -> (r: Result<Crop, AppError>)
        requires
            old(self).wf(),
        ensures
            final(self).wf(),
            crop_dates_invalid(crop@) ==> (r matches Err(e) && e@ == AppErrorV::BadRequest(
                spec_crop_dates_msg(crop@.harvested_at->Some_0, crop@.planted_at),
            ) && final(self)@ == old(self)@),
            !crop_dates_invalid(crop@) ==> (r is Ok <==> old(self).id_space_left()),
            !crop_dates_invalid(crop@) ==> match r {
                Ok(c) => {
                    &&& c@.id matches Some(n) && 1 <= n
                    &&& forall|i: int|
                        0 <= i < old(self)@.len() ==> (#[trigger] old(self)@[i].id) != c@.id
                    &&& c@ == crop_with_id(crop@, c@.id)
                    &&& final(self)@ == old(self)@.push(c@)
                },
                Err(e) => final(self)@ == old(self)@ && e@ == AppErrorV::Internal,
            },
    {
        match self.validate(crop) {
            Ok(_) => (),
            Err(e) => {
                return Err(e);
            },
        }
        self.repository.insert(crop.clone())
    }

    /// Validates the date rule, refuses a crop that some batch references,
    /// and otherwise replaces the fields of the row with `id`.
    pub fn update(&mut self, id: i64, crop: &Crop, batches: &BatchService) -> (r: Result<
        Crop,
        AppError,
    >)
        requires
            old(self).wf(),
        ensures
            final(self).wf(),
            crop_dates_invalid(crop@) ==> (r matches Err(e) && e@ == AppErrorV::BadRequest(
                spec_crop_dates_msg(crop@.harvested_at->Some_0, crop@.planted_at),
            ) && final(self)@ == old(self)@),
            !crop_dates_invalid(crop@) && crop_referenced(batches@, id) ==> (r matches Err(e) && e@
                == AppErrorV::BadRequest(spec_crop_in_use_msg(id as int)) && final(self)@ == old(
                self,
            )@),
            !crop_dates_invalid(crop@) && !crop_referenced(batches@, id) ==> {
                &&& r matches Ok(c) && c@ == crop_with_id(crop@, Some(id))
                &&& final(self)@.len() == old(self)@.len()
                &&& forall|i: int|
                    0 <= i < old(self)@.len() && (#[trigger] old(self)@[i].id) == Some(id)
                        ==> final(self)@[i] == crop_with_id(crop@, Some(id))
                &&& forall|i: int|
                    0 <= i < old(self)@.len() && (#[trigger] old(self)@[i].id) != Some(id)
                        ==> final(self)@[i] == old(self)@[i]
            },
    {
        match self.validate(crop) {
            Ok(_) => (),
            Err(e) => {
                return Err(e);
            },
        }
        let in_use = match batches.is_crop_in_use(id) {
            Ok(b) => b,
            Err(e) => {
                proof {
                    assert(false);
                }
                return Err(e);
            },
        };
        if in_use {
            return Err(AppError::BadRequest(crop_in_use_msg(id)));
        }
        self.repository.update(id, crop.clone())
    }

    /// Refuses to remove a crop that some batch references; otherwise removes
    /// the row with `id`, or reports not-found naming the id.
    pub fn delete(&mut self, id: i64, batches: &BatchService) -> (r: Result<(), AppError>)
        requires
            old(self).wf(),
        ensures
            final(self).wf(),
            crop_referenced(batches@, id) ==> (r matches Err(e) && e@ == AppErrorV::BadRequest(
                spec_crop_in_use_msg(id as int),
            ) && final(self)@ == old(self)@),
            !crop_referenced(batches@, id) ==> match r {
                Ok(_) => exists|i: int|
                    0 <= i < old(self)@.len() && (#[trigger] old(self)@[i].id) == Some(id) && final(self)@ == old(self)@.remove(i),
                Err(e) => {
                    &&& final(self)@ == old(self)@
                    &&& forall|i: int|
                        0 <= i < old(self)@.len() ==> (#[trigger] old(self)@[i].id) != Some(id)
                    &&& e@ == AppErrorV::NotFound(spec_crop_not_found_msg(id as int))
                },
            },
    {
        let in_use = match batches.is_crop_in_use(id) {
            Ok(b) => b,
            Err(e) => {
                proof {
                    assert(false);
                }
                return Err(e);
            },
        };
        if in_use {
            return Err(AppError::BadRequest(crop_in_use_msg(id)));
        }
        self.repository.delete(id)
    }
}

} // verus!
