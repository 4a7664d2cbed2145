//! The batch service: tracking-code generation with a bounded retry against
//! the store, the date-ordering rule, and the read and write paths.

use vstd::prelude::*;
use crate::date::date_lt;
use crate::errors::{AppError, AppErrorV};
use crate::messages::{batch_dates_msg, code_exhausted_msg, spec_batch_dates_msg,
    spec_code_exhausted_msg};
use crate::misc::utils::{all_alnum, generate_token};
use crate::models::batch::{Batch, BatchV};
use crate::repositories::batch_repository::{batch_with_id, batch_with_id_code, code_stored,
    crop_referenced, has_code, refs_crop, BatchRepository};

verus! {

/// The length of every tracking code.
pub const CODE_LENGTH: usize = 12;

/// How many candidate codes are drawn before generation gives up.
pub const MAX_CODE_ATTEMPTS: u64 = 500;

/// A well-formed tracking code: exactly [`CODE_LENGTH`] alphanumeric
/// characters.
pub open spec fn spec_tracking_code_ok(s: Seq<char>) -> bool {
    s.len() == CODE_LENGTH && all_alnum(s)
}

/// The batch's date precedes its crop's planting date: the one ordering rule
/// on batches.
pub open spec fn batch_dates_invalid(v: BatchV) -> bool {
    date_lt(v.date, v.crop.planted_at)
}

/// The candidate-drawing half of code generation: it hands out well-formed
/// candidates one by one and stops after [`MAX_CODE_ATTEMPTS`] of them, so a
/// run in which every candidate collides ends in a reported failure instead
/// of an endless loop. The caller judges each candidate against the store.
pub struct CodeGenerator {
    attempts_left: u64,
}

impl CodeGenerator {
    /// How many more candidates this generator will hand out.
    pub closed spec fn spec_attempts_left(&self) -> u64 {
        self.attempts_left
    }

    pub fn new() -> (g: CodeGenerator)
        ensures
            g.spec_attempts_left() == MAX_CODE_ATTEMPTS,
    {
        CodeGenerator { attempts_left: MAX_CODE_ATTEMPTS }
    }

    /// The next candidate code, or `None` once the attempt budget is spent.
    pub fn next_candidate(&mut self) -> (r: Option<String>)
        ensures
            old(self).spec_attempts_left() == 0 ==> r is None && final(self).spec_attempts_left()
                == 0,
            old(self).spec_attempts_left() > 0 ==> (r matches Some(c) && spec_tracking_code_ok(c@)
                && final(self).spec_attempts_left() == old(self).spec_attempts_left() - 1),
    {
        if self.attempts_left == 0 {
            None
        } else {
            self.attempts_left = self.attempts_left - 1;
            Some(generate_token(CODE_LENGTH))
        }
    }

    /// The error reported when the attempt budget is spent.
    pub fn exhausted_error() -> (e: AppError)
        ensures
            e@ == AppErrorV::BadRequest(spec_code_exhausted_msg()),
    {
        AppError::BadRequest(code_exhausted_msg())
    }
}

/// Tracking-code generation, date validation and persistence of batches.
pub struct BatchService {
    repository: BatchRepository,
}

impl View for BatchService {
    type V = Seq<BatchV>;

    closed spec fn view(&self) -> Seq<BatchV> {
        self.repository@
    }
}

impl BatchService {
    /// The store behind the service is well formed.
    pub closed spec fn wf(&self) -> bool {
        self.repository.wf()
    }

    /// Whether the store can still assign a fresh id.
    pub closed spec fn id_space_left(&self) -> bool {
        self.repository.id_space_left()
    }

    /// A stored tracking code belongs to exactly one batch.
    pub proof fn lemma_tracking_codes_unique(&self)
        requires
            self.wf(),
        ensures
            forall|i: int, j: int|
                0 <= i < j < self@.len() ==> (#[trigger] self@[i].tracking_code) != (
                #[trigger] self@[j].tracking_code),
    {
        self.repository.lemma_wf_codes_unique();
    }

    pub fn new() -> (r: BatchService)
        ensures
            r@ == Seq::<BatchV>::empty(),
            r.wf(),
            r.id_space_left(),
    {
        BatchService { repository: BatchRepository::new() }
    }

    /// Whether some stored batch carries `code`.
    fn code_exists(&self, code: &str) -> (r: Result<bool, AppError>)
        ensures
            r matches Ok(b) && b == code_stored(self@, code@),
    {
        match self.repository.find_by_tracking_code(code) {
            Ok(hits) => Ok(!hits.is_empty()),
            Err(e) => Err(e),
        }
    }

    /// Draws candidate codes until one is absent from the store; fails after
    /// [`MAX_CODE_ATTEMPTS`] candidates in a row collided.
    pub fn generate_code(&self) -> (r: Result<String, AppError>)
        ensures
            match r {
                Ok(c) => spec_tracking_code_ok(c@) && !code_stored(self@, c@),
                Err(e) => e@ == AppErrorV::BadRequest(spec_code_exhausted_msg()),
            },
            r is Err ==> self@.len() > 0,
    {
        let mut generator = CodeGenerator::new();
        loop
            invariant
                generator.spec_attempts_left() < MAX_CODE_ATTEMPTS ==> self@.len() > 0,
            decreases generator.spec_attempts_left(),
        {
            match generator.next_candidate() {
                None => {
                    return Err(CodeGenerator::exhausted_error());
                },
                Some(candidate) => {
                    let exists = match self.code_exists(candidate.as_str()) {
                        Ok(b) => b,
                        Err(e) => {
                            proof {
                                assert(false);
                            }
                            return Err(e);
                        },
                    };
                    if !exists {
                        return Ok(candidate);
                    }
                },
            }
        }
    }

    /// Rejects a batch whose date precedes its crop's planting date, naming
    /// both dates.
    pub fn validate(&self, batch: &Batch) -> (r: Result<(), AppError>)
        ensures
            match r {
                Ok(_) => !batch_dates_invalid(batch@),
                Err(e) => batch_dates_invalid(batch@) && e@ == AppErrorV::BadRequest(
                    spec_batch_dates_msg(batch@.date, batch@.crop.planted_at),
                ),
            },
    {
        let date = batch.date();
        let planted = batch.crop().planted_at();
        if date.lt(&planted) {
            return Err(AppError::BadRequest(batch_dates_msg(&date, &planted)));
        }
        Ok(())
    }

    /// Exactly the stored batches whose tracking code is `code`.
    pub fn find_by_tracking_code(&self, code: &str) -> (r: Result<Vec<Batch>, AppError>)
        ensures
            r matches Ok(v) && {
                &&& crate::repositories::batch_repository::batch_views(v@) == self@.filter(
                    has_code(code@),
                )
                &&& (v@.len() == 0) == !code_stored(self@, code@)
                &&& forall|k: int|
                    0 <= k < v@.len() ==> (#[trigger] v@[k]@).tracking_code == Some(code@)
                        && self@.contains(v@[k]@)
            },
    {
        self.repository.find_by_tracking_code(code)
    }

    /// Exactly the stored batches that reference the crop with `crop_id`.
    pub fn find_by_crop_id(&self, crop_id: i64) -> (r: Result<Vec<Batch>, AppError>)
        ensures
            r matches Ok(v) && {
                &&& crate::repositories::batch_repository::batch_views(v@) == self@.filter(
                    refs_crop(crop_id),
                )
                &&& (v@.len() == 0) == !crop_referenced(self@, crop_id)
                &&& forall|k: int|
                    0 <= k < v@.len() ==> (#[trigger] v@[k]@).crop.id == Some(crop_id)
                        && self@.contains(v@[k]@)
            },
    {
        self.repository.find_by_crop_id(crop_id)
    }

    /// Whether at least one stored batch references the crop with `crop_id`.
    pub fn is_crop_in_use(&self, crop_id: i64) -> (r: Result<bool, AppError>)
        ensures
            r matches Ok(b) && b == crop_referenced(self@, crop_id),
    {
        match self.repository.find_by_crop_id(crop_id) {
            Ok(hits) => Ok(!hits.is_empty()),
            Err(e) => Err(e),
        }
    }

    /// Every stored batch, in store order.
    pub fn list(&self) -> (r: Result<Vec<Batch>, AppError>)
        ensures
            r matches Ok(v) && crate::repositories::batch_repository::batch_views(v@) == self@,
    {
        self.repository.list()
    }

    /// The stored batch with `id`, or not-found naming the id.
    pub fn find_by_id(&self, id: i64) -> (r: Result<Batch, AppError>)
        ensures
            match r {
                Ok(b) => b@.id == Some(id) && exists|i: int|
                    0 <= i < self@.len() && self@[i] == b@,
                Err(e) => (forall|i: int|
                    0 <= i < self@.len() ==> (#[trigger] self@[i].id) != Some(id)) && e@
                    == AppErrorV::NotFound(
                    crate::messages::spec_batch_not_found_msg(id as int),
                ),
            },
    {
        self.repository.find_by_id(id)
    }

    /// Generates a fresh unique tracking code, validates the date rule, and
    /// stores the batch under a fresh id.
    pub fn insert(&mut self, batch: Batch) -> (r: Result<Batch, AppError>)
        requires
            old(self).wf(),
            batch@.crop.id is Some,
        ensures
            final(self).wf(),
            batch_dates_invalid(batch@) ==> r is Err,
            (!batch_dates_invalid(batch@) && old(self).id_space_left() && old(self)@.len() == 0)
                ==> r is Ok,
            match r {
                Ok(b) => {
                    &&& !batch_dates_invalid(batch@)
                    &&& b@.tracking_code matches Some(c) && spec_tracking_code_ok(c)
                        && !code_stored(old(self)@, c)
                    &&& b@.id matches Some(n) && 1 <= n
                    &&& forall|i: int|
                        0 <= i < old(self)@.len() ==> (#[trigger] old(self)@[i].id) != b@.id
                    &&& b@ == batch_with_id_code(batch@, b@.id, b@.tracking_code)
                    &&& final(self)@ == old(self)@.push(b@)
                },
                Err(e) => {
                    &&& final(self)@ == old(self)@
                    &&& (e@ == AppErrorV::BadRequest(spec_code_exhausted_msg()) || (
                    batch_dates_invalid(batch@) && e@ == AppErrorV::BadRequest(
                        spec_batch_dates_msg(batch@.date, batch@.crop.planted_at),
                    )) || (e@ == AppErrorV::Internal && !old(self).id_space_left()
                        && !batch_dates_invalid(batch@)))
                },
            },
    {
        let code = match self.generate_code() {
            Ok(c) => c,
            Err(e) => {
                return Err(e);
            },
        };
        let mut batch = batch;
        batch.set_tracking_code(Some(code));
        match self.validate(&batch) {
            Ok(_) => (),
            Err(e) => {
                return Err(e);
            },
        }
        self.repository.insert(batch)
    }

    /// Re-validates the date rule and replaces the fields of the row with
    /// `id`; the row's id and its stored tracking code stay as they are.
    pub fn update(&mut self, id: i64, batch: &Batch) -> (r: Result<Batch, AppError>)
        requires
            old(self).wf(),
        ensures
            final(self).wf(),
            batch_dates_invalid(batch@) ==> (r matches Err(e) && e@ == AppErrorV::BadRequest(
                spec_batch_dates_msg(batch@.date, batch@.crop.planted_at),
            ) && final(self)@ == old(self)@),
            !batch_dates_invalid(batch@) ==> {
                &&& r is Ok
                &&& (r matches Ok(b) ==> ((exists|i: int|
                    0 <= i < old(self)@.len() && (#[trigger] old(self)@[i].id) == Some(id) && b@
                        == batch_with_id_code(batch@, Some(id), old(self)@[i].tracking_code)) || ((
                forall|i: int|
                    0 <= i < old(self)@.len() ==> (#[trigger] old(self)@[i].id) != Some(id)) && b@
                    == batch_with_id(batch@, Some(id)))))
                &&& final(self)@.len() == old(self)@.len()
                &&& forall|i: int|
                    0 <= i < old(self)@.len() && (#[trigger] old(self)@[i].id) == Some(id)
                        ==> final(self)@[i] == batch_with_id_code(
                        batch@,
                        Some(id),
                        old(self)@[i].tracking_code,
                    )
                &&& forall|i: int|
                    0 <= i < old(self)@.len() && (#[trigger] old(self)@[i].id) != Some(id)
                        ==> final(self)@[i] == old(self)@[i]
            },
    {
        match self.validate(batch) {
            Ok(_) => (),
            Err(e) => {
                return Err(e);
            },
        }
        self.repository.update(id, batch.clone())
    }

    /// Removes the batch with `id`; removal is unconditional and removing an
    /// absent id succeeds without a change.
    pub fn delete(&mut self, id: i64) -> (r: Result<(), AppError>)
        requires
            old(self).wf(),
        ensures
            final(self).wf(),
            r is Ok,
            (exists|i: int|
                0 <= i < old(self)@.len() && (#[trigger] old(self)@[i].id) == Some(id) && final(self)@ == old(self)@.remove(i)) || ((forall|i: int|
                0 <= i < old(self)@.len() ==> (#[trigger] old(self)@[i].id) != Some(id)) && final(self)@ == old(self)@),
    {
        self.repository.delete(id)
    }
}

} // verus!
