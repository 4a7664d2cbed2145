//! The batch store: rows in insertion order, one id per row, ids never
//! reused, and one row per tracking code, as the schema's unique constraint
//! has it.

use vstd::prelude::*;
use crate::errors::{AppError, AppErrorV};
use crate::messages::{batch_not_found_msg, duplicate_code_msg, spec_batch_not_found_msg,
    spec_duplicate_code_msg};
use crate::models::batch::{Batch, BatchV};

verus! {

/// The views of a sequence of stored batches.
pub open spec fn batch_views(rows: Seq<Batch>) -> Seq<BatchV> {
    rows.map(|i: int, b: Batch| b@)
}

/// `v` with its id replaced.
pub open spec fn batch_with_id(v: BatchV, id: Option<i64>) -> BatchV {
    BatchV { id, ..v }
}

/// `v` with its id and its tracking code replaced.
pub open spec fn batch_with_id_code(v: BatchV, id: Option<i64>, code: Option<Seq<char>>) -> BatchV {
    BatchV { id, tracking_code: code, ..v }
}

/// Some stored batch carries `code` as its tracking code.
pub open spec fn code_stored(s: Seq<BatchV>, code: Seq<char>) -> bool {
    exists|i: int| 0 <= i < s.len() && (#[trigger] s[i].tracking_code) == Some(code)
}

/// The batches carrying `code` as their tracking code.
pub open spec fn has_code(code: Seq<char>) -> spec_fn(BatchV) -> bool {
    |b: BatchV| b.tracking_code == Some(code)
}

/// The batches referencing the crop with `crop_id`.
pub open spec fn refs_crop(crop_id: i64) -> spec_fn(BatchV) -> bool {
    |b: BatchV| b.crop.id == Some(crop_id)
}

/// Some stored batch references the crop with `crop_id`.
pub open spec fn crop_referenced(s: Seq<BatchV>, crop_id: i64) -> bool {
    exists|i: int| 0 <= i < s.len() && (#[trigger] s[i].crop.id) == Some(crop_id)
}

/// CRUD persistence for batches, backed by a vector.
pub struct BatchRepository {
    rows: Vec<Batch>,
    next_id: i64,
}

impl View for BatchRepository {
    type V = Seq<BatchV>;

    closed spec fn view(&self) -> Seq<BatchV> {
        batch_views(self.rows@)
    }
}

impl BatchRepository {
    /// Every stored row has an id and a tracking code, ids are pairwise
    /// distinct and never reused, and tracking codes are pairwise distinct.
    pub closed spec fn wf(&self) -> bool {
        &&& 1 <= self.next_id
        &&& forall|i: int|
            0 <= i < self@.len() ==> ((#[trigger] self@[i].id) matches Some(n) && 1 <= n
                < self.next_id)
        &&& forall|i: int| 0 <= i < self@.len() ==> (#[trigger] self@[i].tracking_code) is Some
        &&& forall|i: int, j: int|
            0 <= i < j < self@.len() ==> (#[trigger] self@[i].id) != (#[trigger] self@[j].id)
        &&& forall|i: int, j: int|
            0 <= i < j < self@.len() ==> (#[trigger] self@[i].tracking_code) != (#[trigger] self@[j].tracking_code)
    }

    /// In a well-formed store, no two rows share a tracking code: a stored
    /// code belongs to exactly one batch.
    pub proof fn lemma_wf_codes_unique(&self)
        requires
            self.wf(),
        ensures
            forall|i: int, j: int|
                0 <= i < j < self@.len() ==> (#[trigger] self@[i].tracking_code) != (#[trigger] self@[j].tracking_code),
    {
    }

    /// Whether another fresh id can still be assigned.
    pub closed spec fn id_space_left(&self) -> bool {
        self.next_id < i64::MAX
    }

    pub fn new() -> (r: BatchRepository)
        ensures
            r@ == Seq::<BatchV>::empty(),
            r.wf(),
            r.id_space_left(),
    {
        let r = BatchRepository { rows: Vec::new(), next_id: 1 };
        proof {
            assert(r@ =~= Seq::<BatchV>::empty());
        }
        r
    }

    /// The position of the row with `id`, if one is stored.
    fn position_of(&self, id: i64) -> (r: Option<usize>)
        ensures
            match r {
                Some(i) => i < self@.len() && self@[i as int].id == Some(id),
                None => forall|i: int| 0 <= i < self@.len() ==> (#[trigger] self@[i].id) != Some(
                    id,
                ),
            },
    {
        let n = self.rows.len();
        let mut k: usize = 0;
        while k < n
            invariant
                n == self@.len(),
                k <= n,
                forall|i: int| 0 <= i < k ==> (#[trigger] self@[i].id) != Some(id),
            decreases n - k,
        {
            let row_id = self.rows[k].id();
            if let Some(m) = row_id {
                if *m == id {
                    return Some(k);
                }
            }
            k += 1;
        }
        None
    }

    /// Every stored batch, in store order.
    pub fn list(&self) -> (r: Result<Vec<Batch>, AppError>)
        ensures
            r matches Ok(v) && batch_views(v@) == self@,
    {
        let n = self.rows.len();
        let mut out: Vec<Batch> = Vec::new();
        let mut k: usize = 0;
        while k < n
            invariant
                n == self@.len(),
                k <= n,
                out@.len() == k,
                forall|j: int| 0 <= j < k ==> (#[trigger] out@[j]@) == self@[j],
            decreases n - k,
        {
            out.push(self.rows[k].clone());
            k += 1;
        }
        proof {
            assert(batch_views(out@) =~= self@);
        }
        Ok(out)
    }

    /// The stored batch with `id`, or not-found naming the id.
    pub fn find_by_id(&self, id: i64) -> (r: Result<Batch, AppError>)
        ensures
            match r {
                Ok(b) => b@.id == Some(id) && exists|i: int|
                    0 <= i < self@.len() && self@[i] == b@,
                Err(e) => (forall|i: int|
                    0 <= i < self@.len() ==> (#[trigger] self@[i].id) != Some(id)) && e@
                    == AppErrorV::NotFound(spec_batch_not_found_msg(id as int)),
            },
    {
        match self.position_of(id) {
            Some(i) => Ok(self.rows[i].clone()),
            None => Err(AppError::NotFound(batch_not_found_msg(id))),
        }
    }

    /// Exactly the stored batches whose tracking code is `code`, in store
    /// order.
    pub fn find_by_tracking_code(&self, code: &str) -> (r: Result<Vec<Batch>, AppError>)
        ensures
            r matches Ok(v) && {
                &&& batch_views(v@) == self@.filter(has_code(code@))
                &&& (v@.len() == 0) == !code_stored(self@, code@)
                &&& forall|k: int|
                    0 <= k < v@.len() ==> (#[trigger] v@[k]@).tracking_code == Some(code@)
                        && self@.contains(v@[k]@)
            },
    {
        let needle = String::from_str(code);
        let n = self.rows.len();
        let mut out: Vec<Batch> = Vec::new();
        let mut k: usize = 0;
        while k < n
            invariant
                n == self@.len(),
                k <= n,
                needle@ == code@,
                batch_views(out@) =~= self@.subrange(0, k as int).filter(has_code(code@)),
                forall|j: int|
                    0 <= j < out@.len() ==> (#[trigger] out@[j]@).tracking_code == Some(code@)
                        && self@.contains(out@[j]@),
                (out@.len() == 0) == (forall|i: int|
                    0 <= i < k ==> (#[trigger] self@[i].tracking_code) != Some(code@)),
            decreases n - k,
        {
            let ghost pre = self@.subrange(0, k as int);
            let hit = match self.rows[k].tracking_code() {
                Some(s) => *s == needle,
                None => false,
            };
            if hit {
                out.push(self.rows[k].clone());
                proof {
                    assert(self@.contains(self@[k as int]));
                }
            }
            proof {
                reveal(Seq::filter);
                assert(self@.subrange(0, k as int + 1) =~= pre.push(self@[k as int]));
                assert(pre.push(self@[k as int]).drop_last() =~= pre);
                assert(batch_views(out@) =~= self@.subrange(0, k as int + 1).filter(
                    has_code(code@),
                ));
            }
            k += 1;
        }
        proof {
            assert(self@.subrange(0, n as int) =~= self@);
            assert(batch_views(out@) =~= self@.filter(has_code(code@)));
        }
        Ok(out)
    }

    /// Exactly the stored batches that reference the crop with `crop_id`, in
    /// store order.
    pub fn find_by_crop_id(&self, crop_id: i64) -> (r: Result<Vec<Batch>, AppError>)
        ensures
            r matches Ok(v) && {
                &&& batch_views(v@) == self@.filter(refs_crop(crop_id))
                &&& (v@.len() == 0) == !crop_referenced(self@, crop_id)
                &&& forall|k: int|
                    0 <= k < v@.len() ==> (#[trigger] v@[k]@).crop.id == Some(crop_id)
                        && self@.contains(v@[k]@)
            },
    {
        let n = self.rows.len();
        let mut out: Vec<Batch> = Vec::new();
        let mut k: usize = 0;
        while k < n
            invariant
                n == self@.len(),
                k <= n,
                batch_views(out@) =~= self@.subrange(0, k as int).filter(refs_crop(crop_id)),
                forall|j: int|
                    0 <= j < out@.len() ==> (#[trigger] out@[j]@).crop.id == Some(crop_id)
                        && self@.contains(out@[j]@),
                (out@.len() == 0) == (forall|i: int|
                    0 <= i < k ==> (#[trigger] self@[i].crop.id) != Some(crop_id)),
            decreases n - k,
        {
            let ghost pre = self@.subrange(0, k as int);
            let hit = match self.rows[k].crop().id() {
                Some(m) => *m == crop_id,
                None => false,
            };
            if hit {
                out.push(self.rows[k].clone());
                proof {
                    assert(self@.contains(self@[k as int]));
                }
            }
            proof {
                reveal(Seq::filter);
                assert(self@.subrange(0, k as int + 1) =~= pre.push(self@[k as int]));
                assert(pre.push(self@[k as int]).drop_last() =~= pre);
                assert(batch_views(out@) =~= self@.subrange(0, k as int + 1).filter(
                    refs_crop(crop_id),
                ));
            }
            k += 1;
        }
        proof {
            assert(self@.subrange(0, n as int) =~= self@);
            assert(batch_views(out@) =~= self@.filter(refs_crop(crop_id)));
        }
        Ok(out)
    }

    /// Whether some stored row carries `code`.
    pub fn code_exists(&self, code: &str) -> (r: bool)
        ensures
            r == code_stored(self@, code@),
    {
        let needle = String::from_str(code);
        let n = self.rows.len();
        let mut k: usize = 0;
        while k < n
            invariant
                n == self@.len(),
                k <= n,
                needle@ == code@,
                forall|i: int|
                    0 <= i < k ==> (#[trigger] self@[i].tracking_code) != Some(code@),
            decreases n - k,
        {
            let hit = match self.rows[k].tracking_code() {
                Some(s) => *s == needle,
                None => false,
            };
            if hit {
                proof {
                    assert(self@[k as int] == self.rows@[k as int]@);
                    assert(self@[k as int].tracking_code == Some(code@));
                }
                return true;
            }
            k += 1;
        }
        false
    }

    /// Stores `batch` under a fresh id, keeping its tracking code; rejects a
    /// tracking code that is already stored, as the schema's unique
    /// constraint does.
    pub fn insert(&mut self, batch: Batch) -> (r: Result<Batch, AppError>)
        requires
            old(self).wf(),
            batch@.crop.id is Some,
            batch@.tracking_code is Some,
        ensures
            final(self).wf(),
            r is Ok <==> (old(self).id_space_left() && !code_stored(
                old(self)@,
                batch@.tracking_code->Some_0,
            )),
            match r {
                Ok(b) => {
                    &&& !code_stored(old(self)@, batch@.tracking_code->Some_0)
                    &&& b@.id matches Some(n) && 1 <= n
                    &&& forall|i: int|
                        0 <= i < old(self)@.len() ==> (#[trigger] old(self)@[i].id) != b@.id
                    &&& b@ == batch_with_id(batch@, b@.id)
                    &&& final(self)@ == old(self)@.push(b@)
                },
                Err(e) => {
                    &&& final(self)@ == old(self)@
                    &&& if code_stored(old(self)@, batch@.tracking_code->Some_0) {
                        e@ == AppErrorV::BadRequest(spec_duplicate_code_msg())
                    } else {
                        e@ == AppErrorV::Internal && !old(self).id_space_left()
                    }
                },
            },
    {
        let code_dup = match batch.tracking_code() {
            Some(s) => self.code_exists(s.as_str()),
            None => false,
        };
        if code_dup {
            return Err(AppError::BadRequest(duplicate_code_msg()));
        }
        if self.next_id == i64::MAX {
            return Err(AppError::InternalServer);
        }
        let id = self.next_id;
        self.next_id = id + 1;
        let mut batch = batch;
        batch.set_id(Some(id));
        let out = batch.clone();
        self.rows.push(batch);
        proof {
            assert(self@ =~= old(self)@.push(out@));
        }
        Ok(out)
    }

    /// Replaces the fields of the row with `id`, keeping the row's id and its
    /// stored tracking code; rows with other ids stay as they are.
    pub fn update(&mut self, id: i64, batch: Batch) -> (r: Result<Batch, AppError>)
        requires
            old(self).wf(),
        ensures
            final(self).wf(),
            r is Ok,
            final(self)@.len() == old(self)@.len(),
            forall|i: int|
                0 <= i < old(self)@.len() && (#[trigger] old(self)@[i].id) == Some(id) ==> final(self)@[i]
                    == batch_with_id_code(batch@, Some(id), old(self)@[i].tracking_code),
            forall|i: int|
                0 <= i < old(self)@.len() && (#[trigger] old(self)@[i].id) != Some(id) ==> final(self)@[i]
                    == old(self)@[i],
            r matches Ok(b) ==> ((exists|i: int|
                0 <= i < old(self)@.len() && (#[trigger] old(self)@[i].id) == Some(id) && b@
                    == batch_with_id_code(batch@, Some(id), old(self)@[i].tracking_code)) || ((
            forall|i: int| 0 <= i < old(self)@.len() ==> (#[trigger] old(self)@[i].id) != Some(id))
                && b@ == batch_with_id(batch@, Some(id)))),
    {
        let mut batch = batch;
        batch.set_id(Some(id));
        match self.position_of(id) {
            Some(i) => {
                let stored_code = match self.rows[i].tracking_code() {
                    Some(s) => Some(s.clone()),
                    None => None,
                };
                batch.set_tracking_code(stored_code);
                let out = batch.clone();
                self.rows.remove(i);
                self.rows.insert(i, batch);
                proof {
                    assert(self@ =~= old(self)@.update(i as int, out@));
                }
                Ok(out)
            },
            None => Ok(batch),
        }
    }

    /// Removes the row with `id`; removing an id that is not stored changes
    /// nothing and still succeeds.
    pub fn delete(&mut self, id: i64) -> (r: Result<(), AppError>)
        requires
            old(self).wf(),
        ensures
            final(self).wf(),
            r is Ok,
            (exists|i: int|
                0 <= i < old(self)@.len() && (#[trigger] old(self)@[i].id) == Some(id) && final(self)@
                    == old(self)@.remove(i)) || ((forall|i: int|
                0 <= i < old(self)@.len() ==> (#[trigger] old(self)@[i].id) != Some(id)) && final(self)@
                == old(self)@),
            forall|i: int| 0 <= i < final(self)@.len() ==> (#[trigger] final(self)@[i].id) != Some(id),
    {
        match self.position_of(id) {
            Some(i) => {
                self.rows.remove(i);
                proof {
                    assert(self@ =~= old(self)@.remove(i as int));
                }
                Ok(())
            },
            None => Ok(()),
        }
    }
}

} // verus!
