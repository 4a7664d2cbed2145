//! The crop store: rows in insertion order, one id per row, ids never reused.

use vstd::prelude::*;
use crate::errors::{AppError, AppErrorV};
use crate::messages::{crop_not_found_msg, spec_crop_not_found_msg};
use crate::models::crop::{Crop, CropV};

verus! {

/// The views of a sequence of stored crops.
pub open spec fn crop_views(rows: Seq<Crop>) -> Seq<CropV> {
    rows.map(|i: int, c: Crop| c@)
}

/// `v` with its id replaced.
pub open spec fn crop_with_id(v: CropV, id: Option<i64>) -> CropV {
    CropV { id, ..v }
}

/// CRUD persistence for crops, backed by a vector.
pub struct CropRepository {
    rows: Vec<Crop>,
    next_id: i64,
}

impl View for CropRepository {
    type V = Seq<CropV>;

    closed spec fn view(&self) -> Seq<CropV> {
        crop_views(self.rows@)
    }
}

impl CropRepository {
    /// Every stored row has an id, ids are pairwise distinct, and ids of new
    /// rows never collide with stored ones.
    pub closed spec fn wf(&self) -> bool {
        &&& 1 <= self.next_id
        &&& forall|i: int|
            0 <= i < self@.len() ==> ((#[trigger] self@[i].id) matches Some(n) && 1 <= n
                < self.next_id)
        &&& forall|i: int, j: int|
            0 <= i < j < self@.len() ==> (#[trigger] self@[i].id) != (#[trigger] self@[j].id)
    }

    /// Whether another fresh id can still be assigned.
    pub closed spec fn id_space_left(&self) -> bool {
        self.next_id < i64::MAX
    }

    pub fn new() -> (r: CropRepository)
        ensures
            r@ == Seq::<CropV>::empty(),
            r.wf(),
            r.id_space_left(),
    {
        let r = CropRepository { rows: Vec::new(), next_id: 1 };
        proof {
            assert(r@ =~= Seq::<CropV>::empty());
        }
        r
    }

    /// The position of the row with `id`, if one is stored.
    fn position_of(&self, id: i64) -> (r: Option<usize>)
        ensures
            match r {
                Some(i) => i < self@.len() && self@[i as int].id == Some(id),
                None => forall|i: int| 0 <= i < self@.len() ==> (#[trigger] self@[i].id) != Some(
                    id,
                ),
            },
    {
        let n = self.rows.len();
        let mut k: usize = 0;
        while k < n
            invariant
                n == self@.len(),
                k <= n,
                forall|i: int| 0 <= i < k ==> (#[trigger] self@[i].id) != Some(id),
            decreases n - k,
        {
            let row_id = self.rows[k].id();
            if let Some(m) = row_id {
                if *m == id {
                    return Some(k);
                }
            }
            k += 1;
        }
        None
    }

    /// Every stored crop, in store order.
    pub fn list(&self) -> (r: Result<Vec<Crop>, AppError>)
        ensures
            r matches Ok(v) && crop_views(v@) == self@,
    {
        let n = self.rows.len();
        let mut out: Vec<Crop> = Vec::new();
        let mut k: usize = 0;
        while k < n
            invariant
                n == self@.len(),
                k <= n,
                out@.len() == k,
                forall|j: int| 0 <= j < k ==> (#[trigger] out@[j]@) == self@[j],
            decreases n - k,
        {
            out.push(self.rows[k].clone());
            k += 1;
        }
        proof {
            assert(crop_views(out@) =~= self@);
        }
        Ok(out)
    }

    /// The stored crop with `id`, or not-found naming the id.
    pub fn find_by_id(&self, id: i64) -> (r: Result<Crop, AppError>)
        ensures
            match r {
                Ok(c) => c@.id == Some(id) && exists|i: int|
                    0 <= i < self@.len() && self@[i] == c@,
                Err(e) => (forall|i: int|
                    0 <= i < self@.len() ==> (#[trigger] self@[i].id) != Some(id)) && e@
                    == AppErrorV::NotFound(spec_crop_not_found_msg(id as int)),
            },
    {
        match self.position_of(id) {
            Some(i) => Ok(self.rows[i].clone()),
            None => Err(AppError::NotFound(crop_not_found_msg(id))),
        }
    }

    /// Stores `crop` under a fresh id and returns the stored record.
    pub fn insert(&mut self, crop: Crop) -> (r: Result<Crop, AppError>)
        requires
            old(self).wf(),
        ensures
            final(self).wf(),
            r is Ok <==> old(self).id_space_left(),
            match r {
                Ok(c) => {
                    &&& c@.id matches Some(n) && 1 <= n
                    &&& forall|i: int|
                        0 <= i < old(self)@.len() ==> (#[trigger] old(self)@[i].id) != c@.id
                    &&& c@ == crop_with_id(crop@, c@.id)
                    &&& final(self)@ == old(self)@.push(c@)
                },
                Err(e) => final(self)@ == old(self)@ && e@ == AppErrorV::Internal,
            },
    {
        if self.next_id == i64::MAX {
            return Err(AppError::InternalServer);
        }
        let id = self.next_id;
        self.next_id = id + 1;
        let mut crop = crop;
        crop.set_id(Some(id));
        let out = crop.clone();
        self.rows.push(crop);
        proof {
            assert(self@ =~= old(self)@.push(out@));
        }
        Ok(out)
    }

    /// Replaces the fields of the row with `id`, keeping the id; rows with
    /// other ids stay as they are. Returns the record under `id`.
    pub fn update(&mut self, id: i64, crop: Crop) -> (r: Result<Crop, AppError>)
        requires
            old(self).wf(),
        ensures
            final(self).wf(),
            r matches Ok(c) && c@ == crop_with_id(crop@, Some(id)),
            final(self)@.len() == old(self)@.len(),
            forall|i: int|
                0 <= i < old(self)@.len() && (#[trigger] old(self)@[i].id) == Some(id) ==> final(self)@[i]
                    == crop_with_id(crop@, Some(id)),
            forall|i: int|
                0 <= i < old(self)@.len() && (#[trigger] old(self)@[i].id) != Some(id) ==> final(self)@[i]
                    == old(self)@[i],
    {
        let mut crop = crop;
        crop.set_id(Some(id));
        match self.position_of(id) {
            Some(i) => {
                let out = crop.clone();
                self.rows.remove(i);
                self.rows.insert(i, crop);
                proof {
                    assert(self@ =~= old(self)@.update(i as int, out@));
                }
                Ok(out)
            },
            None => Ok(crop),
        }
    }

    /// Removes the row with `id`; not-found naming the id when none is stored.
    pub fn delete(&mut self, id: i64) -> (r: Result<(), AppError>)
        requires
            old(self).wf(),
        ensures
            final(self).wf(),
            match r {
                Ok(_) => exists|i: int|
                    0 <= i < old(self)@.len() && (#[trigger] old(self)@[i].id) == Some(id) && final(self)@
                        == old(self)@.remove(i),
                Err(e) => {
                    &&& final(self)@ == old(self)@
                    &&& forall|i: int|
                        0 <= i < old(self)@.len() ==> (#[trigger] old(self)@[i].id) != Some(id)
                    &&& e@ == AppErrorV::NotFound(spec_crop_not_found_msg(id as int))
                },
            },
    {
        match self.position_of(id) {
            Some(i) => {
                self.rows.remove(i);
                proof {
                    assert(self@ =~= old(self)@.remove(i as int));
                }
                Ok(())
            },
            None => Err(AppError::NotFound(crop_not_found_msg(id))),
        }
    }
}

} // verus!
