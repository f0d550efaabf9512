//! The weapon record service: create, get, share and get-shared over the
//! table of records, with the share operation modeled as the single atomic
//! set-if-absent statement the store engine guarantees.

use vstd::prelude::*;
use vstd::string::StringExecFns;
use crate::error::AppError;
use crate::error::ErrorKind;
use crate::error::store_error;
use crate::ext::fresh_id;
use crate::ext::now_micros;
use crate::model::CreateWeaponRequest;
use crate::model::SharedWeapon;
use crate::model::Weapon;
use crate::model::shared_view;
use crate::model::to_shared;
use crate::policy::create_prompt_ok;
use crate::policy::validate_create_prompt;
use crate::text::trim_spec;

verus! {

/// The record the conditional share statement leaves behind: if a share
/// identifier is already present nothing changes, otherwise the candidate
/// identifier and timestamp are assigned together.
pub open spec fn share_applied(w: Weapon, sid: u128, now: i64) -> Weapon {
    if w.share_id is Some {
        w
    } else {
        Weapon { share_id: Some(sid), shared_at: Some(now), ..w }
    }
}

/// The table of weapon records.
pub struct WeaponStore {
    table: Vec<Weapon>,
}

impl WeaponStore {
    /// The rows of the table, in insertion order.
    pub closed spec fn rows(self) -> Seq<Weapon> {
        self.table@
    }

    /// Record identifiers are unique.
    pub open spec fn ids_unique(self) -> bool {
        forall|i: int, j: int|
            0 <= i < j < self.rows().len() ==> self.rows()[i].id != self.rows()[j].id
    }

    /// Share identifiers, where present, are unique.
    pub open spec fn share_ids_unique(self) -> bool {
        forall|i: int, j: int|
            0 <= i < j < self.rows().len() && self.rows()[i].share_id is Some
                && self.rows()[j].share_id is Some ==> self.rows()[i].share_id
                != self.rows()[j].share_id
    }

    /// Store invariant: unique record and share identifiers, and every row
    /// well-formed.
    pub open spec fn wf(self) -> bool {
        &&& self.ids_unique()
        &&& self.share_ids_unique()
        &&& forall|i: int| 0 <= i < self.rows().len() ==> self.rows()[i].wf()
    }

    /// Some row carries this record identifier.
    pub open spec fn contains_id(self, id: u128) -> bool {
        exists|i: int| 0 <= i < self.rows().len() && self.rows()[i].id == id
    }

    /// The row carrying this record identifier.
    pub open spec fn row_with_id(self, id: u128) -> Weapon {
        self.rows()[choose|i: int| 0 <= i < self.rows().len() && self.rows()[i].id == id]
    }

    /// Some row carries this share identifier.
    pub open spec fn contains_share_id(self, sid: u128) -> bool {
        exists|i: int| 0 <= i < self.rows().len() && self.rows()[i].share_id == Some(sid)
    }

    /// The row carrying this share identifier.
    pub open spec fn row_with_share_id(self, sid: u128) -> Weapon {
        self.rows()[choose|i: int|
            0 <= i < self.rows().len() && self.rows()[i].share_id == Some(sid)]
    }

    /// An empty store.
    pub fn new() -> (s: WeaponStore)
        ensures
            s.wf(),
            s.rows().len() == 0,
    {
        WeaponStore { table: Vec::new() }
    }

    fn find_by_id(&self, id: u128) -> (r: Option<usize>)
        ensures
            match r {
                Some(i) => i < self.rows().len() && self.rows()[i as int].id == id,
                None => !self.contains_id(id),
            },
    {
        let n = self.table.len();
        let mut k: usize = 0;
        while k < n
            invariant
                n == self.rows().len(),
                k <= n,
                forall|i: int| 0 <= i < k ==> self.rows()[i].id != id,
            decreases n - k,
        {
            if self.table[k].id == id {
                return Some(k);
            }
            k = k + 1;
        }
        None
    }

    fn find_by_share_id(&self, sid: u128) -> (r: Option<usize>)
        ensures
            match r {
                Some(i) => i < self.rows().len() && self.rows()[i as int].share_id == Some(sid),
                None => !self.contains_share_id(sid),
            },
    {
        let n = self.table.len();
        let mut k: usize = 0;
        while k < n
            invariant
                n == self.rows().len(),
                k <= n,
                forall|i: int| 0 <= i < k ==> self.rows()[i].share_id != Some(sid),
            decreases n - k,
        {
            let hit = match self.table[k].share_id {
                Some(s) => s == sid,
                None => false,
            };
            if hit {
                return Some(k);
            }
            k = k + 1;
        }
        None
    }

    /// Creates one record: validates and trims the prompt, draws a fresh
    /// record identifier (and, when immediate sharing is requested, a fresh
    /// share identifier and the current time), and inserts a single row.
    /// Exactly the creation path may set the share fields at insertion.
    pub fn create_weapon(&mut self, req: CreateWeaponRequest) -> (r: Result<Weapon, AppError>)
        requires
            old(self).wf(),
        ensures
            final(self).wf(),
            !create_prompt_ok(req.prompt@) <==> (r matches Err(e) && e.kind
                == ErrorKind::Validation),
            r is Err ==> final(self).rows() == old(self).rows(),
            r matches Err(e) ==> e.kind == ErrorKind::Validation || e.kind == ErrorKind::Store,
            r matches Err(e) && e.kind == ErrorKind::Store ==> old(self).rows().len() > 0,
            trim_spec(req.prompt@).len() == 0 ==> (r matches Err(e) && e.message@
                == "prompt is required"@),
            0 < trim_spec(req.prompt@).len() < 10 || trim_spec(req.prompt@).len() > 500 ==> (
            r matches Err(e) && e.message@ == "prompt length must be 10-500"@),
            r matches Ok(w) ==> ({
                &&& final(self).rows() == old(self).rows().push(w)
                &&& w.wf()
                &&& w.prompt@ == trim_spec(req.prompt@)
                &&& w.owner_id == req.owner_id
                &&& w.model_url == req.model_url
                &&& w.model_path == req.model_path
                &&& w.bug_level == req.bug_level
                &&& w.pitch_text == req.pitch_text
                &&& w.sale_success == req.sale_success
                &&& w.tripo_task_id == req.tripo_task_id
                &&& w.metadata == req.metadata
                &&& (w.share_id is Some <==> req.share == Some(true))
                &&& (w.shared_at is Some <==> req.share == Some(true))
                &&& !old(self).contains_id(w.id)
                &&& final(self).contains_id(w.id) && final(self).row_with_id(w.id) == w
                &&& (w.share_id matches Some(sid) ==> final(self).contains_share_id(sid)
                    && final(self).row_with_share_id(sid) == w)
            }),
    {
        let trimmed = match validate_create_prompt(req.prompt.as_str()) {
            Ok(t) => t,
            Err(e) => {
                return Err(e);
            },
        };
        let id = fresh_id();
        if let Some(_) = self.find_by_id(id) {
            return Err(store_error("duplicate record identifier"));
        }
        let share = match req.share {
            Some(true) => true,
            _ => false,
        };
        let mut share_id_opt: Option<u128> = None;
        let mut shared_at_opt: Option<i64> = None;
        if share {
            let sid = fresh_id();
            if let Some(_) = self.find_by_share_id(sid) {
                return Err(store_error("duplicate share identifier"));
            }
            share_id_opt = Some(sid);
            shared_at_opt = Some(now_micros());
        }
        let w = Weapon {
            id,
            owner_id: req.owner_id,
            prompt: trimmed,
            model_url: req.model_url,
            model_path: req.model_path,
            bug_level: req.bug_level,
            pitch_text: req.pitch_text,
            sale_success: req.sale_success,
            tripo_task_id: req.tripo_task_id,
            metadata: req.metadata,
            share_id: share_id_opt,
            created_at: now_micros(),
            shared_at: shared_at_opt,
        };
        let result = w.clone();
        self.table.push(w);
        proof {
            let pre = old(self).rows();
            let rs = self.rows();
            let last = pre.len() as int;
            assert(rs == pre.push(result));
            assert forall|i: int, j: int| 0 <= i < j < rs.len() implies rs[i].id != rs[j].id by {
                if j < last {
                    assert(pre[i].id != pre[j].id);
                } else {
                    assert(!old(self).contains_id(result.id));
                }
            }
            assert forall|i: int, j: int|
                0 <= i < j < rs.len() && rs[i].share_id is Some && rs[j].share_id
                    is Some implies rs[i].share_id != rs[j].share_id by {
                if j < last {
                } else {
                    assert(rs[j] == result);
                }
            }
            lemma_row_at(*self, last);
            if share_id_opt is Some {
                lemma_share_row_at(*self, last);
            }
        }
        Ok(result)
    }

    /// Looks a record up by its identifier.
    pub fn get_weapon(&self, id: u128) -> (r: Result<Weapon, AppError>)
        requires
            self.wf(),
        ensures
            r is Ok <==> self.contains_id(id),
            r matches Ok(w) ==> w == self.row_with_id(id),
            r matches Err(e) ==> e.kind == ErrorKind::NotFound && e.message@ == "weapon not found"@,
    {
        match self.find_by_id(id) {
            Some(i) => {
                proof {
                    lemma_row_at(*self, i as int);
                }
                Ok(self.table[i].clone())
            },
            None => Err(AppError::not_found(String::from_str("weapon not found"))),
        }
    }

    /// The conditional share statement, with the candidate share identifier
    /// and timestamp as explicit inputs: one atomic set-if-absent update.
    pub fn share_with(&mut self, id: u128, sid: u128, now: i64) -> (r: Result<Weapon, AppError>)
        requires
            old(self).wf(),
        ensures
            final(self).wf(),
            final(self).rows().len() == old(self).rows().len(),
            !old(self).contains_id(id) <==> (r matches Err(e) && e.kind == ErrorKind::NotFound),
            !old(self).contains_id(id) ==> final(self).rows() == old(self).rows() && (
            r matches Err(e) && e.message@ == "weapon not found"@),
            old(self).contains_id(id) && old(self).row_with_id(id).share_id is Some ==> (final(self).rows() == old(self).rows() && (r matches Ok(w) && w == old(self).row_with_id(id))),
            old(self).contains_id(id) && old(self).row_with_id(id).share_id is None && !old(
                self,
            ).contains_share_id(sid) ==> (r matches Ok(w) && ({
                &&& w == share_applied(old(self).row_with_id(id), sid, now)
                &&& final(self).contains_id(id) && final(self).row_with_id(id) == w
                &&& final(self).contains_share_id(sid) && final(self).row_with_share_id(sid) == w
            })),
            old(self).contains_id(id) && old(self).row_with_id(id).share_id is None && old(
                self,
            ).contains_share_id(sid) ==> (final(self).rows() == old(self).rows() && (
            r matches Err(e) && e.kind == ErrorKind::Store)),
            r matches Err(e) ==> e.kind == ErrorKind::NotFound || e.kind == ErrorKind::Store,
            r is Err ==> final(self).rows() == old(self).rows(),
            r matches Err(e) && e.kind == ErrorKind::Store ==> old(self).contains_id(id) && old(
                self,
            ).row_with_id(id).share_id is None && old(self).contains_share_id(sid),
            forall|i: int|
                0 <= i < old(self).rows().len() && old(self).rows()[i].id != id ==> final(self).rows()[i] == old(self).rows()[i],
            forall|i: int|
                0 <= i < old(self).rows().len() && old(self).rows()[i].share_id is Some ==> final(self).rows()[i].share_id == old(self).rows()[i].share_id && final(self).rows()[i].shared_at == old(self).rows()[i].shared_at,
    {
        let idx = match self.find_by_id(id) {
            Some(i) => i,
            None => {
                return Err(AppError::not_found(String::from_str("weapon not found")));
            },
        };
        proof {
            lemma_row_at(*self, idx as int);
        }
        if self.table[idx].share_id.is_some() {
            let w = self.table[idx].clone();
            return Ok(w);
        }
        if let Some(_) = self.find_by_share_id(sid) {
            return Err(store_error("duplicate share identifier"));
        }
        let prev = self.table[idx].clone();
        let updated = Weapon { share_id: Some(sid), shared_at: Some(now), ..prev };
        let w = updated.clone();
        self.table.set(idx, updated);
        proof {
            let pre = old(self).rows();
            let rs = self.rows();
            let at = idx as int;
            assert(rs == pre.update(at, w));
            assert forall|i: int, j: int| 0 <= i < j < rs.len() implies rs[i].id != rs[j].id by {
                assert(rs[i].id == pre[i].id);
                assert(rs[j].id == pre[j].id);
            }
            assert forall|i: int, j: int|
                0 <= i < j < rs.len() && rs[i].share_id is Some && rs[j].share_id
                    is Some implies rs[i].share_id != rs[j].share_id by {
                if i != at && j != at {
                } else if i == at {
                    assert(pre[j].share_id != Some(sid));
                } else {
                    assert(pre[i].share_id != Some(sid));
                }
            }
            lemma_row_at(*self, at);
            lemma_share_row_at(*self, at);
        }
        Ok(w)
    }

    /// Idempotently ensures the record is shared: draws a candidate share
    /// identifier and the current time, and applies the single conditional
    /// update. An already-shared record is returned untouched.
    pub fn share_weapon(&mut self, id: u128) -> (r: Result<Weapon, AppError>)
        requires
            old(self).wf(),
        ensures
            final(self).wf(),
            final(self).rows().len() == old(self).rows().len(),
            !old(self).contains_id(id) <==> (r matches Err(e) && e.kind == ErrorKind::NotFound),
            !old(self).contains_id(id) ==> final(self).rows() == old(self).rows() && (
            r matches Err(e) && e.message@ == "weapon not found"@),
            old(self).contains_id(id) && old(self).row_with_id(id).share_id is Some ==> (final(self).rows() == old(self).rows() && (r matches Ok(w) && w == old(self).row_with_id(id))),
            r matches Ok(w) ==> ({
                let prev = old(self).row_with_id(id);
                &&& w.share_id is Some && w.shared_at is Some
                &&& w.id == prev.id && w.prompt == prev.prompt && w.owner_id == prev.owner_id
                &&& w.model_url == prev.model_url && w.model_path == prev.model_path
                &&& w.bug_level == prev.bug_level && w.pitch_text == prev.pitch_text
                &&& w.sale_success == prev.sale_success && w.tripo_task_id == prev.tripo_task_id
                &&& w.metadata == prev.metadata && w.created_at == prev.created_at
                &&& (prev.share_id is Some ==> w == prev)
                &&& final(self).contains_id(id) && final(self).row_with_id(id) == w
                &&& (w.share_id matches Some(s) ==> final(self).contains_share_id(s) && final(self).row_with_share_id(s) == w)
            }),
            r matches Err(e) ==> e.kind == ErrorKind::NotFound || e.kind == ErrorKind::Store,
            r is Err ==> final(self).rows() == old(self).rows(),
            r matches Err(e) && e.kind == ErrorKind::Store ==> old(self).contains_id(id) && old(
                self,
            ).row_with_id(id).share_id is None && (exists|i: int|
                0 <= i < old(self).rows().len() && old(self).rows()[i].share_id is Some),
            forall|i: int|
                0 <= i < old(self).rows().len() && old(self).rows()[i].id != id ==> final(self).rows()[i] == old(self).rows()[i],
    {
        let sid = fresh_id();
        let now = now_micros();
        let r = self.share_with(id, sid, now);
        proof {
            if old(self).contains_id(id) && old(self).row_with_id(id).share_id is None && old(
                self,
            ).contains_share_id(sid) {
                let i = choose|i: int|
                    0 <= i < old(self).rows().len() && old(self).rows()[i].share_id == Some(sid);
                assert(0 <= i < old(self).rows().len() && old(self).rows()[i].share_id is Some);
            }
        }
        r
    }

    /// Looks a record up by its share identifier and returns the public
    /// projection. A record that was never shared has no share identifier to
    /// match, so it can never be returned here.
    pub fn get_shared_weapon(&self, sid: u128) -> (r: Result<SharedWeapon, AppError>)
        requires
            self.wf(),
        ensures
            r is Ok <==> self.contains_share_id(sid),
            r matches Ok(s) ==> s == shared_view(self.row_with_share_id(sid)),
            r matches Err(e) ==> e.kind == ErrorKind::NotFound && e.message@ == "share not found"@,
    {
        match self.find_by_share_id(sid) {
            Some(i) => {
                proof {
                    lemma_share_row_at(*self, i as int);
                }
                Ok(to_shared(&self.table[i]))
            },
            None => Err(AppError::not_found(String::from_str("share not found"))),
        }
    }
}

/// In a well-formed store the row at any index is the unique row carrying
/// its record identifier.
pub proof fn lemma_row_at(s: WeaponStore, i: int)
    requires
        s.ids_unique(),
        0 <= i < s.rows().len(),
    ensures
        s.contains_id(s.rows()[i].id),
        s.row_with_id(s.rows()[i].id) == s.rows()[i],
{
    let id = s.rows()[i].id;
    assert(s.contains_id(id));
    let j = choose|j: int| 0 <= j < s.rows().len() && s.rows()[j].id == id;
    if i < j {
        assert(s.rows()[i].id != s.rows()[j].id);
    } else if j < i {
        assert(s.rows()[j].id != s.rows()[i].id);
    }
}

/// In a well-formed store the row at any index with a share identifier is
/// the unique row carrying it.
pub proof fn lemma_share_row_at(s: WeaponStore, i: int)
    requires
        s.share_ids_unique(),
        0 <= i < s.rows().len(),
        s.rows()[i].share_id is Some,
    ensures
        s.contains_share_id(s.rows()[i].share_id->0),
        s.row_with_share_id(s.rows()[i].share_id->0) == s.rows()[i],
{
    let sid = s.rows()[i].share_id->0;
    assert(s.rows()[i].share_id == Some(sid));
    assert(s.contains_share_id(sid));
    let j = choose|j: int| 0 <= j < s.rows().len() && s.rows()[j].share_id == Some(sid);
    if i < j {
        assert(s.rows()[i].share_id != s.rows()[j].share_id);
    } else if j < i {
        assert(s.rows()[j].share_id != s.rows()[i].share_id);
    }
}

/// Sharing is idempotent: applying the conditional share update to an
/// already-shared record, with any later candidate identifier and
/// timestamp, changes nothing.
pub proof fn lemma_share_idempotent(w: Weapon, sid1: u128, now1: i64, sid2: u128, now2: i64)
    ensures
        share_applied(share_applied(w, sid1, now1), sid2, now2) == share_applied(w, sid1, now1),
{
}

/// The result of any number of sequential conditional share updates.
pub open spec fn share_applied_all(w: Weapon, ps: Seq<(u128, i64)>) -> Weapon
    decreases ps.len(),
{
    if ps.len() == 0 {
        w
    } else {
        share_applied_all(share_applied(w, ps[0].0, ps[0].1), ps.subrange(1, ps.len() as int))
    }
}

/// However many share updates target an unshared record, only the first
/// assignment takes effect: every later update observes the identifier and
/// timestamp the first one assigned.
pub proof fn lemma_share_collapse(w: Weapon, ps: Seq<(u128, i64)>)
    requires
        ps.len() >= 1,
    ensures
        share_applied_all(w, ps) == share_applied(w, ps[0].0, ps[0].1),
    decreases ps.len(),
{
    let w1 = share_applied(w, ps[0].0, ps[0].1);
    let rest = ps.subrange(1, ps.len() as int);
    assert(share_applied_all(w, ps) == share_applied_all(w1, rest));
    if ps.len() == 1 {
        assert(rest.len() == 0);
        assert(share_applied_all(w1, rest) == w1);
    } else {
        lemma_share_collapse(w1, rest);
        assert(share_applied(w1, rest[0].0, rest[0].1) == w1);
    }
}

} // verus!
