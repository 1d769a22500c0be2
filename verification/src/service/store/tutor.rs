//! The tutor table and its operations.
//!
//! The table is a sequence of rows with store-generated, strictly increasing
//! ids. An update merges the supplied fields over the current row and fails
//! with `NotFound` when there is no current row; a delete removes every row
//! with the given id and succeeds even when that is none.

use crate::service::errors::EzyTutorError;
use crate::service::models::tutor::{NewTutor, Tutor, UpdateTutor};
use crate::text::{decimal, usize_to_string};
use vstd::prelude::*;
use vstd::string::StringExecFns;

verus! {

/// The first row with the given id, scanning from the front.
pub open spec fn find_tutor(rows: Seq<Tutor>, tutor_id: i32) -> Option<Tutor>
    decreases rows.len(),
{
    if rows.len() == 0 {
        None
    } else if rows[0].tutor_id == tutor_id {
        Some(rows[0])
    } else {
        find_tutor(rows.skip(1), tutor_id)
    }
}

/// The rows left after deleting every row with the given id.
pub open spec fn remove_tutor(rows: Seq<Tutor>, tutor_id: i32) -> Seq<Tutor>
    decreases rows.len(),
{
    if rows.len() == 0 {
        Seq::empty()
    } else if rows[0].tutor_id == tutor_id {
        remove_tutor(rows.skip(1), tutor_id)
    } else {
        seq![rows[0]] + remove_tutor(rows.skip(1), tutor_id)
    }
}

/// The row an update leaves behind: each supplied field replaces the current
/// one, each omitted field keeps it; the id never changes.
pub open spec fn merged_tutor(current: Tutor, update: UpdateTutor) -> Tutor {
    Tutor {
        tutor_id: current.tutor_id,
        tutor_name: if update.tutor_name is Some {
            update.tutor_name->0
        } else {
            current.tutor_name
        },
        tutor_pic_url: if update.tutor_pic_url is Some {
            update.tutor_pic_url->0
        } else {
            current.tutor_pic_url
        },
        tutor_profile: if update.tutor_profile is Some {
            update.tutor_profile->0
        } else {
            current.tutor_profile
        },
    }
}

/// The row an update leaves behind for the current one, as a single
/// computation: what the store writes back after the merge.
pub fn merged_tutor_row(current: &Tutor, update: &UpdateTutor) -> (r: Tutor)
    ensures
        r == merged_tutor(*current, *update),
{
    Tutor {
        tutor_id: current.tutor_id,
        tutor_name: match &update.tutor_name {
            Some(n) => n.clone(),
            None => current.tutor_name.clone(),
        },
        tutor_pic_url: match &update.tutor_pic_url {
            Some(n) => n.clone(),
            None => current.tutor_pic_url.clone(),
        },
        tutor_profile: match &update.tutor_profile {
            Some(n) => n.clone(),
            None => current.tutor_profile.clone(),
        },
    }
}

/// What an update with the given key leaves at one row's position: the
/// matching row merged with the payload, any other row untouched.
pub open spec fn row_after_tutor_update(row: Tutor, tutor_id: i32, update: UpdateTutor) -> Tutor {
    if row.tutor_id == tutor_id {
        merged_tutor(row, update)
    } else {
        row
    }
}

/// No two rows share an id.
pub open spec fn tutor_ids_unique(rows: Seq<Tutor>) -> bool {
    forall|i: int, j: int|
        0 <= i < j < rows.len() ==> rows[i].tutor_id != rows[j].tutor_id
}

/// Every id is positive and below the next one to be generated.
pub open spec fn tutor_ids_below(rows: Seq<Tutor>, next: i32) -> bool {
    forall|i: int|
        0 <= i < rows.len() ==> 0 < (#[trigger] rows[i]).tutor_id < next
}

/// The tutor table: its rows and the next id to generate.
pub struct TutorStore {
    pub tutors: Vec<Tutor>,
    pub next_tutor_id: i32,
}

impl TutorStore {
    /// The table's invariant: ids are unique, positive, and below the
    /// generator.
    pub open spec fn wf(&self) -> bool {
        &&& 0 < self.next_tutor_id
        &&& tutor_ids_below(self.tutors@, self.next_tutor_id)
        &&& tutor_ids_unique(self.tutors@)
    }

    /// An empty table.
    pub fn new() -> (r: TutorStore)
        ensures
            r.wf(),
            r.tutors@ == Seq::<Tutor>::empty(),
            r.next_tutor_id == 1,
    {
        TutorStore { tutors: Vec::new(), next_tutor_id: 1 }
    }

    /// Every row, in table order.
    pub fn get_all_tutors(&self) -> (r: Result<Vec<Tutor>, EzyTutorError>)
        ensures
            r matches Ok(tutors) && tutors@ == self.tutors@,
    {
        let mut tutors: Vec<Tutor> = Vec::new();
        let mut i: usize = 0;
        while i < self.tutors.len()
            invariant
                i <= self.tutors.len(),
                tutors@ =~= self.tutors@.subrange(0, i as int),
            decreases self.tutors.len() - i,
        {
            tutors.push(self.tutors[i].clone());
            i = i + 1;
        }
        proof {
            assert(tutors@ =~= self.tutors@);
        }
        Ok(tutors)
    }

    /// The row with the given id, or `NotFound` when there is none.
    pub fn get_tutor_details(&self, tutor_id: i32) -> (r: Result<Tutor, EzyTutorError>)
        ensures
            match r {
                Ok(t) => find_tutor(self.tutors@, tutor_id) == Some(t),
                Err(e) => {
                    &&& find_tutor(self.tutors@, tutor_id) is None
                    &&& e matches EzyTutorError::NotFound(m) && m@ == "Tutor id not found"@
                },
            },
    {
        let mut i: usize = 0;
        while i < self.tutors.len()
            invariant
                i <= self.tutors.len(),
                forall|j: int| 0 <= j < i ==> (#[trigger] self.tutors@[j]).tutor_id != tutor_id,
            decreases self.tutors.len() - i,
        {
            if self.tutors[i].tutor_id == tutor_id {
                proof {
                    lemma_find_tutor_at(self.tutors@, tutor_id, i as int);
                }
                return Ok(self.tutors[i].clone());
            }
            i = i + 1;
        }
        proof {
            lemma_find_tutor_none(self.tutors@, tutor_id);
        }
        Err(EzyTutorError::NotFound(String::from_str("Tutor id not found")))
    }

    /// Appends a row with the generated id and the payload's fields, and
    /// returns it.
    pub fn post_new_tutor(&mut self, new_tutor: NewTutor) -> (r: Result<Tutor, EzyTutorError>)
        requires
            old(self).wf(),
            old(self).next_tutor_id < i32::MAX,
        ensures
            final(self).wf(),
            final(self).next_tutor_id == old(self).next_tutor_id + 1,
            r matches Ok(t) && {
                &&& t.tutor_id == old(self).next_tutor_id
                &&& t.tutor_name == new_tutor.tutor_name
                &&& t.tutor_pic_url == new_tutor.tutor_pic_url
                &&& t.tutor_profile == new_tutor.tutor_profile
                &&& final(self).tutors@ == old(self).tutors@.push(t)
                &&& find_tutor(final(self).tutors@, t.tutor_id) == Some(t)
            },
    {
        let tutor = Tutor {
            tutor_id: self.next_tutor_id,
            tutor_name: new_tutor.tutor_name,
            tutor_pic_url: new_tutor.tutor_pic_url,
            tutor_profile: new_tutor.tutor_profile,
        };
        let stored = tutor.clone();
        self.tutors.push(stored);
        self.next_tutor_id = self.next_tutor_id + 1;
        proof {
            lemma_create_then_fetch_tutor(old(self).tutors@, tutor);
        }
        Ok(tutor)
    }

    /// Merges the supplied fields over the current row. When no row has the
    /// id, fails with `NotFound` and leaves the table unchanged.
    pub fn update_tutor_details(&mut self, tutor_id: i32, update_tutor: UpdateTutor) -> (r:
        Result<Tutor, EzyTutorError>)
        requires
            old(self).wf(),
        ensures
            final(self).wf(),
            final(self).next_tutor_id == old(self).next_tutor_id,
            final(self).tutors@.len() == old(self).tutors@.len(),
            match r {
                Ok(t) => {
                    &&& find_tutor(old(self).tutors@, tutor_id) matches Some(cur)
                        && t == merged_tutor(cur, update_tutor)
                    &&& forall|j: int|
                        0 <= j < old(self).tutors@.len() ==> final(self).tutors@[j]
                            == #[trigger] row_after_tutor_update(
                            old(self).tutors@[j],
                            tutor_id,
                            update_tutor,
                        )
                },
                Err(e) => {
                    &&& find_tutor(old(self).tutors@, tutor_id) is None
                    &&& e matches EzyTutorError::NotFound(m) && m@ == "Tutor id not found"@
                    &&& final(self).tutors@ == old(self).tutors@
                },
            },
    {
        let ghost rows = self.tutors@;
        let mut i: usize = 0;
        while i < self.tutors.len()
            invariant
                i <= self.tutors.len(),
                rows == old(self).tutors@,
                self.tutors@ == rows,
                self.next_tutor_id == old(self).next_tutor_id,
                old(self).wf(),
                forall|j: int| 0 <= j < i ==> (#[trigger] rows[j]).tutor_id != tutor_id,
            decreases self.tutors.len() - i,
        {
            if self.tutors[i].tutor_id == tutor_id {
                proof {
                    lemma_find_tutor_at(rows, tutor_id, i as int);
                }
                let current = &self.tutors[i];
                let merged = merged_tutor_row(current, &update_tutor);
                let returned = merged.clone();
                self.tutors.remove(i);
                self.tutors.insert(i, merged);
                proof {
                    assert(self.tutors@ =~= rows.update(i as int, merged_tutor(rows[i as int],
                        update_tutor)));
                    assert forall|j: int| 0 <= j < rows.len() implies self.tutors@[j]
                        == #[trigger] row_after_tutor_update(rows[j], tutor_id, update_tutor) by {
                        if j != i as int && rows[j].tutor_id == tutor_id {
                            if j < i as int {
                                assert(rows[j].tutor_id != rows[i as int].tutor_id);
                            } else {
                                assert(rows[i as int].tutor_id != rows[j].tutor_id);
                            }
                        }
                    }
                    assert forall|k: int| 0 <= k < self.tutors@.len() implies 0 < (
                    #[trigger] self.tutors@[k]).tutor_id < self.next_tutor_id by {
                        assert(self.tutors@[k] == row_after_tutor_update(rows[k], tutor_id,
                            update_tutor));
                        assert(0 < rows[k].tutor_id < self.next_tutor_id);
                    }
                    assert forall|p: int, q: int| 0 <= p < q < self.tutors@.len() implies self
                        .tutors@[p].tutor_id != self.tutors@[q].tutor_id by {
                        assert(self.tutors@[p] == row_after_tutor_update(rows[p], tutor_id,
                            update_tutor));
                        assert(self.tutors@[q] == row_after_tutor_update(rows[q], tutor_id,
                            update_tutor));
                        assert(rows[p].tutor_id != rows[q].tutor_id);
                    }
                }
                return Ok(returned);
            }
            i = i + 1;
        }
        proof {
            lemma_find_tutor_none(rows, tutor_id);
        }
        Err(EzyTutorError::NotFound(String::from_str("Tutor id not found")))
    }

    /// Removes every row with the given id. Succeeds whether or not a row
    /// was there (deleting an absent row reports zero affected rows), and
    /// says how many rows went.
    pub fn delete_tutor(&mut self, tutor_id: i32) -> (r: Result<String, EzyTutorError>)
        requires
            old(self).wf(),
        ensures
            final(self).wf(),
            final(self).next_tutor_id == old(self).next_tutor_id,
            final(self).tutors@ == remove_tutor(old(self).tutors@, tutor_id),
            r matches Ok(msg) && msg@ == "Deleted "@ + decimal(
                (old(self).tutors@.len() - final(self).tutors@.len()) as nat,
            ) + " record"@,
    {
        let ghost rows = self.tutors@;
        let mut kept: Vec<Tutor> = Vec::new();
        let mut i: usize = 0;
        while i < self.tutors.len()
            invariant
                i <= self.tutors.len(),
                self.tutors@ == rows,
                kept@ == remove_tutor(rows.subrange(0, i as int), tutor_id),
                kept@.len() <= i,
            decreases self.tutors.len() - i,
        {
            proof {
                lemma_remove_tutor_snoc(rows.subrange(0, i as int), rows[i as int], tutor_id);
                assert(rows.subrange(0, i as int).push(rows[i as int]) =~= rows.subrange(
                    0,
                    i as int + 1,
                ));
            }
            if self.tutors[i].tutor_id != tutor_id {
                kept.push(self.tutors[i].clone());
            }
            i = i + 1;
        }
        proof {
            assert(rows.subrange(0, rows.len() as int) =~= rows);
            lemma_remove_tutor_wf(rows, tutor_id, self.next_tutor_id);
        }
        let removed = self.tutors.len() - kept.len();
        self.tutors = kept;
        let mut msg = String::from_str("Deleted ");
        let count_text = usize_to_string(removed);
        msg.append(count_text.as_str());
        msg.append(" record");
        Ok(msg)
    }
}

/// `find_tutor` returns the row at the first matching position.
pub proof fn lemma_find_tutor_at(rows: Seq<Tutor>, tutor_id: i32, i: int)
    requires
        0 <= i < rows.len(),
        rows[i].tutor_id == tutor_id,
        forall|j: int| 0 <= j < i ==> (#[trigger] rows[j]).tutor_id != tutor_id,
    ensures
        find_tutor(rows, tutor_id) == Some(rows[i]),
    decreases i,
{
    if i > 0 {
        lemma_find_tutor_at(rows.skip(1), tutor_id, i - 1);
    }
}

/// `find_tutor` finds nothing when no row matches.
pub proof fn lemma_find_tutor_none(rows: Seq<Tutor>, tutor_id: i32)
    requires
        forall|j: int| 0 <= j < rows.len() ==> (#[trigger] rows[j]).tutor_id != tutor_id,
    ensures
        find_tutor(rows, tutor_id) is None,
    decreases rows.len(),
{
    if rows.len() > 0 {
        lemma_find_tutor_none(rows.skip(1), tutor_id);
    }
}

/// Removing from one more row keeps or drops exactly that row.
pub proof fn lemma_remove_tutor_snoc(rows: Seq<Tutor>, x: Tutor, tutor_id: i32)
    ensures
        remove_tutor(rows.push(x), tutor_id) == if x.tutor_id == tutor_id {
            remove_tutor(rows, tutor_id)
        } else {
            remove_tutor(rows, tutor_id).push(x)
        },
    decreases rows.len(),
{
    let s = rows.push(x);
    if rows.len() == 0 {
        assert(s[0] == x);
        assert(s.skip(1) =~= Seq::<Tutor>::empty());
        assert(remove_tutor(Seq::<Tutor>::empty(), tutor_id) == Seq::<Tutor>::empty());
        assert(remove_tutor(rows, tutor_id) == Seq::<Tutor>::empty());
        if x.tutor_id != tutor_id {
            assert(remove_tutor(s, tutor_id) =~= remove_tutor(rows, tutor_id).push(x));
        }
    } else {
        assert(s[0] == rows[0]);
        assert(s.skip(1) =~= rows.skip(1).push(x));
        lemma_remove_tutor_snoc(rows.skip(1), x, tutor_id);
        if rows[0].tutor_id == tutor_id {
            assert(remove_tutor(s, tutor_id) == remove_tutor(rows.skip(1).push(x), tutor_id));
        } else if x.tutor_id == tutor_id {
            assert(remove_tutor(s, tutor_id) =~= remove_tutor(rows, tutor_id));
        } else {
            assert(remove_tutor(s, tutor_id) =~= remove_tutor(rows, tutor_id).push(x));
        }
    }
}

/// Every row the removal keeps was in the table.
pub proof fn lemma_remove_tutor_contains(rows: Seq<Tutor>, tutor_id: i32, x: Tutor)
    requires
        remove_tutor(rows, tutor_id).contains(x),
    ensures
        rows.contains(x),
    decreases rows.len(),
{
    if rows.len() > 0 {
        if rows[0].tutor_id != tutor_id && x == rows[0] {
        } else {
            if rows[0].tutor_id != tutor_id {
                let kept = remove_tutor(rows.skip(1), tutor_id);
                let k = choose|k: int|
                    0 <= k < remove_tutor(rows, tutor_id).len() && remove_tutor(rows, tutor_id)[k]
                        == x;
                assert(kept[k - 1] == x);
            }
            lemma_remove_tutor_contains(rows.skip(1), tutor_id, x);
            let j = choose|j: int| 0 <= j < rows.skip(1).len() && rows.skip(1)[j] == x;
            assert(rows[j + 1] == x);
        }
    }
}

/// Removal keeps the table's invariant: ids stay unique and bounded.
pub proof fn lemma_remove_tutor_wf(rows: Seq<Tutor>, tutor_id: i32, next: i32)
    requires
        tutor_ids_unique(rows),
        tutor_ids_below(rows, next),
    ensures
        tutor_ids_unique(remove_tutor(rows, tutor_id)),
        tutor_ids_below(remove_tutor(rows, tutor_id), next),
    decreases rows.len(),
{
    if rows.len() > 0 {
        let tail = rows.skip(1);
        assert forall|i: int, j: int| 0 <= i < j < tail.len() implies tail[i].tutor_id
            != tail[j].tutor_id by {
            assert(rows[i + 1].tutor_id != rows[j + 1].tutor_id);
        }
        assert forall|i: int| 0 <= i < tail.len() implies 0 < (#[trigger] tail[i]).tutor_id
            < next by {
            assert(0 < rows[i + 1].tutor_id < next);
        }
        lemma_remove_tutor_wf(tail, tutor_id, next);
        if rows[0].tutor_id != tutor_id {
            let kept = remove_tutor(tail, tutor_id);
            let out = remove_tutor(rows, tutor_id);
            assert(out =~= seq![rows[0]] + kept);
            assert forall|i: int, j: int| 0 <= i < j < out.len() implies out[i].tutor_id
                != out[j].tutor_id by {
                if i == 0 {
                    lemma_remove_tutor_contains(tail, tutor_id, kept[j - 1]);
                    let k = choose|k: int| 0 <= k < tail.len() && tail[k] == kept[j - 1];
                    assert(rows[0].tutor_id != rows[k + 1].tutor_id);
                }
            }
            assert forall|i: int| 0 <= i < out.len() implies 0 < (#[trigger] out[i]).tutor_id
                < next by {
                if i > 0 {
                    lemma_remove_tutor_contains(tail, tutor_id, kept[i - 1]);
                    let k = choose|k: int| 0 <= k < tail.len() && tail[k] == kept[i - 1];
                    assert(0 < rows[k + 1].tutor_id < next);
                }
            }
        }
    }
}

/// Creating a row and then fetching it by the returned id yields that very
/// row, field for field: the id generated at creation is fresh, so the
/// lookup lands on the appended row.
pub proof fn lemma_create_then_fetch_tutor(rows: Seq<Tutor>, t: Tutor)
    requires
        forall|j: int| 0 <= j < rows.len() ==> (#[trigger] rows[j]).tutor_id != t.tutor_id,
    ensures
        find_tutor(rows.push(t), t.tutor_id) == Some(t),
{
    lemma_find_tutor_at(rows.push(t), t.tutor_id, rows.len() as int);
}

/// Deleting the same id twice changes nothing the second time: every
/// matching row went with the first delete, and the second reports zero
/// affected rows as a success.
pub proof fn lemma_delete_tutor_twice(rows: Seq<Tutor>, tutor_id: i32)
    ensures
        remove_tutor(remove_tutor(rows, tutor_id), tutor_id) == remove_tutor(rows, tutor_id),
    decreases rows.len(),
{
    if rows.len() > 0 {
        lemma_delete_tutor_twice(rows.skip(1), tutor_id);
        if rows[0].tutor_id != tutor_id {
            let kept = remove_tutor(rows.skip(1), tutor_id);
            assert((seq![rows[0]] + kept).skip(1) =~= kept);
            assert(remove_tutor(seq![rows[0]] + kept, tutor_id) =~= seq![rows[0]]
                + remove_tutor(kept, tutor_id));
        }
    }
}

} // verus!
