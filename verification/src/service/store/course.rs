//! The course table and its operations.
//!
//! Rows are keyed by the pair of owning tutor id and course id; every read,
//! update and delete takes both. An update merges the supplied fields over
//! the current row; for the optional stored fields an omitted value falls
//! back to the current one, and when both sides are absent the merge stores
//! an empty string (or zero for the price) instead of keeping the absence —
//! an inherited quirk of the merge, kept as documented behavior.

use crate::service::errors::EzyTutorError;
use crate::service::models::course::{Course, NewCourse, UpdateCourse};
use crate::text::{decimal, usize_to_string};
use vstd::prelude::*;
use vstd::string::StringExecFns;

verus! {

/// The first row with the given key, scanning from the front.
pub open spec fn find_course(rows: Seq<Course>, tutor_id: i32, course_id: i32) -> Option<Course>
    decreases rows.len(),
{
    if rows.len() == 0 {
        None
    } else if rows[0].tutor_id == tutor_id && rows[0].course_id == course_id {
        Some(rows[0])
    } else {
        find_course(rows.skip(1), tutor_id, course_id)
    }
}

/// The rows of one tutor, in table order.
pub open spec fn courses_of(rows: Seq<Course>, tutor_id: i32) -> Seq<Course>
    decreases rows.len(),
{
    if rows.len() == 0 {
        Seq::empty()
    } else if rows[0].tutor_id == tutor_id {
        seq![rows[0]] + courses_of(rows.skip(1), tutor_id)
    } else {
        courses_of(rows.skip(1), tutor_id)
    }
}

/// The rows left after deleting every row with the given key.
pub open spec fn remove_course(rows: Seq<Course>, tutor_id: i32, course_id: i32) -> Seq<Course>
    decreases rows.len(),
{
    if rows.len() == 0 {
        Seq::empty()
    } else if rows[0].tutor_id == tutor_id && rows[0].course_id == course_id {
        remove_course(rows.skip(1), tutor_id, course_id)
    } else {
        seq![rows[0]] + remove_course(rows.skip(1), tutor_id, course_id)
    }
}

/// What an update stores for an optional text field: the supplied value,
/// else the current one, else the empty string.
pub open spec fn merged_text(update: Option<String>, current: Option<String>) -> Seq<char> {
    if update is Some {
        update->0@
    } else if current is Some {
        current->0@
    } else {
        Seq::<char>::empty()
    }
}

/// What an update stores for the price: the supplied value, else the current
/// one, else zero.
pub open spec fn merged_price(update: Option<i32>, current: Option<i32>) -> i32 {
    if update is Some {
        update->0
    } else if current is Some {
        current->0
    } else {
        0
    }
}

/// The view of an optional text field.
pub open spec fn opt_view(o: Option<String>) -> Option<Seq<char>> {
    match o {
        Some(s) => Some(s@),
        None => None,
    }
}

/// `t` is the row an update leaves behind for the current row: the key and
/// the posted time never change, the name is the supplied one or the current
/// one, and every optional field is stored populated with its merged value.
pub open spec fn is_merged_course(t: Course, current: Course, update: UpdateCourse) -> bool {
    &&& t.course_id == current.course_id
    &&& t.tutor_id == current.tutor_id
    &&& t.course_name@ == if update.course_name is Some {
        update.course_name->0@
    } else {
        current.course_name@
    }
    &&& t.course_description matches Some(d) && d@ == merged_text(
        update.course_description,
        current.course_description,
    )
    &&& t.course_format matches Some(d) && d@ == merged_text(
        update.course_format,
        current.course_format,
    )
    &&& t.course_structure matches Some(d) && d@ == merged_text(
        update.course_structure,
        current.course_structure,
    )
    &&& t.course_duration matches Some(d) && d@ == merged_text(
        update.course_duration,
        current.course_duration,
    )
    &&& t.course_language matches Some(d) && d@ == merged_text(
        update.course_language,
        current.course_language,
    )
    &&& t.course_level matches Some(d) && d@ == merged_text(
        update.course_level,
        current.course_level,
    )
    &&& t.course_price == Some(merged_price(update.course_price, current.course_price))
    &&& t.posted_time == current.posted_time
}

/// How an update with the given key relates one row position to the next:
/// the matching row becomes its merge, any other row stays.
pub open spec fn course_row_updated(
    new_row: Course,
    row: Course,
    tutor_id: i32,
    course_id: i32,
    update: UpdateCourse,
) -> bool {
    if row.tutor_id == tutor_id && row.course_id == course_id {
        is_merged_course(new_row, row, update)
    } else {
        new_row == row
    }
}

/// No two rows share a course id.
pub open spec fn course_ids_unique(rows: Seq<Course>) -> bool {
    forall|i: int, j: int|
        0 <= i < j < rows.len() ==> rows[i].course_id != rows[j].course_id
}

/// Every course id is positive and below the next one to be generated.
pub open spec fn course_ids_below(rows: Seq<Course>, next: i32) -> bool {
    forall|i: int|
        0 <= i < rows.len() ==> 0 < (#[trigger] rows[i]).course_id < next
}

/// The course table: its rows and the next id to generate.
pub struct CourseStore {
    pub courses: Vec<Course>,
    pub next_course_id: i32,
}

fn merge_text_field(update: &Option<String>, current: &Option<String>) -> (r: String)
    ensures
        r@ == merged_text(*update, *current),
{
    match update {
        Some(s) => s.clone(),
        None => match current {
            Some(s) => s.clone(),
            None => String::new(),
        },
    }
}

fn merge_price_field(update: Option<i32>, current: Option<i32>) -> (r: i32)
    ensures
        r == merged_price(update, current),
{
    match update {
        Some(p) => p,
        None => match current {
            Some(p) => p,
            None => 0,
        },
    }
}

/// The row an update leaves behind for the current one, as a single
/// computation: what the store writes back after the merge.
pub fn merged_course_row(current: &Course, update: &UpdateCourse) -> (r: Course)
    ensures
        is_merged_course(r, *current, *update),
{
    Course {
        course_id: current.course_id,
        tutor_id: current.tutor_id,
        course_name: match &update.course_name {
            Some(n) => n.clone(),
            None => current.course_name.clone(),
        },
        course_description: Some(
            merge_text_field(&update.course_description, &current.course_description),
        ),
        course_format: Some(merge_text_field(&update.course_format, &current.course_format)),
        course_structure: Some(
            merge_text_field(&update.course_structure, &current.course_structure),
        ),
        course_duration: Some(merge_text_field(&update.course_duration, &current.course_duration)),
        course_price: Some(merge_price_field(update.course_price, current.course_price)),
        course_language: Some(merge_text_field(&update.course_language, &current.course_language)),
        course_level: Some(merge_text_field(&update.course_level, &current.course_level)),
        posted_time: current.posted_time,
    }
}

impl CourseStore {
    /// The table's invariant: course ids are unique, positive, and below the
    /// generator.
    pub open spec fn wf(&self) -> bool {
        &&& 0 < self.next_course_id
        &&& course_ids_below(self.courses@, self.next_course_id)
        &&& course_ids_unique(self.courses@)
    }

    /// An empty table.
    pub fn new() -> (r: CourseStore)
        ensures
            r.wf(),
            r.courses@ == Seq::<Course>::empty(),
            r.next_course_id == 1,
    {
        CourseStore { courses: Vec::new(), next_course_id: 1 }
    }

    /// Every row of one tutor, in table order.
    pub fn get_courses_for_tutor(&self, tutor_id: i32) -> (r: Result<Vec<Course>, EzyTutorError>)
        ensures
            r matches Ok(courses) && courses@ == courses_of(self.courses@, tutor_id),
    {
        let ghost rows = self.courses@;
        let mut courses: Vec<Course> = Vec::new();
        let mut i: usize = 0;
        while i < self.courses.len()
            invariant
                i <= self.courses.len(),
                self.courses@ == rows,
                courses@ == courses_of(rows.subrange(0, i as int), tutor_id),
            decreases self.courses.len() - i,
        {
            proof {
                lemma_courses_of_snoc(rows.subrange(0, i as int), rows[i as int], tutor_id);
                assert(rows.subrange(0, i as int).push(rows[i as int]) =~= rows.subrange(
                    0,
                    i as int + 1,
                ));
            }
            if self.courses[i].tutor_id == tutor_id {
                courses.push(self.courses[i].clone());
            }
            i = i + 1;
        }
        proof {
            assert(rows.subrange(0, rows.len() as int) =~= rows);
        }
        Ok(courses)
    }

    /// The row with the given key, or `NotFound` when there is none.
    pub fn get_course_details(&self, tutor_id: i32, course_id: i32) -> (r: Result<
        Course,
        EzyTutorError,
    >)
        ensures
            match r {
                Ok(t) => find_course(self.courses@, tutor_id, course_id) == Some(t),
                Err(e) => {
                    &&& find_course(self.courses@, tutor_id, course_id) is None
                    &&& e matches EzyTutorError::NotFound(m) && m@ == "Course id not found"@
                },
            },
    {
        let mut i: usize = 0;
        while i < self.courses.len()
            invariant
                i <= self.courses.len(),
                forall|j: int|
                    0 <= j < i ==> !((#[trigger] self.courses@[j]).tutor_id == tutor_id
                        && self.courses@[j].course_id == course_id),
            decreases self.courses.len() - i,
        {
            if self.courses[i].tutor_id == tutor_id && self.courses[i].course_id == course_id {
                proof {
                    lemma_find_course_at(self.courses@, tutor_id, course_id, i as int);
                }
                return Ok(self.courses[i].clone());
            }
            i = i + 1;
        }
        proof {
            lemma_find_course_none(self.courses@, tutor_id, course_id);
        }
        Err(EzyTutorError::NotFound(String::from_str("Course id not found")))
    }

    /// Appends a row with the generated id, the payload's fields, and the
    /// given posted time, and returns it.
    pub fn post_new_course(&mut self, new_course: NewCourse, posted_time: i64) -> (r: Result<
        Course,
        EzyTutorError,
    >)
        requires
            old(self).wf(),
            old(self).next_course_id < i32::MAX,
        ensures
            final(self).wf(),
            final(self).next_course_id == old(self).next_course_id + 1,
            r matches Ok(t) && {
                &&& t.course_id == old(self).next_course_id
                &&& t.tutor_id == new_course.tutor_id
                &&& t.course_name == new_course.course_name
                &&& t.course_description == new_course.course_description
                &&& t.course_format == new_course.course_format
                &&& t.course_structure == new_course.course_structure
                &&& t.course_duration == new_course.course_duration
                &&& t.course_price == new_course.course_price
                &&& t.course_language == new_course.course_language
                &&& t.course_level == new_course.course_level
                &&& t.posted_time == Some(posted_time)
                &&& final(self).courses@ == old(self).courses@.push(t)
                &&& find_course(final(self).courses@, t.tutor_id, t.course_id) == Some(t)
            },
    {
        let course = Course {
            course_id: self.next_course_id,
            tutor_id: new_course.tutor_id,
            course_name: new_course.course_name,
            course_description: new_course.course_description,
            course_format: new_course.course_format,
            course_structure: new_course.course_structure,
            course_duration: new_course.course_duration,
            course_price: new_course.course_price,
            course_language: new_course.course_language,
            course_level: new_course.course_level,
            posted_time: Some(posted_time),
        };
        let stored = course.clone();
        self.courses.push(stored);
        self.next_course_id = self.next_course_id + 1;
        proof {
            let rows = self.courses@;
            assert forall|j: int| 0 <= j < rows.len() - 1 implies !((#[trigger] rows[j]).tutor_id
                == course.tutor_id && rows[j].course_id == course.course_id) by {
                assert(rows[j] == old(self).courses@[j]);
                assert(rows[j].course_id < course.course_id);
            }
            lemma_find_course_at(rows, course.tutor_id, course.course_id, rows.len() - 1);
        }
        Ok(course)
    }

    /// Merges the supplied fields over the current row. When no row has the
    /// key, fails with `NotFound` and leaves the table unchanged.
    pub fn update_course_datails(
        &mut self,
        tutor_id: i32,
        course_id: i32,
        update_course: UpdateCourse,
    ) -> (r: Result<Course, EzyTutorError>)
        requires
            old(self).wf(),
        ensures
            final(self).wf(),
            final(self).next_course_id == old(self).next_course_id,
            final(self).courses@.len() == old(self).courses@.len(),
            match r {
                Ok(t) => {
                    &&& find_course(old(self).courses@, tutor_id, course_id) matches Some(cur)
                        && is_merged_course(t, cur, update_course)
                    &&& forall|j: int|
                        0 <= j < old(self).courses@.len() ==> #[trigger] course_row_updated(
                            final(self).courses@[j],
                            old(self).courses@[j],
                            tutor_id,
                            course_id,
                            update_course,
                        )
                },
                Err(e) => {
                    &&& find_course(old(self).courses@, tutor_id, course_id) is None
                    &&& e matches EzyTutorError::NotFound(m) && m@ == "Course id not found"@
                    &&& final(self).courses@ == old(self).courses@
                },
            },
    {
        let ghost rows = self.courses@;
        let mut i: usize = 0;
        while i < self.courses.len()
            invariant
                i <= self.courses.len(),
                rows == old(self).courses@,
                self.courses@ == rows,
                self.next_course_id == old(self).next_course_id,
                old(self).wf(),
                forall|j: int|
                    0 <= j < i ==> !((#[trigger] rows[j]).tutor_id == tutor_id
                        && rows[j].course_id == course_id),
            decreases self.courses.len() - i,
        {
            if self.courses[i].tutor_id == tutor_id && self.courses[i].course_id == course_id {
                proof {
                    lemma_find_course_at(rows, tutor_id, course_id, i as int);
                }
                let current = &self.courses[i];
                let merged = merged_course_row(current, &update_course);
                let returned = merged.clone();
                self.courses.remove(i);
                self.courses.insert(i, merged);
                proof {
                    assert(self.courses@ =~= rows.update(i as int, merged));
                    assert forall|j: int| 0 <= j < rows.len() implies #[trigger] course_row_updated(
                        self.courses@[j],
                        rows[j],
                        tutor_id,
                        course_id,
                        update_course,
                    ) by {
                        if j != i as int && rows[j].tutor_id == tutor_id && rows[j].course_id
                            == course_id {
                            if j < i as int {
                                assert(rows[j].course_id != rows[i as int].course_id);
                            } else {
                                assert(rows[i as int].course_id != rows[j].course_id);
                            }
                        }
                    }
                    assert forall|k: int| 0 <= k < self.courses@.len() implies 0 < (
                    #[trigger] self.courses@[k]).course_id < self.next_course_id by {
                        assert(0 < rows[k].course_id < self.next_course_id);
                    }
                    assert forall|p: int, q: int| 0 <= p < q < self.courses@.len() implies self
                        .courses@[p].course_id != self.courses@[q].course_id by {
                        assert(rows[p].course_id != rows[q].course_id);
                    }
                }
                return Ok(returned);
            }
            i = i + 1;
        }
        proof {
            lemma_find_course_none(rows, tutor_id, course_id);
        }
        Err(EzyTutorError::NotFound(String::from_str("Course id not found")))
    }

    /// Removes every row with the given key. Succeeds whether or not a row
    /// was there (deleting an absent row reports zero affected rows), and
    /// says how many rows went.
    pub fn delete_course(&mut self, tutor_id: i32, course_id: i32) -> (r: Result<
        String,
        EzyTutorError,
    >)
        requires
            old(self).wf(),
        ensures
            final(self).wf(),
            final(self).next_course_id == old(self).next_course_id,
            final(self).courses@ == remove_course(old(self).courses@, tutor_id, course_id),
            r matches Ok(msg) && msg@ == "Deleted "@ + decimal(
                (old(self).courses@.len() - final(self).courses@.len()) as nat,
            ) + " record"@,
    {
        let ghost rows = self.courses@;
        let mut kept: Vec<Course> = Vec::new();
        let mut i: usize = 0;
        while i < self.courses.len()
            invariant
                i <= self.courses.len(),
                self.courses@ == rows,
                self.next_course_id == old(self).next_course_id,
                kept@ == remove_course(rows.subrange(0, i as int), tutor_id, course_id),
                kept@.len() <= i,
            decreases self.courses.len() - i,
        {
            proof {
                lemma_remove_course_snoc(rows.subrange(0, i as int), rows[i as int], tutor_id,
                    course_id);
                assert(rows.subrange(0, i as int).push(rows[i as int]) =~= rows.subrange(
                    0,
                    i as int + 1,
                ));
            }
            if !(self.courses[i].tutor_id == tutor_id && self.courses[i].course_id == course_id) {
                kept.push(self.courses[i].clone());
            }
            i = i + 1;
        }
        proof {
            assert(rows.subrange(0, rows.len() as int) =~= rows);
            lemma_remove_course_wf(rows, tutor_id, course_id, self.next_course_id);
        }
        let removed = self.courses.len() - kept.len();
        self.courses = kept;
        let mut msg = String::from_str("Deleted ");
        let count_text = usize_to_string(removed);
        msg.append(count_text.as_str());
        msg.append(" record");
        Ok(msg)
    }
}

/// `find_course` returns the row at the first matching position.
pub proof fn lemma_find_course_at(rows: Seq<Course>, tutor_id: i32, course_id: i32, i: int)
    requires
        0 <= i < rows.len(),
        rows[i].tutor_id == tutor_id && rows[i].course_id == course_id,
        forall|j: int|
            0 <= j < i ==> !((#[trigger] rows[j]).tutor_id == tutor_id && rows[j].course_id
                == course_id),
    ensures
        find_course(rows, tutor_id, course_id) == Some(rows[i]),
    decreases i,
{
    if i > 0 {
        lemma_find_course_at(rows.skip(1), tutor_id, course_id, i - 1);
    }
}

/// `find_course` finds nothing when no row matches.
pub proof fn lemma_find_course_none(rows: Seq<Course>, tutor_id: i32, course_id: i32)
    requires
        forall|j: int|
            0 <= j < rows.len() ==> !((#[trigger] rows[j]).tutor_id == tutor_id && rows[j].course_id
                == course_id),
    ensures
        find_course(rows, tutor_id, course_id) is None,
    decreases rows.len(),
{
    if rows.len() > 0 {
        lemma_find_course_none(rows.skip(1), tutor_id, course_id);
    }
}

/// Filtering one more row keeps it exactly when its tutor matches.
pub proof fn lemma_courses_of_snoc(rows: Seq<Course>, x: Course, tutor_id: i32)
    ensures
        courses_of(rows.push(x), tutor_id) == if x.tutor_id == tutor_id {
            courses_of(rows, tutor_id).push(x)
        } else {
            courses_of(rows, tutor_id)
        },
    decreases rows.len(),
{
    let s = rows.push(x);
    if rows.len() == 0 {
        assert(s[0] == x);
        assert(s.skip(1) =~= Seq::<Course>::empty());
        assert(courses_of(Seq::<Course>::empty(), tutor_id) == Seq::<Course>::empty());
        assert(courses_of(rows, tutor_id) == Seq::<Course>::empty());
        if x.tutor_id == tutor_id {
            assert(courses_of(s, tutor_id) =~= courses_of(rows, tutor_id).push(x));
        }
    } else {
        assert(s[0] == rows[0]);
        assert(s.skip(1) =~= rows.skip(1).push(x));
        lemma_courses_of_snoc(rows.skip(1), x, tutor_id);
        if rows[0].tutor_id == tutor_id && x.tutor_id == tutor_id {
            assert(courses_of(s, tutor_id) =~= courses_of(rows, tutor_id).push(x));
        } else if rows[0].tutor_id == tutor_id {
            assert(courses_of(s, tutor_id) =~= courses_of(rows, tutor_id));
        }
    }
}

/// Removing from one more row keeps or drops exactly that row.
pub proof fn lemma_remove_course_snoc(rows: Seq<Course>, x: Course, tutor_id: i32, course_id: i32)
    ensures
        remove_course(rows.push(x), tutor_id, course_id) == if x.tutor_id == tutor_id
            && x.course_id == course_id {
            remove_course(rows, tutor_id, course_id)
        } else {
            remove_course(rows, tutor_id, course_id).push(x)
        },
    decreases rows.len(),
{
    let s = rows.push(x);
    if rows.len() == 0 {
        assert(s[0] == x);
        assert(s.skip(1) =~= Seq::<Course>::empty());
        assert(remove_course(Seq::<Course>::empty(), tutor_id, course_id) == Seq::<
            Course,
        >::empty());
        assert(remove_course(rows, tutor_id, course_id) == Seq::<Course>::empty());
        if !(x.tutor_id == tutor_id && x.course_id == course_id) {
            assert(remove_course(s, tutor_id, course_id) =~= remove_course(rows, tutor_id,
                course_id).push(x));
        }
    } else {
        assert(s[0] == rows[0]);
        assert(s.skip(1) =~= rows.skip(1).push(x));
        lemma_remove_course_snoc(rows.skip(1), x, tutor_id, course_id);
        if rows[0].tutor_id == tutor_id && rows[0].course_id == course_id {
        } else if x.tutor_id == tutor_id && x.course_id == course_id {
            assert(remove_course(s, tutor_id, course_id) =~= remove_course(rows, tutor_id,
                course_id));
        } else {
            assert(remove_course(s, tutor_id, course_id) =~= remove_course(rows, tutor_id,
                course_id).push(x));
        }
    }
}

/// Every row the removal keeps was in the table.
pub proof fn lemma_remove_course_contains(
    rows: Seq<Course>,
    tutor_id: i32,
    course_id: i32,
    x: Course,
)
    requires
        remove_course(rows, tutor_id, course_id).contains(x),
    ensures
        rows.contains(x),
    decreases rows.len(),
{
    if rows.len() > 0 {
        let head_matches = rows[0].tutor_id == tutor_id && rows[0].course_id == course_id;
        if !head_matches && x == rows[0] {
        } else {
            if !head_matches {
                let kept = remove_course(rows.skip(1), tutor_id, course_id);
                let out = remove_course(rows, tutor_id, course_id);
                let k = choose|k: int| 0 <= k < out.len() && out[k] == x;
                assert(kept[k - 1] == x);
            }
            lemma_remove_course_contains(rows.skip(1), tutor_id, course_id, x);
            let j = choose|j: int| 0 <= j < rows.skip(1).len() && rows.skip(1)[j] == x;
            assert(rows[j + 1] == x);
        }
    }
}

/// Removal keeps the table's invariant: ids stay unique and bounded.
pub proof fn lemma_remove_course_wf(rows: Seq<Course>, tutor_id: i32, course_id: i32, next: i32)
    requires
        course_ids_unique(rows),
        course_ids_below(rows, next),
    ensures
        course_ids_unique(remove_course(rows, tutor_id, course_id)),
        course_ids_below(remove_course(rows, tutor_id, course_id), next),
    decreases rows.len(),
{
    if rows.len() > 0 {
        let tail = rows.skip(1);
        assert forall|i: int, j: int| 0 <= i < j < tail.len() implies tail[i].course_id
            != tail[j].course_id by {
            assert(rows[i + 1].course_id != rows[j + 1].course_id);
        }
        assert forall|i: int| 0 <= i < tail.len() implies 0 < (#[trigger] tail[i]).course_id
            < next by {
            assert(0 < rows[i + 1].course_id < next);
        }
        lemma_remove_course_wf(tail, tutor_id, course_id, next);
        if !(rows[0].tutor_id == tutor_id && rows[0].course_id == course_id) {
            let kept = remove_course(tail, tutor_id, course_id);
            let out = remove_course(rows, tutor_id, course_id);
            assert(out =~= seq![rows[0]] + kept);
            assert forall|i: int, j: int| 0 <= i < j < out.len() implies out[i].course_id
                != out[j].course_id by {
                if i == 0 {
                    lemma_remove_course_contains(tail, tutor_id, course_id, kept[j - 1]);
                    let k = choose|k: int| 0 <= k < tail.len() && tail[k] == kept[j - 1];
                    assert(rows[0].course_id != rows[k + 1].course_id);
                }
            }
            assert forall|i: int| 0 <= i < out.len() implies 0 < (#[trigger] out[i]).course_id
                < next by {
                if i > 0 {
                    lemma_remove_course_contains(tail, tutor_id, course_id, kept[i - 1]);
                    let k = choose|k: int| 0 <= k < tail.len() && tail[k] == kept[i - 1];
                    assert(0 < rows[k + 1].course_id < next);
                }
            }
        }
    }
}

/// An update that supplies no field is a structural no-op: it loses no data,
/// and when every optional field of the current row is populated the row
/// comes back unchanged, field for field. (A row with an absent optional
/// field instead gets it stored as the empty string, or zero for the price —
/// the merge's inherited quirk.)
pub proof fn lemma_empty_update_keeps_row(t: Course, current: Course, update: UpdateCourse)
    requires
        is_merged_course(t, current, update),
        update.course_name is None,
        update.course_description is None,
        update.course_format is None,
        update.course_structure is None,
        update.course_duration is None,
        update.course_price is None,
        update.course_language is None,
        update.course_level is None,
        current.course_description is Some,
        current.course_format is Some,
        current.course_structure is Some,
        current.course_duration is Some,
        current.course_price is Some,
        current.course_language is Some,
        current.course_level is Some,
    ensures
        t.course_id == current.course_id,
        t.tutor_id == current.tutor_id,
        t.course_name@ == current.course_name@,
        opt_view(t.course_description) == opt_view(current.course_description),
        opt_view(t.course_format) == opt_view(current.course_format),
        opt_view(t.course_structure) == opt_view(current.course_structure),
        opt_view(t.course_duration) == opt_view(current.course_duration),
        opt_view(t.course_language) == opt_view(current.course_language),
        opt_view(t.course_level) == opt_view(current.course_level),
        t.course_price == current.course_price,
        t.posted_time == current.posted_time,
{
}

/// An update that supplies only the name changes only the name: every other
/// field keeps its prior value (populated fields keep it exactly; an absent
/// optional field is stored as empty string or zero, the merge's quirk).
pub proof fn lemma_name_only_update_retains_fields(t: Course, current: Course, update: UpdateCourse)
    requires
        is_merged_course(t, current, update),
        update.course_name is Some,
        update.course_description is None,
        update.course_format is None,
        update.course_structure is None,
        update.course_duration is None,
        update.course_price is None,
        update.course_language is None,
        update.course_level is None,
        current.course_description is Some,
        current.course_format is Some,
        current.course_structure is Some,
        current.course_duration is Some,
        current.course_price is Some,
        current.course_language is Some,
        current.course_level is Some,
    ensures
        t.course_name@ == update.course_name->0@,
        t.course_id == current.course_id,
        t.tutor_id == current.tutor_id,
        opt_view(t.course_description) == opt_view(current.course_description),
        opt_view(t.course_format) == opt_view(current.course_format),
        opt_view(t.course_structure) == opt_view(current.course_structure),
        opt_view(t.course_duration) == opt_view(current.course_duration),
        opt_view(t.course_language) == opt_view(current.course_language),
        opt_view(t.course_level) == opt_view(current.course_level),
        t.course_price == current.course_price,
        t.posted_time == current.posted_time,
{
}

/// Deleting the same key twice changes nothing the second time: every
/// matching row went with the first delete, and the second reports zero
/// affected rows as a success.
pub proof fn lemma_delete_course_twice(rows: Seq<Course>, tutor_id: i32, course_id: i32)
    ensures
        remove_course(remove_course(rows, tutor_id, course_id), tutor_id, course_id)
            == remove_course(rows, tutor_id, course_id),
    decreases rows.len(),
{
    if rows.len() > 0 {
        lemma_delete_course_twice(rows.skip(1), tutor_id, course_id);
        if !(rows[0].tutor_id == tutor_id && rows[0].course_id == course_id) {
            let kept = remove_course(rows.skip(1), tutor_id, course_id);
            assert((seq![rows[0]] + kept).skip(1) =~= kept);
            assert(remove_course(seq![rows[0]] + kept, tutor_id, course_id) =~= seq![rows[0]]
                + remove_course(kept, tutor_id, course_id));
        }
    }
}

} // verus!
