//! Model of the backing store's user table under concurrent first logins.
//!
//! The store owns the user rows; the process only reads and inserts them.
//! The one guarantee the resolver's correctness leans on is the store's
//! uniqueness constraint on the subject: an insert of an already-present
//! subject is rejected rather than applied, and the resolver answers that
//! rejection by retrying its lookup instead of inserting again. This module
//! states that contract as an insert-if-absent operation on the table and
//! proves that, whatever order concurrent first logins' inserts land in, at
//! most one row per subject ever exists.

use vstd::prelude::*;

use crate::ids::UserIdView;

verus! {

/// One row of the user table, reduced to what uniqueness speaks of: the
/// subject and the row's identifier.
#[verifier::ext_equal]
pub struct RowV {
    pub subject: Seq<char>,
    pub id: UserIdView,
}

/// No two rows share a subject.
pub open spec fn subjects_unique(rows: Seq<RowV>) -> bool {
    forall|i: int, j: int|
        0 <= i < rows.len() && 0 <= j < rows.len() && rows[i].subject == rows[j].subject ==> i == j
}

/// Some row carries this subject.
pub open spec fn has_subject(rows: Seq<RowV>, s: Seq<char>) -> bool {
    exists|i: int| 0 <= i < rows.len() && rows[i].subject == s
}

/// The store's insert under its uniqueness constraint: the row is appended
/// only when its subject is absent; otherwise the table is unchanged and
/// the insert was rejected.
pub open spec fn create_if_absent(rows: Seq<RowV>, r: RowV) -> Seq<RowV> {
    if has_subject(rows, r.subject) {
        rows
    } else {
        rows.push(r)
    }
}

/// The table after a sequence of such inserts, in the order they landed.
pub open spec fn apply_creates(rows: Seq<RowV>, reqs: Seq<RowV>) -> Seq<RowV>
    decreases reqs.len(),
{
    if reqs.len() == 0 {
        rows
    } else {
        apply_creates(create_if_absent(rows, reqs[0]), reqs.drop_first())
    }
}

/// How many rows carry this subject.
pub open spec fn count_subject(rows: Seq<RowV>, s: Seq<char>) -> nat
    decreases rows.len(),
{
    if rows.len() == 0 {
        0
    } else {
        (if rows[0].subject == s {
            1nat
        } else {
            0nat
        }) + count_subject(rows.drop_first(), s)
    }
}

/// A table without the subject counts it zero times.
proof fn lemma_count_absent(rows: Seq<RowV>, s: Seq<char>)
    requires
        !has_subject(rows, s),
    ensures
        count_subject(rows, s) == 0,
    decreases rows.len(),
{
    if rows.len() > 0 {
        let t = rows.drop_first();
        assert forall|i: int| 0 <= i < t.len() implies t[i].subject != s by {
            assert(t[i] == rows[i + 1]);
        }
        lemma_count_absent(t, s);
    }
}

/// In a table with unique subjects, no subject is counted twice.
pub proof fn lemma_unique_at_most_one(rows: Seq<RowV>, s: Seq<char>)
    requires
        subjects_unique(rows),
    ensures
        count_subject(rows, s) <= 1,
    decreases rows.len(),
{
    if rows.len() > 0 {
        let t = rows.drop_first();
        assert forall|i: int, j: int|
            0 <= i < t.len() && 0 <= j < t.len() && t[i].subject == t[j].subject implies i == j by {
            assert(t[i] == rows[i + 1]);
            assert(t[j] == rows[j + 1]);
        }
        if rows[0].subject == s {
            assert forall|i: int| 0 <= i < t.len() implies t[i].subject != s by {
                assert(t[i] == rows[i + 1]);
            }
            lemma_count_absent(t, s);
        } else {
            lemma_unique_at_most_one(t, s);
        }
    }
}

/// One insert under the uniqueness constraint keeps subjects unique.
pub proof fn lemma_create_preserves_unique(rows: Seq<RowV>, r: RowV)
    requires
        subjects_unique(rows),
    ensures
        subjects_unique(create_if_absent(rows, r)),
{
    if !has_subject(rows, r.subject) {
        let out = rows.push(r);
        assert forall|i: int, j: int|
            0 <= i < out.len() && 0 <= j < out.len() && out[i].subject == out[j].subject implies i
            == j by {
            if i < rows.len() && j < rows.len() {
            } else if i == rows.len() && j < rows.len() {
                assert(out[j] == rows[j]);
            } else if j == rows.len() && i < rows.len() {
                assert(out[i] == rows[i]);
            }
        }
    }
}

/// Concurrent first-time logins create at most one row per subject: from a
/// table with unique subjects, any interleaving of inserts that each go
/// through the store's insert-if-absent keeps subjects unique, so no
/// subject ends up with more than one row.
pub proof fn lemma_first_logins_single_row(rows: Seq<RowV>, reqs: Seq<RowV>, s: Seq<char>)
    ensures
        subjects_unique(rows) ==> subjects_unique(apply_creates(rows, reqs)),
        subjects_unique(rows) ==> count_subject(apply_creates(rows, reqs), s) <= 1,
    decreases reqs.len(),
{
    if subjects_unique(rows) {
        if reqs.len() == 0 {
            lemma_unique_at_most_one(rows, s);
        } else {
            lemma_create_preserves_unique(rows, reqs[0]);
            lemma_first_logins_single_row(create_if_absent(rows, reqs[0]), reqs.drop_first(), s);
        }
    }
}

/// Inserts never remove or change existing rows: the table after a
/// sequence of inserts still begins with every row it began with.
pub proof fn lemma_creates_keep_rows(rows: Seq<RowV>, reqs: Seq<RowV>)
    ensures
        apply_creates(rows, reqs).len() >= rows.len(),
        forall|i: int| 0 <= i < rows.len() ==> apply_creates(rows, reqs)[i] == rows[i],
    decreases reqs.len(),
{
    if reqs.len() > 0 {
        let next = create_if_absent(rows, reqs[0]);
        lemma_creates_keep_rows(next, reqs.drop_first());
    }
}

} // verus!
