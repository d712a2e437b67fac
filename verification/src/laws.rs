//! The store's governing laws, proved over the row model that every
//! operation's contract speaks of.

use vstd::prelude::*;

use crate::model::{
    email_count, email_used, has_id, inserted_row, reconcile_effect, remove_id, select_effect,
    select_row, two_rows_share_email, unique_emails, RowModel,
};

verus! {

/// Law: reconciliation never creates a duplicate email. A store whose
/// emails are unique keeps them unique across a reconciliation run,
/// whatever external identity it sees, since a row is inserted only after
/// the email is found unused; so any sequence of runs keeps them unique.
pub proof fn lemma_reconcile_preserves_unique_emails(
    r0: Seq<RowModel>,
    r1: Seq<RowModel>,
    name: Seq<char>,
    email: Seq<char>,
)
    requires
        unique_emails(r0),
        reconcile_effect(r0, r1, name, email),
    ensures
        unique_emails(r1),
{
    if !email_used(r0, email) {
        let id = choose|id: int|
            #![trigger has_id(r0, id)]
            !has_id(r0, id) && r1 == r0.push(RowModel { id, name, email, selected: true });
        assert(r1 == r0.push(RowModel { id, name, email, selected: true }));
        assert forall|i: int, j: int|
            0 <= i < r1.len() && 0 <= j < r1.len() && i != j implies r1[i].email
            != r1[j].email by {
            if i < r0.len() && j < r0.len() {
                assert(r1[i] == r0[i] && r1[j] == r0[j]);
            } else if j == r0.len() {
                assert(r1[i] == r0[i]);
                if r0[i].email == email {
                    assert(email_used(r0, email));
                }
            } else {
                assert(r1[j] == r0[j]);
                if r0[j].email == email {
                    assert(email_used(r0, email));
                }
            }
        }
    }
}

/// Law: the explicit add bypasses uniqueness. Two adds with the same email
/// both succeed and leave two distinct rows, under distinct ids, sharing
/// that email: the duplicate state is reachable on this path.
pub proof fn lemma_add_duplicate_email(
    r0: Seq<RowModel>,
    r1: Seq<RowModel>,
    r2: Seq<RowModel>,
    name1: Seq<char>,
    name2: Seq<char>,
    email: Seq<char>,
)
    requires
        inserted_row(r0, r1, name1, email, false),
        inserted_row(r1, r2, name2, email, false),
    ensures
        two_rows_share_email(r2, email),
{
    let id1 = choose|id: int|
        #![trigger has_id(r0, id)]
        !has_id(r0, id) && r1 == r0.push(RowModel { id, name: name1, email, selected: false });
    let id2 = choose|id: int|
        #![trigger has_id(r1, id)]
        !has_id(r1, id) && r2 == r1.push(RowModel { id, name: name2, email, selected: false });
    let i = r0.len() as int;
    let j = r1.len() as int;
    assert(r1[i].id == id1 && r1[i].email == email);
    assert(has_id(r1, id1));
    assert(r2[i] == r1[i]);
    assert(r2[j].id == id2 && r2[j].email == email);
    assert(two_rows_share_email(r2, email));
}

/// Law: the selected flag is monotonic-additive. Selecting one id keeps
/// every flag that was already set, sets the flag on each row carrying the
/// chosen id, and touches nothing else of any row; no flag is ever
/// auto-cleared. So after selecting B while A was selected, both report
/// the flag set.
pub proof fn lemma_select_keeps_prior_selection(r0: Seq<RowModel>, r1: Seq<RowModel>, id: int)
    requires
        select_effect(r0, r1, id),
    ensures
        forall|i: int| 0 <= i < r0.len() && r0[i].selected ==> #[trigger] r1[i].selected,
        forall|i: int| 0 <= i < r1.len() && r1[i].id == id ==> #[trigger] r1[i].selected,
        forall|i: int|
            0 <= i < r0.len() ==> (#[trigger] r1[i]).id == r0[i].id && r1[i].name == r0[i].name
                && r1[i].email == r0[i].email,
{
    assert forall|i: int| 0 <= i < r0.len() implies #[trigger] r1[i] == select_row(r0[i], id) by {}
}

/// Law: remove is idempotent. Deleting an id that no row carries leaves
/// the store exactly as it was, without an error.
pub proof fn lemma_remove_missing_id_is_noop(rows: Seq<RowModel>, id: int)
    requires
        !has_id(rows, id),
    ensures
        remove_id(rows, id) == rows,
    decreases rows.len(),
{
    if rows.len() == 0 {
        assert(remove_id(rows, id) =~= rows);
    } else {
        assert(rows[rows.len() - 1].id != id);
        assert forall|i: int| 0 <= i < rows.drop_last().len() implies (#[trigger] rows.drop_last()[i]).id
            != id by {
            assert(rows.drop_last()[i] == rows[i]);
        }
        assert(!has_id(rows.drop_last(), id));
        lemma_remove_missing_id_is_noop(rows.drop_last(), id);
        assert(rows.drop_last().push(rows.last()) =~= rows);
    }
}

/// Law: reconciliation is idempotent. A second run with the same external
/// identity finds the email in use and leaves the store untouched, so two
/// runs together insert at most one row for that email.
pub proof fn lemma_reconcile_idempotent(
    r0: Seq<RowModel>,
    r1: Seq<RowModel>,
    r2: Seq<RowModel>,
    name: Seq<char>,
    email: Seq<char>,
)
    requires
        reconcile_effect(r0, r1, name, email),
        reconcile_effect(r1, r2, name, email),
    ensures
        r2 == r1,
        email_count(r2, email) <= email_count(r0, email) + 1,
{
    if email_used(r0, email) {
        assert(r1 == r0);
    } else {
        let id = choose|id: int|
            #![trigger has_id(r0, id)]
            !has_id(r0, id) && r1 == r0.push(RowModel { id, name, email, selected: true });
        assert(r1[r0.len() as int].email == email);
        assert(email_used(r1, email));
        assert(r1.drop_last() =~= r0);
        assert(r1.last() == RowModel { id, name, email, selected: true });
        assert(email_count(r1, email) == email_count(r0, email) + 1);
    }
    assert(email_used(r1, email));
    assert(r2 == r1);
}

} // verus!
