//! Mathematical model of the identity store: a sequence of rows, in storage
//! order, together with the effect each store operation has on it.

use vstd::prelude::*;

verus! {

/// One stored identity row, as mathematics: an assigned id, a name, an
/// email, and the selected flag.
pub ghost struct RowModel {
    pub id: int,
    pub name: Seq<char>,
    pub email: Seq<char>,
    pub selected: bool,
}

/// Some row carries this id.
pub open spec fn has_id(rows: Seq<RowModel>, id: int) -> bool {
    exists|i: int| 0 <= i < rows.len() && #[trigger] rows[i].id == id
}

/// Some row carries this email.
pub open spec fn email_used(rows: Seq<RowModel>, email: Seq<char>) -> bool {
    exists|i: int| 0 <= i < rows.len() && #[trigger] rows[i].email == email
}

/// How many rows carry this email.
pub open spec fn email_count(rows: Seq<RowModel>, email: Seq<char>) -> nat
    decreases rows.len(),
{
    if rows.len() == 0 {
        0
    } else {
        email_count(rows.drop_last(), email) + if rows.last().email == email {
            1nat
        } else {
            0nat
        }
    }
}

/// No two rows share an email.
pub open spec fn unique_emails(rows: Seq<RowModel>) -> bool {
    forall|i: int, j: int|
        #![trigger rows[i].email, rows[j].email]
        0 <= i < rows.len() && 0 <= j < rows.len() && i != j ==> rows[i].email != rows[j].email
}

/// Two distinct rows, with distinct ids, share this email.
pub open spec fn two_rows_share_email(rows: Seq<RowModel>, email: Seq<char>) -> bool {
    exists|i: int, j: int|
        #![trigger rows[i].id, rows[j].id]
        0 <= i < rows.len() && 0 <= j < rows.len() && i != j && rows[i].id != rows[j].id
            && rows[i].email == email && rows[j].email == email
}

/// An insert appends one row, whose id the store picks fresh; the caller
/// supplies the rest.
pub open spec fn inserted_row(
    old_rows: Seq<RowModel>,
    new_rows: Seq<RowModel>,
    name: Seq<char>,
    email: Seq<char>,
    selected: bool,
) -> bool {
    exists|id: int|
        #![trigger has_id(old_rows, id)]
        !has_id(old_rows, id) && new_rows == old_rows.push(
            RowModel { id, name, email, selected },
        )
}

/// The rows left after deleting every row with this id, order kept.
pub open spec fn remove_id(rows: Seq<RowModel>, id: int) -> Seq<RowModel>
    decreases rows.len(),
{
    if rows.len() == 0 {
        Seq::empty()
    } else if rows.last().id == id {
        remove_id(rows.drop_last(), id)
    } else {
        remove_id(rows.drop_last(), id).push(rows.last())
    }
}

/// What marking this id selected does to one row: the matching row gains
/// `selected = true`, every other row is untouched.
pub open spec fn select_row(r: RowModel, id: int) -> RowModel {
    if r.id == id {
        RowModel { id: r.id, name: r.name, email: r.email, selected: true }
    } else {
        r
    }
}

/// Marking this id selected rewrites each row in place; no flag is cleared.
pub open spec fn select_effect(old_rows: Seq<RowModel>, new_rows: Seq<RowModel>, id: int) -> bool {
    &&& new_rows.len() == old_rows.len()
    &&& forall|i: int|
        0 <= i < old_rows.len() ==> #[trigger] new_rows[i] == select_row(old_rows[i], id)
}

/// The count is positive exactly when some row carries the email.
pub proof fn lemma_email_count_vs_used(rows: Seq<RowModel>, email: Seq<char>)
    ensures
        email_count(rows, email) > 0 <==> email_used(rows, email),
    decreases rows.len(),
{
    if rows.len() == 0 {
    } else {
        lemma_email_count_vs_used(rows.drop_last(), email);
        let last: int = rows.len() - 1;
        if rows.last().email == email {
            assert(rows[last].email == email);
            assert(email_used(rows, email));
        }
        if email_used(rows, email) && rows.last().email != email {
            let i = choose|i: int| 0 <= i < rows.len() && #[trigger] rows[i].email == email;
            assert(rows.drop_last()[i].email == email);
            assert(email_used(rows.drop_last(), email));
        }
        if email_used(rows.drop_last(), email) {
            let i = choose|i: int|
                0 <= i < rows.drop_last().len() && #[trigger] rows.drop_last()[i].email == email;
            assert(rows[i].email == email);
        }
    }
}

/// What one reconciliation run does: if the external email is already
/// present, the store is untouched; otherwise one already-selected row with
/// the external name and email is appended.
pub open spec fn reconcile_effect(
    old_rows: Seq<RowModel>,
    new_rows: Seq<RowModel>,
    name: Seq<char>,
    email: Seq<char>,
) -> bool {
    if email_used(old_rows, email) {
        new_rows == old_rows
    } else {
        inserted_row(old_rows, new_rows, name, email, true)
    }
}

} // verus!
