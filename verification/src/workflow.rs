//! The remove and select workflows, once the operator's choice is in hand.
//! The caller lists the identities, shows their display lines, asks the
//! operator to pick one (or none), and hands the choice here; the decision
//! and the store mutation are made in one verified step. For selection the
//! chosen identity is handed back so the caller can push its name and email
//! into the external tool's global configuration.

use vstd::prelude::*;
use vstd::string::StringExecFns;

use crate::model::{remove_id, select_effect};
use crate::store::{Store, StoreError, User};

verus! {

/// What the remove workflow decided and did.
#[derive(Debug, PartialEq)]
pub enum RemoveOutcome {
    /// The store holds nothing to remove.
    NoUsers,
    /// The operator declined to choose; nothing was touched.
    Cancelled,
    /// The chosen identity's row was deleted.
    Removed(User),
}

impl RemoveOutcome {
    /// The message the operator is shown for this outcome.
    pub fn message(&self) -> (r: String)
        ensures
            *self is NoUsers ==> r@ == "No user to remove"@,
            *self is Cancelled ==> r@ == "No user selected. Aborting removal."@,
            *self is Removed ==> r@ == "User '"@ + self->Removed_0.name@ + "' removed."@,
    {
        match self {
            RemoveOutcome::NoUsers => String::from_str("No user to remove"),
            RemoveOutcome::Cancelled => String::from_str("No user selected. Aborting removal."),
            RemoveOutcome::Removed(u) => String::from_str("User '").concat(u.name.as_str()).concat(
                "' removed.",
            ),
        }
    }
}

/// What the select workflow decided and did.
#[derive(Debug, PartialEq)]
pub enum SelectOutcome {
    /// The store holds nothing to select.
    NoUsers,
    /// The operator declined to choose; nothing was touched.
    Cancelled,
    /// The chosen identity's row was marked selected; its name and email
    /// are handed back for the external tool's global configuration.
    Selected(User),
}

impl SelectOutcome {
    /// The message the operator is shown for this outcome.
    pub fn message(&self) -> (r: String)
        ensures
            *self is NoUsers ==> r@ == "No users to select."@,
            *self is Cancelled ==> r@ == "No user selected. Aborting selection."@,
            *self is Selected ==> r@ == "Selected user for git config: "@
                + self->Selected_0.name@,
    {
        match self {
            SelectOutcome::NoUsers => String::from_str("No users to select."),
            SelectOutcome::Cancelled => String::from_str("No user selected. Aborting selection."),
            SelectOutcome::Selected(u) => String::from_str("Selected user for git config: ").concat(
                u.name.as_str(),
            ),
        }
    }
}

/// Runs the remove workflow: an empty listing or a declined prompt touches
/// nothing and always succeeds; a chosen index deletes that identity's row.
/// Removing an id that is already gone would equally leave the store as it
/// is, and a failed deletion leaves it untouched too.
pub fn remove_step(store: &mut Store, users: &Vec<User>, choice: Option<usize>) -> (r: Result<
    RemoveOutcome,
    StoreError,
>)
    requires
        choice is Some ==> choice->0 < users@.len(),
    ensures
        users@.len() == 0 ==> r is Ok && final(store).rows() == old(store).rows() && r->Ok_0
            == RemoveOutcome::NoUsers,
        users@.len() > 0 && choice is None ==> r is Ok && final(store).rows() == old(store).rows()
            && r->Ok_0 == RemoveOutcome::Cancelled,
        r is Ok && users@.len() > 0 && choice is Some ==> final(store).rows() == remove_id(
            old(store).rows(),
            users@[choice->0 as int].id as int,
        ) && r->Ok_0 == RemoveOutcome::Removed(users@[choice->0 as int]),
        r is Err ==> final(store).rows() == old(store).rows(),
{
    if users.len() == 0 {
        return Ok(RemoveOutcome::NoUsers);
    }
    match choice {
        None => Ok(RemoveOutcome::Cancelled),
        Some(i) => {
            let chosen = users[i].clone();
            match store.remove_user(chosen.id) {
                Ok(()) => Ok(RemoveOutcome::Removed(chosen)),
                Err(e) => Err(e),
            }
        },
    }
}

/// Runs the select workflow: an empty listing or a declined prompt touches
/// nothing and always succeeds; a chosen index marks that identity's row
/// selected — without clearing any other row's flag — and hands the
/// identity back for the external configuration writes; a failed update
/// leaves the store untouched.
pub fn select_step(store: &mut Store, users: &Vec<User>, choice: Option<usize>) -> (r: Result<
    SelectOutcome,
    StoreError,
>)
    requires
        choice is Some ==> choice->0 < users@.len(),
    ensures
        users@.len() == 0 ==> r is Ok && final(store).rows() == old(store).rows() && r->Ok_0
            == SelectOutcome::NoUsers,
        users@.len() > 0 && choice is None ==> r is Ok && final(store).rows() == old(store).rows()
            && r->Ok_0 == SelectOutcome::Cancelled,
        r is Ok && users@.len() > 0 && choice is Some ==> select_effect(
            old(store).rows(),
            final(store).rows(),
            users@[choice->0 as int].id as int,
        ) && r->Ok_0 == SelectOutcome::Selected(users@[choice->0 as int]),
        r is Err ==> final(store).rows() == old(store).rows(),
{
    if users.len() == 0 {
        return Ok(SelectOutcome::NoUsers);
    }
    match choice {
        None => Ok(SelectOutcome::Cancelled),
        Some(i) => {
            let chosen = users[i].clone();
            match store.select_user(chosen.id) {
                Ok(()) => Ok(SelectOutcome::Selected(chosen)),
                Err(e) => Err(e),
            }
        },
    }
}

} // verus!
