//! Display formatting for identity listings: each line shows the name,
//! left-padded with spaces to the longest name's width, then " - " and the
//! email. The same lines serve the list, remove and select workflows.

use vstd::prelude::*;
use vstd::string::{StrSliceExecFns, StringExecFns};

use crate::store::User;

verus! {

/// `n` spaces.
pub open spec fn spaces(n: nat) -> Seq<char> {
    Seq::new(n, |i: int| ' ')
}

/// The name, padded on the right with spaces up to `width` where it is
/// shorter; a name at or over the width stands as it is.
pub open spec fn padded_name(name: Seq<char>, width: nat) -> Seq<char> {
    if name.len() >= width {
        name
    } else {
        name + spaces((width - name.len()) as nat)
    }
}

/// One display line: the padded name, the separator " - ", and the email.
pub open spec fn user_line(name: Seq<char>, email: Seq<char>, width: nat) -> Seq<char> {
    padded_name(name, width) + seq![' ', '-', ' '] + email
}

/// The length of the longest name in the list; zero for an empty list.
pub open spec fn max_name_width(users: Seq<User>) -> nat
    decreases users.len(),
{
    if users.len() == 0 {
        0
    } else {
        let rest = max_name_width(users.drop_last());
        let last = users.last().name@.len();
        if last > rest {
            last
        } else {
            rest
        }
    }
}

/// The length of the longest name in the list.
pub fn max_name_len(users: &Vec<User>) -> (r: usize)
    ensures
        r as nat == max_name_width(users@),
{
    let mut m: usize = 0;
    let mut i: usize = 0;
    while i < users.len()
        invariant
            i <= users@.len(),
            m as nat == max_name_width(users@.take(i as int)),
        decreases users@.len() - i,
    {
        let l = users[i].name.as_str().unicode_len();
        proof {
            assert(users@.take(i as int + 1).drop_last() =~= users@.take(i as int));
            assert(users@.take(i as int + 1).last() == users@[i as int]);
        }
        if l > m {
            m = l;
        }
        i += 1;
    }
    proof {
        assert(users@.take(users@.len() as int) =~= users@);
    }
    m
}

/// Builds one aligned display line for a name and email.
pub fn format_user_line(name: &String, email: &String, width: usize) -> (r: String)
    ensures
        r@ == user_line(name@, email@, width as nat),
{
    let mut r = name.clone();
    let len = name.as_str().unicode_len();
    proof {
        assert(r@ =~= name@ + spaces(0));
    }
    let mut i: usize = len;
    while i < width
        invariant
            len as nat == name@.len(),
            i >= len,
            i <= width || i == len,
            r@ == name@ + spaces((i - len) as nat),
        decreases width - i,
    {
        r.append(" ");
        proof {
            reveal_strlit(" ");
            assert(" "@ =~= spaces(1));
            assert(name@ + spaces((i - len) as nat) + " "@ =~= name@ + spaces(
                (i + 1 - len) as nat,
            ));
        }
        i += 1;
    }
    r.append(" - ");
    r.append(email.as_str());
    proof {
        reveal_strlit(" - ");
        assert(" - "@ =~= seq![' ', '-', ' ']);
        if name@.len() >= width as nat {
            assert(name@ + spaces(0) =~= name@);
        }
        assert(r@ =~= user_line(name@, email@, width as nat));
    }
    r
}

/// Builds the aligned display line of every listed identity, in order.
pub fn format_user_list(users: &Vec<User>) -> (r: Vec<String>)
    ensures
        r@.len() == users@.len(),
        forall|i: int|
            0 <= i < users@.len() ==> #[trigger] r@[i]@ == user_line(
                users@[i].name@,
                users@[i].email@,
                max_name_width(users@),
            ),
{
    let width = max_name_len(users);
    let mut out: Vec<String> = Vec::new();
    let mut i: usize = 0;
    while i < users.len()
        invariant
            i <= users@.len(),
            out@.len() == i,
            width as nat == max_name_width(users@),
            forall|j: int|
                0 <= j < i ==> #[trigger] out@[j]@ == user_line(
                    users@[j].name@,
                    users@[j].email@,
                    max_name_width(users@),
                ),
        decreases users@.len() - i,
    {
        let line = format_user_line(&users[i].name, &users[i].email, width);
        out.push(line);
        i += 1;
    }
    out
}

} // verus!
