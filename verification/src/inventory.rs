//! The host inventory and the choice of the hosts a run deploys to.

use vstd::prelude::*;
use crate::error::{DeployError, DeployErrorView};
use crate::host::Host;
use crate::text::texts;

verus! {

/// An entry of the host inventory: a host under the name it is asked for by.
#[derive(Clone, Debug, PartialEq, Eq)]
pub struct NamedHost {
    pub name: String,
    pub host: Host,
}

/// The names of the entries of an inventory, in its order.
pub open spec fn names_of(inventory: Seq<NamedHost>) -> Seq<Seq<char>> {
    Seq::new(inventory.len(), |i: int| inventory[i].name@)
}

/// Whether `position` is the first place in a list of names at which the
/// given name stands.
pub open spec fn is_first_position(names: Seq<Seq<char>>, name: Seq<char>, position: int) -> bool {
    &&& 0 <= position < names.len()
    &&& names[position] == name
    &&& forall|j: int| 0 <= j < position ==> names[j] != name
}

/// The first of the wanted names that a list of names lacks, if any.
pub open spec fn first_missing(names: Seq<Seq<char>>, wanted: Seq<Seq<char>>) -> Option<int>
    decreases wanted.len(),
{
    if wanted.len() == 0 {
        None
    } else {
        match first_missing(names, wanted.drop_last()) {
            Some(k) => Some(k),
            None => if names.contains(wanted.last()) {
                None
            } else {
                Some(wanted.len() - 1)
            },
        }
    }
}

/// `first_missing` names a wanted name that is absent, with every wanted
/// name before it present; it is `None` exactly when every wanted name is
/// present.
pub proof fn lemma_first_missing(names: Seq<Seq<char>>, wanted: Seq<Seq<char>>)
    ensures
        match first_missing(names, wanted) {
            Some(k) => 0 <= k < wanted.len() && !names.contains(wanted[k]) && forall|j: int|
                0 <= j < k ==> names.contains(#[trigger] wanted[j]),
            None => forall|j: int| 0 <= j < wanted.len() ==> names.contains(#[trigger] wanted[j]),
        },
    decreases wanted.len(),
{
    if wanted.len() > 0 {
        let front = wanted.drop_last();
        lemma_first_missing(names, front);
        match first_missing(names, front) {
            Some(k) => {
                assert(front[k] == wanted[k]);
                assert forall|j: int| 0 <= j < k implies names.contains(#[trigger] wanted[j]) by {
                    assert(front[j] == wanted[j]);
                }
            },
            None => {
                assert forall|j: int| 0 <= j < wanted.len() - 1 implies names.contains(
                    #[trigger] wanted[j],
                ) by {
                    assert(front[j] == wanted[j]);
                }
            },
        }
    }
}

/// Finds the entry with the given name: the position of the first such
/// entry, or `None` when the inventory holds none.
pub fn find_host(inventory: &[NamedHost], name: &String) -> (position: Option<usize>)
    ensures
        match position {
            Some(p) => is_first_position(names_of(inventory@), name@, p as int),
            None => !names_of(inventory@).contains(name@),
        },
{
    let ghost names = names_of(inventory@);
    let mut i: usize = 0;
    while i < inventory.len()
        invariant
            i <= inventory@.len(),
            names == names_of(inventory@),
            forall|j: int| 0 <= j < i ==> names[j] != name@,
        decreases inventory@.len() - i,
    {
        if inventory[i].name == *name {
            assert(names[i as int] == name@);
            return Some(i);
        }
        i += 1;
    }
    proof {
        if names.contains(name@) {
            let j = choose|j: int| 0 <= j < names.len() && names[j] == name@;
            assert(names[j] != name@);
        }
    }
    None
}

/// Settles which hosts a run deploys to, as positions in the inventory.
/// - With `all`, these are all entries, in the inventory's order.
/// - Otherwise they are the entries with the requested names, in the order
///   of the request; a requested name that the inventory lacks fails the run
///   with `UnknownHost`, which carries the first such name.
pub fn select_targets(all: bool, requested: &[String], inventory: &[NamedHost]) -> (res: Result<
    Vec<usize>,
    DeployError,
>)
    ensures
        all ==> res is Ok && res->Ok_0@.len() == inventory@.len() && forall|i: int|
            0 <= i < inventory@.len() ==> res->Ok_0@[i] == i,
        !all ==> match first_missing(names_of(inventory@), texts(requested@)) {
            Some(k) => res is Err && res->Err_0@ == (DeployErrorView::UnknownHost {
                name: requested@[k]@,
            }),
            None => res is Ok && res->Ok_0@.len() == requested@.len() && forall|i: int|
                0 <= i < requested@.len() ==> is_first_position(
                    names_of(inventory@),
                    #[trigger] requested@[i]@,
                    res->Ok_0@[i] as int,
                ),
        },
{
    let mut targets: Vec<usize> = Vec::new();
    if all {
        let mut i: usize = 0;
        while i < inventory.len()
            invariant
                i <= inventory@.len(),
                targets@.len() == i,
                forall|j: int| 0 <= j < i ==> targets@[j] == j,
            decreases inventory@.len() - i,
        {
            targets.push(i);
            i += 1;
        }
        return Ok(targets);
    }
    let ghost names = names_of(inventory@);
    let ghost wanted = texts(requested@);
    let mut i: usize = 0;
    while i < requested.len()
        invariant
            i <= requested@.len(),
            names == names_of(inventory@),
            wanted == texts(requested@),
            targets@.len() == i,
            !all,
            first_missing(names, wanted.subrange(0, i as int)) is None,
            forall|j: int|
                0 <= j < i ==> is_first_position(names, #[trigger] requested@[j]@, targets@[j] as int),
        decreases requested@.len() - i,
    {
        proof {
            assert(wanted.subrange(0, i + 1).drop_last() =~= wanted.subrange(0, i as int));
            assert(wanted.subrange(0, i + 1).last() == wanted[i as int]);
        }
        match find_host(inventory, &requested[i]) {
            Some(position) => {
                targets.push(position);
            },
            None => {
                proof {
                    assert(first_missing(names, wanted.subrange(0, i + 1)) == Some(i as int));
                    lemma_first_missing_of_prefix(names, wanted, i + 1);
                }
                return Err(DeployError::UnknownHost { name: requested[i].clone() });
            },
        }
        i += 1;
    }
    proof {
        assert(wanted.subrange(0, i as int) =~= wanted);
    }
    Ok(targets)
}

/// A name that is the first missing one of a prefix of the wanted names is
/// the first missing one of all of them.
pub proof fn lemma_first_missing_of_prefix(names: Seq<Seq<char>>, wanted: Seq<Seq<char>>, n: int)
    requires
        0 <= n <= wanted.len(),
        first_missing(names, wanted.subrange(0, n)) is Some,
    ensures
        first_missing(names, wanted) == first_missing(names, wanted.subrange(0, n)),
    decreases wanted.len() - n,
{
    if n < wanted.len() {
        assert(wanted.subrange(0, n + 1).drop_last() =~= wanted.subrange(0, n));
        lemma_first_missing_of_prefix(names, wanted, n + 1);
    } else {
        assert(wanted.subrange(0, n) =~= wanted);
    }
}

} // verus!
