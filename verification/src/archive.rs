//! Which files of a configuration tree go into the archive, and under which
//! names.

use vstd::prelude::*;
use vstd::string::StrSliceExecFns;
use vstd::string::StringExecFns;
use crate::text::texts;

verus! {

/// Whether a file or directory name marks a hidden entry: it starts with a
/// dot.
pub open spec fn hidden(name: Seq<char>) -> bool {
    name.len() > 0 && name[0] == '.'
}

/// Tells whether a file or directory name marks a hidden entry.
pub fn is_hidden(name: &str) -> (b: bool)
    ensures
        b == hidden(name@),
{
    if name.is_empty() {
        false
    } else {
        name.get_char(0) == '.'
    }
}

/// Tells whether a traversal of the tree should yield an entry with this
/// name and, if the entry is a directory, go into it.
pub fn is_visible(name: &str) -> (b: bool)
    ensures
        b == !hidden(name@),
{
    !is_hidden(name)
}

/// An entry found below the root of the tree. `components` is the path of
/// the entry relative to the root, one name per level.
#[derive(Clone, Debug, PartialEq, Eq)]
pub struct TreeEntry {
    pub components: Vec<String>,
    pub is_file: bool,
}

/// The mathematical value of a `TreeEntry`.
pub struct TreeEntryView {
    pub components: Seq<Seq<char>>,
    pub is_file: bool,
}

impl View for TreeEntry {
    type V = TreeEntryView;

    open spec fn view(&self) -> TreeEntryView {
        TreeEntryView { components: texts(self.components@), is_file: self.is_file }
    }
}

/// The names of a path, joined by slashes.
pub open spec fn joined(components: Seq<Seq<char>>) -> Seq<char>
    decreases components.len(),
{
    if components.len() == 0 {
        Seq::empty()
    } else if components.len() == 1 {
        components[0]
    } else {
        joined(components.drop_last()) + seq!['/'] + components.last()
    }
}

impl TreeEntryView {
    /// Whether a name on the path of the entry, its own included, is hidden.
    pub open spec fn below_hidden(self) -> bool {
        exists|i: int| 0 <= i < self.components.len() && hidden(#[trigger] self.components[i])
    }

    /// Whether the entry becomes a member of the archive: it lies below the
    /// root, is a regular file, and no name on its path is hidden.
    pub open spec fn is_member(self) -> bool {
        self.components.len() >= 1 && self.is_file && !self.below_hidden()
    }

    /// The name of the entry in the archive: its path relative to the root.
    pub open spec fn member_name(self) -> Seq<char> {
        joined(self.components)
    }
}

/// The names of the archive's members for a listing of the tree: the names
/// of those entries that are members, in the order of the listing.
pub open spec fn member_names(tree: Seq<TreeEntryView>) -> Seq<Seq<char>>
    decreases tree.len(),
{
    if tree.len() == 0 {
        Seq::empty()
    } else if tree.last().is_member() {
        member_names(tree.drop_last()).push(tree.last().member_name())
    } else {
        member_names(tree.drop_last())
    }
}

/// The views of the entries of a listing.
pub open spec fn tree_view(tree: Seq<TreeEntry>) -> Seq<TreeEntryView> {
    Seq::new(tree.len(), |i: int| tree[i]@)
}

/// The archive holds a name exactly when the listing holds a member with
/// that name: hidden entries, what lies below them, and everything that is
/// not a regular file stay out, and nothing else does.
pub proof fn law_members_are_the_visible_files(tree: Seq<TreeEntryView>, name: Seq<char>)
    ensures
        member_names(tree).contains(name) <==> exists|i: int|
            0 <= i < tree.len() && (#[trigger] tree[i]).is_member() && tree[i].member_name()
                == name,
    decreases tree.len(),
{
    if tree.len() > 0 {
        let rest = tree.drop_last();
        law_members_are_the_visible_files(rest, name);
        let names = member_names(tree);
        if names.contains(name) {
            let k = choose|k: int| 0 <= k < names.len() && names[k] == name;
            if tree.last().is_member() && k == names.len() - 1 {
                assert(tree[tree.len() - 1].is_member());
            } else {
                assert(member_names(rest)[k] == name);
                assert(member_names(rest).contains(name));
                let i = choose|i: int|
                    0 <= i < rest.len() && (#[trigger] rest[i]).is_member() && rest[i].member_name()
                        == name;
                assert(tree[i] == rest[i]);
            }
        }
        if exists|i: int|
            0 <= i < tree.len() && (#[trigger] tree[i]).is_member() && tree[i].member_name()
                == name {
            let i = choose|i: int|
                0 <= i < tree.len() && (#[trigger] tree[i]).is_member() && tree[i].member_name()
                    == name;
            if i == tree.len() - 1 {
                assert(names.last() == name);
            } else {
                assert(rest[i] == tree[i]);
                assert(member_names(rest).contains(name));
                let k = choose|k: int|
                    0 <= k < member_names(rest).len() && member_names(rest)[k] == name;
                assert(names[k] == name);
            }
        }
    }
}

impl TreeEntry {
    /// Tells whether a name on the path of the entry is hidden.
    pub fn is_below_hidden(&self) -> (b: bool)
        ensures
            b == self@.below_hidden(),
    {
        let mut i: usize = 0;
        while i < self.components.len()
            invariant
                i <= self.components@.len(),
                forall|j: int| 0 <= j < i ==> !hidden(#[trigger] self@.components[j]),
            decreases self.components@.len() - i,
        {
            if is_hidden(self.components[i].as_str()) {
                assert(hidden(self@.components[i as int]));
                return true;
            }
            i += 1;
        }
        false
    }

    /// Tells whether the entry becomes a member of the archive.
    pub fn is_member(&self) -> (b: bool)
        ensures
            b == self@.is_member(),
    {
        self.components.len() >= 1 && self.is_file && !self.is_below_hidden()
    }

    /// Renders the name of the entry in the archive.
    pub fn member_name(&self) -> (name: String)
        ensures
            name@ == self@.member_name(),
    {
        let mut name = String::new();
        let mut i: usize = 0;
        while i < self.components.len()
            invariant
                i <= self.components@.len(),
                name@ == joined(self@.components.subrange(0, i as int)),
            decreases self.components@.len() - i,
        {
            if i > 0 {
                proof {
                    reveal_strlit("/");
                }
                name.append("/");
            }
            name.append(self.components[i].as_str());
            proof {
                let upto = self@.components.subrange(0, i + 1);
                assert(upto.drop_last() =~= self@.components.subrange(0, i as int));
                assert(upto.last() == self@.components[i as int]);
                if i > 0 {
                    assert("/"@ =~= seq!['/']);
                } else {
                    assert(name@ =~= upto[0]);
                }
            }
            i += 1;
        }
        assert(self@.components.subrange(0, i as int) =~= self@.components);
        name
    }
}

/// Lists the names of the archive's members for a listing of the tree.
pub fn select_members(tree: &[TreeEntry]) -> (names: Vec<String>)
    ensures
        texts(names@) == member_names(tree_view(tree@)),
{
    let mut names: Vec<String> = Vec::new();
    let mut i: usize = 0;
    while i < tree.len()
        invariant
            i <= tree@.len(),
            texts(names@) == member_names(tree_view(tree@).subrange(0, i as int)),
        decreases tree@.len() - i,
    {
        let ghost before = names@;
        if tree[i].is_member() {
            names.push(tree[i].member_name());
        }
        proof {
            let upto = tree_view(tree@).subrange(0, i + 1);
            assert(upto.drop_last() =~= tree_view(tree@).subrange(0, i as int));
            assert(upto.last() == tree@[i as int]@);
            if tree@[i as int]@.is_member() {
                assert(texts(names@) =~= texts(before).push(tree@[i as int]@.member_name()));
            }
        }
        i += 1;
    }
    assert(tree_view(tree@).subrange(0, i as int) =~= tree_view(tree@));
    names
}

} // verus!
