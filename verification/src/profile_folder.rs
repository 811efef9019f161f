//! The loaded profile tree: a folder is either a single profile or a
//! named group of sub-folders. The tree is built by the (unverified)
//! directory loader; here live the verified queries over it — counting,
//! flattening, and name lookup in depth-first order.

use vstd::prelude::*;

use crate::profile::{Profile, ProfileV};

verus! {

broadcast use vstd::std_specs::vec::group_vec_axioms;

/// A group containing multiple profiles and/or subgroups.
#[derive(Debug)]
pub struct ProfileGroup {
    pub display_name: String,
    pub content: Vec<ProfileFolder>,
}

/// A node of the loaded profile tree.
#[derive(Debug)]
pub enum ProfileFolder {
    Profile(Profile),
    Group(ProfileGroup),
}

/// All profiles nested under `f`, flattened in depth-first order.
pub open spec fn flat_profiles(f: ProfileFolder) -> Seq<ProfileV>
    decreases f,
{
    match f {
        ProfileFolder::Profile(p) => seq![p@],
        ProfileFolder::Group(g) => flat_profiles_list(g.content@),
    }
}

/// All profiles nested under the folders of `s`, flattened in order.
pub open spec fn flat_profiles_list(s: Seq<ProfileFolder>) -> Seq<ProfileV>
    decreases s,
{
    if s.len() == 0 {
        Seq::empty()
    } else {
        flat_profiles_list(s.drop_last()) + flat_profiles(s.last())
    }
}

/// The first profile under `f`, in depth-first order, whose display name
/// is `name`.
pub open spec fn lookup_in(f: ProfileFolder, name: Seq<char>) -> Option<ProfileV>
    decreases f,
{
    match f {
        ProfileFolder::Profile(p) => if p@.metadata.display_name == name {
            Some(p@)
        } else {
            None
        },
        ProfileFolder::Group(g) => lookup_in_list(g.content@, name),
    }
}

/// The first profile under the folders of `s` whose display name is
/// `name`.
pub open spec fn lookup_in_list(s: Seq<ProfileFolder>, name: Seq<char>) -> Option<ProfileV>
    decreases s,
{
    if s.len() == 0 {
        None
    } else {
        match lookup_in(s.first(), name) {
            Some(p) => Some(p),
            None => lookup_in_list(s.drop_first(), name),
        }
    }
}

proof fn lemma_folder_child_decreases(f: ProfileFolder, i: int)
    requires
        f is Group,
        0 <= i < (f->Group_0).content@.len(),
    ensures
        decreases_to!(f => (f->Group_0).content@[i]),
{
    let g = f->Group_0;
    assert(decreases_to!(f => g));
    assert(decreases_to!(g => g.content));
    assert(decreases_to!(g.content => g.content@));
    assert(decreases_to!(g.content@ => g.content@[i]));
}

proof fn lemma_flat_list_prefix_le(s: Seq<ProfileFolder>, i: int)
    requires
        0 <= i <= s.len(),
    ensures
        flat_profiles_list(s.subrange(0, i)).len() <= flat_profiles_list(s).len(),
        i < s.len() ==> flat_profiles_list(s.subrange(0, i)).len() + flat_profiles(s[i]).len()
            <= flat_profiles_list(s).len(),
    decreases s.len() - i,
{
    if i == s.len() {
        assert(s.subrange(0, i) =~= s);
    } else {
        lemma_flat_list_prefix_le(s, i + 1);
        assert(s.subrange(0, i + 1).drop_last() =~= s.subrange(0, i));
        assert(s.subrange(0, i + 1).last() == s[i]);
    }
}

impl ProfileFolder {
    /// Recursively count the profiles nested under this folder.
    pub fn profile_count(&self) -> (n: usize)
        requires
            flat_profiles(*self).len() <= usize::MAX,
        ensures
            n == flat_profiles(*self).len(),
        decreases *self,
    {
        match self {
            ProfileFolder::Profile(_) => 1,
            ProfileFolder::Group(g) => {
                let mut total: usize = 0;
                let count: usize = g.content.len();
                for i in 0..count
                    invariant
                        *self == ProfileFolder::Group(*g),
                        count == g.content@.len(),
                        flat_profiles_list(g.content@).len() <= usize::MAX,
                        total == flat_profiles_list(g.content@.subrange(0, i as int)).len(),
                {
                    proof {
                        lemma_flat_list_prefix_le(g.content@, i as int);
                        assert(g.content@.subrange(0, i + 1).drop_last() =~= g.content@.subrange(
                            0,
                            i as int,
                        ));
                        assert(g.content@.subrange(0, i + 1).last() == g.content@[i as int]);
                    }
                    proof {
                        lemma_folder_child_decreases(*self, i as int);
                    }
                    let part: usize = g.content[i].profile_count();
                    total = total + part;
                }
                proof {
                    assert(g.content@.subrange(0, count as int) =~= g.content@);
                }
                total
            },
        }
    }

    /// Recursively collect references to all profiles nested under this
    /// folder, flattened in depth-first order.
    pub fn get_profiles(&self) -> (r: Vec<&Profile>)
        ensures
            r.deep_view() == flat_profiles(*self),
        decreases *self,
    {
        match self {
            ProfileFolder::Profile(p) => {
                let mut r: Vec<&Profile> = Vec::new();
                r.push(p);
                proof {
                    assert(r.deep_view() =~= flat_profiles(*self));
                }
                r
            },
            ProfileFolder::Group(g) => {
                let mut r: Vec<&Profile> = Vec::new();
                let count: usize = g.content.len();
                for i in 0..count
                    invariant
                        *self == ProfileFolder::Group(*g),
                        count == g.content@.len(),
                        r.deep_view() == flat_profiles_list(g.content@.subrange(0, i as int)),
                {
                    proof {
                        lemma_folder_child_decreases(*self, i as int);
                    }
                    let mut part = g.content[i].get_profiles();
                    r.append(&mut part);
                    proof {
                        assert(g.content@.subrange(0, i + 1).drop_last() =~= g.content@.subrange(
                            0,
                            i as int,
                        ));
                        assert(g.content@.subrange(0, i + 1).last() == g.content@[i as int]);
                        assert(r.deep_view() =~= flat_profiles_list(
                            g.content@.subrange(0, i + 1),
                        ));
                    }
                }
                proof {
                    assert(g.content@.subrange(0, count as int) =~= g.content@);
                }
                r
            },
        }
    }

    /// Recursively search this folder, in depth-first order, for a
    /// profile with the given display name.
    pub fn lookup(&self, name: &String) -> (r: Option<&Profile>)
        ensures
            match r {
                Some(p) => lookup_in(*self, name@) == Some(p@),
                None => lookup_in(*self, name@) is None,
            },
        decreases *self,
    {
        match self {
            ProfileFolder::Profile(p) => {
                if p.metadata.display_name == *name {
                    Some(p)
                } else {
                    None
                }
            },
            ProfileFolder::Group(g) => {
                let count: usize = g.content.len();
                proof {
                    assert(g.content@.skip(0) =~= g.content@);
                }
                for i in 0..count
                    invariant
                        *self == ProfileFolder::Group(*g),
                        count == g.content@.len(),
                        lookup_in(*self, name@) == lookup_in_list(
                            g.content@.skip(i as int),
                            name@,
                        ),
                    decreases count - i,
                {
                    proof {
                        assert(g.content@.skip(i as int).first() == g.content@[i as int]);
                        assert(g.content@.skip(i as int).drop_first() =~= g.content@.skip(i + 1));
                        lemma_folder_child_decreases(*self, i as int);
                    }
                    let found = g.content[i].lookup(name);
                    if let Some(p) = found {
                        proof {
                            assert(lookup_in_list(g.content@.skip(i as int), name@) == Some(p@));
                        }
                        return Some(p);
                    }
                }
                proof {
                    assert(g.content@.skip(count as int).len() == 0);
                }
                None
            },
        }
    }
}

} // verus!
