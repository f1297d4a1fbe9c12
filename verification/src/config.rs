//! The loaded configuration: an ordered sequence of named connection
//! profiles plus the current-profile pointer. It is mutated only through the
//! orchestrator, and persisted by the external config store from the value
//! these functions produce.

use vstd::prelude::*;

use crate::text::str_eq;

verus! {

/// One named connection profile. Beyond its name, which is its identity,
/// the fields are opaque references owned by the configuration file.
pub struct Profile {
    pub name: String,
    pub cluster: String,
    pub user: String,
    pub namespace: String,
}

impl Profile {
    /// An exact copy, field for field.
    pub fn duplicate(&self) -> (r: Profile)
        ensures
            r == *self,
    {
        Profile {
            name: self.name.clone(),
            cluster: self.cluster.clone(),
            user: self.user.clone(),
            namespace: self.namespace.clone(),
        }
    }
}

/// The ordered profile list and the nullable current-profile pointer.
pub struct Configuration {
    pub profiles: Vec<Profile>,
    pub current: Option<String>,
}

/// The predicate a profile deletion keeps: every profile but the named one.
pub open spec fn keeps_name(name: Seq<char>) -> spec_fn(Profile) -> bool {
    |p: Profile| p.name@ != name
}

impl Configuration {
    /// The names of the profiles, in order.
    pub open spec fn names(self) -> Seq<Seq<char>> {
        self.profiles@.map_values(|p: Profile| p.name@)
    }

    /// Remove every profile named `name`, keeping all others in their
    /// original order; the current-profile pointer is untouched.
    pub fn delete_profile(&mut self, name: &str)
        ensures
            final(self).profiles@ == old(self).profiles@.filter(keeps_name(name@)),
            final(self).current == old(self).current,
    {
        let ghost orig = self.profiles@;
        let mut kept: Vec<Profile> = Vec::new();
        let mut i: usize = 0;
        while i < self.profiles.len()
            invariant
                i <= self.profiles.len(),
                self.profiles@ == orig,
                kept@ == orig.subrange(0, i as int).filter(keeps_name(name@)),
            decreases self.profiles.len() - i,
        {
            proof {
                broadcast use vstd::seq_lib::group_filter_ensures;

                assert(orig.subrange(0, i + 1).drop_last() =~= orig.subrange(0, i as int));
                reveal(Seq::filter);
            }
            let p = &self.profiles[i];
            if !str_eq(p.name.as_str(), name) {
                kept.push(p.duplicate());
            }
            i += 1;
        }
        proof {
            assert(orig.subrange(0, orig.len() as int) =~= orig);
        }
        self.profiles = kept;
    }

    /// Point the current profile at `name`; the profile list is untouched.
    pub fn set_current(&mut self, name: String)
        ensures
            final(self).current == Some(name),
            final(self).profiles@ == old(self).profiles@,
    {
        self.current = Some(name);
    }

    /// Whether `name` is the current profile.
    pub fn is_current(&self, name: &str) -> (r: bool)
        ensures
            r == (self.current matches Some(c) && c@ == name@),
    {
        match &self.current {
            Some(c) => str_eq(c.as_str(), name),
            None => false,
        }
    }
}

/// Deleting a profile never reorders the rest: the surviving profiles form
/// the original sequence with the named entries removed, and every other
/// profile keeps its relative position.
pub proof fn lemma_delete_keeps_order(profiles: Seq<Profile>, name: Seq<char>, i: int, j: int)
    requires
        0 <= i < j < profiles.filter(keeps_name(name)).len(),
    ensures
        exists|oi: int, oj: int|
            0 <= oi < oj < profiles.len() && profiles[oi] == profiles.filter(keeps_name(name))[i]
                && profiles[oj] == profiles.filter(keeps_name(name))[j],
    decreases profiles.len(),
{
    reveal(Seq::filter);
    broadcast use vstd::seq_lib::group_filter_ensures;

    let kept = profiles.filter(keeps_name(name));
    let d = profiles.drop_last();
    let x = profiles.last();
    if keeps_name(name)(x) && j == kept.len() - 1 {
        // the last kept element is the last original one; find the other in the prefix
        lemma_filter_index_witness(d, name, i);
        let oi = choose|oi: int| 0 <= oi < d.len() && d[oi] == d.filter(keeps_name(name))[i];
        assert(profiles[oi] == kept[i]);
        assert(profiles[profiles.len() - 1] == kept[j]);
    } else {
        lemma_delete_keeps_order(d, name, i, j);
        let (oi, oj) = choose|oi: int, oj: int|
            0 <= oi < oj < d.len() && d[oi] == d.filter(keeps_name(name))[i] && d[oj] == d.filter(
                keeps_name(name),
            )[j];
        assert(profiles[oi] == kept[i]);
        assert(profiles[oj] == kept[j]);
    }
}

/// Every kept element of a filtered profile list stands somewhere in the
/// original list.
proof fn lemma_filter_index_witness(profiles: Seq<Profile>, name: Seq<char>, i: int)
    requires
        0 <= i < profiles.filter(keeps_name(name)).len(),
    ensures
        exists|oi: int|
            0 <= oi < profiles.len() && profiles[oi] == profiles.filter(keeps_name(name))[i],
    decreases profiles.len(),
{
    reveal(Seq::filter);
    broadcast use vstd::seq_lib::group_filter_ensures;

    let kept = profiles.filter(keeps_name(name));
    let d = profiles.drop_last();
    if keeps_name(name)(profiles.last()) && i == kept.len() - 1 {
        assert(profiles[profiles.len() - 1] == kept[i]);
    } else {
        lemma_filter_index_witness(d, name, i);
        let oi = choose|oi: int| 0 <= oi < d.len() && d[oi] == d.filter(keeps_name(name))[i];
        assert(profiles[oi] == kept[i]);
    }
}

} // verus!
