//! Shared application state: the loaded configuration, the per-profile
//! connectivity map, the filter flag and the transient status message. One
//! exclusive lock guards the whole value; holding `&mut AppState` models
//! holding that lock.

use vstd::prelude::*;

use crate::config::{Configuration, Profile};
use crate::events::KubeContextStatus;
use crate::status::UiMessage;
use crate::text::{and_pred, lemma_filter_all_pass, lemma_filter_filter, matches_filter, spec_matches, str_eq};

verus! {

impl KubeContextStatus {
    /// An exact copy, variant for variant.
    pub fn duplicate(&self) -> (r: KubeContextStatus)
        ensures
            r == *self,
    {
        match self {
            KubeContextStatus::Unknown => KubeContextStatus::Unknown,
            KubeContextStatus::Healthy(v) => KubeContextStatus::Healthy(v.clone()),
            KubeContextStatus::Unhealthy => KubeContextStatus::Unhealthy,
        }
    }
}

/// The connectivity a profile name maps to: the first recorded entry, or
/// `Unknown` where none was recorded.
pub open spec fn spec_lookup(m: Seq<(String, KubeContextStatus)>, name: Seq<char>) -> KubeContextStatus
    decreases m.len(),
{
    if m.len() == 0 {
        KubeContextStatus::Unknown
    } else if m.first().0@ == name {
        m.first().1
    } else {
        spec_lookup(m.drop_first(), name)
    }
}

/// Connectivity entries are keyed uniquely by profile name.
pub open spec fn unique_keys(m: Seq<(String, KubeContextStatus)>) -> bool {
    forall|i: int, j: int| 0 <= i < j < m.len() ==> m[i].0@ != m[j].0@
}

/// A name matching no entry looks up as `Unknown`.
proof fn lemma_lookup_missing(m: Seq<(String, KubeContextStatus)>, name: Seq<char>)
    requires
        forall|i: int| 0 <= i < m.len() ==> m[i].0@ != name,
    ensures
        spec_lookup(m, name) == KubeContextStatus::Unknown,
    decreases m.len(),
{
    if m.len() > 0 {
        lemma_lookup_missing(m.drop_first(), name);
    }
}

/// Updating one entry changes the lookup of its key alone.
proof fn lemma_lookup_update(
    m: Seq<(String, KubeContextStatus)>,
    i: int,
    entry: (String, KubeContextStatus),
    name: Seq<char>,
)
    requires
        0 <= i < m.len(),
        m[i].0@ == entry.0@,
    ensures
        name == entry.0@ && unique_keys(m) ==> spec_lookup(m.update(i, entry), name) == entry.1,
        name != entry.0@ ==> spec_lookup(m.update(i, entry), name) == spec_lookup(m, name),
    decreases m.len(),
{
    if i > 0 {
        assert(m.update(i, entry).drop_first() =~= m.drop_first().update(i - 1, entry));
        lemma_lookup_update(m.drop_first(), i - 1, entry, name);
    } else {
        assert(m.update(0, entry).drop_first() =~= m.drop_first());
    }
}

/// Appending a fresh key changes the lookup of that key alone.
proof fn lemma_lookup_push(
    m: Seq<(String, KubeContextStatus)>,
    entry: (String, KubeContextStatus),
    name: Seq<char>,
)
    ensures
        name != entry.0@ ==> spec_lookup(m.push(entry), name) == spec_lookup(m, name),
        (forall|i: int| 0 <= i < m.len() ==> m[i].0@ != entry.0@) && name == entry.0@
            ==> spec_lookup(m.push(entry), name) == entry.1,
    decreases m.len(),
{
    if m.len() > 0 {
        assert(m.push(entry).drop_first() =~= m.drop_first().push(entry));
        lemma_lookup_push(m.drop_first(), entry, name);
    } else {
        assert(m.push(entry).drop_first() =~= m);
    }
}

/// The predicate the text filter applies to one profile.
pub open spec fn profile_matches(filter: Seq<char>) -> spec_fn(Profile) -> bool {
    |p: Profile| spec_matches(p.name@, filter)
}

/// Applying the same text filter to the profile list twice is the same as
/// applying it once.
pub proof fn lemma_profile_filter_idempotent(profiles: Seq<Profile>, f: Seq<char>)
    ensures
        profiles.filter(profile_matches(f)).filter(profile_matches(f)) == profiles.filter(
            profile_matches(f),
        ),
{
    broadcast use vstd::seq_lib::group_filter_ensures;

    let once = profiles.filter(profile_matches(f));
    assert(forall|i: int| 0 <= i < once.len() ==> profile_matches(f)(#[trigger] once[i]));
    lemma_filter_all_pass(once, profile_matches(f));
}

/// Filtering the profile list by `b` and then by `a` keeps exactly the
/// profiles whose names pass both substring tests.
pub proof fn lemma_profile_filter_compose(profiles: Seq<Profile>, a: Seq<char>, b: Seq<char>)
    ensures
        profiles.filter(profile_matches(b)).filter(profile_matches(a)) == profiles.filter(
            and_pred(profile_matches(a), profile_matches(b)),
        ),
{
    lemma_filter_filter(profiles, profile_matches(a), profile_matches(b));
}

/// The single source of truth behind the state lock.
pub struct AppState {
    pub is_filter_on: bool,
    pub config: Configuration,
    pub connectivity: Vec<(String, KubeContextStatus)>,
    pub last_message: Option<UiMessage>,
    pub last_message_at: Option<i64>,
}

impl AppState {
    /// The state is well formed when connectivity entries are uniquely
    /// keyed.
    pub open spec fn wf(self) -> bool {
        unique_keys(self.connectivity@)
    }

    /// The profiles passing the text filter, in configuration order.
    pub open spec fn spec_filtered_profiles(self, filter: Seq<char>) -> Seq<Profile> {
        self.config.profiles@.filter(profile_matches(filter))
    }

    /// Pair a profile with its recorded connectivity.
    pub open spec fn spec_with_status(self) -> spec_fn(Profile) -> (Profile, KubeContextStatus) {
        |p: Profile| (p, spec_lookup(self.connectivity@, p.name@))
    }

    /// Fresh state around a loaded configuration: filter off, no
    /// connectivity recorded, no message.
    pub fn new(config: Configuration) -> (r: AppState)
        ensures
            r.wf(),
            r.config == config,
            r.is_filter_on == false,
            r.connectivity@ =~= Seq::<(String, KubeContextStatus)>::empty(),
            r.last_message is None,
            r.last_message_at is None,
    {
        AppState {
            is_filter_on: false,
            config,
            connectivity: Vec::new(),
            last_message: None,
            last_message_at: None,
        }
    }

    /// The recorded connectivity of `name`, or `Unknown`.
    pub fn status_of(&self, name: &str) -> (r: KubeContextStatus)
        ensures
            r == spec_lookup(self.connectivity@, name@),
    {
        let mut i: usize = 0;
        loop
            invariant
                i <= self.connectivity.len(),
                forall|k: int| 0 <= k < i ==> self.connectivity@[k].0@ != name@,
            decreases self.connectivity.len() - i,
        {
            if i >= self.connectivity.len() {
                proof {
                    lemma_lookup_missing(self.connectivity@, name@);
                }
                return KubeContextStatus::Unknown;
            }
            if str_eq(self.connectivity[i].0.as_str(), name) {
                proof {
                    lemma_lookup_prefix_miss(self.connectivity@, name@, i as int);
                }
                return self.connectivity[i].1.duplicate();
            }
            i += 1;
        }
    }

    /// Record the probe result for `name`, overwriting any earlier one;
    /// every other profile's recorded status is untouched.
    pub fn set_status(&mut self, name: String, status: KubeContextStatus)
        requires
            old(self).wf(),
        ensures
            final(self).wf(),
            spec_lookup(final(self).connectivity@, name@) == status,
            forall|n: Seq<char>|
                n != name@ ==> spec_lookup(final(self).connectivity@, n) == spec_lookup(
                    old(self).connectivity@,
                    n,
                ),
            final(self).config == old(self).config,
            final(self).is_filter_on == old(self).is_filter_on,
            final(self).last_message == old(self).last_message,
            final(self).last_message_at == old(self).last_message_at,
    {
        let ghost m0 = self.connectivity@;
        let n = self.connectivity.len();
        let mut found: usize = n;
        let mut i: usize = 0;
        while i < n
            invariant
                n == self.connectivity.len(),
                self.connectivity@ == m0,
                i <= n,
                found == n || (found < i && m0[found as int].0@ == name@),
                found == n ==> forall|k: int| 0 <= k < i ==> m0[k].0@ != name@,
            decreases n - i,
        {
            if found == n && str_eq(self.connectivity[i].0.as_str(), name.as_str()) {
                found = i;
            }
            i += 1;
        }
        if found < n {
            let entry = (name, status);
            proof {
                let m1 = m0.update(found as int, entry);
                assert(m0[found as int].0@ == entry.0@);
                lemma_lookup_update(m0, found as int, entry, entry.0@);
                assert forall|nm: Seq<char>| nm != entry.0@ implies spec_lookup(m1, nm)
                    == spec_lookup(m0, nm) by {
                    lemma_lookup_update(m0, found as int, entry, nm);
                };
                assert forall|a: int, b: int| 0 <= a < b < m1.len() implies m1[a].0@ != m1[b].0@ by {
                    assert(m0[a].0@ != m0[b].0@);
                };
            }
            self.connectivity.set(found, entry);
        } else {
            let entry = (name, status);
            proof {
                let m1 = m0.push(entry);
                lemma_lookup_push(m0, entry, entry.0@);
                assert forall|nm: Seq<char>| nm != entry.0@ implies spec_lookup(m1, nm)
                    == spec_lookup(m0, nm) by {
                    lemma_lookup_push(m0, entry, nm);
                };
                assert forall|a: int, b: int| 0 <= a < b < m1.len() implies m1[a].0@ != m1[b].0@ by {
                    if b < m0.len() {
                        assert(m0[a].0@ != m0[b].0@);
                    } else {
                        assert(m0[a].0@ != entry.0@);
                    }
                };
            }
            self.connectivity.push(entry);
        }
    }

    /// The profiles passing the text filter, in configuration order, each
    /// paired with its recorded connectivity.
    pub fn get_filtered_contexts(&self, filter: &str) -> (r: Vec<(Profile, KubeContextStatus)>)
        ensures
            r@ == self.spec_filtered_profiles(filter@).map_values(self.spec_with_status()),
    {
        let ghost pred = profile_matches(filter@);
        let ghost tag = self.spec_with_status();
        let ghost orig = self.config.profiles@;
        let mut out: Vec<(Profile, KubeContextStatus)> = Vec::new();
        let mut i: usize = 0;
        while i < self.config.profiles.len()
            invariant
                i <= self.config.profiles.len(),
                self.config.profiles@ == orig,
                pred == profile_matches(filter@),
                tag == self.spec_with_status(),
                out@ == orig.subrange(0, i as int).filter(pred).map_values(tag),
            decreases self.config.profiles.len() - i,
        {
            proof {
                assert(orig.subrange(0, i + 1).drop_last() =~= orig.subrange(0, i as int));
                reveal(Seq::filter);
            }
            let p = &self.config.profiles[i];
            if matches_filter(p.name.as_str(), filter) {
                let status = self.status_of(p.name.as_str());
                out.push((p.duplicate(), status));
                proof {
                    broadcast use vstd::seq_lib::group_seq_properties;

                }
            }
            i += 1;
        }
        proof {
            assert(orig.subrange(0, orig.len() as int) =~= orig);
        }
        out
    }

    /// Whether `profile` is the current one.
    pub fn is_current_context(&self, profile: &Profile) -> (r: bool)
        ensures
            r == (self.config.current matches Some(c) && c@ == profile.name@),
    {
        self.config.is_current(profile.name.as_str())
    }
}

/// A lookup that skips a prefix of mismatching keys lands on the first
/// matching index.
proof fn lemma_lookup_prefix_miss(m: Seq<(String, KubeContextStatus)>, name: Seq<char>, i: int)
    requires
        0 <= i < m.len(),
        m[i].0@ == name,
        forall|k: int| 0 <= k < i ==> m[k].0@ != name,
    ensures
        spec_lookup(m, name) == m[i].1,
    decreases i,
{
    if i > 0 {
        lemma_lookup_prefix_miss(m.drop_first(), name, i - 1);
    }
}

} // verus!
