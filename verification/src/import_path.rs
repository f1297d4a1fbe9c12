//! The drill-down route of a cloud import: an ordered sequence of
//! `(id, display label, optional secondary id)` segments. The first segment's
//! id names the provider; how deep a path must go to name one cluster, and at
//! which depth it is listing clusters, are structural predicates over the
//! provider and the path length, recomputed on every decision.

use vstd::prelude::*;

use crate::text::str_eq;

verus! {

/// One drill-down choice: primary id, display name, optional secondary id.
pub type ImportPathSegment = (String, String, Option<String>);

/// A partially or fully resolved route through one provider's hierarchy.
/// Immutable: each step appends to a copy, so concurrent imports never
/// share path state.
#[derive(Debug, Clone)]
pub struct CloudImportPath {
    pub segments: Vec<ImportPathSegment>,
}

impl View for CloudImportPath {
    type V = Seq<ImportPathSegment>;

    open spec fn view(&self) -> Seq<ImportPathSegment> {
        self.segments@
    }
}

pub open spec fn seq_is_aws(s: Seq<ImportPathSegment>) -> bool {
    s.len() > 0 && s[0].0@ == "aws"@
}

pub open spec fn seq_is_gcp(s: Seq<ImportPathSegment>) -> bool {
    s.len() > 0 && s[0].0@ == "gcp"@
}

pub open spec fn seq_is_azure(s: Seq<ImportPathSegment>) -> bool {
    s.len() > 0 && s[0].0@ == "azure"@
}

/// A full path resolves one cluster: AWS at depth 4 (provider, profile,
/// region, cluster), GCP at depth 3 (provider, project, cluster), Azure at
/// depth 3 (provider, subscription, cluster).
pub open spec fn seq_is_full(s: Seq<ImportPathSegment>) -> bool {
    ||| seq_is_gcp(s) && s.len() == 3
    ||| seq_is_aws(s) && s.len() == 4
    ||| seq_is_azure(s) && s.len() == 3
}

/// A path one segment short of full is listing clusters.
pub open spec fn seq_is_listing_clusters(s: Seq<ImportPathSegment>) -> bool {
    ||| seq_is_gcp(s) && s.len() == 2
    ||| seq_is_aws(s) && s.len() == 3
    ||| seq_is_azure(s) && s.len() == 2
}

/// The three provider ids differ pairwise, so a path belongs to at most one
/// provider.
pub proof fn lemma_platform_ids_distinct()
    ensures
        "aws"@ != "gcp"@,
        "aws"@ != "azure"@,
        "gcp"@ != "azure"@,
{
    reveal_strlit("aws");
    reveal_strlit("gcp");
    reveal_strlit("azure");
    assert("aws"@[0] != "gcp"@[0]);
    assert("aws"@.len() != "azure"@.len());
    assert("gcp"@.len() != "azure"@.len());
}

impl CloudImportPath {
    pub open spec fn spec_len(self) -> nat {
        self@.len()
    }

    pub open spec fn spec_is_empty(self) -> bool {
        self@.len() == 0
    }

    pub open spec fn spec_is_aws(self) -> bool {
        seq_is_aws(self@)
    }

    pub open spec fn spec_is_gcp(self) -> bool {
        seq_is_gcp(self@)
    }

    pub open spec fn spec_is_azure(self) -> bool {
        seq_is_azure(self@)
    }

    pub open spec fn spec_is_full(self) -> bool {
        seq_is_full(self@)
    }

    pub open spec fn spec_is_listing_clusters(self) -> bool {
        seq_is_listing_clusters(self@)
    }

    pub fn is_empty(&self) -> (r: bool)
        ensures
            r == self.spec_is_empty(),
    {
        self.segments.len() == 0
    }

    pub fn is_aws(&self) -> (r: bool)
        ensures
            r == self.spec_is_aws(),
    {
        if self.is_empty() {
            return false;
        }
        str_eq(self.segments[0].0.as_str(), "aws")
    }

    pub fn is_azure(&self) -> (r: bool)
        ensures
            r == self.spec_is_azure(),
    {
        if self.is_empty() {
            return false;
        }
        str_eq(self.segments[0].0.as_str(), "azure")
    }

    pub fn is_gcp(&self) -> (r: bool)
        ensures
            r == self.spec_is_gcp(),
    {
        if self.is_empty() {
            return false;
        }
        str_eq(self.segments[0].0.as_str(), "gcp")
    }

    pub fn is_full(&self) -> (r: bool)
        ensures
            r == self.spec_is_full(),
    {
        proof {
            lemma_platform_ids_distinct();
        }
        if self.is_empty() {
            false
        } else if self.is_gcp() {
            self.segments.len() == 3
        } else if self.is_aws() {
            self.segments.len() == 4
        } else if self.is_azure() {
            self.segments.len() == 3
        } else {
            false
        }
    }

    pub fn is_listing_clusters(&self) -> (r: bool)
        ensures
            r == self.spec_is_listing_clusters(),
    {
        proof {
            lemma_platform_ids_distinct();
        }
        if self.is_empty() {
            false
        } else if self.is_gcp() {
            self.segments.len() == 2
        } else if self.is_aws() {
            self.segments.len() == 3
        } else if self.is_azure() {
            self.segments.len() == 2
        } else {
            false
        }
    }

    pub fn has_gcp_project(&self) -> (r: bool)
        ensures
            r == (self.spec_is_gcp() && self.spec_len() > 1),
    {
        if self.is_gcp() {
            self.segments.len() > 1
        } else {
            false
        }
    }

    pub fn get_gcp_project(&self) -> (r: String)
        requires
            self.spec_len() > 1,
        ensures
            r == self@[1].0,
    {
        self.segments[1].0.clone()
    }

    pub fn get_gke_zone(&self) -> (r: String)
        requires
            self.spec_len() > 2,
            self@[2].2 is Some,
        ensures
            (self@[2].2 matches Some(z) ==> r == z),
    {
        match &self.segments[2].2 {
            Some(zone) => zone.clone(),
            None => {
                proof {
                    assert(false);
                }
                String::new()
            },
        }
    }

    pub fn has_aws_profile(&self) -> (r: bool)
        ensures
            r == (self.spec_is_aws() && self.spec_len() > 1),
    {
        if self.is_aws() {
            self.segments.len() > 1
        } else {
            false
        }
    }

    pub fn get_aws_profile(&self) -> (r: String)
        requires
            self.spec_len() > 1,
        ensures
            r == self@[1].0,
    {
        self.segments[1].0.clone()
    }

    pub fn has_azure_subscription(&self) -> (r: bool)
        ensures
            r == (self.spec_is_azure() && self.spec_len() > 1),
    {
        if self.is_azure() {
            self.segments.len() > 1
        } else {
            false
        }
    }

    pub fn get_azure_subscription(&self) -> (r: String)
        requires
            self.spec_len() > 1,
        ensures
            r == self@[1].0,
    {
        self.segments[1].0.clone()
    }

    pub fn get_azure_resource_group(&self) -> (r: String)
        requires
            self.spec_len() > 2,
            self@[2].2 is Some,
        ensures
            (self@[2].2 matches Some(g) ==> r == g),
    {
        match &self.segments[2].2 {
            Some(group) => group.clone(),
            None => {
                proof {
                    assert(false);
                }
                String::new()
            },
        }
    }

    /// Whether the third segment carries a secondary id (a GKE zone or an
    /// AKS resource group).
    pub fn has_secondary_id(&self) -> (r: bool)
        requires
            self.spec_len() > 2,
        ensures
            r == (self@[2].2 is Some),
    {
        self.segments[2].2.is_some()
    }

    pub fn has_aws_region(&self) -> (r: bool)
        ensures
            r == (self.spec_is_aws() && self.spec_len() > 2),
    {
        if self.is_aws() {
            self.segments.len() > 2
        } else {
            false
        }
    }

    pub fn get_aws_region(&self) -> (r: String)
        requires
            self.spec_len() > 2,
        ensures
            r == self@[2].0,
    {
        self.segments[2].0.clone()
    }

    pub fn get_cluster_id(&self) -> (r: String)
        requires
            self.spec_len() > 0,
        ensures
            r == self@.last().0,
    {
        self.segments[self.segments.len() - 1].0.clone()
    }

    pub fn get_platform(&self) -> (r: String)
        requires
            self.spec_len() > 0,
        ensures
            r == self@[0].0,
    {
        self.segments[0].0.clone()
    }

    pub fn len(&self) -> (r: usize)
        ensures
            r == self.spec_len(),
    {
        self.segments.len()
    }

    /// A copy of this path with `element` appended; the receiver is
    /// untouched, so every drill-down step owns its own route.
    pub fn push_clone(&self, element: ImportPathSegment) -> (r: Self)
        ensures
            r@ == self@.push(element),
    {
        let mut new_path: Vec<ImportPathSegment> = Vec::new();
        let mut i: usize = 0;
        while i < self.segments.len()
            invariant
                i <= self.segments.len(),
                new_path@ =~= self.segments@.subrange(0, i as int),
            decreases self.segments.len() - i,
        {
            let seg = &self.segments[i];
            let secondary = match &seg.2 {
                Some(s) => Some(s.clone()),
                None => None,
            };
            new_path.push((seg.0.clone(), seg.1.clone(), secondary));
            assert(new_path@.last() == self.segments@[i as int]);
            i += 1;
        }
        new_path.push(element);
        assert(new_path@ =~= self.segments@.push(element));
        CloudImportPath { segments: new_path }
    }
}

impl From<Vec<ImportPathSegment>> for CloudImportPath {
    fn from(path: Vec<ImportPathSegment>) -> Self {
        CloudImportPath { segments: path }
    }
}

impl vstd::std_specs::convert::FromSpecImpl<Vec<ImportPathSegment>> for CloudImportPath {
    open spec fn obeys_from_spec() -> bool {
        true
    }

    open spec fn from_spec(v: Vec<ImportPathSegment>) -> Self {
        CloudImportPath { segments: v }
    }
}

/// The provider table of depths: for each provider, exactly one length is
/// full and exactly one is listing clusters, the one just short of full; an
/// empty path is neither.
pub proof fn lemma_depth_terminality(p: CloudImportPath)
    ensures
        p.spec_is_aws() ==> (p.spec_is_full() <==> p.spec_len() == 4),
        p.spec_is_gcp() ==> (p.spec_is_full() <==> p.spec_len() == 3),
        p.spec_is_azure() ==> (p.spec_is_full() <==> p.spec_len() == 3),
        p.spec_is_aws() ==> (p.spec_is_listing_clusters() <==> p.spec_len() == 3),
        p.spec_is_gcp() ==> (p.spec_is_listing_clusters() <==> p.spec_len() == 2),
        p.spec_is_azure() ==> (p.spec_is_listing_clusters() <==> p.spec_len() == 2),
        p.spec_is_empty() ==> !p.spec_is_full() && !p.spec_is_listing_clusters(),
{
    lemma_platform_ids_distinct();
}

/// Appending a segment never changes the provider of a non-empty path, and
/// appending one segment to a path that is listing clusters makes the longer
/// path full.
pub proof fn lemma_push_terminality(s: Seq<ImportPathSegment>, e: ImportPathSegment)
    ensures
        s.len() > 0 ==> (seq_is_aws(s.push(e)) <==> seq_is_aws(s)),
        s.len() > 0 ==> (seq_is_gcp(s.push(e)) <==> seq_is_gcp(s)),
        s.len() > 0 ==> (seq_is_azure(s.push(e)) <==> seq_is_azure(s)),
        seq_is_listing_clusters(s) ==> seq_is_full(s.push(e)),
        seq_is_listing_clusters(s) ==> !seq_is_full(s),
{
    lemma_platform_ids_distinct();
    if s.len() > 0 {
        assert(s.push(e)[0] == s[0]);
    }
}

} // verus!
