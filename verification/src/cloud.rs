//! The translation layer between the import navigator and the external
//! cloud CLI collaborator: which listing to run at each drill-down depth,
//! how each provider's rows become selectable options, and the exact
//! command a fully resolved path turns into. The collaborator performs the
//! invocations and hands rows of plain strings back.

use vstd::prelude::*;

use crate::import_path::{seq_is_aws, seq_is_azure, seq_is_full, seq_is_gcp, CloudImportPath, ImportPathSegment};
use crate::text::{concat_strs, has_prefix, starts_with_str, str_eq};

verus! {

/// The listing the navigator needs for the depth a path stands at: the
/// provider menu at the root, then the provider's own hierarchy, and
/// nothing once the path is full or the provider unknown.
pub enum LoadRequest {
    CloudOptions,
    AwsProfiles,
    AwsRegions(String),
    EksClusters(String, String),
    GcpProjects,
    GkeClusters(String),
    AzureSubscriptions,
    AksClusters(String),
    Nothing,
}

/// The drill-down table, as a function of provider and depth alone: AWS
/// lists profiles, then regions for the profile, then clusters for profile
/// and region; GCP lists projects, then clusters for the project; Azure
/// lists subscriptions, then clusters for the subscription.
pub open spec fn spec_load_request(s: Seq<ImportPathSegment>) -> LoadRequest {
    if seq_is_full(s) {
        LoadRequest::Nothing
    } else if s.len() == 0 {
        LoadRequest::CloudOptions
    } else if s[0].0@ == "aws"@ {
        if s.len() == 1 {
            LoadRequest::AwsProfiles
        } else if s.len() == 2 {
            LoadRequest::AwsRegions(s[1].0)
        } else if s.len() == 3 {
            LoadRequest::EksClusters(s[1].0, s[2].0)
        } else {
            LoadRequest::Nothing
        }
    } else if s[0].0@ == "gcp"@ {
        if s.len() == 1 {
            LoadRequest::GcpProjects
        } else if s.len() == 2 {
            LoadRequest::GkeClusters(s[1].0)
        } else {
            LoadRequest::Nothing
        }
    } else if s[0].0@ == "azure"@ {
        if s.len() == 1 {
            LoadRequest::AzureSubscriptions
        } else if s.len() == 2 {
            LoadRequest::AksClusters(s[1].0)
        } else {
            LoadRequest::Nothing
        }
    } else {
        LoadRequest::Nothing
    }
}

/// Which listing to load for this path; recomputed from the path on every
/// navigation, never cached.
pub fn load_request(path: &CloudImportPath) -> (r: LoadRequest)
    ensures
        r == spec_load_request(path@),
{
    proof {
        crate::import_path::lemma_platform_ids_distinct();
    }
    if path.is_full() {
        return LoadRequest::Nothing;
    }
    if path.is_empty() {
        return LoadRequest::CloudOptions;
    }
    let len = path.len();
    if path.is_aws() {
        if len == 1 {
            LoadRequest::AwsProfiles
        } else if len == 2 {
            LoadRequest::AwsRegions(path.get_aws_profile())
        } else if len == 3 {
            LoadRequest::EksClusters(path.get_aws_profile(), path.get_aws_region())
        } else {
            LoadRequest::Nothing
        }
    } else if path.is_gcp() {
        if len == 1 {
            LoadRequest::GcpProjects
        } else if len == 2 {
            LoadRequest::GkeClusters(path.get_gcp_project())
        } else {
            LoadRequest::Nothing
        }
    } else if path.is_azure() {
        if len == 1 {
            LoadRequest::AzureSubscriptions
        } else if len == 2 {
            LoadRequest::AksClusters(path.get_azure_subscription())
        } else {
            LoadRequest::Nothing
        }
    } else {
        LoadRequest::Nothing
    }
}

/// The provider menu at the root of the drill-down: one entry per locally
/// configured provider, in a fixed order.
pub fn provider_options(aws: bool, gcp: bool, azure: bool) -> (r: Vec<ImportPathSegment>)
    ensures
        r@.len() == (if aws {
            1int
        } else {
            0int
        }) + (if gcp {
            1int
        } else {
            0int
        }) + (if azure {
            1int
        } else {
            0int
        }),
        aws ==> r@[0].0@ == "aws"@ && r@[0].1@ == "AWS"@ && r@[0].2 is None,
        gcp ==> ({
            let i = if aws {
                1int
            } else {
                0int
            };
            r@[i].0@ == "gcp"@ && r@[i].1@ == "GCP"@ && r@[i].2 is None
        }),
        azure ==> ({
            let i = (if aws {
                1int
            } else {
                0int
            }) + (if gcp {
                1int
            } else {
                0int
            });
            r@[i].0@ == "azure"@ && r@[i].1@ == "Azure"@ && r@[i].2 is None
        }),
{
    let mut out: Vec<ImportPathSegment> = Vec::new();
    if aws {
        out.push(("aws".to_owned(), "AWS".to_owned(), None));
    }
    if gcp {
        out.push(("gcp".to_owned(), "GCP".to_owned(), None));
    }
    if azure {
        out.push(("azure".to_owned(), "Azure".to_owned(), None));
    }
    out
}

/// Whether the GCP CLI reports a signed-in account; the collaborator hands
/// in the account field, with a missing field as the empty string.
pub fn gcp_configured(account: &str) -> (r: bool)
    ensures
        r == (account@.len() > 0),
{
    !account.is_empty()
}

/// Whether the AWS CLI is configured: any successful profile listing
/// counts, mirroring that a listing always has at least one line.
pub fn aws_configured(listing: &Option<String>) -> (r: bool)
    ensures
        r == (listing is Some),
{
    listing.is_some()
}

/// Whether the Azure CLI reports a signed-in user; the collaborator hands
/// in the user name field, with a missing field as the empty string.
pub fn azure_configured(user: &str) -> (r: bool)
    ensures
        r == (user@.len() > 0),
{
    !user.is_empty()
}

/// Keep a GCP project row when it has an id that is not a system project,
/// a name, and is active.
pub open spec fn gcp_row_keep(row: (String, String, String)) -> bool {
    row.0@.len() > 0 && !has_prefix(row.0@, "sys-"@) && row.1@.len() > 0 && row.2@ == "ACTIVE"@
}

/// Options for the GCP project depth: one per active, non-system project
/// row `(id, name, lifecycle state)`, labeled "name (id)".
pub fn gcp_project_options(rows: &Vec<(String, String, String)>) -> (r: Vec<ImportPathSegment>)
    ensures
        ({
            let kept = rows@.filter(|row: (String, String, String)| gcp_row_keep(row));
            &&& r@.len() == kept.len()
            &&& forall|i: int|
                0 <= i < r@.len() ==> (#[trigger] r@[i]).0 == kept[i].0 && r@[i].1@ == kept[i].1@
                    + " ("@ + kept[i].0@ + ")"@ && r@[i].2 is None
        }),
{
    let ghost keep = |row: (String, String, String)| gcp_row_keep(row);
    let ghost orig = rows@;
    let mut out: Vec<ImportPathSegment> = Vec::new();
    let mut i: usize = 0;
    while i < rows.len()
        invariant
            i <= rows.len(),
            rows@ == orig,
            keep == (|row: (String, String, String)| gcp_row_keep(row)),
            ({
                let kept = orig.subrange(0, i as int).filter(keep);
                &&& out@.len() == kept.len()
                &&& forall|k: int|
                    0 <= k < out@.len() ==> (#[trigger] out@[k]).0 == kept[k].0 && out@[k].1@
                        == kept[k].1@ + " ("@ + kept[k].0@ + ")"@ && out@[k].2 is None
            }),
        decreases rows.len() - i,
    {
        proof {
            broadcast use vstd::seq_lib::group_filter_ensures;

            assert(orig.subrange(0, i + 1).drop_last() =~= orig.subrange(0, i as int));
            reveal(Seq::filter);
        }
        let row = &rows[i];
        let id_ok = !row.0.as_str().is_empty() && !starts_with_str(row.0.as_str(), "sys-");
        let name_ok = !row.1.as_str().is_empty();
        let active = str_eq(row.2.as_str(), "ACTIVE");
        if id_ok && name_ok && active {
            let label = concat_strs(
                concat_strs(concat_strs(row.1.as_str(), " (").as_str(), row.0.as_str()).as_str(),
                ")",
            );
            out.push((row.0.clone(), label, None));
        }
        i += 1;
    }
    proof {
        assert(orig.subrange(0, orig.len() as int) =~= orig);
    }
    out
}

/// Options for the GKE cluster depth: one per row `(name, zone)`, the zone
/// carried as the secondary id.
pub fn gke_cluster_options(rows: &Vec<(String, String)>) -> (r: Vec<ImportPathSegment>)
    ensures
        r@.len() == rows@.len(),
        forall|i: int|
            0 <= i < r@.len() ==> (#[trigger] r@[i]).0 == rows@[i].0 && r@[i].1 == rows@[i].0
                && r@[i].2 == Some(rows@[i].1),
{
    let mut out: Vec<ImportPathSegment> = Vec::new();
    let mut i: usize = 0;
    while i < rows.len()
        invariant
            i <= rows.len(),
            out@.len() == i,
            forall|k: int|
                0 <= k < i ==> (#[trigger] out@[k]).0 == rows@[k].0 && out@[k].1 == rows@[k].0
                    && out@[k].2 == Some(rows@[k].1),
        decreases rows.len() - i,
    {
        let row = &rows[i];
        out.push((row.0.clone(), row.0.clone(), Some(row.1.clone())));
        i += 1;
    }
    out
}

/// Options for the AWS profile depth: one per non-empty listing line.
pub fn aws_profile_options(lines: &Vec<String>) -> (r: Vec<ImportPathSegment>)
    ensures
        ({
            let kept = lines@.filter(|l: String| l@.len() > 0);
            &&& r@.len() == kept.len()
            &&& forall|i: int|
                0 <= i < r@.len() ==> (#[trigger] r@[i]).0 == kept[i] && r@[i].1 == kept[i]
                    && r@[i].2 is None
        }),
{
    let ghost keep = |l: String| l@.len() > 0;
    let ghost orig = lines@;
    let mut out: Vec<ImportPathSegment> = Vec::new();
    let mut i: usize = 0;
    while i < lines.len()
        invariant
            i <= lines.len(),
            lines@ == orig,
            keep == (|l: String| l@.len() > 0),
            ({
                let kept = orig.subrange(0, i as int).filter(keep);
                &&& out@.len() == kept.len()
                &&& forall|k: int|
                    0 <= k < out@.len() ==> (#[trigger] out@[k]).0 == kept[k] && out@[k].1
                        == kept[k] && out@[k].2 is None
            }),
        decreases lines.len() - i,
    {
        proof {
            broadcast use vstd::seq_lib::group_filter_ensures;

            assert(orig.subrange(0, i + 1).drop_last() =~= orig.subrange(0, i as int));
            reveal(Seq::filter);
        }
        let line = &lines[i];
        if !line.as_str().is_empty() {
            out.push((line.clone(), line.clone(), None));
        }
        i += 1;
    }
    proof {
        assert(orig.subrange(0, orig.len() as int) =~= orig);
    }
    out
}

/// Options for the AWS region depth: one per region name row.
pub fn aws_region_options(rows: &Vec<String>) -> (r: Vec<ImportPathSegment>)
    ensures
        r@.len() == rows@.len(),
        forall|i: int|
            0 <= i < r@.len() ==> (#[trigger] r@[i]).0 == rows@[i] && r@[i].1 == rows@[i]
                && r@[i].2 is None,
{
    let mut out: Vec<ImportPathSegment> = Vec::new();
    let mut i: usize = 0;
    while i < rows.len()
        invariant
            i <= rows.len(),
            out@.len() == i,
            forall|k: int|
                0 <= k < i ==> (#[trigger] out@[k]).0 == rows@[k] && out@[k].1 == rows@[k]
                    && out@[k].2 is None,
        decreases rows.len() - i,
    {
        let row = &rows[i];
        out.push((row.clone(), row.clone(), None));
        i += 1;
    }
    out
}

/// Options for the EKS cluster depth: one per cluster name row.
pub fn eks_cluster_options(rows: &Vec<String>) -> (r: Vec<ImportPathSegment>)
    ensures
        r@.len() == rows@.len(),
        forall|i: int|
            0 <= i < r@.len() ==> (#[trigger] r@[i]).0 == rows@[i] && r@[i].1 == rows@[i]
                && r@[i].2 is None,
{
    aws_region_options(rows)
}

/// Options for the AKS cluster depth: one per row `(name, resource group)`,
/// labeled "name (RG: group)" and carrying the group as the secondary id.
pub fn aks_cluster_options(rows: &Vec<(String, String)>) -> (r: Vec<ImportPathSegment>)
    ensures
        r@.len() == rows@.len(),
        forall|i: int|
            0 <= i < r@.len() ==> (#[trigger] r@[i]).0 == rows@[i].0 && r@[i].1@ == rows@[i].0@
                + " (RG: "@ + rows@[i].1@ + ")"@ && r@[i].2 == Some(rows@[i].1),
{
    let mut out: Vec<ImportPathSegment> = Vec::new();
    let mut i: usize = 0;
    while i < rows.len()
        invariant
            i <= rows.len(),
            out@.len() == i,
            forall|k: int|
                0 <= k < i ==> (#[trigger] out@[k]).0 == rows@[k].0 && out@[k].1@ == rows@[k].0@
                    + " (RG: "@ + rows@[k].1@ + ")"@ && out@[k].2 == Some(rows@[k].1),
        decreases rows.len() - i,
    {
        let row = &rows[i];
        let label = concat_strs(
            concat_strs(concat_strs(row.0.as_str(), " (RG: ").as_str(), row.1.as_str()).as_str(),
            ")",
        );
        out.push((row.0.clone(), label, Some(row.1.clone())));
        i += 1;
    }
    out
}

/// Keep an Azure subscription row when both id and name are present.
pub open spec fn azure_row_keep(row: (String, String)) -> bool {
    row.0@.len() > 0 && row.1@.len() > 0
}

/// Options for the Azure subscription depth: one per row `(id, name)` with
/// both fields present, labeled "name (id)".
pub fn azure_subscription_options(rows: &Vec<(String, String)>) -> (r: Vec<ImportPathSegment>)
    ensures
        ({
            let kept = rows@.filter(|row: (String, String)| azure_row_keep(row));
            &&& r@.len() == kept.len()
            &&& forall|i: int|
                0 <= i < r@.len() ==> (#[trigger] r@[i]).0 == kept[i].0 && r@[i].1@ == kept[i].1@
                    + " ("@ + kept[i].0@ + ")"@ && r@[i].2 is None
        }),
{
    let ghost keep = |row: (String, String)| azure_row_keep(row);
    let ghost orig = rows@;
    let mut out: Vec<ImportPathSegment> = Vec::new();
    let mut i: usize = 0;
    while i < rows.len()
        invariant
            i <= rows.len(),
            rows@ == orig,
            keep == (|row: (String, String)| azure_row_keep(row)),
            ({
                let kept = orig.subrange(0, i as int).filter(keep);
                &&& out@.len() == kept.len()
                &&& forall|k: int|
                    0 <= k < out@.len() ==> (#[trigger] out@[k]).0 == kept[k].0 && out@[k].1@
                        == kept[k].1@ + " ("@ + kept[k].0@ + ")"@ && out@[k].2 is None
            }),
        decreases rows.len() - i,
    {
        proof {
            broadcast use vstd::seq_lib::group_filter_ensures;

            assert(orig.subrange(0, i + 1).drop_last() =~= orig.subrange(0, i as int));
            reveal(Seq::filter);
        }
        let row = &rows[i];
        if !row.0.as_str().is_empty() && !row.1.as_str().is_empty() {
            let label = concat_strs(
                concat_strs(concat_strs(row.1.as_str(), " (").as_str(), row.0.as_str()).as_str(),
                ")",
            );
            out.push((row.0.clone(), label, None));
        }
        i += 1;
    }
    proof {
        assert(orig.subrange(0, orig.len() as int) =~= orig);
    }
    out
}

/// One cloud CLI invocation: the program name and its arguments, handed to
/// the external collaborator to run.
pub struct CloudCommand {
    pub program: String,
    pub args: Vec<String>,
}

/// The AWS import: ask the AWS CLI to write a config entry for the
/// resolved profile, region and cluster id.
pub fn aws_import_command(path: &CloudImportPath) -> (r: CloudCommand)
    requires
        path@.len() == 4,
    ensures
        r.program@ == "aws"@,
        r.args@.len() == 8,
        r.args@[0]@ == "--region"@,
        r.args@[1] == path@[2].0,
        r.args@[2]@ == "--profile"@,
        r.args@[3] == path@[1].0,
        r.args@[4]@ == "eks"@,
        r.args@[5]@ == "update-kubeconfig"@,
        r.args@[6]@ == "--name"@,
        r.args@[7] == path@[3].0,
{
    let mut args: Vec<String> = Vec::new();
    args.push("--region".to_owned());
    args.push(path.get_aws_region());
    args.push("--profile".to_owned());
    args.push(path.get_aws_profile());
    args.push("eks".to_owned());
    args.push("update-kubeconfig".to_owned());
    args.push("--name".to_owned());
    args.push(path.get_cluster_id());
    CloudCommand { program: "aws".to_owned(), args }
}

/// The GKE import: ask the GCP CLI for credentials for the resolved
/// cluster, its zone and its project.
pub fn gke_import_command(path: &CloudImportPath) -> (r: CloudCommand)
    requires
        path@.len() == 3,
        path@[2].2 is Some,
    ensures
        r.program@ == "gcloud"@,
        r.args@.len() == 8,
        r.args@[0]@ == "container"@,
        r.args@[1]@ == "clusters"@,
        r.args@[2]@ == "get-credentials"@,
        r.args@[3] == path@[2].0,
        r.args@[4]@ == "--zone"@,
        (path@[2].2 matches Some(z) ==> r.args@[5] == z),
        r.args@[6]@ == "--project"@,
        r.args@[7] == path@[1].0,
{
    let mut args: Vec<String> = Vec::new();
    args.push("container".to_owned());
    args.push("clusters".to_owned());
    args.push("get-credentials".to_owned());
    args.push(path.get_cluster_id());
    args.push("--zone".to_owned());
    args.push(path.get_gke_zone());
    args.push("--project".to_owned());
    args.push(path.get_gcp_project());
    CloudCommand { program: "gcloud".to_owned(), args }
}

/// The AKS import: ask the Azure CLI for credentials for the resolved
/// resource group, cluster and subscription, overwriting a same-named
/// entry.
pub fn aks_import_command(path: &CloudImportPath) -> (r: CloudCommand)
    requires
        path@.len() == 3,
        path@[2].2 is Some,
    ensures
        r.program@ == "az"@,
        r.args@.len() == 9,
        r.args@[0]@ == "aks"@,
        r.args@[1]@ == "get-credentials"@,
        r.args@[2]@ == "--resource-group"@,
        (path@[2].2 matches Some(g) ==> r.args@[3] == g),
        r.args@[4]@ == "--name"@,
        r.args@[5] == path@[2].0,
        r.args@[6]@ == "--subscription"@,
        r.args@[7] == path@[1].0,
        r.args@[8]@ == "--overwrite-existing"@,
{
    let mut args: Vec<String> = Vec::new();
    args.push("aks".to_owned());
    args.push("get-credentials".to_owned());
    args.push("--resource-group".to_owned());
    args.push(path.get_azure_resource_group());
    args.push("--name".to_owned());
    args.push(path.get_cluster_id());
    args.push("--subscription".to_owned());
    args.push(path.get_azure_subscription());
    args.push("--overwrite-existing".to_owned());
    CloudCommand { program: "az".to_owned(), args }
}

/// The invocation a resolved path calls for, by provider; nothing for an
/// unknown provider, and nothing rather than a failure for a path whose
/// terminal segment is malformed.
pub fn import_command(path: &CloudImportPath) -> (r: Option<CloudCommand>)
    ensures
        seq_is_aws(path@) && path@.len() == 4 ==> r is Some,
        seq_is_gcp(path@) && path@.len() == 3 && path@[2].2 is Some ==> r is Some,
        seq_is_azure(path@) && path@.len() == 3 && path@[2].2 is Some ==> r is Some,
        (r matches Some(c) ==> ({
            ||| (seq_is_aws(path@) && path@.len() == 4 && c.program@ == "aws"@)
            ||| (seq_is_gcp(path@) && path@.len() == 3 && path@[2].2 is Some && c.program@
                == "gcloud"@)
            ||| (seq_is_azure(path@) && path@.len() == 3 && path@[2].2 is Some && c.program@
                == "az"@)
        })),
{
    proof {
        crate::import_path::lemma_platform_ids_distinct();
    }
    if path.is_aws() {
        if path.len() == 4 {
            Some(aws_import_command(path))
        } else {
            None
        }
    } else if path.is_gcp() {
        if path.len() == 3 && path.has_secondary_id() {
            Some(gke_import_command(path))
        } else {
            None
        }
    } else if path.is_azure() {
        if path.len() == 3 && path.has_secondary_id() {
            Some(aks_import_command(path))
        } else {
            None
        }
    } else {
        None
    }
}

/// The success message one completed import pushes onto the status line.
pub fn import_success_message(path: &CloudImportPath) -> (r: String)
    requires
        path@.len() > 0,
    ensures
        r@ == "Successfully imported "@ + path@.last().0@,
{
    let cluster = path.get_cluster_id();
    concat_strs("Successfully imported ", cluster.as_str())
}

} // verus!
