use ktx::import_path::CloudImportPath;

fn seg(id: &str) -> (String, String, Option<String>) {
    (id.to_string(), id.to_string(), None)
}

fn seg2(id: &str, secondary: &str) -> (String, String, Option<String>) {
    (id.to_string(), id.to_string(), Some(secondary.to_string()))
}

#[test]
fn empty_path_is_nothing() {
    let p = CloudImportPath::from(vec![]);
    assert!(p.is_empty());
    assert!(!p.is_aws());
    assert!(!p.is_gcp());
    assert!(!p.is_azure());
    assert!(!p.is_full());
    assert!(!p.is_listing_clusters());
    assert_eq!(p.len(), 0);
}

#[test]
fn aws_depth_three_is_listing_not_full() {
    let p = CloudImportPath::from(vec![
        ("aws".to_string(), "AWS".to_string(), None),
        seg("default"),
        seg("us-east-1"),
    ]);
    assert!(p.is_aws());
    assert!(!p.is_full());
    assert!(p.is_listing_clusters());
}

#[test]
fn aws_depth_four_is_full() {
    let p = CloudImportPath::from(vec![
        ("aws".to_string(), "AWS".to_string(), None),
        seg("default"),
        seg("us-east-1"),
    ]);
    let full = p.push_clone(seg("my-cluster"));
    assert!(full.is_full());
    assert!(!full.is_listing_clusters());
    assert_eq!(full.len(), 4);
    assert_eq!(full.get_cluster_id(), "my-cluster");
    assert_eq!(full.get_aws_profile(), "default");
    assert_eq!(full.get_aws_region(), "us-east-1");
    assert_eq!(full.get_platform(), "aws");
}

#[test]
fn gcp_depth_two_is_listing_three_is_full() {
    let p = CloudImportPath::from(vec![seg("gcp"), seg("my-project")]);
    assert!(p.is_gcp());
    assert!(p.is_listing_clusters());
    assert!(!p.is_full());
    let full = p.push_clone(seg2("cluster-a", "us-central1-a"));
    assert!(full.is_full());
    assert_eq!(full.get_gcp_project(), "my-project");
    assert_eq!(full.get_gke_zone(), "us-central1-a");
    assert_eq!(full.get_cluster_id(), "cluster-a");
}

#[test]
fn azure_depth_two_is_listing_three_is_full() {
    let p = CloudImportPath::from(vec![seg("azure"), seg("sub-1234")]);
    assert!(p.is_azure());
    assert!(p.is_listing_clusters());
    assert!(!p.is_full());
    let full = p.push_clone(seg2("cluster-b", "rg-main"));
    assert!(full.is_full());
    assert_eq!(full.get_azure_subscription(), "sub-1234");
    assert_eq!(full.get_azure_resource_group(), "rg-main");
    assert_eq!(full.get_cluster_id(), "cluster-b");
}

#[test]
fn unknown_provider_is_never_full() {
    let p = CloudImportPath::from(vec![seg("dimension-x"), seg("a"), seg("b"), seg("c")]);
    assert!(!p.is_full());
    assert!(!p.is_listing_clusters());
}

#[test]
fn push_clone_leaves_original_untouched() {
    let p = CloudImportPath::from(vec![seg("aws")]);
    let q = p.push_clone(seg("prof"));
    assert_eq!(p.len(), 1);
    assert_eq!(q.len(), 2);
    assert!(p.has_aws_profile() == false);
    assert!(q.has_aws_profile());
    assert_eq!(q.get_aws_profile(), "prof");
}

#[test]
fn has_predicates_follow_provider_and_depth() {
    let p = CloudImportPath::from(vec![seg("gcp"), seg("proj")]);
    assert!(p.has_gcp_project());
    assert!(!p.has_aws_profile());
    assert!(!p.has_azure_subscription());
    assert!(!p.has_aws_region());
    let a = CloudImportPath::from(vec![seg("aws"), seg("prof"), seg("eu-west-1")]);
    assert!(a.has_aws_profile());
    assert!(a.has_aws_region());
    let z = CloudImportPath::from(vec![seg("azure"), seg("sub")]);
    assert!(z.has_azure_subscription());
}
