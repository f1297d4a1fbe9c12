use ktx::cloud::{
    aks_cluster_options, aws_profile_options, aws_region_options, azure_subscription_options,
    eks_cluster_options, gcp_project_options, gke_cluster_options, import_command,
    import_success_message, load_request, provider_options, LoadRequest,
};
use ktx::import_path::CloudImportPath;

fn seg(id: &str) -> (String, String, Option<String>) {
    (id.to_string(), id.to_string(), None)
}

fn seg2(id: &str, secondary: &str) -> (String, String, Option<String>) {
    (id.to_string(), id.to_string(), Some(secondary.to_string()))
}

#[test]
fn load_request_follows_drilldown_table() {
    assert!(matches!(load_request(&CloudImportPath::from(vec![])), LoadRequest::CloudOptions));
    assert!(matches!(
        load_request(&CloudImportPath::from(vec![seg("aws")])),
        LoadRequest::AwsProfiles
    ));
    assert!(matches!(
        load_request(&CloudImportPath::from(vec![seg("aws"), seg("dev")])),
        LoadRequest::AwsRegions(p) if p == "dev"
    ));
    assert!(matches!(
        load_request(&CloudImportPath::from(vec![seg("aws"), seg("dev"), seg("eu-west-1")])),
        LoadRequest::EksClusters(p, r) if p == "dev" && r == "eu-west-1"
    ));
    assert!(matches!(
        load_request(&CloudImportPath::from(vec![seg("gcp")])),
        LoadRequest::GcpProjects
    ));
    assert!(matches!(
        load_request(&CloudImportPath::from(vec![seg("gcp"), seg("proj")])),
        LoadRequest::GkeClusters(p) if p == "proj"
    ));
    assert!(matches!(
        load_request(&CloudImportPath::from(vec![seg("azure")])),
        LoadRequest::AzureSubscriptions
    ));
    assert!(matches!(
        load_request(&CloudImportPath::from(vec![seg("azure"), seg("sub")])),
        LoadRequest::AksClusters(s) if s == "sub"
    ));
    // a full path loads nothing
    assert!(matches!(
        load_request(&CloudImportPath::from(vec![
            seg("aws"), seg("dev"), seg("eu-west-1"), seg("c")
        ])),
        LoadRequest::Nothing
    ));
    // an unknown provider loads nothing
    assert!(matches!(
        load_request(&CloudImportPath::from(vec![seg("ibm")])),
        LoadRequest::Nothing
    ));
}

#[test]
fn provider_menu_keeps_fixed_order() {
    let all = provider_options(true, true, true);
    assert_eq!(all.len(), 3);
    assert_eq!(all[0].0, "aws");
    assert_eq!(all[0].1, "AWS");
    assert_eq!(all[1].0, "gcp");
    assert_eq!(all[1].1, "GCP");
    assert_eq!(all[2].0, "azure");
    assert_eq!(all[2].1, "Azure");
    let some = provider_options(false, true, false);
    assert_eq!(some.len(), 1);
    assert_eq!(some[0].0, "gcp");
    let none = provider_options(false, false, false);
    assert!(none.is_empty());
}

#[test]
fn gcp_projects_filter_system_and_inactive() {
    let rows = vec![
        ("proj-1".to_string(), "One".to_string(), "ACTIVE".to_string()),
        ("sys-999".to_string(), "System".to_string(), "ACTIVE".to_string()),
        ("proj-2".to_string(), "Two".to_string(), "DELETE_REQUESTED".to_string()),
        ("".to_string(), "NoId".to_string(), "ACTIVE".to_string()),
        ("proj-3".to_string(), "".to_string(), "ACTIVE".to_string()),
        ("proj-4".to_string(), "Four".to_string(), "ACTIVE".to_string()),
    ];
    let opts = gcp_project_options(&rows);
    assert_eq!(opts.len(), 2);
    assert_eq!(opts[0].0, "proj-1");
    assert_eq!(opts[0].1, "One (proj-1)");
    assert!(opts[0].2.is_none());
    assert_eq!(opts[1].0, "proj-4");
    assert_eq!(opts[1].1, "Four (proj-4)");
}

#[test]
fn gke_clusters_carry_zone_as_secondary() {
    let rows = vec![("c1".to_string(), "us-east1-b".to_string())];
    let opts = gke_cluster_options(&rows);
    assert_eq!(opts.len(), 1);
    assert_eq!(opts[0].0, "c1");
    assert_eq!(opts[0].1, "c1");
    assert_eq!(opts[0].2.as_deref(), Some("us-east1-b"));
}

#[test]
fn aws_profiles_drop_empty_lines() {
    let lines = vec!["default".to_string(), "".to_string(), "work".to_string()];
    let opts = aws_profile_options(&lines);
    assert_eq!(opts.len(), 2);
    assert_eq!(opts[0].0, "default");
    assert_eq!(opts[1].0, "work");
}

#[test]
fn aws_regions_and_eks_clusters_pass_through() {
    let rows = vec!["eu-west-1".to_string(), "us-east-1".to_string()];
    let regions = aws_region_options(&rows);
    assert_eq!(regions.len(), 2);
    assert_eq!(regions[1].0, "us-east-1");
    let clusters = eks_cluster_options(&rows);
    assert_eq!(clusters.len(), 2);
    assert_eq!(clusters[0].1, "eu-west-1");
}

#[test]
fn aks_clusters_label_resource_group() {
    let rows = vec![("k1".to_string(), "rg-a".to_string())];
    let opts = aks_cluster_options(&rows);
    assert_eq!(opts[0].0, "k1");
    assert_eq!(opts[0].1, "k1 (RG: rg-a)");
    assert_eq!(opts[0].2.as_deref(), Some("rg-a"));
}

#[test]
fn azure_subscriptions_need_both_fields() {
    let rows = vec![
        ("id-1".to_string(), "Main".to_string()),
        ("".to_string(), "NoId".to_string()),
        ("id-2".to_string(), "".to_string()),
    ];
    let opts = azure_subscription_options(&rows);
    assert_eq!(opts.len(), 1);
    assert_eq!(opts[0].0, "id-1");
    assert_eq!(opts[0].1, "Main (id-1)");
}

#[test]
fn aws_import_command_argv_is_exact() {
    let p = CloudImportPath::from(vec![seg("aws"), seg("dev"), seg("eu-west-1"), seg("k")]);
    let c = import_command(&p).expect("aws command");
    assert_eq!(c.program, "aws");
    let args: Vec<&str> = c.args.iter().map(|s| s.as_str()).collect();
    assert_eq!(
        args,
        vec!["--region", "eu-west-1", "--profile", "dev", "eks", "update-kubeconfig", "--name", "k"]
    );
}

#[test]
fn gke_import_command_argv_is_exact() {
    let p = CloudImportPath::from(vec![seg("gcp"), seg("proj"), seg2("k", "us-east1-b")]);
    let c = import_command(&p).expect("gcloud command");
    assert_eq!(c.program, "gcloud");
    let args: Vec<&str> = c.args.iter().map(|s| s.as_str()).collect();
    assert_eq!(
        args,
        vec![
            "container", "clusters", "get-credentials", "k", "--zone", "us-east1-b", "--project",
            "proj"
        ]
    );
}

#[test]
fn aks_import_command_argv_is_exact() {
    let p = CloudImportPath::from(vec![seg("azure"), seg("sub"), seg2("k", "rg-a")]);
    let c = import_command(&p).expect("az command");
    assert_eq!(c.program, "az");
    let args: Vec<&str> = c.args.iter().map(|s| s.as_str()).collect();
    assert_eq!(
        args,
        vec![
            "aks", "get-credentials", "--resource-group", "rg-a", "--name", "k", "--subscription",
            "sub", "--overwrite-existing"
        ]
    );
}

#[test]
fn import_command_refuses_malformed_paths() {
    // unknown provider
    assert!(import_command(&CloudImportPath::from(vec![seg("ibm"), seg("a"), seg("b")])).is_none());
    // gcp terminal segment without a zone
    assert!(import_command(&CloudImportPath::from(vec![seg("gcp"), seg("p"), seg("k")])).is_none());
    // azure terminal segment without a resource group
    assert!(
        import_command(&CloudImportPath::from(vec![seg("azure"), seg("s"), seg("k")])).is_none()
    );
    // aws path short of full
    assert!(import_command(&CloudImportPath::from(vec![seg("aws"), seg("p")])).is_none());
}

#[test]
fn success_message_names_the_cluster() {
    let p = CloudImportPath::from(vec![seg("aws"), seg("dev"), seg("eu-west-1"), seg("k")]);
    assert_eq!(import_success_message(&p), "Successfully imported k");
}
