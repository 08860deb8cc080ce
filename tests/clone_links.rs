use repo_sync::links::{
    clone_link_with_label, get_clone_link_for_repo, BitBucketRepo, BitBucketRepoLink,
    DescriptorError, LinkGroup,
};

fn link(href: &str, name: Option<&str>) -> BitBucketRepoLink {
    BitBucketRepoLink { href: href.to_string(), name: name.map(|n| n.to_string()) }
}

fn repo(groups: Vec<(&str, Vec<BitBucketRepoLink>)>) -> BitBucketRepo {
    BitBucketRepo {
        slug: "repo".to_string(),
        name: "Repo".to_string(),
        links: groups
            .into_iter()
            .map(|(category, links)| LinkGroup { category: category.to_string(), links })
            .collect(),
    }
}

#[test]
fn ssh_link_is_chosen() {
    let r = repo(vec![("clone", vec![link("ssh://x", Some("ssh")), link("https://x", Some("http"))])]);
    assert_eq!(get_clone_link_for_repo(&r).ok().flatten().as_deref(), Some("ssh://x"));
}

#[test]
fn ssh_link_after_http_is_chosen() {
    let r = repo(vec![
        ("self", vec![link("https://self", None)]),
        ("clone", vec![link("https://x", Some("http")), link("ssh://y", Some("ssh")), link("ssh://z", Some("ssh"))]),
    ]);
    assert_eq!(get_clone_link_for_repo(&r).ok().flatten().as_deref(), Some("ssh://y"));
}

#[test]
fn no_ssh_link_gives_none() {
    let r = repo(vec![("clone", vec![link("https://x", Some("http")), link("git://x", None)])]);
    assert!(matches!(get_clone_link_for_repo(&r), Ok(None)));
}

#[test]
fn missing_clone_category_is_an_error() {
    let r = repo(vec![("self", vec![link("ssh://x", Some("ssh"))])]);
    assert!(matches!(get_clone_link_for_repo(&r), Err(DescriptorError::MissingCloneLinks)));
    assert!(matches!(get_clone_link_for_repo(&repo(vec![])), Err(DescriptorError::MissingCloneLinks)));
}

#[test]
fn other_label_can_be_asked_for() {
    let r = repo(vec![("clone", vec![link("ssh://x", Some("ssh")), link("https://x", Some("http"))])]);
    let got = clone_link_with_label(&r, &"http".to_string());
    assert_eq!(got.ok().flatten().as_deref(), Some("https://x"));
}
