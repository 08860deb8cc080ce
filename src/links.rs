use vstd::prelude::*;

verus! {

/// One link of a repository: where it points, and the transport it names.
pub struct BitBucketRepoLink {
    pub href: String,
    pub name: Option<String>,
}

/// The links of one category (such as `clone`), in the order the host gave them.
pub struct LinkGroup {
    pub category: String,
    pub links: Vec<BitBucketRepoLink>,
}

/// A repository of a hosted project.
pub struct BitBucketRepo {
    /// Filesystem-safe identifier, also the name of the local directory.
    pub slug: String,
    /// Display name.
    pub name: String,
    /// The link groups, at most one per category.
    pub links: Vec<LinkGroup>,
}

/// One page of a project's repository listing.
pub struct BitBucketRepoListResult {
    /// How many repositories the project has in all.
    pub size: usize,
    /// The most repositories that one page holds.
    pub limit: usize,
    pub repos: Vec<BitBucketRepo>,
}

/// Why a repository descriptor cannot be used.
pub enum DescriptorError {
    /// The descriptor has no `clone` link category at all.
    MissingCloneLinks,
}

/// Each category names at most one group, as in a mapping from category to links.
pub open spec fn links_well_formed(groups: Seq<LinkGroup>) -> bool {
    forall|i: int, j: int|
        0 <= i < j < groups.len() ==> groups[i].category@ != groups[j].category@
}

impl BitBucketRepo {
    pub open spec fn well_formed(&self) -> bool {
        links_well_formed(self.links@)
    }
}

/// The category of the links that a repository can be cloned from.
pub open spec fn clone_category() -> Seq<char> {
    seq!['c', 'l', 'o', 'n', 'e']
}

/// The label of secure-shell transport, the one used unless another is asked for.
pub open spec fn ssh_label() -> Seq<char> {
    seq!['s', 's', 'h']
}

pub open spec fn has_label(link: BitBucketRepoLink, label: Seq<char>) -> bool {
    link.name matches Some(n) && n@ == label
}

/// `k` is the first group of `groups` of the category `category`.
pub open spec fn is_first_group(groups: Seq<LinkGroup>, category: Seq<char>, k: int) -> bool {
    &&& 0 <= k < groups.len()
    &&& groups[k].category@ == category
    &&& forall|j: int| 0 <= j < k ==> groups[j].category@ != category
}

/// `k` is the first link of `links` with the label `label`.
pub open spec fn is_first_labelled(links: Seq<BitBucketRepoLink>, label: Seq<char>, k: int) -> bool {
    &&& 0 <= k < links.len()
    &&& has_label(links[k], label)
    &&& forall|j: int| 0 <= j < k ==> !has_label(links[j], label)
}

pub open spec fn has_category(groups: Seq<LinkGroup>, category: Seq<char>) -> bool {
    exists|k: int| 0 <= k < groups.len() && groups[k].category@ == category
}

/// What the resolver owes for `groups` and `label`: an error without a clone
/// category; else the target of the first clone link with that label, if any.
pub open spec fn clone_link_spec(
    groups: Seq<LinkGroup>,
    label: Seq<char>,
    r: Result<Option<String>, DescriptorError>,
) -> bool {
    match r {
        Err(_) => !has_category(groups, clone_category()),
        Ok(found) => exists|g: int|
            {
                &&& #[trigger] is_first_group(groups, clone_category(), g)
                &&& match found {
                    Some(href) => exists|k: int|
                        #[trigger] is_first_labelled(groups[g].links@, label, k)
                            && href@ == groups[g].links@[k].href@,
                    None => forall|k: int|
                        0 <= k < groups[g].links@.len() ==> !has_label(
                            #[trigger] groups[g].links@[k],
                            label,
                        ),
                }
            },
    }
}

/// The first link of `links` labelled `label`, as its target.
fn first_labelled_href(links: &Vec<BitBucketRepoLink>, label: &String) -> (r: Option<String>)
    ensures
        match r {
            Some(href) => exists|k: int|
                #[trigger] is_first_labelled(links@, label@, k) && href@ == links@[k].href@,
            None => forall|k: int| 0 <= k < links@.len() ==> !has_label(#[trigger] links@[k], label@),
        },
{
    let mut k: usize = 0;
    while k < links.len()
        invariant
            k <= links@.len(),
            forall|j: int| 0 <= j < k ==> !has_label(#[trigger] links@[j], label@),
        decreases links@.len() - k,
    {
        let link = &links[k];
        let matches_label = match &link.name {
            Some(n) => *n == *label,
            None => false,
        };
        if matches_label {
            assert(is_first_labelled(links@, label@, k as int));
            return Some(link.href.clone());
        }
        k = k + 1;
    }
    None
}

/// Resolves the link to clone `repo` from: the target of the first link in its
/// `clone` category whose label is `label`. `Ok(None)` where no such link is
/// there; no other transport is taken in its place. A descriptor without a
/// `clone` category is malformed.
pub fn clone_link_with_label(repo: &BitBucketRepo, label: &String) -> (r: Result<
    Option<String>,
    DescriptorError,
>)
    ensures
        clone_link_spec(repo.links@, label@, r),
{
    let clone = String::from_str("clone");
    proof {
        reveal_strlit("clone");
        assert(clone@ =~= clone_category());
    }
    let mut g: usize = 0;
    while g < repo.links.len()
        invariant
            g <= repo.links@.len(),
            clone@ == clone_category(),
            forall|j: int| 0 <= j < g ==> (#[trigger] repo.links@[j]).category@ != clone_category(),
        decreases repo.links@.len() - g,
    {
        if repo.links[g].category == clone {
            assert(is_first_group(repo.links@, clone_category(), g as int));
            let found = first_labelled_href(&repo.links[g].links, label);
            return Ok(found);
        }
        g = g + 1;
    }
    Err(DescriptorError::MissingCloneLinks)
}

/// Resolves the link to clone `repo` from over secure-shell transport.
pub fn get_clone_link_for_repo(repo: &BitBucketRepo) -> (r: Result<Option<String>, DescriptorError>)
    ensures
        clone_link_spec(repo.links@, ssh_label(), r),
{
    let ssh = String::from_str("ssh");
    proof {
        reveal_strlit("ssh");
        assert(ssh@ =~= ssh_label());
    }
    clone_link_with_label(repo, &ssh)
}

} // verus!
