//! A security advisory, as far as the index reads it: its tracking data,
//! its notes, its vulnerabilities and the tree of the products they touch.

use crate::query::{ScoreKey, Timestamp};
use crate::schema::str_equal;
use vstd::prelude::*;

verus! {

/// How far the advisory has come.
#[derive(Clone, Copy, Debug, PartialEq, Eq, Structural)]
pub enum Status {
    Draft,
    Interim,
    Final,
}

impl Status {
    /// The label under which a status is indexed.
    pub open spec fn label(self) -> Seq<char> {
        match self {
            Status::Draft => "draft"@,
            Status::Interim => "interim"@,
            Status::Final => "final"@,
        }
    }

    /// The label under which the status is indexed.
    pub fn as_str(&self) -> (label: &'static str)
        ensures
            label@ == self.label(),
    {
        match self {
            Status::Draft => "draft",
            Status::Interim => "interim",
            Status::Final => "final",
        }
    }
}

/// What a note is about.
#[derive(Clone, Copy, Debug, PartialEq, Eq, Structural)]
pub enum NoteCategory {
    Description,
    Details,
    Faq,
    General,
    LegalDisclaimer,
    Other,
    Summary,
}

/// A note of an advisory or of a vulnerability.
#[derive(Clone, Debug, PartialEq, Eq)]
pub struct Note {
    pub category: NoteCategory,
    pub text: String,
}

/// The qualitative rating of a score.
#[derive(Clone, Copy, Debug, PartialEq, Eq, Structural)]
pub enum Severity {
    /// A score of zero: rated "none".
    Zero,
    Low,
    Medium,
    High,
    Critical,
}

impl Severity {
    /// The label under which a severity is indexed.
    pub open spec fn label(self) -> Seq<char> {
        match self {
            Severity::Zero => "none"@,
            Severity::Low => "low"@,
            Severity::Medium => "medium"@,
            Severity::High => "high"@,
            Severity::Critical => "critical"@,
        }
    }

    /// The label under which the severity is indexed.
    pub fn as_str(&self) -> (label: &'static str)
        ensures
            label@ == self.label(),
    {
        match self {
            Severity::Zero => "none",
            Severity::Low => "low",
            Severity::Medium => "medium",
            Severity::High => "high",
            Severity::Critical => "critical",
        }
    }
}

/// A version 3 base score with its rating.
#[derive(Clone, Copy, Debug, PartialEq, Eq)]
pub struct Cvss {
    pub score: ScoreKey,
    pub severity: Severity,
}

/// A score of a vulnerability. It may lack a version 3 score.
#[derive(Clone, Copy, Debug, PartialEq, Eq)]
pub struct Score {
    pub cvss_v3: Option<Cvss>,
}

/// The identifiers by which a product is known outside the advisory.
#[derive(Clone, Debug, PartialEq, Eq)]
pub struct ProductHelper {
    pub cpe: Option<String>,
    pub purl: Option<String>,
}

/// A product that the advisory names.
#[derive(Clone, Debug, PartialEq, Eq)]
pub struct Product {
    pub product_id: String,
    pub helper: Option<ProductHelper>,
}

/// A node of the product tree: it may be a product, and it may have
/// branches below it.
#[derive(Debug)]
pub struct Branch {
    pub product: Option<Product>,
    pub branches: Option<Vec<Branch>>,
}

/// A product that is made of two others.
#[derive(Clone, Debug, PartialEq, Eq)]
pub struct Relationship {
    /// The identifier of the combined product.
    pub product_id: String,
    pub product_reference: String,
    pub relates_to_product_reference: String,
}

/// The products of an advisory.
#[derive(Debug)]
pub struct ProductTree {
    pub branches: Option<Vec<Branch>>,
    pub relationships: Option<Vec<Relationship>>,
}

/// Which products a vulnerability touches, by their identifiers.
#[derive(Clone, Debug, PartialEq, Eq)]
pub struct ProductStatus {
    pub known_affected: Option<Vec<String>>,
    pub fixed: Option<Vec<String>>,
}

/// A vulnerability of an advisory.
#[derive(Clone, Debug, PartialEq, Eq)]
pub struct Vulnerability {
    pub title: Option<String>,
    pub cve: Option<String>,
    pub scores: Option<Vec<Score>>,
    /// The identifier of the weakness.
    pub cwe: Option<String>,
    pub notes: Option<Vec<Note>>,
    pub product_status: Option<ProductStatus>,
    pub discovery_date: Option<Timestamp>,
    pub release_date: Option<Timestamp>,
}

/// A security advisory.
#[derive(Debug)]
pub struct Advisory {
    pub title: String,
    pub status: Status,
    pub notes: Option<Vec<Note>>,
    pub aggregate_severity: Option<String>,
    /// The summaries of the revisions, oldest first.
    pub revision_history: Vec<String>,
    pub initial_release_date: Timestamp,
    pub current_release_date: Timestamp,
    pub product_tree: Option<ProductTree>,
    pub vulnerabilities: Option<Vec<Vulnerability>>,
}

/// The identifiers of a product, as they are indexed.
#[derive(Clone, Debug, PartialEq, Eq)]
pub struct ProductPackage {
    pub cpe: Option<String>,
    pub purl: Option<String>,
}

/// The helper that a branch itself has for the product `id`.
pub open spec fn own_helper(branch: Branch, id: Seq<char>) -> Option<ProductHelper> {
    match branch.product {
        Some(product) => if product.product_id@ == id {
            product.helper
        } else {
            None
        },
        None => None,
    }
}

/// The first helper for the product `id` among the branches from position
/// `from` on, where a branch comes before the branches below it, and those
/// before the branch that follows it.
pub open spec fn helper_from(branches: Vec<Branch>, from: int, id: Seq<char>) -> Option<
    ProductHelper,
>
    decreases branches, branches.len() - from,
{
    if from < 0 || from >= branches.len() {
        None
    } else {
        let branch = branches[from];
        if own_helper(branch, id) is Some {
            own_helper(branch, id)
        } else {
            let nested = match branch.branches {
                Some(below) => helper_from(below, 0, id),
                None => None,
            };
            if nested is Some {
                nested
            } else {
                helper_from(branches, from + 1, id)
            }
        }
    }
}

/// The first helper for a product in a tree of branches.
pub open spec fn helper_in(branches: Vec<Branch>, id: Seq<char>) -> Option<ProductHelper> {
    helper_from(branches, 0, id)
}

/// Finds the identification helper of a product in a tree of branches: the
/// first one in the order in which the tree is written.
pub fn find_product_identifier<'a>(branches: &'a Vec<Branch>, product_id: &str) -> (found: Option<
    &'a ProductHelper,
>)
    ensures
        match found {
            Some(helper) => helper_in(*branches, product_id@) == Some(*helper),
            None => helper_in(*branches, product_id@) is None,
        },
    decreases branches,
{
    let mut i: usize = 0;
    while i < branches.len()
        invariant
            i <= branches.len(),
            helper_in(*branches, product_id@) == helper_from(*branches, i as int, product_id@),
        decreases branches.len() - i,
    {
        let branch = &branches[i];
        if let Some(product) = &branch.product {
            if str_equal(product.product_id.as_str(), product_id) {
                if let Some(helper) = &product.helper {
                    return Some(helper);
                }
            }
        }
        if let Some(below) = &branch.branches {
            let nested = find_product_identifier(below, product_id);
            if nested.is_some() {
                return nested;
            }
        }
        i += 1;
    }
    None
}

/// The two products that the combined product `id` is made of, by the
/// first relationship from position `from` on that defines it.
pub open spec fn reference_from(relationships: Seq<Relationship>, from: int, id: Seq<char>) -> Option<
    (Seq<char>, Seq<char>),
>
    decreases relationships.len() - from,
{
    if from < 0 || from >= relationships.len() {
        None
    } else if relationships[from].product_id@ == id {
        Some(
            (
                relationships[from].product_reference@,
                relationships[from].relates_to_product_reference@,
            ),
        )
    } else {
        reference_from(relationships, from + 1, id)
    }
}

/// The two products that a combined product is made of, if the tree has a
/// relationship that defines it.
pub open spec fn reference_in(tree: ProductTree, id: Seq<char>) -> Option<(Seq<char>, Seq<char>)> {
    match tree.relationships {
        Some(relationships) => reference_from(relationships@, 0, id),
        None => None,
    }
}

/// Finds the two products that a combined product is made of.
pub fn find_product_ref<'a>(tree: &'a ProductTree, product_id: &str) -> (found: Option<
    (&'a str, &'a str),
>)
    ensures
        match found {
            Some((product, related)) => reference_in(*tree, product_id@) == Some(
                (product@, related@),
            ),
            None => reference_in(*tree, product_id@) is None,
        },
{
    if let Some(relationships) = &tree.relationships {
        let mut i: usize = 0;
        while i < relationships.len()
            invariant
                i <= relationships.len(),
                reference_in(*tree, product_id@) == reference_from(
                    relationships@,
                    i as int,
                    product_id@,
                ),
            decreases relationships.len() - i,
        {
            let relationship = &relationships[i];
            if str_equal(relationship.product_id.as_str(), product_id) {
                return Some(
                    (
                        relationship.product_reference.as_str(),
                        relationship.relates_to_product_reference.as_str(),
                    ),
                );
            }
            i += 1;
        }
        None
    } else {
        None
    }
}

/// The identifiers of a helper, as a pair of texts.
pub open spec fn identifiers(helper: Option<ProductHelper>) -> Option<
    (Option<Seq<char>>, Option<Seq<char>>),
> {
    match helper {
        Some(h) => Some(
            (
                match h.cpe {
                    Some(cpe) => Some(cpe@),
                    None => None,
                },
                match h.purl {
                    Some(purl) => Some(purl@),
                    None => None,
                },
            ),
        ),
        None => None,
    }
}

impl ProductPackage {
    /// The identifiers of a package, as a pair of texts.
    pub open spec fn pair(self) -> (Option<Seq<char>>, Option<Seq<char>>) {
        (
            match self.cpe {
                Some(cpe) => Some(cpe@),
                None => None,
            },
            match self.purl {
                Some(purl) => Some(purl@),
                None => None,
            },
        )
    }
}

/// The identifiers of a package that may be missing.
pub open spec fn package_pair(package: Option<ProductPackage>) -> Option<
    (Option<Seq<char>>, Option<Seq<char>>),
> {
    match package {
        Some(p) => Some(p.pair()),
        None => None,
    }
}

/// The identifiers of the two products that the combined product `id` is
/// made of: both are missing where the advisory has no product tree, the
/// tree has no relationship for `id`, or the tree has no branches.
pub open spec fn packages_of(advisory: Advisory, id: Seq<char>) -> (
    Option<(Option<Seq<char>>, Option<Seq<char>>)>,
    Option<(Option<Seq<char>>, Option<Seq<char>>)>,
) {
    match advisory.product_tree {
        Some(tree) => match (reference_in(tree, id), tree.branches) {
            (Some((product, related)), Some(branches)) => (
                identifiers(helper_in(branches, product)),
                identifiers(helper_in(branches, related)),
            ),
            _ => (None, None),
        },
        None => (None, None),
    }
}

/// Copies the identifiers of a helper.
fn package_of(helper: Option<&ProductHelper>) -> (package: Option<ProductPackage>)
    ensures
        package_pair(package) == identifiers(
            match helper {
                Some(h) => Some(*h),
                None => None,
            },
        ),
{
    match helper {
        Some(h) => {
            let cpe = match &h.cpe {
                Some(cpe) => Some(cpe.clone()),
                None => None,
            };
            let purl = match &h.purl {
                Some(purl) => Some(purl.clone()),
                None => None,
            };
            Some(ProductPackage { cpe, purl })
        },
        None => None,
    }
}

/// Resolves a combined product to the identifiers of the two products it
/// is made of.
pub fn find_product_package(advisory: &Advisory, product_id: &str) -> (found: (
    Option<ProductPackage>,
    Option<ProductPackage>,
))
    ensures
        (package_pair(found.0), package_pair(found.1)) == packages_of(*advisory, product_id@),
{
    if let Some(tree) = &advisory.product_tree {
        if let Some((p_ref, p_ref_related)) = find_product_ref(tree, product_id) {
            if let Some(branches) = &tree.branches {
                let pp = package_of(find_product_identifier(branches, p_ref));
                let related_pp = package_of(find_product_identifier(branches, p_ref_related));
                return (pp, related_pp);
            }
        }
    }
    (None, None)
}

} // verus!
