//! The content model: site identity and the catalog of outbound link groups.
//!
//! All values are built once at startup and read-only afterwards. Each type
//! has a mathematical view and a well-formedness predicate; `validate_identity`
//! and `validate_catalog` decide the predicates at startup, so that no
//! renderer ever works on a malformed model unnoticed.

use vstd::prelude::*;

use crate::substring::has_prefix;

verus! {

/// The identity of the site: one person, one canonical URL.
pub struct SiteIdentity {
    /// Display name.
    pub name: String,
    /// Canonical absolute URL; must begin with `https://`.
    pub url: String,
    /// Short bio, used as meta description and JSON-LD description.
    pub description: String,
    /// Root-relative path of the avatar image; must begin with `/`.
    pub avatar_path: String,
}

/// The mathematical view of a `SiteIdentity`.
#[verifier::ext_equal]
pub struct SiteIdentityView {
    pub name: Seq<char>,
    pub url: Seq<char>,
    pub description: Seq<char>,
    pub avatar_path: Seq<char>,
}

impl View for SiteIdentity {
    type V = SiteIdentityView;

    open spec fn view(&self) -> SiteIdentityView {
        SiteIdentityView {
            name: self.name@,
            url: self.url@,
            description: self.description@,
            avatar_path: self.avatar_path@,
        }
    }
}

/// A single outbound link with display text and URL.
#[derive(Clone)]
pub struct LinkEntry {
    /// The display text for the link.
    pub label: String,
    /// The URL the link points to.
    pub href: String,
    /// Optional description revealed on hover/focus.
    pub description: Option<String>,
}

/// The mathematical view of a `LinkEntry`.
#[verifier::ext_equal]
pub struct LinkEntryView {
    pub label: Seq<char>,
    pub href: Seq<char>,
    pub description: Option<Seq<char>>,
}

impl View for LinkEntry {
    type V = LinkEntryView;

    open spec fn view(&self) -> LinkEntryView {
        LinkEntryView {
            label: self.label@,
            href: self.href@,
            description: match self.description {
                Option::Some(d) => Option::Some(d@),
                Option::None => Option::None,
            },
        }
    }
}

/// A group of related links with a semantic label.
#[derive(Clone)]
pub struct LinkGroup {
    /// The group name (e.g. "Create", "Think").
    pub name: String,
    /// The links belonging to this group, in declaration order.
    pub links: Vec<LinkEntry>,
}

/// The mathematical view of a `LinkGroup`.
#[verifier::ext_equal]
pub struct LinkGroupView {
    pub name: Seq<char>,
    pub links: Seq<LinkEntryView>,
}

impl View for LinkGroup {
    type V = LinkGroupView;

    open spec fn view(&self) -> LinkGroupView {
        LinkGroupView { name: self.name@, links: self.links@.map_values(|l: LinkEntry| l@) }
    }
}

/// The ordered sequence of link groups: the single source of truth for the
/// link section. Group order is significant and is preserved by rendering.
pub struct LinkCatalog {
    /// The groups, in declaration order.
    pub groups: Vec<LinkGroup>,
}

/// The mathematical view of a `LinkCatalog`.
#[verifier::ext_equal]
pub struct LinkCatalogView {
    pub groups: Seq<LinkGroupView>,
}

impl View for LinkCatalog {
    type V = LinkCatalogView;

    open spec fn view(&self) -> LinkCatalogView {
        LinkCatalogView { groups: self.groups@.map_values(|g: LinkGroup| g@) }
    }
}

/// The fixed URL scheme prefix every canonical site URL must carry.
pub open spec fn https_prefix() -> Seq<char> {
    seq!['h', 't', 't', 'p', 's', ':', '/', '/']
}

/// A well-formed identity: non-empty name and description, a canonical URL
/// beginning with `https://`, and a root-relative avatar path.
pub open spec fn identity_wf(id: SiteIdentityView) -> bool {
    &&& id.name.len() > 0
    &&& id.description.len() > 0
    &&& has_prefix(id.url, https_prefix())
    &&& has_prefix(id.avatar_path, seq!['/'])
}

/// A well-formed link: its target is never empty.
pub open spec fn entry_wf(l: LinkEntryView) -> bool {
    l.href.len() > 0
}

pub open spec fn group_wf(g: LinkGroupView) -> bool {
    forall|k: int| 0 <= k < g.links.len() ==> entry_wf(#[trigger] g.links[k])
}

/// A well-formed catalog: group names are unique and no link target is empty.
pub open spec fn catalog_wf(c: LinkCatalogView) -> bool {
    &&& forall|i: int, j: int|
        0 <= i < j < c.groups.len() ==> (#[trigger] c.groups[i].name) != (
        #[trigger] c.groups[j].name)
    &&& forall|i: int| 0 <= i < c.groups.len() ==> group_wf(#[trigger] c.groups[i])
}

/// Decides `identity_wf` for a concrete identity.
pub fn validate_identity(id: &SiteIdentity) -> (r: bool)
    ensures
        r == identity_wf(id@),
{
    proof {
        reveal_strlit("https://");
        assert("https://"@ =~= https_prefix());
        reveal_strlit("/");
        assert("/"@ =~= seq!['/']);
    }
    !id.name.as_str().is_empty() && !id.description.as_str().is_empty()
        && crate::substring::str_has_prefix(id.url.as_str(), "https://")
        && crate::substring::str_has_prefix(id.avatar_path.as_str(), "/")
}

/// Decides `catalog_wf` for a concrete catalog.
pub fn validate_catalog(c: &LinkCatalog) -> (r: bool)
    ensures
        r == catalog_wf(c@),
{
    let n = c.groups.len();
    let mut i: usize = 0;
    while i < n
        invariant
            n == c.groups.len(),
            i <= n,
            forall|a: int, b: int|
                0 <= a < b < n && a < i ==> (#[trigger] c@.groups[a].name) != (
                #[trigger] c@.groups[b].name),
            forall|a: int| 0 <= a < i ==> group_wf(#[trigger] c@.groups[a]),
        decreases n - i,
    {
        let mut j: usize = i + 1;
        while j < n
            invariant
                n == c.groups.len(),
                i < j || j == i + 1,
                i < n,
                i + 1 <= j <= n,
                forall|b: int|
                    i < b < j ==> (#[trigger] c@.groups[b].name) != c@.groups[i as int].name,
            decreases n - j,
        {
            if crate::substring::str_eq(c.groups[i].name.as_str(), c.groups[j].name.as_str()) {
                proof {
                    assert(c@.groups[i as int].name == c@.groups[j as int].name);
                    assert(!catalog_wf(c@));
                }
                return false;
            }
            j += 1;
        }
        let g = &c.groups[i];
        let m = g.links.len();
        let mut k: usize = 0;
        while k < m
            invariant
                n == c.groups.len(),
                i < n,
                m == g.links.len(),
                k <= m,
                g@ == c@.groups[i as int],
                forall|t: int| 0 <= t < k ==> entry_wf(#[trigger] g@.links[t]),
            decreases m - k,
        {
            if g.links[k].href.as_str().is_empty() {
                proof {
                    assert(!entry_wf(g@.links[k as int]));
                    assert(!group_wf(c@.groups[i as int]));
                    assert(!catalog_wf(c@));
                }
                return false;
            }
            k += 1;
        }
        assert(group_wf(c@.groups[i as int]));
        i += 1;
    }
    true
}

} // verus!
