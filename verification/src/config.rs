//! Site configuration: the fixed identity values and the curated link catalog.
//!
//! The catalog order is significant: original work first, generic social
//! presence last, because group order encodes a curated narrative.

use vstd::prelude::*;

use crate::model::{
    catalog_wf, identity_wf, https_prefix, LinkCatalog, LinkCatalogView, LinkEntry, LinkEntryView,
    LinkGroup, LinkGroupView, SiteIdentity,
};

verus! {

/// The artist/site name.
pub const SITE_NAME: &'static str = "EverythingSings";

/// The site domain.
pub const SITE_DOMAIN: &'static str = "everythingsings.art";

/// Full site URL.
pub const SITE_URL: &'static str = "https://everythingsings.art";

/// Site description for meta tags and JSON-LD.
pub const SITE_DESCRIPTION: &'static str =
    "Formless art brand for the future. Exploring AI, art, and sovereign technology.";

/// Path to avatar image (relative to site root).
pub const AVATAR_PATH: &'static str = "/avatar.png";

/// Theme color for browser chrome (matches the dark background).
pub const THEME_COLOR: &'static str = "#0d0d0d";

/// Builds the site identity from the configured constants.
pub fn default_identity() -> (id: SiteIdentity)
    ensures
        id@.name == SITE_NAME@,
        id@.url == SITE_URL@,
        id@.description == SITE_DESCRIPTION@,
        id@.avatar_path == AVATAR_PATH@,
        identity_wf(id@),
{
    let id = SiteIdentity {
        name: SITE_NAME.to_owned(),
        url: SITE_URL.to_owned(),
        description: SITE_DESCRIPTION.to_owned(),
        avatar_path: AVATAR_PATH.to_owned(),
    };
    proof {
        reveal_strlit("EverythingSings");
        reveal_strlit("https://everythingsings.art");
        reveal_strlit(
            "Formless art brand for the future. Exploring AI, art, and sovereign technology.",
        );
        reveal_strlit("/avatar.png");
        assert(id@.url.subrange(0, 8) =~= https_prefix());
        assert(id@.avatar_path.subrange(0, 1) =~= seq!['/']);
    }
    id
}

/// The expected view of the default catalog, group by group.
pub open spec fn spec_default_catalog() -> LinkCatalogView {
    LinkCatalogView {
        groups: seq![
            LinkGroupView {
                name: "Create"@,
                links: seq![
                    LinkEntryView {
                        label: "Lumimenta"@,
                        href: "https://lumimenta.everythingsings.art"@,
                        description: Option::Some("Physical trading card photography series"@),
                    },
                    LinkEntryView {
                        label: "Sigil"@,
                        href: "https://sigil.everythingsings.art"@,
                        description: Option::Some("Explore Sigil"@),
                    },
                    LinkEntryView {
                        label: "Music"@,
                        href: "https://music.apple.com/artist/1704503690"@,
                        description: Option::Some("Listen on Apple Music"@),
                    },
                ],
            },
            LinkGroupView {
                name: "Think"@,
                links: seq![
                    LinkEntryView {
                        label: "Substack"@,
                        href: "https://everythingsings.substack.com"@,
                        description: Option::Some("Writing on AI, art, and technology"@),
                    },
                ],
            },
            LinkGroupView {
                name: "Build"@,
                links: seq![
                    LinkEntryView {
                        label: "GitHub"@,
                        href: "https://github.com/EverythingSings"@,
                        description: Option::Some("Code is art"@),
                    },
                    LinkEntryView {
                        label: "Sovereign Tools"@,
                        href: "https://github.com/sovereign-composable-tools"@,
                        description: Option::Some("Local-first tools for open protocols"@),
                    },
                ],
            },
            LinkGroupView {
                name: "Support"@,
                links: seq![
                    LinkEntryView {
                        label: "Shop"@,
                        href: "https://bedim.redbubble.com"@,
                        description: Option::Some("AI art prints and merchandise"@),
                    },
                ],
            },
            LinkGroupView {
                name: "Connect"@,
                links: seq![
                    LinkEntryView {
                        label: "Mastodon"@,
                        href: "https://mastodon.social/@everythingsings"@,
                        description: Option::Some("Follow on Mastodon"@),
                    },
                    LinkEntryView {
                        label: "Nostr"@,
                        href: "https://primal.net/p/nprofile1qqsvxa6ez4lr32zrhk98xwj8pka3kjjy9v4c823m6pt4gvw8d49vfggjfvjru"@,
                        description: Option::Some("Follow on Nostr"@),
                    },
                    LinkEntryView {
                        label: "X"@,
                        href: "https://x.com/systemicwisdom_"@,
                        description: Option::Some("Follow on X"@),
                    },
                ],
            },
        ],
    }
}

/// The default catalog is well formed: its five group names are distinct and
/// no link target is empty.
pub proof fn lemma_default_catalog_wf()
    ensures
        catalog_wf(spec_default_catalog()),
{
    reveal_strlit("Create");
    reveal_strlit("Think");
    reveal_strlit("Build");
    reveal_strlit("Support");
    reveal_strlit("Connect");
    reveal_strlit("https://lumimenta.everythingsings.art");
    reveal_strlit("https://sigil.everythingsings.art");
    reveal_strlit("https://music.apple.com/artist/1704503690");
    reveal_strlit("https://everythingsings.substack.com");
    reveal_strlit("https://github.com/EverythingSings");
    reveal_strlit("https://github.com/sovereign-composable-tools");
    reveal_strlit("https://bedim.redbubble.com");
    reveal_strlit("https://mastodon.social/@everythingsings");
    reveal_strlit(
        "https://primal.net/p/nprofile1qqsvxa6ez4lr32zrhk98xwj8pka3kjjy9v4c823m6pt4gvw8d49vfggjfvjru",
    );
    reveal_strlit("https://x.com/systemicwisdom_");
    let c = spec_default_catalog();
    assert("Create"@.len() == 6);
    assert("Think"@.len() == 5);
    assert("Build"@.len() == 5);
    assert("Support"@.len() == 7);
    assert("Connect"@.len() == 7);
    assert("Think"@[0] == 'T');
    assert("Build"@[0] == 'B');
    assert("Support"@[0] == 'S');
    assert("Connect"@[0] == 'C');
    assert(c.groups[0].name != c.groups[1].name);
    assert(c.groups[0].name != c.groups[2].name);
    assert(c.groups[0].name != c.groups[3].name);
    assert(c.groups[0].name != c.groups[4].name);
    assert(c.groups[1].name != c.groups[2].name);
    assert(c.groups[1].name != c.groups[3].name);
    assert(c.groups[1].name != c.groups[4].name);
    assert(c.groups[2].name != c.groups[3].name);
    assert(c.groups[2].name != c.groups[4].name);
    assert(c.groups[3].name != c.groups[4].name);
    assert forall|i: int, j: int| 0 <= i < j < c.groups.len() implies (
    #[trigger] c.groups[i].name) != (#[trigger] c.groups[j].name) by {
        assert(0 <= i < 5 && 0 <= j < 5);
    }
    assert forall|i: int| 0 <= i < c.groups.len() implies crate::model::group_wf(
        #[trigger] c.groups[i],
    ) by {
        assert forall|k: int| 0 <= k < c.groups[i].links.len() implies crate::model::entry_wf(
            #[trigger] c.groups[i].links[k],
        ) by {
            if i == 0 {
                assert(c.groups[0].links[0].href.len() > 0);
                assert(c.groups[0].links[1].href.len() > 0);
                assert(c.groups[0].links[2].href.len() > 0);
            } else if i == 1 {
                assert(c.groups[1].links[0].href.len() > 0);
            } else if i == 2 {
                assert(c.groups[2].links[0].href.len() > 0);
                assert(c.groups[2].links[1].href.len() > 0);
            } else if i == 3 {
                assert(c.groups[3].links[0].href.len() > 0);
            } else {
                assert(c.groups[4].links[0].href.len() > 0);
                assert(c.groups[4].links[1].href.len() > 0);
                assert(c.groups[4].links[2].href.len() > 0);
            }
        }
    }
}

/// Builds the curated link catalog: Create, Think, Build, Support, Connect.
pub fn default_catalog() -> (c: LinkCatalog)
    ensures
        c@ == spec_default_catalog(),
        catalog_wf(c@),
{
    let mut groups: Vec<LinkGroup> = Vec::new();

    let mut links: Vec<LinkEntry> = Vec::new();
    links.push(LinkEntry {
        label: "Lumimenta".to_owned(),
        href: "https://lumimenta.everythingsings.art".to_owned(),
        description: Some("Physical trading card photography series".to_owned()),
    });
    links.push(LinkEntry {
        label: "Sigil".to_owned(),
        href: "https://sigil.everythingsings.art".to_owned(),
        description: Some("Explore Sigil".to_owned()),
    });
    links.push(LinkEntry {
        label: "Music".to_owned(),
        href: "https://music.apple.com/artist/1704503690".to_owned(),
        description: Some("Listen on Apple Music".to_owned()),
    });
    groups.push(LinkGroup { name: "Create".to_owned(), links });

    let mut links: Vec<LinkEntry> = Vec::new();
    links.push(LinkEntry {
        label: "Substack".to_owned(),
        href: "https://everythingsings.substack.com".to_owned(),
        description: Some("Writing on AI, art, and technology".to_owned()),
    });
    groups.push(LinkGroup { name: "Think".to_owned(), links });

    let mut links: Vec<LinkEntry> = Vec::new();
    links.push(LinkEntry {
        label: "GitHub".to_owned(),
        href: "https://github.com/EverythingSings".to_owned(),
        description: Some("Code is art".to_owned()),
    });
    links.push(LinkEntry {
        label: "Sovereign Tools".to_owned(),
        href: "https://github.com/sovereign-composable-tools".to_owned(),
        description: Some("Local-first tools for open protocols".to_owned()),
    });
    groups.push(LinkGroup { name: "Build".to_owned(), links });

    let mut links: Vec<LinkEntry> = Vec::new();
    links.push(LinkEntry {
        label: "Shop".to_owned(),
        href: "https://bedim.redbubble.com".to_owned(),
        description: Some("AI art prints and merchandise".to_owned()),
    });
    groups.push(LinkGroup { name: "Support".to_owned(), links });

    let mut links: Vec<LinkEntry> = Vec::new();
    links.push(LinkEntry {
        label: "Mastodon".to_owned(),
        href: "https://mastodon.social/@everythingsings".to_owned(),
        description: Some("Follow on Mastodon".to_owned()),
    });
    links.push(LinkEntry {
        label: "Nostr".to_owned(),
        href: "https://primal.net/p/nprofile1qqsvxa6ez4lr32zrhk98xwj8pka3kjjy9v4c823m6pt4gvw8d49vfggjfvjru".to_owned(),
        description: Some("Follow on Nostr".to_owned()),
    });
    links.push(LinkEntry {
        label: "X".to_owned(),
        href: "https://x.com/systemicwisdom_".to_owned(),
        description: Some("Follow on X".to_owned()),
    });
    groups.push(LinkGroup { name: "Connect".to_owned(), links });

    let c = LinkCatalog { groups };
    proof {
        assert(c@ =~~= spec_default_catalog());
        lemma_default_catalog_wf();
    }
    c
}

} // verus!
