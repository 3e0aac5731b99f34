//! The link rendering engine: turns the catalog into grouped, accessible
//! markup with `rel="me"` and `sameAs` annotations on every anchor.
//!
//! The group container (`section.link-group`) and the group heading
//! (`h2.link-group-label`) carry disjoint markers, so groups can be counted
//! without over-counting headings.

use vstd::prelude::*;

use crate::escape::{escape_html, escape_html_text};
use crate::model::{LinkCatalog, LinkCatalogView, LinkEntry, LinkEntryView, LinkGroup,
    LinkGroupView};
use crate::substring::{contains_at, contains_sub, lemma_contains_at_left,
    lemma_contains_at_right, lemma_contains_at_self, lemma_contains_at_trans};

verus! {

/// The `title` attribute value: the description if present, else the label.
pub open spec fn spec_link_title(l: LinkEntryView) -> Seq<char> {
    match l.description {
        Option::Some(d) => escape_html(d),
        Option::None => escape_html(l.label),
    }
}

/// Everything up to and including the closing `">` of the anchor's open tag.
pub open spec fn spec_link_open(l: LinkEntryView) -> Seq<char> {
    "<li class=\"link-item\"><a href=\""@ + escape_html(l.href)
        + "\" rel=\"me noopener\" itemprop=\"sameAs\" class=\"link-card\" title=\""@
        + spec_link_title(l) + "\">"@
}

/// The label span, always present.
pub open spec fn spec_label_span(l: LinkEntryView) -> Seq<char> {
    "<span class=\"link-label\">"@ + escape_html(l.label) + "</span>"@
}

/// The description span: present exactly when the link has a description.
pub open spec fn spec_desc_span(l: LinkEntryView) -> Seq<char> {
    match l.description {
        Option::Some(d) => "<span class=\"link-description\">"@ + escape_html(d) + "</span>"@,
        Option::None => Seq::empty(),
    }
}

/// One rendered link item.
pub open spec fn spec_render_link(l: LinkEntryView) -> Seq<char> {
    spec_link_open(l) + spec_label_span(l) + spec_desc_span(l) + "</a></li>"@
}

/// The rendered items of a group, in declaration order.
pub open spec fn spec_render_links(ls: Seq<LinkEntryView>) -> Seq<char>
    decreases ls.len(),
{
    if ls.len() == 0 {
        Seq::empty()
    } else {
        spec_render_link(ls[0]) + spec_render_links(ls.drop_first())
    }
}

/// One rendered group: a labelled section holding the ordered list of items.
pub open spec fn spec_render_group(g: LinkGroupView) -> Seq<char> {
    "<section class=\"link-group\"><h2 class=\"link-group-label\">"@ + escape_html(g.name)
        + "</h2><ul>"@ + spec_render_links(g.links) + "</ul></section>"@
}

/// The rendered groups of the catalog, in declaration order.
pub open spec fn spec_render_groups(gs: Seq<LinkGroupView>) -> Seq<char>
    decreases gs.len(),
{
    if gs.len() == 0 {
        Seq::empty()
    } else {
        spec_render_group(gs[0]) + spec_render_groups(gs.drop_first())
    }
}

/// The opening tag of the navigation container.
pub open spec fn spec_nav_open() -> Seq<char> {
    "<nav class=\"link-list\" aria-label=\"Profile links\">"@
}

/// The whole rendered link section.
pub open spec fn spec_link_list(c: LinkCatalogView) -> Seq<char> {
    spec_nav_open() + spec_render_groups(c.groups) + "</nav>"@
}

/// Rendering distributes over appending one link.
proof fn lemma_render_links_snoc(t: Seq<LinkEntryView>, x: LinkEntryView)
    ensures
        spec_render_links(t.push(x)) == spec_render_links(t) + spec_render_link(x),
    decreases t.len(),
{
    if t.len() == 0 {
        assert(t.push(x).drop_first() =~= Seq::<LinkEntryView>::empty());
        assert(t.push(x)[0] == x);
        assert(spec_render_links(t.push(x)) == spec_render_link(x) + spec_render_links(
            t.push(x).drop_first(),
        ));
        assert(spec_render_links(t.push(x)) =~= spec_render_links(t) + spec_render_link(x));
    } else {
        lemma_render_links_snoc(t.drop_first(), x);
        assert(t.push(x).drop_first() =~= t.drop_first().push(x));
        assert(t.push(x)[0] == t[0]);
        assert(spec_render_links(t.push(x)) == spec_render_link(t[0]) + (spec_render_links(
            t.drop_first(),
        ) + spec_render_link(x)));
        assert(spec_render_link(t[0]) + (spec_render_links(t.drop_first()) + spec_render_link(x))
            =~= (spec_render_link(t[0]) + spec_render_links(t.drop_first())) + spec_render_link(
            x,
        ));
    }
}

/// Rendering distributes over appending one group.
proof fn lemma_render_groups_snoc(t: Seq<LinkGroupView>, x: LinkGroupView)
    ensures
        spec_render_groups(t.push(x)) == spec_render_groups(t) + spec_render_group(x),
    decreases t.len(),
{
    if t.len() == 0 {
        assert(t.push(x).drop_first() =~= Seq::<LinkGroupView>::empty());
        assert(t.push(x)[0] == x);
        assert(spec_render_groups(t.push(x)) == spec_render_group(x) + spec_render_groups(
            t.push(x).drop_first(),
        ));
        assert(spec_render_groups(t.push(x)) =~= spec_render_groups(t) + spec_render_group(x));
    } else {
        lemma_render_groups_snoc(t.drop_first(), x);
        assert(t.push(x).drop_first() =~= t.drop_first().push(x));
        assert(t.push(x)[0] == t[0]);
        assert(spec_render_groups(t.push(x)) == spec_render_group(t[0]) + (spec_render_groups(
            t.drop_first(),
        ) + spec_render_group(x)));
        assert(spec_render_group(t[0]) + (spec_render_groups(t.drop_first()) + spec_render_group(
            x,
        )) =~= (spec_render_group(t[0]) + spec_render_groups(t.drop_first()))
            + spec_render_group(x));
    }
}

/// Renders a single link item.
pub fn render_link(link: &LinkEntry) -> (r: String)
    ensures
        r@ == spec_render_link(link@),
{
    let e_href = escape_html_text(link.href.as_str());
    let e_label = escape_html_text(link.label.as_str());
    let title = match &link.description {
        Option::Some(d) => escape_html_text(d.as_str()),
        Option::None => escape_html_text(link.label.as_str()),
    };
    proof {
        assert(title@ == spec_link_title(link@));
    }
    let mut desc_span = String::new();
    match &link.description {
        Option::Some(d) => {
            desc_span.append("<span class=\"link-description\">");
            let e_desc = escape_html_text(d.as_str());
            desc_span.append(e_desc.as_str());
            desc_span.append("</span>");
        },
        Option::None => {},
    }
    proof {
        assert(desc_span@ =~= spec_desc_span(link@));
    }
    let mut r = String::new();
    r.append("<li class=\"link-item\"><a href=\"");
    r.append(e_href.as_str());
    r.append("\" rel=\"me noopener\" itemprop=\"sameAs\" class=\"link-card\" title=\"");
    r.append(title.as_str());
    r.append("\">");
    r.append("<span class=\"link-label\">");
    r.append(e_label.as_str());
    r.append("</span>");
    r.append(desc_span.as_str());
    r.append("</a></li>");
    proof {
        assert(r@ =~= spec_render_link(link@));
    }
    r
}

/// Renders a group of links with its label.
pub fn render_group(group: &LinkGroup) -> (r: String)
    ensures
        r@ == spec_render_group(group@),
{
    let e_name = escape_html_text(group.name.as_str());
    let mut r = String::new();
    r.append("<section class=\"link-group\"><h2 class=\"link-group-label\">");
    r.append(e_name.as_str());
    r.append("</h2><ul>");
    let ghost items_start = r@;
    let n = group.links.len();
    let mut k: usize = 0;
    while k < n
        invariant
            n == group.links.len(),
            k <= n,
            r@ == items_start + spec_render_links(group@.links.take(k as int)),
        decreases n - k,
    {
        let item = render_link(&group.links[k]);
        r.append(item.as_str());
        proof {
            lemma_render_links_snoc(group@.links.take(k as int), group@.links[k as int]);
            assert(group@.links.take(k as int).push(group@.links[k as int]) =~= group@.links.take(
                k + 1 as int,
            ));
            assert(r@ =~= items_start + spec_render_links(group@.links.take(k + 1 as int)));
        }
        k += 1;
    }
    proof {
        assert(group@.links.take(n as int) =~= group@.links);
    }
    r.append("</ul></section>");
    proof {
        assert(r@ =~= spec_render_group(group@));
    }
    r
}

/// Renders the whole link section: all groups in declaration order inside an
/// accessible navigation container.
#[allow(non_snake_case)]
pub fn LinkList(catalog: &LinkCatalog) -> (r: String)
    ensures
        r@ == spec_link_list(catalog@),
{
    let mut r = String::new();
    r.append("<nav class=\"link-list\" aria-label=\"Profile links\">");
    let ghost groups_start = r@;
    let n = catalog.groups.len();
    let mut i: usize = 0;
    while i < n
        invariant
            n == catalog.groups.len(),
            i <= n,
            r@ == groups_start + spec_render_groups(catalog@.groups.take(i as int)),
        decreases n - i,
    {
        let grp = render_group(&catalog.groups[i]);
        r.append(grp.as_str());
        proof {
            lemma_render_groups_snoc(catalog@.groups.take(i as int), catalog@.groups[i as int]);
            assert(catalog@.groups.take(i as int).push(catalog@.groups[i as int])
                =~= catalog@.groups.take(i + 1 as int));
            assert(r@ =~= groups_start + spec_render_groups(catalog@.groups.take(i + 1 as int)));
        }
        i += 1;
    }
    proof {
        assert(catalog@.groups.take(n as int) =~= catalog@.groups);
    }
    r.append("</nav>");
    proof {
        assert(r@ =~= spec_link_list(catalog@));
    }
    r
}

/// The character count of the group fragments before group `i`.
pub open spec fn group_offset(gs: Seq<LinkGroupView>, i: int) -> int
    decreases i,
{
    if i <= 0 {
        0
    } else {
        spec_render_group(gs[0]).len() + group_offset(gs.drop_first(), i - 1)
    }
}

/// A rendered group fragment is never empty.
proof fn lemma_group_fragment_nonempty(g: LinkGroupView)
    ensures
        spec_render_group(g).len() > 0,
{
    reveal_strlit("</ul></section>");
}

/// Each group's fragment occurs in the rendered group sequence at its offset.
proof fn lemma_groups_contains_each(gs: Seq<LinkGroupView>, i: int)
    requires
        0 <= i < gs.len(),
    ensures
        contains_at(spec_render_groups(gs), group_offset(gs, i), spec_render_group(gs[i])),
    decreases i,
{
    if i == 0 {
        lemma_contains_at_self(spec_render_group(gs[0]));
        lemma_contains_at_left(
            spec_render_group(gs[0]),
            spec_render_groups(gs.drop_first()),
            0,
            spec_render_group(gs[0]),
        );
    } else {
        lemma_groups_contains_each(gs.drop_first(), i - 1);
        assert(gs.drop_first()[i - 1] == gs[i]);
        lemma_contains_at_right(
            spec_render_group(gs[0]),
            spec_render_groups(gs.drop_first()),
            group_offset(gs.drop_first(), i - 1),
            spec_render_group(gs[i]),
        );
    }
}

/// Offsets grow by exactly one fragment per group.
proof fn lemma_group_offset_step(gs: Seq<LinkGroupView>, i: int)
    requires
        0 <= i < gs.len(),
    ensures
        group_offset(gs, i + 1) == group_offset(gs, i) + spec_render_group(gs[i]).len(),
    decreases i,
{
    if i == 0 {
        assert(group_offset(gs, 1) == spec_render_group(gs[0]).len() + group_offset(
            gs.drop_first(),
            0,
        ));
        assert(group_offset(gs.drop_first(), 0) == 0);
    } else {
        lemma_group_offset_step(gs.drop_first(), i - 1);
        assert(gs.drop_first()[i - 1] == gs[i]);
        assert(group_offset(gs, i + 1) == spec_render_group(gs[0]).len() + group_offset(
            gs.drop_first(),
            i,
        ));
        assert(group_offset(gs, i) == spec_render_group(gs[0]).len() + group_offset(
            gs.drop_first(),
            i - 1,
        ));
    }
}

/// Offsets are strictly increasing.
proof fn lemma_group_offset_mono(gs: Seq<LinkGroupView>, i: int, j: int)
    requires
        0 <= i < j,
        j <= gs.len(),
    ensures
        group_offset(gs, i) < group_offset(gs, j),
    decreases j - i,
{
    lemma_group_offset_step(gs, i);
    lemma_group_fragment_nonempty(gs[i]);
    if i + 1 < j {
        lemma_group_offset_mono(gs, i + 1, j);
    }
}

/// Declaration order is preserved exactly: in the rendered link section, the
/// fragment of group `i` occurs at a strictly smaller position than the
/// fragment of group `j` whenever `i < j`.
pub proof fn lemma_catalog_order_preserved(c: LinkCatalogView, i: int, j: int)
    requires
        0 <= i < j < c.groups.len(),
    ensures
        contains_at(
            spec_link_list(c),
            spec_nav_open().len() as int + group_offset(c.groups, i),
            spec_render_group(c.groups[i]),
        ),
        contains_at(
            spec_link_list(c),
            spec_nav_open().len() as int + group_offset(c.groups, j),
            spec_render_group(c.groups[j]),
        ),
        group_offset(c.groups, i) < group_offset(c.groups, j),
{
    lemma_groups_contains_each(c.groups, i);
    lemma_groups_contains_each(c.groups, j);
    lemma_group_offset_mono(c.groups, i, j);
    lemma_contains_at_right(
        spec_nav_open(),
        spec_render_groups(c.groups),
        group_offset(c.groups, i),
        spec_render_group(c.groups[i]),
    );
    lemma_contains_at_right(
        spec_nav_open(),
        spec_render_groups(c.groups),
        group_offset(c.groups, j),
        spec_render_group(c.groups[j]),
    );
    lemma_contains_at_left(
        spec_nav_open() + spec_render_groups(c.groups),
        "</nav>"@,
        spec_nav_open().len() as int + group_offset(c.groups, i),
        spec_render_group(c.groups[i]),
    );
    lemma_contains_at_left(
        spec_nav_open() + spec_render_groups(c.groups),
        "</nav>"@,
        spec_nav_open().len() as int + group_offset(c.groups, j),
        spec_render_group(c.groups[j]),
    );
}

/// A link with a description renders both the label span and a distinct
/// description span; a link without one renders the label span and nothing
/// else between it and the anchor's close.
pub proof fn lemma_link_description_presence(l: LinkEntryView)
    ensures
        contains_sub(spec_render_link(l), spec_label_span(l)),
        l.description is Some ==> contains_sub(
            spec_render_link(l),
            "<span class=\"link-description\">"@ + escape_html(l.description->Some_0)
                + "</span>"@,
        ),
        l.description is None ==> spec_render_link(l) == spec_link_open(l) + spec_label_span(l)
            + "</a></li>"@,
{
    lemma_contains_at_self(spec_label_span(l));
    lemma_contains_at_right(spec_link_open(l), spec_label_span(l), 0, spec_label_span(l));
    lemma_contains_at_left(
        spec_link_open(l) + spec_label_span(l),
        spec_desc_span(l),
        spec_link_open(l).len() as int,
        spec_label_span(l),
    );
    lemma_contains_at_left(
        (spec_link_open(l) + spec_label_span(l)) + spec_desc_span(l),
        "</a></li>"@,
        spec_link_open(l).len() as int,
        spec_label_span(l),
    );
    if l.description is Some {
        lemma_contains_at_self(spec_desc_span(l));
        lemma_contains_at_right(
            spec_link_open(l) + spec_label_span(l),
            spec_desc_span(l),
            0,
            spec_desc_span(l),
        );
        lemma_contains_at_left(
            (spec_link_open(l) + spec_label_span(l)) + spec_desc_span(l),
            "</a></li>"@,
            (spec_link_open(l) + spec_label_span(l)).len() as int,
            spec_desc_span(l),
        );
    } else {
        assert(spec_render_link(l) =~= spec_link_open(l) + spec_label_span(l) + "</a></li>"@);
    }
}

/// Every rendered link anchor carries `rel="me noopener"` and the Schema.org
/// `sameAs` annotation, without exception.
pub proof fn lemma_link_identity_annotations(l: LinkEntryView)
    ensures
        contains_sub(spec_render_link(l), "rel=\"me noopener\""@),
        contains_sub(spec_render_link(l), "itemprop=\"sameAs\""@),
{
    let attrs = "\" rel=\"me noopener\" itemprop=\"sameAs\" class=\"link-card\" title=\""@;
    reveal_strlit("\" rel=\"me noopener\" itemprop=\"sameAs\" class=\"link-card\" title=\"");
    reveal_strlit("rel=\"me noopener\"");
    reveal_strlit("itemprop=\"sameAs\"");
    assert(contains_at(attrs, 2, "rel=\"me noopener\""@)) by {
        assert(attrs.subrange(2, 19) =~= "rel=\"me noopener\""@);
    }
    assert(contains_at(attrs, 20, "itemprop=\"sameAs\""@)) by {
        assert(attrs.subrange(20, 37) =~= "itemprop=\"sameAs\""@);
    }
    let pre = "<li class=\"link-item\"><a href=\""@ + escape_html(l.href);
    lemma_contains_at_right(pre, attrs, 2, "rel=\"me noopener\""@);
    lemma_contains_at_right(pre, attrs, 20, "itemprop=\"sameAs\""@);
    lemma_contains_at_left(pre + attrs, spec_link_title(l), pre.len() as int + 2, "rel=\"me noopener\""@);
    lemma_contains_at_left(pre + attrs, spec_link_title(l), pre.len() as int + 20, "itemprop=\"sameAs\""@);
    lemma_contains_at_left(
        (pre + attrs) + spec_link_title(l),
        "\">"@,
        pre.len() as int + 2,
        "rel=\"me noopener\""@,
    );
    lemma_contains_at_left(
        (pre + attrs) + spec_link_title(l),
        "\">"@,
        pre.len() as int + 20,
        "itemprop=\"sameAs\""@,
    );
    assert(spec_link_open(l) == ((pre + attrs) + spec_link_title(l)) + "\">"@);
    lemma_contains_at_left(spec_link_open(l), spec_label_span(l), pre.len() as int + 2, "rel=\"me noopener\""@);
    lemma_contains_at_left(spec_link_open(l), spec_label_span(l), pre.len() as int + 20, "itemprop=\"sameAs\""@);
    lemma_contains_at_left(
        spec_link_open(l) + spec_label_span(l),
        spec_desc_span(l),
        pre.len() as int + 2,
        "rel=\"me noopener\""@,
    );
    lemma_contains_at_left(
        spec_link_open(l) + spec_label_span(l),
        spec_desc_span(l),
        pre.len() as int + 20,
        "itemprop=\"sameAs\""@,
    );
    lemma_contains_at_left(
        (spec_link_open(l) + spec_label_span(l)) + spec_desc_span(l),
        "</a></li>"@,
        pre.len() as int + 2,
        "rel=\"me noopener\""@,
    );
    lemma_contains_at_left(
        (spec_link_open(l) + spec_label_span(l)) + spec_desc_span(l),
        "</a></li>"@,
        pre.len() as int + 20,
        "itemprop=\"sameAs\""@,
    );
}

/// The character count of the link fragments before link `k` in a group.
pub open spec fn link_offset(ls: Seq<LinkEntryView>, k: int) -> int
    decreases k,
{
    if k <= 0 {
        0
    } else {
        spec_render_link(ls[0]).len() + link_offset(ls.drop_first(), k - 1)
    }
}

/// Each link's fragment occurs in the rendered item sequence at its offset.
proof fn lemma_links_contains_each(ls: Seq<LinkEntryView>, k: int)
    requires
        0 <= k < ls.len(),
    ensures
        contains_at(spec_render_links(ls), link_offset(ls, k), spec_render_link(ls[k])),
    decreases k,
{
    if k == 0 {
        lemma_contains_at_self(spec_render_link(ls[0]));
        lemma_contains_at_left(
            spec_render_link(ls[0]),
            spec_render_links(ls.drop_first()),
            0,
            spec_render_link(ls[0]),
        );
    } else {
        lemma_links_contains_each(ls.drop_first(), k - 1);
        assert(ls.drop_first()[k - 1] == ls[k]);
        lemma_contains_at_right(
            spec_render_link(ls[0]),
            spec_render_links(ls.drop_first()),
            link_offset(ls.drop_first(), k - 1),
            spec_render_link(ls[k]),
        );
    }
}

/// Every link of every group appears, fully rendered, in the link section.
pub proof fn lemma_catalog_contains_each_link(c: LinkCatalogView, i: int, k: int)
    requires
        0 <= i < c.groups.len(),
        0 <= k < c.groups[i].links.len(),
    ensures
        contains_sub(spec_link_list(c), spec_render_link(c.groups[i].links[k])),
{
    let g = c.groups[i];
    lemma_links_contains_each(g.links, k);
    let head = "<section class=\"link-group\"><h2 class=\"link-group-label\">"@ + escape_html(
        g.name,
    ) + "</h2><ul>"@;
    lemma_contains_at_right(
        head,
        spec_render_links(g.links),
        link_offset(g.links, k),
        spec_render_link(g.links[k]),
    );
    lemma_contains_at_left(
        head + spec_render_links(g.links),
        "</ul></section>"@,
        head.len() as int + link_offset(g.links, k),
        spec_render_link(g.links[k]),
    );
    assert(spec_render_group(g) == (head + spec_render_links(g.links)) + "</ul></section>"@);
    lemma_groups_contains_each(c.groups, i);
    lemma_contains_at_right(
        spec_nav_open(),
        spec_render_groups(c.groups),
        group_offset(c.groups, i),
        spec_render_group(g),
    );
    lemma_contains_at_left(
        spec_nav_open() + spec_render_groups(c.groups),
        "</nav>"@,
        spec_nav_open().len() as int + group_offset(c.groups, i),
        spec_render_group(g),
    );
    lemma_contains_at_trans(
        spec_link_list(c),
        spec_nav_open().len() as int + group_offset(c.groups, i),
        spec_render_group(g),
        head.len() as int + link_offset(g.links, k),
        spec_render_link(g.links[k]),
    );
}

} // verus!
