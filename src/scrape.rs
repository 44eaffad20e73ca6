//! Finding the icon that a page declares with its `<link rel="icon">` tags.

use vstd::prelude::*;

use crate::text::{contains, has_substring, parse_decimal, parsed_decimal, squeeze_and_lower, squeeze_lower};
use crate::url_text::{join_url, joined_url, opt_text};

verus! {

#[verifier::external_type_specification]
#[verifier::external_body]
pub struct ExParseError(tl::ParseError);

/// The attributes of one `<link>` tag whose `rel` holds `icon`, as text.
pub struct LinkTag {
    pub href: Option<String>,
    pub sizes: Option<String>,
    pub media: Option<String>,
}

/// A link tag as (href, sizes, media).
pub type LinkTagView = (Option<Seq<char>>, Option<Seq<char>>, Option<Seq<char>>);

impl View for LinkTag {
    type V = LinkTagView;

    open spec fn view(&self) -> LinkTagView {
        (opt_text(self.href), opt_text(self.sizes), opt_text(self.media))
    }
}

/// The icon link tags of an HTML document, in document order, as `tl` finds them
/// with the selector `link[rel*="icon"]`; `None` where `tl` refuses the document.
pub uninterp spec fn icon_link_tags(html: Seq<char>) -> Option<Seq<LinkTagView>>;

/// Relies on `tl::parse` and `tl::VDom::query_selector`: the tags that match
/// `link[rel*="icon"]`, with their `href`, `sizes` and `media` attributes.
#[verifier::external_body]
fn find_icon_links(html: &str) -> (r: Result<Vec<LinkTag>, tl::ParseError>)
    ensures
        match r {
            Ok(tags) => icon_link_tags(html@) == Some(tags@.map_values(|t: LinkTag| t@)),
            Err(_) => icon_link_tags(html@) is None,
        },
{
    let dom = tl::parse(html, tl::ParserOptions::default())?;
    let parser = dom.parser();
    let text = |a: &tl::Attributes, k: &str| a.get(k).flatten().map(|v| v.as_utf8_str().into_owned());
    Ok(dom.query_selector("link[rel*=\"icon\"]").into_iter().flatten()
        .filter_map(|h| h.get(parser).and_then(|n| n.as_tag()).map(|t| t.attributes()))
        .map(|a| LinkTag { href: text(a, "href"), sizes: text(a, "sizes"), media: text(a, "media") })
        .collect())
}

/// A candidate icon: where it is, and the size it declares (0 where none).
#[derive(Debug)]
pub struct Link {
    pub href: String,
    pub size: usize,
}

impl View for Link {
    type V = (Seq<char>, nat);

    open spec fn view(&self) -> (Seq<char>, nat) {
        (self.href@, self.size as nat)
    }
}

/// Why no icon address could be read from a page.
#[derive(Debug, PartialEq, Eq)]
pub enum ScrapeError {
    /// The page could not be fetched; the transport's message.
    Network(String),
    /// The markup parser refused the page.
    HtmlParse,
    /// The chosen link could not be resolved against the page's address.
    UrlParse,
    /// The page declares no usable icon link.
    LinkNotFound,
}

pub open spec fn dark_scheme() -> Seq<char> {
    "prefers-color-scheme:dark"@
}

/// A `media` query that asks for a dark colour scheme: once all white space is
/// removed and letters lowered, it holds `prefers-color-scheme:dark`.
pub open spec fn is_dark(media: Option<Seq<char>>) -> bool {
    match media {
        Some(m) => contains(squeeze_lower(m), dark_scheme()),
        None => false,
    }
}

/// `i` is the first position of `c` in `s`.
pub open spec fn is_first(s: Seq<char>, c: char, i: int) -> bool {
    0 <= i < s.len() && s[i] == c && forall|k: int| 0 <= k < i ==> s[k] != c
}

/// The text before the first `x` of a `sizes` value (`"32x32"` gives `"32"`).
pub open spec fn width_part(s: Seq<char>) -> Option<Seq<char>> {
    if exists|i: int| is_first(s, 'x', i) {
        Some(s.subrange(0, choose|i: int| is_first(s, 'x', i)))
    } else {
        None
    }
}

/// The size that a `sizes` attribute declares: the number before its first `x`,
/// or 0 where there is none.
pub open spec fn declared_size(sizes: Option<Seq<char>>) -> nat {
    match sizes {
        Some(s) => match width_part(s) {
            Some(w) => match parsed_decimal(w, usize::MAX as nat) {
                Some(v) => v,
                None => 0,
            },
            None => 0,
        },
        None => 0,
    }
}

/// The candidates of a page's icon link tags, in document order: those with an
/// `href` and without a dark-scheme `media` query.
pub open spec fn candidates(tags: Seq<LinkTagView>) -> Seq<(Seq<char>, nat)>
    decreases tags.len(),
{
    if tags.len() == 0 {
        Seq::empty()
    } else {
        let rest = candidates(tags.drop_last());
        let t = tags.last();
        match t.0 {
            Some(h) => if is_dark(t.2) {
                rest
            } else {
                rest.push((h, declared_size(t.1)))
            },
            None => rest,
        }
    }
}

/// `i` is the first of the smallest candidates.
pub open spec fn is_first_smallest(c: Seq<(Seq<char>, nat)>, i: int) -> bool {
    &&& 0 <= i < c.len()
    &&& forall|k: int| 0 <= k < c.len() ==> c[i].1 <= #[trigger] c[k].1
    &&& forall|k: int| 0 <= k < i ==> c[i].1 < #[trigger] c[k].1
}

/// `i` is the last of the largest candidates.
pub open spec fn is_last_largest(c: Seq<(Seq<char>, nat)>, i: int) -> bool {
    &&& 0 <= i < c.len()
    &&& forall|k: int| 0 <= k < c.len() ==> #[trigger] c[k].1 <= c[i].1
    &&& forall|k: int| i < k < c.len() ==> #[trigger] c[k].1 < c[i].1
}

/// Some candidate is smaller than the preferred size.
pub open spec fn has_smaller(c: Seq<(Seq<char>, nat)>, preferred: nat) -> bool {
    exists|k: int| 0 <= k < c.len() && #[trigger] c[k].1 < preferred
}

/// The selection rule: the smallest candidate where one is smaller than the
/// preferred size, else the largest.
pub open spec fn selects(c: Seq<(Seq<char>, nat)>, preferred: nat, i: int) -> bool {
    if has_smaller(c, preferred) {
        is_first_smallest(c, i)
    } else {
        is_last_largest(c, i)
    }
}

/// The `href` of the selected candidate.
pub open spec fn selected_href(c: Seq<(Seq<char>, nat)>, preferred: nat) -> Seq<char> {
    c[choose|i: int| selects(c, preferred, i)].0
}

/// What scraping a page at `base` with markup `html` gives.
pub open spec fn scrape_outcome(base: Seq<char>, html: Seq<char>, preferred: nat) -> Result<Seq<char>, ScrapeError> {
    match icon_link_tags(html) {
        None => Err(ScrapeError::HtmlParse),
        Some(tags) => {
            let c = candidates(tags);
            if c.len() == 0 {
                Err(ScrapeError::LinkNotFound)
            } else {
                match joined_url(base, selected_href(c, preferred)) {
                    Some(u) => Ok(u),
                    None => Err(ScrapeError::UrlParse),
                }
            }
        }
    }
}

pub proof fn lemma_selects_unique(c: Seq<(Seq<char>, nat)>, preferred: nat, i: int, j: int)
    requires
        selects(c, preferred, i),
        selects(c, preferred, j),
    ensures
        i == j,
{
    if has_smaller(c, preferred) {
        if i < j {
            assert(c[j].1 < c[i].1);
        } else if j < i {
            assert(c[i].1 < c[j].1);
        }
    } else {
        if i < j {
            assert(c[j].1 < c[i].1);
        } else if j < i {
            assert(c[i].1 < c[j].1);
        }
    }
}

/// Whether a `media` query asks for a dark colour scheme.
pub fn media_is_dark(media: &Option<String>) -> (r: bool)
    ensures
        r == is_dark(opt_text(*media)),
{
    match media {
        Some(m) => {
            let squeezed = squeeze_and_lower(m.as_str());
            let pattern = "prefers-color-scheme:dark";
            has_substring(&squeezed, pattern)
        },
        None => false,
    }
}

/// The size that a `sizes` attribute declares: the number before its first `x`,
/// or 0 where there is none or it is no number.
pub fn parse_sizes(sizes: &Option<String>) -> (r: usize)
    ensures
        r as nat == declared_size(opt_text(*sizes)),
{
    match sizes {
        None => 0,
        Some(s) => {
            let n = s.as_str().unicode_len();
            let mut i: usize = 0;
            while i < n
                invariant
                    n == s@.len(),
                    opt_text(*sizes) == Some(s@),
                    i <= n,
                    forall|k: int| 0 <= k < i ==> s@[k] != 'x',
                decreases n - i,
            {
                if s.as_str().get_char(i) == 'x' {
                    assert(is_first(s@, 'x', i as int));
                    let ghost j = choose|j: int| is_first(s@, 'x', j);
                    assert(j == i) by {
                        if j < i {
                            assert(s@[j] != 'x');
                        } else if i < j {
                            assert(s@[i as int] != 'x');
                        }
                    }
                    let width = s.as_str().substring_char(0, i);
                    assert(width_part(s@) == Some(width@));
                    assert((usize::MAX as u64) as nat == usize::MAX as nat);
                    let parsed = parse_decimal(width, usize::MAX as u64);
                    return match parsed {
                        Some(v) => {
                            assert(parsed_decimal(width@, usize::MAX as nat) == Some(v as nat));
                            v as usize
                        },
                        None => 0,
                    };
                }
                i = i + 1;
            }
            assert(!exists|j: int| is_first(s@, 'x', j));
            0
        },
    }
}

/// The candidates among a page's icon link tags, in document order.
pub fn link_candidates(tags: &Vec<LinkTag>) -> (r: Vec<Link>)
    ensures
        r@.map_values(|l: Link| l@) == candidates(tags@.map_values(|t: LinkTag| t@)),
{
    let mut out: Vec<Link> = Vec::new();
    let mut i: usize = 0;
    while i < tags.len()
        invariant
            i <= tags.len(),
            out@.map_values(|l: Link| l@) == candidates(tags@.subrange(0, i as int).map_values(|t: LinkTag| t@)),
        decreases tags.len() - i,
    {
        let tag = &tags[i];
        let ghost pre = tags@.subrange(0, i as int + 1).map_values(|t: LinkTag| t@);
        assert(pre.drop_last() == tags@.subrange(0, i as int).map_values(|t: LinkTag| t@));
        assert(pre.last() == tag@);
        match &tag.href {
            Some(h) => {
                if !media_is_dark(&tag.media) {
                    let size = parse_sizes(&tag.sizes);
                    out.push(Link { href: h.clone(), size });
                    assert(out@.map_values(|l: Link| l@) =~= candidates(pre));
                }
            },
            None => {},
        }
        i = i + 1;
    }
    assert(tags@.subrange(0, tags.len() as int) == tags@);
    out
}

/// The position of the candidate to fetch: the first of the smallest where one
/// is smaller than `preferred`, else the last of the largest; `None` where there
/// are no candidates.
pub fn select_link(links: &Vec<Link>, preferred: u32) -> (r: Option<usize>)
    ensures
        match r {
            None => links.len() == 0,
            Some(i) => selects(links@.map_values(|l: Link| l@), preferred as nat, i as int),
        },
{
    let ghost c = links@.map_values(|l: Link| l@);
    if links.len() == 0 {
        return None;
    }
    let mut small: usize = 0;
    let mut large: usize = 0;
    let mut i: usize = 1;
    while i < links.len()
        invariant
            c == links@.map_values(|l: Link| l@),
            1 <= i <= links.len(),
            small < i,
            large < i,
            forall|k: int| 0 <= k < i ==> c[small as int].1 <= #[trigger] c[k].1,
            forall|k: int| 0 <= k < small ==> c[small as int].1 < #[trigger] c[k].1,
            forall|k: int| 0 <= k < i ==> #[trigger] c[k].1 <= c[large as int].1,
            forall|k: int| large < k < i ==> #[trigger] c[k].1 < c[large as int].1,
        decreases links.len() - i,
    {
        if links[i].size < links[small].size {
            small = i;
        }
        if links[i].size >= links[large].size {
            large = i;
        }
        i = i + 1;
    }
    assert(is_first_smallest(c, small as int));
    assert(is_last_largest(c, large as int));
    if links[small].size < preferred as usize {
        assert(has_smaller(c, preferred as nat));
        Some(small)
    } else {
        assert(!has_smaller(c, preferred as nat));
        Some(large)
    }
}

/// The address of the icon that a page declares: its link tags are read, dark
/// scheme variants and tags without `href` are dropped, one candidate is
/// selected, and its `href` is resolved against `base`, the page's address.
pub fn scrape_link_tags(base: &str, html: &str, preferred_size: u32) -> (r: Result<String, ScrapeError>)
    ensures
        match scrape_outcome(base@, html@, preferred_size as nat) {
            Ok(u) => r matches Ok(s) && s@ == u,
            Err(e) => r == Err::<String, ScrapeError>(e),
        },
{
    let tags = match find_icon_links(html) {
        Ok(tags) => tags,
        Err(_) => return Err(ScrapeError::HtmlParse),
    };
    let links = link_candidates(&tags);
    let ghost c = links@.map_values(|l: Link| l@);
    match select_link(&links, preferred_size) {
        None => Err(ScrapeError::LinkNotFound),
        Some(i) => {
            proof {
                let j = choose|j: int| selects(c, preferred_size as nat, j);
                lemma_selects_unique(c, preferred_size as nat, i as int, j);
            }
            match join_url(base, links[i].href.as_str()) {
                Some(u) => Ok(u),
                None => Err(ScrapeError::UrlParse),
            }
        },
    }
}

/// Every candidate comes from a link tag with that `href` whose `media` query does
/// not ask for a dark colour scheme, so a dark-scheme icon is never selected.
pub proof fn lemma_candidates_not_dark(tags: Seq<LinkTagView>)
    ensures
        forall|k: int| 0 <= k < candidates(tags).len() ==> exists|j: int| 0 <= j < tags.len()
            && (#[trigger] tags[j]).0 == Some((#[trigger] candidates(tags)[k]).0) && !is_dark(tags[j].2)
            && declared_size(tags[j].1) == candidates(tags)[k].1,
    decreases tags.len(),
{
    if tags.len() > 0 {
        let init = tags.drop_last();
        lemma_candidates_not_dark(init);
        let c = candidates(tags);
        let ci = candidates(init);
        assert forall|k: int| 0 <= k < c.len() implies exists|j: int| 0 <= j < tags.len()
            && (#[trigger] tags[j]).0 == Some((#[trigger] c[k]).0) && !is_dark(tags[j].2)
            && declared_size(tags[j].1) == c[k].1 by {
            if k < ci.len() {
                assert(c[k] == ci[k]);
                let j = choose|j: int| 0 <= j < init.len() && (#[trigger] init[j]).0 == Some(ci[k].0)
                    && !is_dark(init[j].2) && declared_size(init[j].1) == ci[k].1;
                assert(tags[j] == init[j]);
            } else {
                assert(tags[tags.len() - 1] == tags.last());
            }
        }
    }
}

/// The link tags without those whose `media` query asks for a dark colour scheme.
pub open spec fn without_dark(tags: Seq<LinkTagView>) -> Seq<LinkTagView>
    decreases tags.len(),
{
    if tags.len() == 0 {
        Seq::empty()
    } else if is_dark(tags.last().2) {
        without_dark(tags.drop_last())
    } else {
        without_dark(tags.drop_last()).push(tags.last())
    }
}

/// Dark-scheme links change nothing: a page has the same candidates, so the same
/// selection, as the page with all its dark-scheme links deleted.
pub proof fn lemma_dark_links_ignored(tags: Seq<LinkTagView>)
    ensures
        candidates(tags) == candidates(without_dark(tags)),
    decreases tags.len(),
{
    if tags.len() > 0 {
        lemma_dark_links_ignored(tags.drop_last());
        if !is_dark(tags.last().2) {
            let w = without_dark(tags);
            assert(w.drop_last() == without_dark(tags.drop_last()));
            assert(w.last() == tags.last());
        }
    }
}

/// A page whose every icon link with an `href` asks for a dark colour scheme
/// yields "link not found", even where that link is the only one.
pub proof fn lemma_dark_only_not_found(base: Seq<char>, html: Seq<char>, preferred: nat)
    requires
        icon_link_tags(html) is Some,
        forall|j: int| 0 <= j < icon_link_tags(html)->Some_0.len()
            ==> (#[trigger] icon_link_tags(html)->Some_0[j]).0 is Some ==> is_dark(icon_link_tags(html)->Some_0[j].2),
    ensures
        scrape_outcome(base, html, preferred) == Err::<Seq<char>, ScrapeError>(ScrapeError::LinkNotFound),
{
    let tags = icon_link_tags(html)->Some_0;
    lemma_candidates_not_dark(tags);
    if candidates(tags).len() > 0 {
        let j = choose|j: int| 0 <= j < tags.len() && (#[trigger] tags[j]).0 == Some(candidates(tags)[0].0)
            && !is_dark(tags[j].2) && declared_size(tags[j].1) == candidates(tags)[0].1;
    }
}

/// On a page with at least one usable icon link, the outcome is the selected
/// link's `href` resolved against the page's address, or a failure to resolve it:
/// never a reference left as written.
pub proof fn lemma_resolved_against_base(base: Seq<char>, html: Seq<char>, preferred: nat)
    requires
        icon_link_tags(html) is Some,
        candidates(icon_link_tags(html)->Some_0).len() >= 1,
    ensures
        ({
            let c = candidates(icon_link_tags(html)->Some_0);
            let i = choose|i: int| selects(c, preferred, i);
            &&& 0 <= i < c.len()
            &&& match scrape_outcome(base, html, preferred) {
                Ok(u) => joined_url(base, c[i].0) == Some(u),
                Err(e) => e == ScrapeError::UrlParse && joined_url(base, c[i].0) is None,
            }
        }),
{
    let c = candidates(icon_link_tags(html)->Some_0);
    lemma_selection_exists(c, preferred);
}

/// Some candidate is selected from any non-empty list.
pub proof fn lemma_selection_exists(c: Seq<(Seq<char>, nat)>, preferred: nat)
    requires
        c.len() >= 1,
    ensures
        exists|i: int| selects(c, preferred, i),
{
    lemma_extremes_exist(c);
    let s = choose|i: int| is_first_smallest(c, i);
    let l = choose|i: int| is_last_largest(c, i);
    if has_smaller(c, preferred) {
        assert(selects(c, preferred, s));
    } else {
        assert(selects(c, preferred, l));
    }
}

/// A non-empty list has a first smallest and a last largest candidate.
pub proof fn lemma_extremes_exist(c: Seq<(Seq<char>, nat)>)
    requires
        c.len() >= 1,
    ensures
        exists|i: int| is_first_smallest(c, i),
        exists|i: int| is_last_largest(c, i),
    decreases c.len(),
{
    if c.len() == 1 {
        assert(is_first_smallest(c, 0));
        assert(is_last_largest(c, 0));
    } else {
        let init = c.drop_last();
        lemma_extremes_exist(init);
        let n = c.len() - 1;
        let s = choose|i: int| is_first_smallest(init, i);
        let l = choose|i: int| is_last_largest(init, i);
        let s2 = if c[n].1 < c[s].1 { n } else { s };
        let l2 = if c[n].1 >= c[l].1 { n } else { l };
        assert forall|k: int| 0 <= k < n implies #[trigger] c[k] == init[k] by {}
        assert(c[s] == init[s] && c[l] == init[l]);
        assert forall|k: int| 0 <= k < c.len() implies c[s2].1 <= #[trigger] c[k].1 by {
            if k < n {
                assert(c[k] == init[k]);
            }
        }
        assert forall|k: int| 0 <= k < s2 implies c[s2].1 < #[trigger] c[k].1 by {
            assert(c[k] == init[k]);
        }
        assert forall|k: int| 0 <= k < c.len() implies #[trigger] c[k].1 <= c[l2].1 by {
            if k < n {
                assert(c[k] == init[k]);
            }
        }
        assert forall|k: int| l2 < k < c.len() implies #[trigger] c[k].1 < c[l2].1 by {
            if k < n {
                assert(c[k] == init[k]);
            }
        }
        assert(is_first_smallest(c, s2));
        assert(is_last_largest(c, l2));
    }
}

} // verus!
