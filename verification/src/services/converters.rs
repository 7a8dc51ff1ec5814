//! Link conversion strategies, one per platform, and what they share: the
//! optional scheme and `www.` in front of the host, the shape of the path
//! after it, and the way a link is put together again on another domain.

pub mod bluesky;
pub mod instagram;
pub mod registry;
pub mod tiktok;
pub mod twitter;

use crate::text::{
    has_prefix_at, lemma_prefix_in_cut, lemma_run_end, run_end, scan_run, starts_with_at, CharClass,
};
use vstd::prelude::*;
use vstd::string::StringExecFns;

verus! {

/// Where the two fields of a recognised link lie in its text: the handle
/// of the owner and the identifier of the content.
pub struct Parts {
    pub owner_start: int,
    pub owner_end: int,
    pub id_start: int,
    pub id_end: int,
}

impl Parts {
    /// The handle of the owner, as it stands in `url`.
    pub open spec fn owner(self, url: Seq<char>) -> Seq<char> {
        url.subrange(self.owner_start, self.owner_end)
    }

    /// The identifier of the content, as it stands in `url`.
    pub open spec fn id(self, url: Seq<char>) -> Seq<char> {
        url.subrange(self.id_start, self.id_end)
    }

    /// Both fields are non-empty stretches of `url`, the owner before the identifier.
    pub open spec fn within(self, url: Seq<char>) -> bool {
        0 <= self.owner_start < self.owner_end <= self.id_start < self.id_end <= url.len()
    }
}

/// The executable counterpart of `Parts`.
#[derive(Clone, Copy, Debug)]
pub struct LinkParts {
    pub owner_start: usize,
    pub owner_end: usize,
    pub id_start: usize,
    pub id_end: usize,
}

impl View for LinkParts {
    type V = Parts;

    open spec fn view(&self) -> Parts {
        Parts {
            owner_start: self.owner_start as int,
            owner_end: self.owner_end as int,
            id_start: self.id_start as int,
            id_end: self.id_end as int,
        }
    }
}

/// The view of an optional `LinkParts`.
pub open spec fn parts_view(p: Option<LinkParts>) -> Option<Parts> {
    match p {
        Some(p) => Some(p@),
        None => None,
    }
}

/// The length of the scheme in front of `url`: that of `https://` or
/// `http://` where `url` starts with one of them, else zero.
pub open spec fn scheme_end(url: Seq<char>) -> int {
    if has_prefix_at(url, 0, "https://"@) {
        "https://"@.len() as int
    } else if has_prefix_at(url, 0, "http://"@) {
        "http://"@.len() as int
    } else {
        0
    }
}

/// The index at which the host starts: after the scheme, and after `www.`
/// where that follows.
pub open spec fn host_start(url: Seq<char>) -> int {
    let a = scheme_end(url);
    if has_prefix_at(url, a, "www."@) {
        a + "www."@.len()
    } else {
        a
    }
}

/// The fields of a path that starts at `at`: the literal `lead`, a
/// non-empty owner handle without `/`, the literal `separator`, and a
/// non-empty identifier, the longest run of `id_class` characters.
pub open spec fn path_parts(
    url: Seq<char>,
    at: int,
    lead: Seq<char>,
    separator: Seq<char>,
    id_class: CharClass,
) -> Option<Parts> {
    let owner_start = at + lead.len();
    let owner_end = run_end(url, owner_start, CharClass::Segment);
    let id_start = owner_end + separator.len();
    let id_end = run_end(url, id_start, id_class);
    if has_prefix_at(url, at, lead) && owner_start < owner_end && has_prefix_at(
        url,
        owner_end,
        separator,
    ) && id_start < id_end {
        Some(Parts { owner_start, owner_end, id_start, id_end })
    } else {
        None
    }
}

/// The link with the fields `parts` of `url` on the domain `domain`, under `https`.
pub open spec fn rewritten(
    url: Seq<char>,
    parts: Parts,
    domain: Seq<char>,
    lead: Seq<char>,
    separator: Seq<char>,
) -> Seq<char> {
    "https://"@ + domain + lead + parts.owner(url) + separator + parts.id(url)
}

/// What `path_parts` finds lies within the text, in order, and the path
/// from `at` to the end of the identifier is `lead`, owner, `separator`,
/// identifier, with nothing in between.
pub proof fn lemma_path_parts(
    url: Seq<char>,
    at: int,
    lead: Seq<char>,
    separator: Seq<char>,
    id_class: CharClass,
)
    requires
        path_parts(url, at, lead, separator, id_class) is Some,
    ensures
        ({
            let p = path_parts(url, at, lead, separator, id_class)->0;
            &&& p.within(url)
            &&& p.owner_start == at + lead.len()
            &&& p.id_start == p.owner_end + separator.len()
            &&& url.subrange(at, p.id_end) == lead + p.owner(url) + separator + p.id(url)
            &&& forall|k: int| p.owner_start <= k < p.owner_end ==> #[trigger] url[k] != '/'
            &&& forall|k: int| p.id_start <= k < p.id_end ==> id_class.accepts(#[trigger] url[k])
            &&& p.id_end < url.len() ==> !id_class.accepts(url[p.id_end])
        }),
{
    let p = path_parts(url, at, lead, separator, id_class)->0;
    lemma_run_end(url, p.owner_start, CharClass::Segment);
    lemma_run_end(url, p.id_start, id_class);
    assert forall|k: int| p.owner_start <= k < p.owner_end implies #[trigger] url[k] != '/' by {
        assert(CharClass::Segment.accepts(url[k]));
    }
    assert(url.subrange(at, p.id_end) =~= url.subrange(at, at + lead.len()) + p.owner(url)
        + url.subrange(p.owner_end, p.owner_end + separator.len()) + p.id(url));
}

/// A text that differs from `p` at index `k` of `p` does not hold `p` at `at`.
pub proof fn lemma_prefix_mismatch(s: Seq<char>, at: int, p: Seq<char>, k: int)
    requires
        0 <= k < p.len(),
        0 <= at,
        at + k < s.len() ==> s[at + k] != p[k],
    ensures
        !has_prefix_at(s, at, p),
{
    if has_prefix_at(s, at, p) {
        crate::text::lemma_prefix_chars(s, at, p, k);
    }
}

/// A rewritten link starts with `https://` and goes on with the domain
/// and the lead of the path.
pub proof fn lemma_rewritten_start(
    url: Seq<char>,
    parts: Parts,
    domain: Seq<char>,
    lead: Seq<char>,
    separator: Seq<char>,
)
    ensures
        ({
            let out = rewritten(url, parts, domain, lead, separator);
            &&& has_prefix_at(out, 0, "https://"@)
            &&& scheme_end(out) == 8
            &&& has_prefix_at(out, 8, domain + lead)
            &&& forall|k: int| 0 <= k < domain.len() ==> out[8 + k] == domain[k]
        }),
{
    reveal_strlit("https://");
    let out = rewritten(url, parts, domain, lead, separator);
    assert(out.subrange(0, 8) =~= "https://"@);
    assert(out.subrange(8, 8 + (domain + lead).len() as int) =~= domain + lead);
}

/// A link rewritten to a domain that differs from the host `vanilla` at
/// some index, and that does not start like `www.`, does not have `vanilla` as its host.
pub proof fn lemma_rewritten_host_differs(
    url: Seq<char>,
    parts: Parts,
    domain: Seq<char>,
    lead: Seq<char>,
    separator: Seq<char>,
    vanilla: Seq<char>,
    k: int,
)
    requires
        0 < domain.len(),
        domain[0] != 'w',
        0 <= k < domain.len(),
        k < vanilla.len(),
        domain[k] != vanilla[k],
    ensures
        ({
            let out = rewritten(url, parts, domain, lead, separator);
            &&& host_start(out) == 8
            &&& !has_prefix_at(out, 8, vanilla)
        }),
{
    reveal_strlit("www.");
    let out = rewritten(url, parts, domain, lead, separator);
    lemma_rewritten_start(url, parts, domain, lead, separator);
    lemma_prefix_mismatch(out, 8, "www."@, 0);
    lemma_prefix_mismatch(out, 8, vanilla, k);
}

/// One platform's way of telling its own links and rewriting them.
pub trait LinkConverterStrategy {
    /// The name of the platform.
    spec fn platform(&self) -> Seq<char>;

    /// `url` is a link to a post on the platform's own domain.
    spec fn vanilla(&self, url: Seq<char>) -> bool;

    /// `url` rewritten with the converter with the exact name `converter`,
    /// where `url` is vanilla and that converter has a mirror domain.
    spec fn conversion(&self, url: Seq<char>, converter: Seq<char>) -> Option<Seq<char>>;

    /// The names of the platform's converters, in the order in which they
    /// are offered. One of them may stand for the platform's own domain:
    /// with it, links are left as they are.
    spec fn menu(&self) -> Seq<Seq<char>>;

    /// Returns the name of the platform that this converter handles.
    fn platform_name(&self) -> (name: &'static str)
        ensures
            name@ == self.platform(),
    ;

    /// Tells whether `url` is a vanilla link of the platform.
    fn matches(&self, url: &str) -> (b: bool)
        ensures
            b == self.vanilla(url@),
    ;

    /// Rewrites `url` with the converter with the exact name `converter`;
    /// `None` where `url` is not vanilla, or the platform has no converter
    /// of that name, or the converter stands for the platform's own domain.
    fn convert(&self, url: &str, converter: &str) -> (out: Option<String>)
        ensures
            out.deep_view() == self.conversion(url@, converter@),
            !self.vanilla(url@) ==> out is None,
    ;

    /// Returns the names of the platform's converters.
    fn available_converters(&self) -> (names: Vec<&'static str>)
        ensures
            names.deep_view() == self.menu(),
    ;
}

/// Every path of the right shape is recognised, with the fields that it
/// was made of: where `url` holds, from `at` on, `lead`, a non-empty
/// `owner` without `/`, `separator`, which starts with `/`, and a non-empty
/// `id` of `id_class` characters that goes on no further, `path_parts`
/// finds exactly `owner` and `id`.
pub proof fn lemma_path_shape(
    url: Seq<char>,
    at: int,
    lead: Seq<char>,
    owner: Seq<char>,
    separator: Seq<char>,
    id: Seq<char>,
    id_class: CharClass,
)
    requires
        has_prefix_at(url, at, lead + owner + separator + id),
        owner.len() > 0,
        forall|k: int| 0 <= k < owner.len() ==> #[trigger] owner[k] != '/',
        separator.len() > 0,
        separator[0] == '/',
        id.len() > 0,
        forall|k: int| 0 <= k < id.len() ==> id_class.accepts(#[trigger] id[k]),
        at + (lead + owner + separator + id).len() < url.len() ==> !id_class.accepts(
            url[at + (lead + owner + separator + id).len()],
        ),
    ensures
        ({
            let owner_start = at + lead.len();
            let owner_end = owner_start + owner.len();
            let id_start = owner_end + separator.len();
            let id_end = id_start + id.len();
            &&& path_parts(url, at, lead, separator, id_class) == Some(
                Parts { owner_start, owner_end, id_start, id_end },
            )
            &&& url.subrange(owner_start, owner_end) == owner
            &&& url.subrange(id_start, id_end) == id
        }),
{
    let path = lead + owner + separator + id;
    let owner_start: int = at + lead.len();
    let owner_end: int = owner_start + owner.len();
    let id_start: int = owner_end + separator.len();
    let id_end: int = id_start + id.len();
    assert forall|k: int| 0 <= k < path.len() implies url[at + k] == path[k] by {
        crate::text::lemma_prefix_chars(url, at, path, k);
    }
    assert(url.subrange(at, owner_start) =~= lead) by {
        assert forall|k: int| 0 <= k < lead.len() implies url[at + k] == lead[k] by {
            assert(path[k] == lead[k]);
        }
    }
    assert(url.subrange(owner_start, owner_end) =~= owner) by {
        assert forall|k: int| 0 <= k < owner.len() implies url[owner_start + k] == owner[k] by {
            assert(path[lead.len() + k] == owner[k]);
        }
    }
    assert(url.subrange(owner_end, id_start) =~= separator) by {
        assert forall|k: int| 0 <= k < separator.len() implies url[owner_end + k]
            == separator[k] by {
            assert(path[lead.len() + owner.len() + k] == separator[k]);
        }
    }
    assert(url.subrange(id_start, id_end) =~= id) by {
        assert forall|k: int| 0 <= k < id.len() implies url[id_start + k] == id[k] by {
            assert(path[lead.len() + owner.len() + separator.len() + k] == id[k]);
        }
    }
    assert forall|k: int| owner_start <= k < owner_end implies CharClass::Segment.accepts(
        #[trigger] url[k],
    ) by {
        assert(url.subrange(owner_start, owner_end)[k - owner_start] == url[k]);
    }
    assert(url[owner_end] == separator[0]) by {
        assert(url.subrange(owner_end, id_start)[0] == url[owner_end]);
    }
    crate::text::lemma_run_end_unique(url, owner_start, owner_end, CharClass::Segment);
    assert forall|k: int| id_start <= k < id_end implies id_class.accepts(#[trigger] url[k]) by {
        assert(url.subrange(id_start, id_end)[k - id_start] == url[k]);
    }
    crate::text::lemma_run_end_unique(url, id_start, id_end, id_class);
}

/// A rewritten link holds its two fields where a link of its own domain
/// holds them: read from the end of the domain on, its path has the owner
/// and the identifier of the link that it was made from.
pub proof fn lemma_rewritten_fields(
    url: Seq<char>,
    at: int,
    domain: Seq<char>,
    lead: Seq<char>,
    separator: Seq<char>,
    id_class: CharClass,
)
    requires
        path_parts(url, at, lead, separator, id_class) is Some,
        separator.len() > 0,
        separator[0] == '/',
    ensures
        ({
            let parts = path_parts(url, at, lead, separator, id_class)->0;
            let out = rewritten(url, parts, domain, lead, separator);
            let found = path_parts(out, 8 + domain.len() as int, lead, separator, id_class);
            &&& found is Some
            &&& found->0.owner(out) == parts.owner(url)
            &&& found->0.id(out) == parts.id(url)
            &&& found->0.id_end == out.len()
        }),
{
    reveal_strlit("https://");
    let parts = path_parts(url, at, lead, separator, id_class)->0;
    lemma_path_parts(url, at, lead, separator, id_class);
    let owner = parts.owner(url);
    let id = parts.id(url);
    let out = rewritten(url, parts, domain, lead, separator);
    let start: int = 8 + domain.len() as int;
    let path = lead + owner + separator + id;
    assert(out.subrange(start, start + path.len()) =~= path);
    assert forall|k: int| 0 <= k < owner.len() implies #[trigger] owner[k] != '/' by {
        assert(owner[k] == url[parts.owner_start + k]);
    }
    assert forall|k: int| 0 <= k < id.len() implies id_class.accepts(#[trigger] id[k]) by {
        assert(id[k] == url[parts.id_start + k]);
    }
    lemma_path_shape(out, start, lead, owner, separator, id, id_class);
}

/// A text cut after the host of its link has the same scheme and the same
/// start of the host.
pub proof fn lemma_cut_keeps_start(text: Seq<char>, b: int)
    requires
        host_start(text) <= b <= text.len(),
    ensures
        scheme_end(text.subrange(0, b)) == scheme_end(text),
        host_start(text.subrange(0, b)) == host_start(text),
{
    reveal_strlit("https://");
    reveal_strlit("http://");
    reveal_strlit("www.");
    lemma_prefix_in_cut(text, b, 0, "https://"@);
    lemma_prefix_in_cut(text, b, 0, "http://"@);
    lemma_prefix_in_cut(text, b, scheme_end(text), "www."@);
}

/// A text cut after the identifier of its path has the same path, with the
/// same fields.
pub proof fn lemma_cut_keeps_path(
    text: Seq<char>,
    b: int,
    at: int,
    lead: Seq<char>,
    separator: Seq<char>,
    id_class: CharClass,
)
    requires
        path_parts(text, at, lead, separator, id_class) is Some,
        path_parts(text, at, lead, separator, id_class)->0.id_end <= b <= text.len(),
        separator.len() > 0,
        separator[0] == '/',
    ensures
        path_parts(text.subrange(0, b), at, lead, separator, id_class) == path_parts(
            text,
            at,
            lead,
            separator,
            id_class,
        ),
{
    let parts = path_parts(text, at, lead, separator, id_class)->0;
    lemma_path_parts(text, at, lead, separator, id_class);
    let owner = parts.owner(text);
    let id = parts.id(text);
    let cut = text.subrange(0, b);
    let path = lead + owner + separator + id;
    assert(cut.subrange(at, at + path.len()) =~= text.subrange(at, parts.id_end));
    assert forall|k: int| 0 <= k < owner.len() implies #[trigger] owner[k] != '/' by {
        assert(owner[k] == text[parts.owner_start + k]);
    }
    assert forall|k: int| 0 <= k < id.len() implies id_class.accepts(#[trigger] id[k]) by {
        assert(id[k] == text[parts.id_start + k]);
    }
    lemma_path_shape(cut, at, lead, owner, separator, id, id_class);
}

/// Skips the scheme in front of the link, where there is one.
pub fn skip_scheme(url: &Vec<char>) -> (end: usize)
    ensures
        end == scheme_end(url@),
        end <= url.len(),
{
    proof {
        reveal_strlit("https://");
        reveal_strlit("http://");
    }
    if starts_with_at(url, 0, "https://") {
        8
    } else if starts_with_at(url, 0, "http://") {
        7
    } else {
        0
    }
}

/// Skips the scheme and `www.`, where they are there.
pub fn skip_to_host(url: &Vec<char>) -> (at: usize)
    ensures
        at == host_start(url@),
        at <= url.len(),
{
    proof {
        reveal_strlit("www.");
    }
    let a = skip_scheme(url);
    if starts_with_at(url, a, "www.") {
        a + 4
    } else {
        a
    }
}

/// Recognises the path that starts at `at` and returns where its fields lie.
pub fn scan_path(url: &Vec<char>, at: usize, lead: &str, separator: &str, id_class: CharClass) -> (r:
    Option<LinkParts>)
    requires
        at <= url.len(),
    ensures
        parts_view(r) == path_parts(url@, at as int, lead@, separator@, id_class),
{
    if !starts_with_at(url, at, lead) {
        return None;
    }
    let owner_start = at + lead.unicode_len();
    let owner_end = scan_run(url, owner_start, CharClass::Segment);
    if owner_end == owner_start || !starts_with_at(url, owner_end, separator) {
        return None;
    }
    let id_start = owner_end + separator.unicode_len();
    let id_end = scan_run(url, id_start, id_class);
    if id_end == id_start {
        return None;
    }
    Some(LinkParts { owner_start, owner_end, id_start, id_end })
}

/// Puts the link together again on `domain`: `https://`, the domain, and
/// the path with the two fields as they stand in `url`.
pub fn rebuild(url: &str, parts: LinkParts, domain: &str, lead: &str, separator: &str) -> (out: String)
    requires
        parts@.within(url@),
    ensures
        out@ == rewritten(url@, parts@, domain@, lead@, separator@),
{
    let mut out = String::from_str("https://");
    out.append(domain);
    out.append(lead);
    out.append(url.substring_char(parts.owner_start, parts.owner_end));
    out.append(separator);
    out.append(url.substring_char(parts.id_start, parts.id_end));
    out
}

} // verus!
