//! Links to posts on Bluesky.

use super::{
    host_start, lemma_path_parts, lemma_rewritten_host_differs, path_parts, parts_view, rebuild,
    rewritten, scan_path, skip_to_host, LinkConverterStrategy, LinkParts, Parts,
};
use crate::text::{chars_of, has_prefix_at, same_text, starts_with_at, CharClass};
use vstd::prelude::*;

verus! {

/// Recognises and rewrites links of the form
/// `bsky.app/profile/<handle>/post/<id>`, with or without a scheme and
/// `www.` in front.
#[derive(Clone, Copy, Debug)]
pub struct BlueSkyConverter {}

/// The fields of a vanilla Bluesky link: the host is `bsky.app`, the path
/// `/profile/<handle>/post/<id>`, where the identifier runs up to the next
/// `/` or white space.
pub open spec fn bluesky_parts(url: Seq<char>) -> Option<Parts> {
    let host = host_start(url);
    if has_prefix_at(url, host, "bsky.app"@) {
        path_parts(url, host + "bsky.app"@.len(), "/profile/"@, "/post/"@, CharClass::Token)
    } else {
        None
    }
}

/// The mirror domain of the Bluesky converter named `id`. The converter
/// `bsky` stands for the platform's own domain and has no mirror: with it
/// selected, links are left as they are.
pub open spec fn bluesky_domain(id: Seq<char>) -> Option<Seq<char>> {
    if id == "fxbsky"@ {
        Some("fxbsky.app"@)
    } else if id == "vxbsky"@ {
        Some("vxbsky.app"@)
    } else if id == "bskye"@ {
        Some("bskye.app"@)
    } else if id == "bskyx"@ {
        Some("bskyx.app"@)
    } else {
        None
    }
}

/// The vanilla Bluesky link `url` on the domain of the converter `id`.
pub open spec fn bluesky_link(url: Seq<char>, id: Seq<char>) -> Option<Seq<char>> {
    match (bluesky_parts(url), bluesky_domain(id)) {
        (Some(parts), Some(domain)) => Some(rewritten(url, parts, domain, "/profile/"@, "/post/"@)),
        _ => None,
    }
}

impl BlueSkyConverter {
    pub fn new() -> (converter: Self) {
        BlueSkyConverter {  }
    }

    /// Finds the handle and the post identifier of a vanilla link.
    pub fn recognise(url: &Vec<char>) -> (parts: Option<LinkParts>)
        ensures
            parts_view(parts) == bluesky_parts(url@),
    {
        proof {
            reveal_strlit("bsky.app");
        }
        let host = skip_to_host(url);
        if starts_with_at(url, host, "bsky.app") {
            scan_path(url, host + 8, "/profile/", "/post/", CharClass::Token)
        } else {
            None
        }
    }

    /// Looks up the mirror domain of the converter named `id`; `bsky` has none.
    pub fn domain_for(id: &str) -> (domain: Option<&'static str>)
        ensures
            domain.deep_view() == bluesky_domain(id@),
    {
        if same_text(id, "fxbsky") {
            Some("fxbsky.app")
        } else if same_text(id, "vxbsky") {
            Some("vxbsky.app")
        } else if same_text(id, "bskye") {
            Some("bskye.app")
        } else if same_text(id, "bskyx") {
            Some("bskyx.app")
        } else {
            None
        }
    }

    /// Rewrites the vanilla link `url` with the converter named `id`; `None`
    /// where `url` is not vanilla, or `id` names no converter or the
    /// platform's own domain.
    pub fn rewrite(url: &str, id: &str) -> (out: Option<String>)
        ensures
            out.deep_view() == bluesky_link(url@, id@),
    {
        let chars = chars_of(url);
        match Self::recognise(&chars) {
            None => None,
            Some(parts) => match Self::domain_for(id) {
                None => None,
                Some(domain) => {
                    proof {
                        lemma_bluesky_parts(url@);
                    }
                    Some(rebuild(url, parts, domain, "/profile/", "/post/"))
                },
            },
        }
    }
}

/// The fields of a vanilla Bluesky link lie within it, after the host.
pub proof fn lemma_bluesky_parts(url: Seq<char>)
    requires
        bluesky_parts(url) is Some,
    ensures
        bluesky_parts(url)->0.within(url),
{
    lemma_path_parts(
        url,
        host_start(url) + "bsky.app"@.len(),
        "/profile/"@,
        "/post/"@,
        CharClass::Token,
    );
}

/// A rewritten Bluesky link is not vanilla: whatever converter made it, no
/// converter rewrites it again.
pub proof fn lemma_bluesky_rewritten_once(url: Seq<char>, id: Seq<char>, again: Seq<char>)
    requires
        bluesky_link(url, id) is Some,
    ensures
        bluesky_parts(bluesky_link(url, id)->0) is None,
        bluesky_link(bluesky_link(url, id)->0, again) is None,
{
    reveal_strlit("bsky.app");
    reveal_strlit("fxbsky.app");
    reveal_strlit("vxbsky.app");
    reveal_strlit("bskye.app");
    reveal_strlit("bskyx.app");
    let parts = bluesky_parts(url)->0;
    let domain = bluesky_domain(id)->0;
    let k: int = if id == "bskye"@ || id == "bskyx"@ {
        4
    } else {
        0
    };
    lemma_rewritten_host_differs(url, parts, domain, "/profile/"@, "/post/"@, "bsky.app"@, k);
}

/// Rewriting a Bluesky link changes its domain only: handle and post
/// identifier are carried over as they stand, and so is the path that holds them.
pub proof fn lemma_bluesky_keeps_fields(url: Seq<char>, id: Seq<char>)
    requires
        bluesky_link(url, id) is Some,
    ensures
        ({
            let parts = bluesky_parts(url)->0;
            let domain = bluesky_domain(id)->0;
            &&& parts.within(url)
            &&& bluesky_link(url, id)->0 == "https://"@ + domain + "/profile/"@ + parts.owner(url)
                + "/post/"@ + parts.id(url)
            &&& bluesky_link(url, id)->0 == "https://"@ + domain + url.subrange(
                parts.owner_start - "/profile/"@.len(),
                parts.id_end,
            )
        }),
{
    let parts = bluesky_parts(url)->0;
    let domain = bluesky_domain(id)->0;
    lemma_path_parts(
        url,
        host_start(url) + "bsky.app"@.len(),
        "/profile/"@,
        "/post/"@,
        CharClass::Token,
    );
    assert("https://"@ + domain + "/profile/"@ + parts.owner(url) + "/post/"@ + parts.id(url)
        =~= "https://"@ + domain + ("/profile/"@ + parts.owner(url) + "/post/"@ + parts.id(url)));
}

impl LinkConverterStrategy for BlueSkyConverter {
    open spec fn platform(&self) -> Seq<char> {
        "bluesky"@
    }

    open spec fn vanilla(&self, url: Seq<char>) -> bool {
        bluesky_parts(url) is Some
    }

    open spec fn conversion(&self, url: Seq<char>, converter: Seq<char>) -> Option<Seq<char>> {
        bluesky_link(url, converter)
    }

    open spec fn menu(&self) -> Seq<Seq<char>> {
        seq!["bsky"@, "fxbsky"@, "vxbsky"@, "bskye"@, "bskyx"@]
    }

    fn platform_name(&self) -> (name: &'static str) {
        "bluesky"
    }

    fn matches(&self, url: &str) -> (b: bool) {
        let chars = chars_of(url);
        Self::recognise(&chars).is_some()
    }

    fn convert(&self, url: &str, converter: &str) -> (out: Option<String>) {
        Self::rewrite(url, converter)
    }

    fn available_converters(&self) -> (names: Vec<&'static str>) {
        let names = vec!["bsky", "fxbsky", "vxbsky", "bskye", "bskyx"];
        assert(names.deep_view() =~= self.menu());
        names
    }
}

} // verus!
