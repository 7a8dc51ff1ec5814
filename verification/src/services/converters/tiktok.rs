//! Links to videos on TikTok.

use super::{
    host_start, lemma_path_parts, lemma_rewritten_host_differs, path_parts, parts_view, rebuild,
    rewritten, scan_path, skip_to_host, LinkConverterStrategy, LinkParts, Parts,
};
use crate::text::{chars_of, has_prefix_at, same_text, starts_with_at, CharClass};
use vstd::prelude::*;

verus! {

/// Recognises and rewrites links of the form
/// `tiktok.com/@<user>/video/<digits>`, with or without a scheme and
/// `www.` in front.
#[derive(Clone, Copy, Debug)]
pub struct TikTokConverter {}

/// The fields of a vanilla TikTok link: the host is `tiktok.com`, the path
/// `/@<user>/video/<digits>`. What follows the digits is not looked at.
pub open spec fn tiktok_parts(url: Seq<char>) -> Option<Parts> {
    let host = host_start(url);
    if has_prefix_at(url, host, "tiktok.com"@) {
        path_parts(url, host + "tiktok.com"@.len(), "/@"@, "/video/"@, CharClass::Digit)
    } else {
        None
    }
}

/// The domain of the TikTok converter named `id`.
pub open spec fn tiktok_domain(id: Seq<char>) -> Option<Seq<char>> {
    if id == "tfxktok"@ {
        Some("tfxktok.com"@)
    } else if id == "tiktokez"@ {
        Some("tiktokez.com"@)
    } else {
        None
    }
}

/// The vanilla TikTok link `url` on the domain of the converter `id`.
pub open spec fn tiktok_link(url: Seq<char>, id: Seq<char>) -> Option<Seq<char>> {
    match (tiktok_parts(url), tiktok_domain(id)) {
        (Some(parts), Some(domain)) => Some(rewritten(url, parts, domain, "/@"@, "/video/"@)),
        _ => None,
    }
}

impl TikTokConverter {
    pub fn new() -> (converter: Self) {
        TikTokConverter {  }
    }

    /// Finds the user and the video identifier of a vanilla link.
    pub fn recognise(url: &Vec<char>) -> (parts: Option<LinkParts>)
        ensures
            parts_view(parts) == tiktok_parts(url@),
    {
        proof {
            reveal_strlit("tiktok.com");
        }
        let host = skip_to_host(url);
        if starts_with_at(url, host, "tiktok.com") {
            scan_path(url, host + 10, "/@", "/video/", CharClass::Digit)
        } else {
            None
        }
    }

    /// Looks up the domain of the converter named `id`.
    pub fn domain_for(id: &str) -> (domain: Option<&'static str>)
        ensures
            domain.deep_view() == tiktok_domain(id@),
    {
        if same_text(id, "tfxktok") {
            Some("tfxktok.com")
        } else if same_text(id, "tiktokez") {
            Some("tiktokez.com")
        } else {
            None
        }
    }

    /// Rewrites the vanilla link `url` with the converter named `id`; `None`
    /// where `url` is not vanilla or `id` names no converter.
    pub fn rewrite(url: &str, id: &str) -> (out: Option<String>)
        ensures
            out.deep_view() == tiktok_link(url@, id@),
    {
        let chars = chars_of(url);
        match Self::recognise(&chars) {
            None => None,
            Some(parts) => match Self::domain_for(id) {
                None => None,
                Some(domain) => {
                    proof {
                        lemma_tiktok_parts(url@);
                    }
                    Some(rebuild(url, parts, domain, "/@", "/video/"))
                },
            },
        }
    }
}

/// The fields of a vanilla TikTok link lie within it, after the host.
pub proof fn lemma_tiktok_parts(url: Seq<char>)
    requires
        tiktok_parts(url) is Some,
    ensures
        tiktok_parts(url)->0.within(url),
{
    lemma_path_parts(
        url,
        host_start(url) + "tiktok.com"@.len(),
        "/@"@,
        "/video/"@,
        CharClass::Digit,
    );
}

/// A rewritten TikTok link is not vanilla: whatever converter made it, no
/// converter rewrites it again.
pub proof fn lemma_tiktok_rewritten_once(url: Seq<char>, id: Seq<char>, again: Seq<char>)
    requires
        tiktok_link(url, id) is Some,
    ensures
        tiktok_parts(tiktok_link(url, id)->0) is None,
        tiktok_link(tiktok_link(url, id)->0, again) is None,
{
    reveal_strlit("tiktok.com");
    reveal_strlit("tfxktok.com");
    reveal_strlit("tiktokez.com");
    let parts = tiktok_parts(url)->0;
    let domain = tiktok_domain(id)->0;
    let k: int = if id == "tfxktok"@ {
        1
    } else {
        6
    };
    lemma_rewritten_host_differs(url, parts, domain, "/@"@, "/video/"@, "tiktok.com"@, k);
}

/// Rewriting a TikTok link changes its domain only: user and video
/// identifier are carried over as they stand, and so is the path that holds them.
pub proof fn lemma_tiktok_keeps_fields(url: Seq<char>, id: Seq<char>)
    requires
        tiktok_link(url, id) is Some,
    ensures
        ({
            let parts = tiktok_parts(url)->0;
            let domain = tiktok_domain(id)->0;
            &&& parts.within(url)
            &&& tiktok_link(url, id)->0 == "https://"@ + domain + "/@"@ + parts.owner(url)
                + "/video/"@ + parts.id(url)
            &&& tiktok_link(url, id)->0 == "https://"@ + domain + url.subrange(
                parts.owner_start - "/@"@.len(),
                parts.id_end,
            )
        }),
{
    let parts = tiktok_parts(url)->0;
    let domain = tiktok_domain(id)->0;
    lemma_path_parts(
        url,
        host_start(url) + "tiktok.com"@.len(),
        "/@"@,
        "/video/"@,
        CharClass::Digit,
    );
    assert("https://"@ + domain + "/@"@ + parts.owner(url) + "/video/"@ + parts.id(url)
        =~= "https://"@ + domain + ("/@"@ + parts.owner(url) + "/video/"@ + parts.id(url)));
}

impl LinkConverterStrategy for TikTokConverter {
    open spec fn platform(&self) -> Seq<char> {
        "tiktok"@
    }

    open spec fn vanilla(&self, url: Seq<char>) -> bool {
        tiktok_parts(url) is Some
    }

    open spec fn conversion(&self, url: Seq<char>, converter: Seq<char>) -> Option<Seq<char>> {
        tiktok_link(url, converter)
    }

    open spec fn menu(&self) -> Seq<Seq<char>> {
        seq!["tfxktok"@, "tiktokez"@]
    }

    fn platform_name(&self) -> (name: &'static str) {
        "tiktok"
    }

    fn matches(&self, url: &str) -> (b: bool) {
        let chars = chars_of(url);
        Self::recognise(&chars).is_some()
    }

    fn convert(&self, url: &str, converter: &str) -> (out: Option<String>) {
        Self::rewrite(url, converter)
    }

    fn available_converters(&self) -> (names: Vec<&'static str>) {
        let names = vec!["tfxktok", "tiktokez"];
        assert(names.deep_view() =~= self.menu());
        names
    }
}

} // verus!
