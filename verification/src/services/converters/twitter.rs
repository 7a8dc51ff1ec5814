//! Links to posts on Twitter, under either of its domains.

use super::{
    host_start, lemma_path_parts, lemma_rewritten_host_differs, path_parts, parts_view, rebuild,
    rewritten, scan_path, skip_to_host, LinkConverterStrategy, LinkParts, Parts,
};
use crate::text::{chars_of, has_prefix_at, same_text, starts_with_at, CharClass};
use vstd::prelude::*;

verus! {

/// Recognises and rewrites links of the form
/// `twitter.com/<user>/status/<digits>` or `x.com/<user>/status/<digits>`,
/// with or without a scheme and `www.` in front.
#[derive(Clone, Copy, Debug)]
pub struct TwitterConverter {}

/// The fields of a vanilla Twitter link: the host is `twitter.com` or
/// `x.com`, the path `/<user>/status/<digits>`. What follows the digits is not looked at.
pub open spec fn twitter_parts(url: Seq<char>) -> Option<Parts> {
    let host = host_start(url);
    if has_prefix_at(url, host, "twitter.com"@) {
        path_parts(url, host + "twitter.com"@.len(), "/"@, "/status/"@, CharClass::Digit)
    } else if has_prefix_at(url, host, "x.com"@) {
        path_parts(url, host + "x.com"@.len(), "/"@, "/status/"@, CharClass::Digit)
    } else {
        None
    }
}

/// The domain of the Twitter converter named `id`.
pub open spec fn twitter_domain(id: Seq<char>) -> Option<Seq<char>> {
    if id == "fxtwitter"@ {
        Some("fxtwitter.com"@)
    } else if id == "vxtwitter"@ {
        Some("vxtwitter.com"@)
    } else if id == "fixupx"@ {
        Some("fixupx.com"@)
    } else if id == "fixvx"@ {
        Some("fixvx.com"@)
    } else {
        None
    }
}

/// The vanilla Twitter link `url` on the domain of the converter `id`.
pub open spec fn twitter_link(url: Seq<char>, id: Seq<char>) -> Option<Seq<char>> {
    match (twitter_parts(url), twitter_domain(id)) {
        (Some(parts), Some(domain)) => Some(rewritten(url, parts, domain, "/"@, "/status/"@)),
        _ => None,
    }
}

impl TwitterConverter {
    pub fn new() -> (converter: Self) {
        TwitterConverter {  }
    }

    /// Finds the user and the status identifier of a vanilla link.
    pub fn recognise(url: &Vec<char>) -> (parts: Option<LinkParts>)
        ensures
            parts_view(parts) == twitter_parts(url@),
    {
        proof {
            reveal_strlit("twitter.com");
            reveal_strlit("x.com");
        }
        let host = skip_to_host(url);
        if starts_with_at(url, host, "twitter.com") {
            scan_path(url, host + 11, "/", "/status/", CharClass::Digit)
        } else if starts_with_at(url, host, "x.com") {
            scan_path(url, host + 5, "/", "/status/", CharClass::Digit)
        } else {
            None
        }
    }

    /// Looks up the domain of the converter named `id`.
    pub fn domain_for(id: &str) -> (domain: Option<&'static str>)
        ensures
            domain.deep_view() == twitter_domain(id@),
    {
        if same_text(id, "fxtwitter") {
            Some("fxtwitter.com")
        } else if same_text(id, "vxtwitter") {
            Some("vxtwitter.com")
        } else if same_text(id, "fixupx") {
            Some("fixupx.com")
        } else if same_text(id, "fixvx") {
            Some("fixvx.com")
        } else {
            None
        }
    }

    /// Rewrites the vanilla link `url` with the converter named `id`; `None`
    /// where `url` is not vanilla or `id` names no converter.
    pub fn rewrite(url: &str, id: &str) -> (out: Option<String>)
        ensures
            out.deep_view() == twitter_link(url@, id@),
    {
        let chars = chars_of(url);
        match Self::recognise(&chars) {
            None => None,
            Some(parts) => match Self::domain_for(id) {
                None => None,
                Some(domain) => {
                    proof {
                        lemma_twitter_parts(url@);
                    }
                    Some(rebuild(url, parts, domain, "/", "/status/"))
                },
            },
        }
    }
}

/// The fields of a vanilla Twitter link lie within it, after the host.
pub proof fn lemma_twitter_parts(url: Seq<char>)
    requires
        twitter_parts(url) is Some,
    ensures
        twitter_parts(url)->0.within(url),
{
    let host = host_start(url);
    if has_prefix_at(url, host, "twitter.com"@) {
        lemma_path_parts(url, host + "twitter.com"@.len(), "/"@, "/status/"@, CharClass::Digit);
    } else {
        lemma_path_parts(url, host + "x.com"@.len(), "/"@, "/status/"@, CharClass::Digit);
    }
}

/// A rewritten Twitter link is not vanilla: whatever converter made it, no
/// converter rewrites it again.
pub proof fn lemma_twitter_rewritten_once(url: Seq<char>, id: Seq<char>, again: Seq<char>)
    requires
        twitter_link(url, id) is Some,
    ensures
        twitter_parts(twitter_link(url, id)->0) is None,
        twitter_link(twitter_link(url, id)->0, again) is None,
{
    reveal_strlit("twitter.com");
    reveal_strlit("x.com");
    reveal_strlit("fxtwitter.com");
    reveal_strlit("vxtwitter.com");
    reveal_strlit("fixupx.com");
    reveal_strlit("fixvx.com");
    let parts = twitter_parts(url)->0;
    let domain = twitter_domain(id)->0;
    lemma_rewritten_host_differs(url, parts, domain, "/"@, "/status/"@, "twitter.com"@, 0);
    lemma_rewritten_host_differs(url, parts, domain, "/"@, "/status/"@, "x.com"@, 0);
}

/// Rewriting a Twitter link changes its domain only: user and status
/// identifier are carried over as they stand, and so is the path that holds them.
pub proof fn lemma_twitter_keeps_fields(url: Seq<char>, id: Seq<char>)
    requires
        twitter_link(url, id) is Some,
    ensures
        ({
            let parts = twitter_parts(url)->0;
            let domain = twitter_domain(id)->0;
            &&& parts.within(url)
            &&& twitter_link(url, id)->0 == "https://"@ + domain + "/"@ + parts.owner(url)
                + "/status/"@ + parts.id(url)
            &&& twitter_link(url, id)->0 == "https://"@ + domain + url.subrange(
                parts.owner_start - 1,
                parts.id_end,
            )
        }),
{
    reveal_strlit("/");
    let host = host_start(url);
    let parts = twitter_parts(url)->0;
    let domain = twitter_domain(id)->0;
    if has_prefix_at(url, host, "twitter.com"@) {
        lemma_path_parts(url, host + "twitter.com"@.len(), "/"@, "/status/"@, CharClass::Digit);
    } else {
        lemma_path_parts(url, host + "x.com"@.len(), "/"@, "/status/"@, CharClass::Digit);
    }
    assert("https://"@ + domain + "/"@ + parts.owner(url) + "/status/"@ + parts.id(url)
        =~= "https://"@ + domain + ("/"@ + parts.owner(url) + "/status/"@ + parts.id(url)));
}

impl LinkConverterStrategy for TwitterConverter {
    open spec fn platform(&self) -> Seq<char> {
        "twitter"@
    }

    open spec fn vanilla(&self, url: Seq<char>) -> bool {
        twitter_parts(url) is Some
    }

    open spec fn conversion(&self, url: Seq<char>, converter: Seq<char>) -> Option<Seq<char>> {
        twitter_link(url, converter)
    }

    open spec fn menu(&self) -> Seq<Seq<char>> {
        seq!["fxtwitter"@, "vxtwitter"@, "fixupx"@, "fixvx"@]
    }

    fn platform_name(&self) -> (name: &'static str) {
        "twitter"
    }

    fn matches(&self, url: &str) -> (b: bool) {
        let chars = chars_of(url);
        Self::recognise(&chars).is_some()
    }

    fn convert(&self, url: &str, converter: &str) -> (out: Option<String>) {
        Self::rewrite(url, converter)
    }

    fn available_converters(&self) -> (names: Vec<&'static str>) {
        let names = vec!["fxtwitter", "vxtwitter", "fixupx", "fixvx"];
        assert(names.deep_view() =~= self.menu());
        names
    }
}

} // verus!
