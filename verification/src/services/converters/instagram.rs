//! Links to reels on Instagram.

use super::{
    host_start, lemma_path_parts, lemma_rewritten_host_differs, path_parts, parts_view, rebuild,
    rewritten, scan_path, scheme_end, skip_scheme, skip_to_host, LinkConverterStrategy, LinkParts,
    Parts,
};
use crate::text::{chars_of, has_prefix_at, same_text, starts_with_at, CharClass};
use vstd::prelude::*;

verus! {

/// Recognises and rewrites links of the form
/// `https://instagram.com/<user>/reel/<id>`, under `http` or `https`, with
/// or without `www.` in front of the host.
#[derive(Clone, Copy, Debug)]
pub struct InstagramConverter {}

/// The identifier of a reel that ends at `end` is delimited there: by the
/// end of the text, by `/` or by `?`.
pub open spec fn reel_delimited(url: Seq<char>, end: int) -> bool {
    end == url.len() || (0 <= end < url.len() && (url[end] == '/' || url[end] == '?'))
}

/// The fields of a vanilla Instagram link: a scheme, the host
/// `instagram.com`, the path `/<user>/reel/<id>`, where the identifier is
/// made of ASCII letters, digits, `_` and `-` and is followed by `/`, by
/// `?` or by nothing.
pub open spec fn instagram_parts(url: Seq<char>) -> Option<Parts> {
    let host = host_start(url);
    if scheme_end(url) > 0 && has_prefix_at(url, host, "instagram.com"@) {
        match path_parts(url, host + "instagram.com"@.len(), "/"@, "/reel/"@, CharClass::Slug) {
            Some(parts) => if reel_delimited(url, parts.id_end) {
                Some(parts)
            } else {
                None
            },
            None => None,
        }
    } else {
        None
    }
}

/// The domain of the Instagram converter named `id`.
pub open spec fn instagram_domain(id: Seq<char>) -> Option<Seq<char>> {
    if id == "ddinstagram"@ {
        Some("ddinstagram.com"@)
    } else if id == "kkinstagram"@ {
        Some("kkinstagram.com"@)
    } else if id == "instagramez"@ {
        Some("instagramez.com"@)
    } else if id == "eeinstagram"@ {
        Some("eeinstagram.com"@)
    } else {
        None
    }
}

/// The vanilla Instagram link `url` on the domain of the converter `id`.
pub open spec fn instagram_link(url: Seq<char>, id: Seq<char>) -> Option<Seq<char>> {
    match (instagram_parts(url), instagram_domain(id)) {
        (Some(parts), Some(domain)) => Some(rewritten(url, parts, domain, "/"@, "/reel/"@)),
        _ => None,
    }
}

impl InstagramConverter {
    pub fn new() -> (converter: Self) {
        InstagramConverter {  }
    }

    /// Finds the user and the reel identifier of a vanilla link.
    pub fn recognise(url: &Vec<char>) -> (parts: Option<LinkParts>)
        ensures
            parts_view(parts) == instagram_parts(url@),
    {
        proof {
            reveal_strlit("instagram.com");
        }
        if skip_scheme(url) == 0 {
            return None;
        }
        let host = skip_to_host(url);
        if !starts_with_at(url, host, "instagram.com") {
            return None;
        }
        match scan_path(url, host + 13, "/", "/reel/", CharClass::Slug) {
            None => None,
            Some(parts) => {
                proof {
                    lemma_path_parts(url@, host + 13, "/"@, "/reel/"@, CharClass::Slug);
                }
                if parts.id_end == url.len() || url[parts.id_end] == '/' || url[parts.id_end]
                    == '?' {
                    Some(parts)
                } else {
                    None
                }
            },
        }
    }

    /// Looks up the domain of the converter named `id`.
    pub fn domain_for(id: &str) -> (domain: Option<&'static str>)
        ensures
            domain.deep_view() == instagram_domain(id@),
    {
        if same_text(id, "ddinstagram") {
            Some("ddinstagram.com")
        } else if same_text(id, "kkinstagram") {
            Some("kkinstagram.com")
        } else if same_text(id, "instagramez") {
            Some("instagramez.com")
        } else if same_text(id, "eeinstagram") {
            Some("eeinstagram.com")
        } else {
            None
        }
    }

    /// Rewrites the vanilla link `url` with the converter named `id`; `None`
    /// where `url` is not vanilla or `id` names no converter.
    pub fn rewrite(url: &str, id: &str) -> (out: Option<String>)
        ensures
            out.deep_view() == instagram_link(url@, id@),
    {
        let chars = chars_of(url);
        match Self::recognise(&chars) {
            None => None,
            Some(parts) => match Self::domain_for(id) {
                None => None,
                Some(domain) => {
                    proof {
                        lemma_instagram_parts(url@);
                    }
                    Some(rebuild(url, parts, domain, "/", "/reel/"))
                },
            },
        }
    }
}

/// The fields of a vanilla Instagram link lie within it, after the host.
pub proof fn lemma_instagram_parts(url: Seq<char>)
    requires
        instagram_parts(url) is Some,
    ensures
        instagram_parts(url)->0.within(url),
        instagram_parts(url) == path_parts(
            url,
            host_start(url) + "instagram.com"@.len(),
            "/"@,
            "/reel/"@,
            CharClass::Slug,
        ),
{
    lemma_path_parts(
        url,
        host_start(url) + "instagram.com"@.len(),
        "/"@,
        "/reel/"@,
        CharClass::Slug,
    );
}

/// A rewritten Instagram link is not vanilla: whatever converter made it,
/// no converter rewrites it again.
pub proof fn lemma_instagram_rewritten_once(url: Seq<char>, id: Seq<char>, again: Seq<char>)
    requires
        instagram_link(url, id) is Some,
    ensures
        instagram_parts(instagram_link(url, id)->0) is None,
        instagram_link(instagram_link(url, id)->0, again) is None,
{
    reveal_strlit("instagram.com");
    reveal_strlit("ddinstagram.com");
    reveal_strlit("kkinstagram.com");
    reveal_strlit("instagramez.com");
    reveal_strlit("eeinstagram.com");
    let parts = instagram_parts(url)->0;
    let domain = instagram_domain(id)->0;
    let k: int = if id == "instagramez"@ {
        9
    } else {
        0
    };
    lemma_rewritten_host_differs(url, parts, domain, "/"@, "/reel/"@, "instagram.com"@, k);
}

/// Rewriting an Instagram link changes its domain only: user and reel
/// identifier are carried over as they stand, and so is the path that holds them.
pub proof fn lemma_instagram_keeps_fields(url: Seq<char>, id: Seq<char>)
    requires
        instagram_link(url, id) is Some,
    ensures
        ({
            let parts = instagram_parts(url)->0;
            let domain = instagram_domain(id)->0;
            &&& parts.within(url)
            &&& instagram_link(url, id)->0 == "https://"@ + domain + "/"@ + parts.owner(url)
                + "/reel/"@ + parts.id(url)
            &&& instagram_link(url, id)->0 == "https://"@ + domain + url.subrange(
                parts.owner_start - "/"@.len(),
                parts.id_end,
            )
        }),
{
    let parts = instagram_parts(url)->0;
    let domain = instagram_domain(id)->0;
    lemma_instagram_parts(url);
    lemma_path_parts(
        url,
        host_start(url) + "instagram.com"@.len(),
        "/"@,
        "/reel/"@,
        CharClass::Slug,
    );
    assert("https://"@ + domain + "/"@ + parts.owner(url) + "/reel/"@ + parts.id(url)
        =~= "https://"@ + domain + ("/"@ + parts.owner(url) + "/reel/"@ + parts.id(url)));
}

impl LinkConverterStrategy for InstagramConverter {
    open spec fn platform(&self) -> Seq<char> {
        "instagram"@
    }

    open spec fn vanilla(&self, url: Seq<char>) -> bool {
        instagram_parts(url) is Some
    }

    open spec fn conversion(&self, url: Seq<char>, converter: Seq<char>) -> Option<Seq<char>> {
        instagram_link(url, converter)
    }

    open spec fn menu(&self) -> Seq<Seq<char>> {
        seq!["ddinstagram"@, "kkinstagram"@, "instagramez"@, "eeinstagram"@]
    }

    fn platform_name(&self) -> (name: &'static str) {
        "instagram"
    }

    fn matches(&self, url: &str) -> (b: bool) {
        let chars = chars_of(url);
        Self::recognise(&chars).is_some()
    }

    fn convert(&self, url: &str, converter: &str) -> (out: Option<String>) {
        Self::rewrite(url, converter)
    }

    fn available_converters(&self) -> (names: Vec<&'static str>) {
        let names = vec!["ddinstagram", "kkinstagram", "instagramez", "eeinstagram"];
        assert(names.deep_view() =~= self.menu());
        names
    }
}

} // verus!
