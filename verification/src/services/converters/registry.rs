//! The registry of link converters: the platforms that can be rewritten,
//! in the order in which they are tried.

use super::bluesky::{bluesky_domain, bluesky_parts, lemma_bluesky_keeps_fields, BlueSkyConverter};
use super::instagram::{
    instagram_domain, instagram_parts, lemma_instagram_keeps_fields, InstagramConverter,
};
use super::tiktok::{lemma_tiktok_keeps_fields, tiktok_domain, tiktok_parts, TikTokConverter};
use super::twitter::{lemma_twitter_keeps_fields, twitter_domain, twitter_parts, TwitterConverter};
use super::{
    host_start, lemma_cut_keeps_path, lemma_cut_keeps_start, lemma_path_parts,
    lemma_rewritten_host_differs, lemma_rewritten_start, path_parts, rewritten, scheme_end,
    LinkConverterStrategy, Parts,
};
use crate::text::{
    has_prefix_at, is_whitespace, lemma_prefix_chars, lemma_prefix_in_cut, lemma_trimmed_keeps,
    run_end, same_text, trailing_space_start, trimmed, CharClass,
};
use vstd::prelude::*;
use vstd::string::StringExecFns;

verus! {

/// One of the converters that a registry can hold.
#[derive(Clone, Copy, Debug)]
pub enum Converter {
    Twitter(TwitterConverter),
    Bluesky(BlueSkyConverter),
    TikTok(TikTokConverter),
    Instagram(InstagramConverter),
}

impl Converter {
    /// The fields of `url` where it is a vanilla link of the platform.
    pub open spec fn parts(self, url: Seq<char>) -> Option<Parts> {
        match self {
            Converter::Twitter(_) => twitter_parts(url),
            Converter::Bluesky(_) => bluesky_parts(url),
            Converter::TikTok(_) => tiktok_parts(url),
            Converter::Instagram(_) => instagram_parts(url),
        }
    }

    /// The mirror domain of the platform's converter named `id`.
    pub open spec fn domain(self, id: Seq<char>) -> Option<Seq<char>> {
        match self {
            Converter::Twitter(_) => twitter_domain(id),
            Converter::Bluesky(_) => bluesky_domain(id),
            Converter::TikTok(_) => tiktok_domain(id),
            Converter::Instagram(_) => instagram_domain(id),
        }
    }

    /// What stands between the host and the owner's handle in the platform's links.
    pub open spec fn lead(self) -> Seq<char> {
        match self {
            Converter::Twitter(_) => "/"@,
            Converter::Bluesky(_) => "/profile/"@,
            Converter::TikTok(_) => "/@"@,
            Converter::Instagram(_) => "/"@,
        }
    }

    /// What stands between the owner's handle and the identifier in the platform's links.
    pub open spec fn separator(self) -> Seq<char> {
        match self {
            Converter::Twitter(_) => "/status/"@,
            Converter::Bluesky(_) => "/post/"@,
            Converter::TikTok(_) => "/video/"@,
            Converter::Instagram(_) => "/reel/"@,
        }
    }

    /// The vanilla link `url` on the domain of the converter named `id`.
    pub open spec fn link(self, url: Seq<char>, id: Seq<char>) -> Option<Seq<char>> {
        match (self.parts(url), self.domain(id)) {
            (Some(parts), Some(domain)) => Some(
                rewritten(url, parts, domain, self.lead(), self.separator()),
            ),
            _ => None,
        }
    }
}

impl LinkConverterStrategy for Converter {
    open spec fn platform(&self) -> Seq<char> {
        match self {
            Converter::Twitter(c) => c.platform(),
            Converter::Bluesky(c) => c.platform(),
            Converter::TikTok(c) => c.platform(),
            Converter::Instagram(c) => c.platform(),
        }
    }

    open spec fn vanilla(&self, url: Seq<char>) -> bool {
        self.parts(url) is Some
    }

    open spec fn conversion(&self, url: Seq<char>, converter: Seq<char>) -> Option<Seq<char>> {
        self.link(url, converter)
    }

    open spec fn menu(&self) -> Seq<Seq<char>> {
        match self {
            Converter::Twitter(c) => c.menu(),
            Converter::Bluesky(c) => c.menu(),
            Converter::TikTok(c) => c.menu(),
            Converter::Instagram(c) => c.menu(),
        }
    }

    fn platform_name(&self) -> (name: &'static str) {
        match self {
            Converter::Twitter(c) => c.platform_name(),
            Converter::Bluesky(c) => c.platform_name(),
            Converter::TikTok(c) => c.platform_name(),
            Converter::Instagram(c) => c.platform_name(),
        }
    }

    fn matches(&self, url: &str) -> (b: bool) {
        match self {
            Converter::Twitter(c) => c.matches(url),
            Converter::Bluesky(c) => c.matches(url),
            Converter::TikTok(c) => c.matches(url),
            Converter::Instagram(c) => c.matches(url),
        }
    }

    fn convert(&self, url: &str, converter: &str) -> (out: Option<String>) {
        match self {
            Converter::Twitter(c) => c.convert(url, converter),
            Converter::Bluesky(c) => c.convert(url, converter),
            Converter::TikTok(c) => c.convert(url, converter),
            Converter::Instagram(c) => c.convert(url, converter),
        }
    }

    fn available_converters(&self) -> (names: Vec<&'static str>) {
        match self {
            Converter::Twitter(c) => c.available_converters(),
            Converter::Bluesky(c) => c.available_converters(),
            Converter::TikTok(c) => c.available_converters(),
            Converter::Instagram(c) => c.available_converters(),
        }
    }
}

/// The first of `converters` that handles the platform named `platform`.
pub open spec fn first_for(converters: Seq<Converter>, platform: Seq<char>) -> Option<Converter>
    decreases converters.len(),
{
    if converters.len() == 0 {
        None
    } else if converters[0].platform() == platform {
        Some(converters[0])
    } else {
        first_for(converters.drop_first(), platform)
    }
}

/// `url` rewritten by the first of `converters` that handles `platform`.
pub open spec fn conversion_by(
    converters: Seq<Converter>,
    url: Seq<char>,
    platform: Seq<char>,
    converter: Seq<char>,
) -> Option<Seq<char>> {
    match first_for(converters, platform) {
        Some(c) => c.conversion(url, converter),
        None => None,
    }
}

/// The first of `converters` that rewrites `url` with the converter named
/// `converter`: the name of its platform and the rewritten link.
pub open spec fn first_conversion(
    converters: Seq<Converter>,
    url: Seq<char>,
    converter: Seq<char>,
) -> Option<(Seq<char>, Seq<char>)>
    decreases converters.len(),
{
    if converters.len() == 0 {
        None
    } else {
        match converters[0].conversion(url, converter) {
            Some(out) => Some((converters[0].platform(), out)),
            None => first_conversion(converters.drop_first(), url, converter),
        }
    }
}

/// The names of the platforms of `converters`, in order.
pub open spec fn platform_names(converters: Seq<Converter>) -> Seq<Seq<char>> {
    Seq::new(converters.len(), |i: int| converters[i].platform())
}

/// The registry that manages the available link converters.
pub struct ConverterRegistry {
    converters: Vec<Converter>,
}

impl View for ConverterRegistry {
    type V = Seq<Converter>;

    closed spec fn view(&self) -> Seq<Converter> {
        self.converters@
    }
}

/// The converters of a new registry, in the order in which they are tried.
pub open spec fn default_converters() -> Seq<Converter> {
    seq![
        Converter::Twitter(TwitterConverter {  }),
        Converter::Bluesky(BlueSkyConverter {  }),
        Converter::TikTok(TikTokConverter {  }),
        Converter::Instagram(InstagramConverter {  }),
    ]
}

impl ConverterRegistry {
    /// Creates a registry with the converters for Twitter, Bluesky, TikTok
    /// and Instagram, in this order.
    pub fn new() -> (registry: Self)
        ensures
            registry@ == default_converters(),
    {
        let mut converters: Vec<Converter> = Vec::new();
        converters.push(Converter::Twitter(TwitterConverter::new()));
        converters.push(Converter::Bluesky(BlueSkyConverter::new()));
        converters.push(Converter::TikTok(TikTokConverter::new()));
        converters.push(Converter::Instagram(InstagramConverter::new()));
        assert(converters@ =~= default_converters());
        ConverterRegistry { converters }
    }

    /// Registers one more converter; it is tried after those already there.
    pub fn register(&mut self, converter: Converter)
        ensures
            final(self)@ == old(self)@.push(converter),
    {
        self.converters.push(converter);
    }

    /// Gets the first converter that handles the platform named `platform`.
    pub fn get_converter(&self, platform: &str) -> (found: Option<Converter>)
        ensures
            found == first_for(self@, platform@),
    {
        let mut i: usize = 0;
        assert(self@.skip(0) =~= self@);
        while i < self.converters.len()
            invariant
                i <= self.converters.len(),
                first_for(self@, platform@) == first_for(self@.skip(i as int), platform@),
            decreases self.converters.len() - i,
        {
            let c = self.converters[i];
            proof {
                assert(self@.skip(i as int)[0] == c);
                assert(self@.skip(i as int).drop_first() =~= self@.skip(i + 1));
            }
            if same_text(c.platform_name(), platform) {
                return Some(c);
            }
            i += 1;
        }
        None
    }

    /// Rewrites `url` with the converter `converter` of the platform
    /// `platform`, both named exactly; `None` where the registry has no
    /// such platform, `url` is not a vanilla link of it, or it has no such
    /// converter with a mirror domain.
    pub fn convert(&self, url: &str, platform: &str, converter: &str) -> (out: Option<String>)
        ensures
            out.deep_view() == conversion_by(self@, url@, platform@, converter@),
    {
        match self.get_converter(platform) {
            Some(c) => c.convert(url, converter),
            None => None,
        }
    }

    /// Tries the platforms in the order of registration and returns the
    /// first rewriting of `url` with the converter `converter`, with the
    /// name of the platform that made it.
    pub fn try_convert_any(&self, url: &str, converter: &str) -> (out: Option<(String, String)>)
        ensures
            out.deep_view() == first_conversion(self@, url@, converter@),
    {
        let mut i: usize = 0;
        assert(self@.skip(0) =~= self@);
        while i < self.converters.len()
            invariant
                i <= self.converters.len(),
                first_conversion(self@, url@, converter@) == first_conversion(
                    self@.skip(i as int),
                    url@,
                    converter@,
                ),
            decreases self.converters.len() - i,
        {
            let c = self.converters[i];
            proof {
                assert(self@.skip(i as int)[0] == c);
                assert(self@.skip(i as int).drop_first() =~= self@.skip(i + 1));
            }
            if c.matches(url) {
                match c.convert(url, converter) {
                    Some(converted) => {
                        return Some((String::from_str(c.platform_name()), converted));
                    },
                    None => {},
                }
            }
            i += 1;
        }
        None
    }

    /// Gets the names of the registered platforms, in the order of registration.
    pub fn platforms(&self) -> (names: Vec<&'static str>)
        ensures
            names.deep_view() == platform_names(self@),
    {
        let mut names: Vec<&'static str> = Vec::new();
        let mut i: usize = 0;
        while i < self.converters.len()
            invariant
                i <= self.converters.len(),
                names.len() == i,
                forall|k: int| 0 <= k < i ==> names@[k]@ == self@[k].platform(),
            decreases self.converters.len() - i,
        {
            names.push(self.converters[i].platform_name());
            i += 1;
        }
        assert(names.deep_view() =~= platform_names(self@));
        names
    }

    /// Gets the names of the converters of the platform `platform`; none
    /// where the registry has no such platform.
    pub fn available_converters(&self, platform: &str) -> (names: Vec<&'static str>)
        ensures
            names.deep_view() == match first_for(self@, platform@) {
                Some(c) => c.menu(),
                None => Seq::<Seq<char>>::empty(),
            },
    {
        match self.get_converter(platform) {
            Some(c) => c.available_converters(),
            None => {
                let names: Vec<&'static str> = Vec::new();
                assert(names.deep_view() =~= Seq::<Seq<char>>::empty());
                names
            },
        }
    }
}

/// A rewritten link is a vanilla link of no platform.
pub proof fn lemma_mirror_is_vanilla_nowhere(
    c: Converter,
    url: Seq<char>,
    id: Seq<char>,
    other: Converter,
)
    requires
        c.link(url, id) is Some,
    ensures
        other.parts(c.link(url, id)->0) is None,
{
    reveal_strlit("twitter.com");
    reveal_strlit("x.com");
    reveal_strlit("bsky.app");
    reveal_strlit("tiktok.com");
    reveal_strlit("instagram.com");
    reveal_strlit("fxtwitter.com");
    reveal_strlit("vxtwitter.com");
    reveal_strlit("fixupx.com");
    reveal_strlit("fixvx.com");
    reveal_strlit("fxbsky.app");
    reveal_strlit("vxbsky.app");
    reveal_strlit("bskye.app");
    reveal_strlit("bskyx.app");
    reveal_strlit("tfxktok.com");
    reveal_strlit("tiktokez.com");
    reveal_strlit("ddinstagram.com");
    reveal_strlit("kkinstagram.com");
    reveal_strlit("instagramez.com");
    reveal_strlit("eeinstagram.com");
    let parts = c.parts(url)->0;
    let domain = c.domain(id)->0;
    let lead = c.lead();
    let sep = c.separator();
    let tiktok_like = domain == "tfxktok.com"@ || domain == "tiktokez.com"@;
    let k_twitter: int = if tiktok_like {
        1
    } else {
        0
    };
    let k_bluesky: int = if domain == "bskye.app"@ || domain == "bskyx.app"@ {
        4
    } else {
        0
    };
    let k_tiktok: int = if domain == "tfxktok.com"@ {
        1
    } else if domain == "tiktokez.com"@ {
        6
    } else {
        0
    };
    let k_instagram: int = if domain == "instagramez.com"@ {
        9
    } else {
        0
    };
    lemma_rewritten_host_differs(url, parts, domain, lead, sep, "twitter.com"@, k_twitter);
    lemma_rewritten_host_differs(url, parts, domain, lead, sep, "x.com"@, 0);
    lemma_rewritten_host_differs(url, parts, domain, lead, sep, "bsky.app"@, k_bluesky);
    lemma_rewritten_host_differs(url, parts, domain, lead, sep, "tiktok.com"@, k_tiktok);
    lemma_rewritten_host_differs(url, parts, domain, lead, sep, "instagram.com"@, k_instagram);
}

/// Rewriting changes the domain only: the owner's handle and the
/// identifier are carried over as they stand in `url`, and the rewritten
/// link is `https://`, the converter's domain and the path of `url` from
/// the end of its host to the end of the identifier.
pub proof fn lemma_link_keeps_fields(c: Converter, url: Seq<char>, id: Seq<char>)
    requires
        c.link(url, id) is Some,
    ensures
        ({
            let parts = c.parts(url)->0;
            let domain = c.domain(id)->0;
            &&& parts.within(url)
            &&& c.link(url, id)->0 == "https://"@ + domain + c.lead() + parts.owner(url)
                + c.separator() + parts.id(url)
            &&& c.link(url, id)->0 == "https://"@ + domain + url.subrange(
                parts.owner_start - c.lead().len(),
                parts.id_end,
            )
        }),
{
    match c {
        Converter::Twitter(_) => {
            reveal_strlit("/");
            lemma_twitter_keeps_fields(url, id);
        },
        Converter::Bluesky(_) => {
            lemma_bluesky_keeps_fields(url, id);
        },
        Converter::TikTok(_) => {
            lemma_tiktok_keeps_fields(url, id);
        },
        Converter::Instagram(_) => {
            lemma_instagram_keeps_fields(url, id);
        },
    }
}

/// What `first_for` finds is one of the converters and handles the platform.
pub proof fn lemma_first_for(converters: Seq<Converter>, platform: Seq<char>)
    ensures
        first_for(converters, platform) matches Some(c) ==> converters.contains(c) && c.platform()
            == platform,
        first_for(converters, platform) is None ==> forall|i: int|
            0 <= i < converters.len() ==> (#[trigger] converters[i]).platform() != platform,
    decreases converters.len(),
{
    if converters.len() > 0 {
        if converters[0].platform() != platform {
            let rest = converters.drop_first();
            lemma_first_for(rest, platform);
            if first_for(rest, platform) is Some {
                let c = first_for(rest, platform)->0;
                let i = choose|i: int| 0 <= i < rest.len() && rest[i] == c;
                assert(converters[i + 1] == c);
            } else {
                assert forall|i: int| 0 <= i < converters.len() implies (
                #[trigger] converters[i]).platform() != platform by {
                    if i > 0 {
                        assert(rest[i - 1] == converters[i]);
                    }
                }
            }
        }
    }
}

/// No converter of a registry rewrites a text that is a vanilla link of no platform.
pub proof fn lemma_first_conversion_needs_vanilla(
    converters: Seq<Converter>,
    url: Seq<char>,
    converter: Seq<char>,
)
    requires
        forall|c: Converter| c.parts(url) is None,
    ensures
        first_conversion(converters, url, converter) is None,
    decreases converters.len(),
{
    if converters.len() > 0 {
        lemma_first_conversion_needs_vanilla(converters.drop_first(), url, converter);
    }
}

/// A link is rewritten once: what a registry has rewritten, no registry
/// rewrites again, whatever platform and converter are named, and
/// whichever platforms are tried.
pub proof fn lemma_rewritten_once(
    converters: Seq<Converter>,
    url: Seq<char>,
    platform: Seq<char>,
    converter: Seq<char>,
    others: Seq<Converter>,
    again_platform: Seq<char>,
    again: Seq<char>,
)
    requires
        conversion_by(converters, url, platform, converter) is Some,
    ensures
        conversion_by(
            others,
            conversion_by(converters, url, platform, converter)->0,
            again_platform,
            again,
        ) is None,
        first_conversion(others, conversion_by(converters, url, platform, converter)->0, again)
            is None,
{
    let c = first_for(converters, platform)->0;
    let out = conversion_by(converters, url, platform, converter)->0;
    assert forall|other: Converter| other.parts(out) is None by {
        lemma_mirror_is_vanilla_nowhere(c, url, converter, other);
    }
    lemma_first_conversion_needs_vanilla(others, out, again);
}

/// Two hosts that differ at some index do not both stand at `at`.
pub proof fn lemma_hosts_exclude(url: Seq<char>, at: int, a: Seq<char>, b: Seq<char>, k: int)
    requires
        0 <= k < a.len(),
        k < b.len(),
        a[k] != b[k],
    ensures
        !(has_prefix_at(url, at, a) && has_prefix_at(url, at, b)),
{
    if has_prefix_at(url, at, a) && has_prefix_at(url, at, b) {
        lemma_prefix_chars(url, at, a, k);
        lemma_prefix_chars(url, at, b, k);
    }
}

/// A link is a vanilla link of one platform at most.
pub proof fn lemma_vanilla_of_one_platform(c: Converter, other: Converter, url: Seq<char>)
    requires
        c.parts(url) is Some,
        c.platform() != other.platform(),
    ensures
        other.parts(url) is None,
{
    reveal_strlit("twitter.com");
    reveal_strlit("x.com");
    reveal_strlit("bsky.app");
    reveal_strlit("tiktok.com");
    reveal_strlit("instagram.com");
    let at = host_start(url);
    lemma_hosts_exclude(url, at, "twitter.com"@, "bsky.app"@, 0);
    lemma_hosts_exclude(url, at, "twitter.com"@, "tiktok.com"@, 1);
    lemma_hosts_exclude(url, at, "twitter.com"@, "instagram.com"@, 0);
    lemma_hosts_exclude(url, at, "x.com"@, "bsky.app"@, 0);
    lemma_hosts_exclude(url, at, "x.com"@, "tiktok.com"@, 0);
    lemma_hosts_exclude(url, at, "x.com"@, "instagram.com"@, 0);
    lemma_hosts_exclude(url, at, "bsky.app"@, "tiktok.com"@, 0);
    lemma_hosts_exclude(url, at, "bsky.app"@, "instagram.com"@, 0);
    lemma_hosts_exclude(url, at, "tiktok.com"@, "instagram.com"@, 0);
}

impl Converter {
    /// The characters that the identifiers of the platform's links are made of.
    pub open spec fn id_class(self) -> CharClass {
        match self {
            Converter::Twitter(_) => CharClass::Digit,
            Converter::Bluesky(_) => CharClass::Token,
            Converter::TikTok(_) => CharClass::Digit,
            Converter::Instagram(_) => CharClass::Slug,
        }
    }
}

/// The fields of a vanilla link lie within it, the owner's handle holds no
/// `/`, and the identifier is made of the characters of the platform's identifiers.
pub proof fn lemma_parts_fields(c: Converter, url: Seq<char>)
    requires
        c.parts(url) is Some,
    ensures
        c.parts(url)->0.within(url),
        forall|k: int|
            c.parts(url)->0.owner_start <= k < c.parts(url)->0.owner_end ==> #[trigger] url[k]
                != '/',
        forall|k: int|
            c.parts(url)->0.id_start <= k < c.parts(url)->0.id_end ==> c.id_class().accepts(
                #[trigger] url[k],
            ),
{
    let host = host_start(url);
    match c {
        Converter::Twitter(_) => {
            if has_prefix_at(url, host, "twitter.com"@) {
                lemma_path_parts(
                    url,
                    host + "twitter.com"@.len(),
                    "/"@,
                    "/status/"@,
                    CharClass::Digit,
                );
            } else {
                lemma_path_parts(url, host + "x.com"@.len(), "/"@, "/status/"@, CharClass::Digit);
            }
        },
        Converter::Bluesky(_) => {
            lemma_path_parts(
                url,
                host + "bsky.app"@.len(),
                "/profile/"@,
                "/post/"@,
                CharClass::Token,
            );
        },
        Converter::TikTok(_) => {
            lemma_path_parts(url, host + "tiktok.com"@.len(), "/@"@, "/video/"@, CharClass::Digit);
        },
        Converter::Instagram(_) => {
            lemma_path_parts(
                url,
                host + "instagram.com"@.len(),
                "/"@,
                "/reel/"@,
                CharClass::Slug,
            );
        },
    }
}

/// A rewritten link has no white space around it.
pub proof fn lemma_link_is_trimmed(c: Converter, url: Seq<char>, id: Seq<char>)
    requires
        c.link(url, id) is Some,
    ensures
        trimmed(c.link(url, id)->0) == c.link(url, id)->0,
{
    reveal_strlit("https://");
    let parts = c.parts(url)->0;
    let domain = c.domain(id)->0;
    let out = c.link(url, id)->0;
    lemma_parts_fields(c, url);
    lemma_rewritten_start(url, parts, domain, c.lead(), c.separator());
    lemma_prefix_chars(out, 0, "https://"@, 0);
    assert(!is_whitespace(out[0]));
    assert(run_end(out, 0, CharClass::Space) == 0);
    let last = parts.id(url).len() - 1;
    assert(out[out.len() - 1] == parts.id(url)[last]);
    assert(parts.id(url)[last] == url[parts.id_start + last]);
    assert(c.id_class().accepts(url[parts.id_start + last]));
    assert(!is_whitespace(out[out.len() - 1]));
    assert(trailing_space_start(out, 0, out.len() as int) == out.len());
    assert(out.subrange(0, out.len() as int) =~= out);
}

/// A link with `host` as its host starts with no white space.
pub proof fn lemma_link_start_is_no_space(text: Seq<char>, host: Seq<char>)
    requires
        has_prefix_at(text, host_start(text), host),
        host.len() > 0,
        !is_whitespace(host[0]),
    ensures
        text.len() > 0,
        !is_whitespace(text[0]),
{
    reveal_strlit("https://");
    reveal_strlit("http://");
    reveal_strlit("www.");
    if has_prefix_at(text, 0, "https://"@) {
        lemma_prefix_chars(text, 0, "https://"@, 0);
    } else if has_prefix_at(text, 0, "http://"@) {
        lemma_prefix_chars(text, 0, "http://"@, 0);
    } else if has_prefix_at(text, 0, "www."@) {
        lemma_prefix_chars(text, 0, "www."@, 0);
    } else {
        lemma_prefix_chars(text, 0, host, 0);
    }
}

/// A link cut after its identifier is the same link: it has the same
/// scheme, the same host and the same fields.
pub proof fn lemma_link_survives_cut(
    text: Seq<char>,
    b: int,
    host: Seq<char>,
    lead: Seq<char>,
    separator: Seq<char>,
    id_class: CharClass,
)
    requires
        has_prefix_at(text, host_start(text), host),
        path_parts(text, host_start(text) + host.len(), lead, separator, id_class) is Some,
        path_parts(text, host_start(text) + host.len(), lead, separator, id_class)->0.id_end
            <= b <= text.len(),
        separator.len() > 0,
        separator[0] == '/',
    ensures
        scheme_end(text.subrange(0, b)) == scheme_end(text),
        host_start(text.subrange(0, b)) == host_start(text),
        has_prefix_at(text.subrange(0, b), host_start(text), host),
        path_parts(
            text.subrange(0, b),
            host_start(text) + host.len(),
            lead,
            separator,
            id_class,
        ) == path_parts(text, host_start(text) + host.len(), lead, separator, id_class),
{
    let at = host_start(text) + host.len();
    lemma_path_parts(text, at, lead, separator, id_class);
    lemma_cut_keeps_start(text, b);
    lemma_prefix_in_cut(text, b, host_start(text), host);
    lemma_cut_keeps_path(text, b, at, lead, separator, id_class);
}

/// A vanilla link stays the same vanilla link when the white space around
/// it is removed.
pub proof fn lemma_vanilla_survives_trim(c: Converter, text: Seq<char>)
    requires
        c.parts(text) is Some,
    ensures
        c.parts(trimmed(text)) is Some,
        c.parts(trimmed(text)) == c.parts(text),
{
    reveal_strlit("twitter.com");
    reveal_strlit("x.com");
    reveal_strlit("bsky.app");
    reveal_strlit("tiktok.com");
    reveal_strlit("instagram.com");
    reveal_strlit("/status/");
    reveal_strlit("/post/");
    reveal_strlit("/video/");
    reveal_strlit("/reel/");
    let parts = c.parts(text)->0;
    let host = host_start(text);
    lemma_parts_fields(c, text);
    let last = parts.id_end - 1;
    assert(c.id_class().accepts(text[last]));
    assert(!is_whitespace(text[last]));
    match c {
        Converter::Twitter(_) => {
            if has_prefix_at(text, host, "twitter.com"@) {
                lemma_link_start_is_no_space(text, "twitter.com"@);
            } else {
                lemma_link_start_is_no_space(text, "x.com"@);
            }
        },
        Converter::Bluesky(_) => {
            lemma_link_start_is_no_space(text, "bsky.app"@);
        },
        Converter::TikTok(_) => {
            lemma_link_start_is_no_space(text, "tiktok.com"@);
        },
        Converter::Instagram(_) => {
            lemma_link_start_is_no_space(text, "instagram.com"@);
        },
    }
    lemma_trimmed_keeps(text, last);
    let b = trailing_space_start(text, 0, text.len() as int);
    let cut = text.subrange(0, b);
    match c {
        Converter::Twitter(_) => {
            if has_prefix_at(text, host, "twitter.com"@) {
                lemma_link_survives_cut(
                    text,
                    b,
                    "twitter.com"@,
                    "/"@,
                    "/status/"@,
                    CharClass::Digit,
                );
            } else {
                lemma_link_survives_cut(text, b, "x.com"@, "/"@, "/status/"@, CharClass::Digit);
                lemma_prefix_in_cut(text, b, host, "twitter.com"@);
            }
        },
        Converter::Bluesky(_) => {
            lemma_link_survives_cut(text, b, "bsky.app"@, "/profile/"@, "/post/"@, CharClass::Token);
        },
        Converter::TikTok(_) => {
            lemma_link_survives_cut(text, b, "tiktok.com"@, "/@"@, "/video/"@, CharClass::Digit);
        },
        Converter::Instagram(_) => {
            lemma_link_survives_cut(text, b, "instagram.com"@, "/"@, "/reel/"@, CharClass::Slug);
            if parts.id_end < b {
                assert(cut[parts.id_end] == text[parts.id_end]);
            }
        },
    }
}

} // verus!
