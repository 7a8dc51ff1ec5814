//! What can be done with the configuration of any platform, and the
//! operations on the whole configuration that are built from it.

use crate::config::app_config::{
    first_index, sources_wf, ConverterChoice, Platform, PlatformConfig, PlatformConverters,
    PlatformSource, SourceView, SourcesConfig,
};
use crate::services::converters::bluesky::BlueSkyConverter;
use crate::services::converters::instagram::InstagramConverter;
use crate::services::converters::registry::{
    conversion_by, first_for, lemma_first_for, lemma_link_is_trimmed,
    lemma_vanilla_of_one_platform, Converter,
};
use crate::services::converters::tiktok::TikTokConverter;
use crate::services::converters::twitter::TwitterConverter;
use crate::services::converters::LinkConverterStrategy;
use crate::services::link_converter::LinkConverter;
use crate::text::{lowercase_of, same_text, to_lowercase, trimmed};
use vstd::prelude::*;
use vstd::string::StringExecFns;

verus! {

/// The link `url` rewritten as `config` says, for the platform named
/// `platform`: with the selected converter, where the platform is enabled
/// and has one.
pub open spec fn configured_conversion(
    config: PlatformConfig,
    converters: Seq<Converter>,
    url: Seq<char>,
    platform: Seq<char>,
) -> Option<Seq<char>> {
    match config.selected {
        Some(id) if config.enabled => conversion_by(converters, url, platform, id),
        _ => None,
    }
}

/// The operations that the configuration of every platform offers.
pub trait PlatformOperations {
    /// What is configured.
    spec fn config(&self) -> PlatformConfig;

    fn is_enabled(&self) -> (enabled: bool)
        ensures
            enabled == self.config().enabled,
    ;

    fn set_enabled(&mut self, enabled: bool)
        ensures
            final(self).config() == (PlatformConfig { enabled, ..old(self).config() }),
    ;

    /// Returns the name of the selected converter, where there is one.
    fn get_selected_converter(&self) -> (selected: Option<String>)
        ensures
            selected.deep_view() == self.config().selected,
    ;

    /// Selects the converter with the exact name `converter_name` and
    /// tells whether it is on the menu; nothing changes where it is not.
    fn set_converter_by_name(&mut self, converter_name: &str) -> (done: bool)
        ensures
            done == old(self).config().converters.contains(converter_name@),
            done ==> final(self).config() == (PlatformConfig {
                selected: Some(converter_name@),
                ..old(self).config()
            }),
            !done ==> final(self).config() == old(self).config(),
    ;

    /// Rewrites `url` as a link of the platform named `platform_name` with
    /// the selected converter; `None` where the platform is disabled, has
    /// no converter selected, or `link_converter` does not rewrite `url`.
    fn try_convert_link(&self, link_converter: &LinkConverter, url: &str, platform_name: &str) -> (out:
        Option<String>)
        ensures
            out.deep_view() == configured_conversion(
                self.config(),
                link_converter@,
                url@,
                platform_name@,
            ),
    ;
}

impl<T: ConverterChoice> PlatformOperations for PlatformConverters<T> {
    open spec fn config(&self) -> PlatformConfig {
        self@
    }

    fn is_enabled(&self) -> (enabled: bool) {
        self.enabled
    }

    fn set_enabled(&mut self, enabled: bool) {
        self.enabled = enabled;
    }

    fn get_selected_converter(&self) -> (selected: Option<String>) {
        match self.selected {
            Some(c) => Some(String::from_str(c.as_str())),
            None => None,
        }
    }

    fn set_converter_by_name(&mut self, converter_name: &str) -> (done: bool) {
        self.select_by_name(converter_name)
    }

    fn try_convert_link(&self, link_converter: &LinkConverter, url: &str, platform_name: &str) -> (out:
        Option<String>) {
        if self.enabled {
            match self.selected {
                Some(selected) => {
                    return link_converter.convert_link(url, platform_name, selected.as_str());
                },
                None => {},
            }
        }
        None
    }
}

impl PlatformOperations for PlatformSource {
    open spec fn config(&self) -> PlatformConfig {
        self@.config
    }

    fn is_enabled(&self) -> (enabled: bool) {
        match self {
            PlatformSource::Twitter(data) => data.is_enabled(),
            PlatformSource::Bluesky(data) => data.is_enabled(),
        }
    }

    fn set_enabled(&mut self, enabled: bool)
        ensures
            final(self)@.platform == old(self)@.platform,
    {
        match self {
            PlatformSource::Twitter(data) => data.set_enabled(enabled),
            PlatformSource::Bluesky(data) => data.set_enabled(enabled),
        }
    }

    fn get_selected_converter(&self) -> (selected: Option<String>) {
        match self {
            PlatformSource::Twitter(data) => data.get_selected_converter(),
            PlatformSource::Bluesky(data) => data.get_selected_converter(),
        }
    }

    fn set_converter_by_name(&mut self, converter_name: &str) -> (done: bool)
        ensures
            final(self)@.platform == old(self)@.platform,
    {
        match self {
            PlatformSource::Twitter(data) => data.set_converter_by_name(converter_name),
            PlatformSource::Bluesky(data) => data.set_converter_by_name(converter_name),
        }
    }

    fn try_convert_link(&self, link_converter: &LinkConverter, url: &str, platform_name: &str) -> (out:
        Option<String>) {
        match self {
            PlatformSource::Twitter(data) => data.try_convert_link(
                link_converter,
                url,
                platform_name,
            ),
            PlatformSource::Bluesky(data) => data.try_convert_link(
                link_converter,
                url,
                platform_name,
            ),
        }
    }
}

impl PlatformSource {
    /// Returns the platform of this entry.
    pub fn get_platform_type(&self) -> (platform: Platform)
        ensures
            platform == self@.platform,
    {
        match self {
            PlatformSource::Twitter(_) => Platform::Twitter,
            PlatformSource::Bluesky(_) => Platform::Bluesky,
        }
    }

    /// Returns the name of the platform of this entry.
    pub fn get_platform_name(&self) -> (name: &'static str)
        ensures
            name@ == self@.platform.name(),
    {
        match self {
            PlatformSource::Twitter(_) => "twitter",
            PlatformSource::Bluesky(_) => "bluesky",
        }
    }

    /// Rewrites `url` as a link of this entry's platform, as the entry says.
    pub fn try_convert_link(&self, link_converter: &LinkConverter, url: &str) -> (out: Option<
        String,
    >)
        ensures
            out.deep_view() == source_conversion(self@, link_converter@, url@),
    {
        PlatformOperations::try_convert_link(
            self,
            link_converter,
            url,
            self.get_platform_name(),
        )
    }
}

/// The link `url` rewritten as the entry `source` says.
pub open spec fn source_conversion(source: SourceView, converters: Seq<Converter>, url: Seq<char>) -> Option<
    Seq<char>,
> {
    configured_conversion(source.config, converters, url, source.platform.name())
}

/// The platform with the lower-case name `name`, among those that the
/// configuration has entries for.
pub open spec fn platform_named(name: Seq<char>) -> Option<Platform> {
    if name == "twitter"@ {
        Some(Platform::Twitter)
    } else if name == "bluesky"@ {
        Some(Platform::Bluesky)
    } else {
        None
    }
}

/// Finds the platform with the lower-case name `name`.
pub fn platform_from_name(name: &str) -> (platform: Option<Platform>)
    ensures
        platform == platform_named(name@),
{
    if same_text(name, "twitter") {
        Some(Platform::Twitter)
    } else if same_text(name, "bluesky") {
        Some(Platform::Bluesky)
    } else {
        None
    }
}

/// Parses the name of a platform, whatever its case.
pub fn parse_platform(platform_str: &str) -> (platform: Option<Platform>)
    ensures
        platform == platform_named(lowercase_of(platform_str@)),
{
    let name = to_lowercase(platform_str);
    platform_from_name(name.as_str())
}

/// A change to the configuration of one platform: a new value for the
/// switch, a converter to select by its exact name, or both.
pub struct PlatformChange {
    pub enabled: Option<bool>,
    pub converter: Option<String>,
}

/// A change, with the converter as a name.
pub struct ChangeView {
    pub enabled: Option<bool>,
    pub converter: Option<Seq<char>>,
}

impl View for PlatformChange {
    type V = ChangeView;

    open spec fn view(&self) -> ChangeView {
        ChangeView {
            enabled: self.enabled,
            converter: match self.converter {
                Some(name) => Some(name@),
                None => None,
            },
        }
    }
}

impl ChangeView {
    /// The change can be made in full: it names no converter, or one that
    /// is on the menu of `config`.
    pub open spec fn fits(self, config: PlatformConfig) -> bool {
        self.converter matches Some(name) ==> config.converters.contains(name)
    }

    /// `config` after the change, which is made in full or not at all:
    /// where it fits, the switch is set where the change has a value for
    /// it and the converter selected where it names one; where it names a
    /// converter that is not on the menu, `config` stays as it is.
    pub open spec fn applied(self, config: PlatformConfig) -> PlatformConfig {
        if self.fits(config) {
            PlatformConfig {
                enabled: match self.enabled {
                    Some(enabled) => enabled,
                    None => config.enabled,
                },
                converters: config.converters,
                selected: match self.converter {
                    Some(name) => Some(name),
                    None => config.selected,
                },
            }
        } else {
            config
        }
    }
}

/// `sources` after `change` was made to the entry at `i`.
pub open spec fn with_change(sources: Seq<SourceView>, i: int, change: ChangeView) -> Seq<
    SourceView,
> {
    sources.update(
        i,
        SourceView { platform: sources[i].platform, config: change.applied(sources[i].config) },
    )
}

/// A change keeps a configuration well formed.
pub proof fn lemma_with_change_wf(sources: Seq<SourceView>, i: int, change: ChangeView)
    requires
        sources_wf(sources),
        0 <= i < sources.len(),
    ensures
        sources_wf(with_change(sources, i, change)),
{
    let after = with_change(sources, i, change);
    assert forall|k: int| 0 <= k < after.len() implies (#[trigger] after[k]).config.wf() by {
        assert(sources[k].config.wf());
    }
    assert forall|j: int, k: int| 0 <= j < k < after.len() implies (#[trigger] after[j]).platform
        != (#[trigger] after[k]).platform by {
        assert(sources[j].platform != sources[k].platform);
    }
}

/// A change that does not fit changes nothing.
pub proof fn lemma_misfit_changes_nothing(sources: Seq<SourceView>, i: int, change: ChangeView)
    requires
        0 <= i < sources.len(),
        !change.fits(sources[i].config),
    ensures
        with_change(sources, i, change) == sources,
{
    assert(with_change(sources, i, change) =~= sources);
}

/// Makes `change` to the first entry for `platform`, in full or not at
/// all. `None`, and nothing changed, where `platform` has no entry; else
/// whether the change fits. Where it names a converter that is not on the
/// menu of the entry, nothing changes: the switch is not set either.
pub fn with_platform_data(state: &mut SourcesConfig, platform: Platform, change: &PlatformChange) -> (done:
    Option<bool>)
    ensures
        ({
            let i = first_index(old(state)@, platform);
            if i == old(state)@.len() {
                done == None::<bool> && final(state)@ == old(state)@
            } else {
                &&& done == Some(change@.fits(old(state)@[i].config))
                &&& final(state)@ == with_change(old(state)@, i, change@)
                &&& !change@.fits(old(state)@[i].config) ==> final(state)@ == old(state)@
            }
        }),
        sources_wf(old(state)@) ==> sources_wf(final(state)@),
{
    let i = state.find_platform(platform);
    if i == state.sources.len() {
        return None;
    }
    let ghost before = state@;
    let fits = match &change.converter {
        Some(name) => state.sources[i].offers(name.as_str()),
        None => true,
    };
    if !fits {
        proof {
            lemma_misfit_changes_nothing(before, i as int, change@);
        }
        return Some(false);
    }
    match change.enabled {
        Some(enabled) => {
            state.sources[i].set_enabled(enabled);
        },
        None => {},
    }
    match &change.converter {
        Some(name) => {
            state.sources[i].set_converter_by_name(name.as_str());
        },
        None => {},
    }
    proof {
        assert(state@ =~= with_change(before, i as int, change@));
        if sources_wf(before) {
            lemma_with_change_wf(before, i as int, change@);
        }
    }
    Some(true)
}

/// The first rewriting of `url` that an entry of `sources` makes, going
/// through the entries in order.
pub open spec fn first_source_conversion(
    sources: Seq<SourceView>,
    converters: Seq<Converter>,
    url: Seq<char>,
) -> Option<Seq<char>>
    decreases sources.len(),
{
    if sources.len() == 0 {
        None
    } else {
        match source_conversion(sources[0], converters, url) {
            Some(out) => Some(out),
            None => first_source_conversion(sources.drop_first(), converters, url),
        }
    }
}

/// Tries the entries of the configuration in order and returns the first
/// rewriting of `url`: by an entry that is enabled, with its selected converter.
pub fn try_convert_with_all_platforms(state: &SourcesConfig, link_converter: &LinkConverter, url: &str) -> (out:
    Option<String>)
    ensures
        out.deep_view() == first_source_conversion(state@, link_converter@, url@),
{
    let mut i: usize = 0;
    assert(state@.skip(0) =~= state@);
    while i < state.sources.len()
        invariant
            i <= state.sources.len(),
            first_source_conversion(state@, link_converter@, url@) == first_source_conversion(
                state@.skip(i as int),
                link_converter@,
                url@,
            ),
        decreases state.sources.len() - i,
    {
        proof {
            assert(state@.skip(i as int)[0] == state.sources@[i as int]@);
            assert(state@.skip(i as int).drop_first() =~= state@.skip(i + 1));
        }
        match state.sources[i].try_convert_link(link_converter, url) {
            Some(converted) => {
                return Some(converted);
            },
            None => {},
        }
        i += 1;
    }
    None
}

/// The converter of `platform`, where links of the platform can be rewritten.
pub open spec fn converter_of(platform: Platform) -> Option<Converter> {
    match platform {
        Platform::Twitter => Some(Converter::Twitter(TwitterConverter {  })),
        Platform::Bluesky => Some(Converter::Bluesky(BlueSkyConverter {  })),
        Platform::Tiktok => Some(Converter::TikTok(TikTokConverter {  })),
        Platform::Instagram => Some(Converter::Instagram(InstagramConverter {  })),
        Platform::Reddit => None,
    }
}

/// `url` is a vanilla link of `platform`.
pub open spec fn vanilla_for(platform: Platform, url: Seq<char>) -> bool {
    match converter_of(platform) {
        Some(c) => c.vanilla(url),
        None => false,
    }
}

/// Platforms differ in their names.
pub proof fn lemma_platform_names_differ(a: Platform, b: Platform)
    requires
        a != b,
    ensures
        a.name() != b.name(),
{
    reveal_strlit("twitter");
    reveal_strlit("bluesky");
    reveal_strlit("instagram");
    reveal_strlit("reddit");
    reveal_strlit("tiktok");
    if a.name() == b.name() {
        assert(a.name()[0] == b.name()[0]);
        assert(a.name()[1] == b.name()[1]);
    }
}

/// No entry rewrites a link of another platform than its own.
pub proof fn lemma_source_converts_own_links(
    source: SourceView,
    converters: Seq<Converter>,
    url: Seq<char>,
    platform: Platform,
)
    requires
        vanilla_for(platform, url),
        source.platform != platform,
    ensures
        source_conversion(source, converters, url) is None,
{
    if source_conversion(source, converters, url) is Some {
        let own = converter_of(platform)->0;
        lemma_first_for(converters, source.platform.name());
        let c = first_for(converters, source.platform.name())->0;
        lemma_platform_names_differ(source.platform, platform);
        reveal_strlit("twitter");
        reveal_strlit("bluesky");
        reveal_strlit("instagram");
        reveal_strlit("tiktok");
        assert(own.platform() == platform.name());
        lemma_vanilla_of_one_platform(own, c, url);
    }
}

/// A disabled platform is left out: where every entry for `platform` is
/// disabled, no link of the platform is rewritten through the
/// configuration, whatever converter is selected for it and whatever the
/// other entries say.
pub proof fn lemma_disabled_platform_is_skipped(
    sources: Seq<SourceView>,
    converters: Seq<Converter>,
    url: Seq<char>,
    platform: Platform,
)
    requires
        vanilla_for(platform, url),
        forall|i: int|
            0 <= i < sources.len() && (#[trigger] sources[i]).platform == platform
                ==> !sources[i].config.enabled,
    ensures
        first_source_conversion(sources, converters, url) is None,
    decreases sources.len(),
{
    if sources.len() > 0 {
        let rest = sources.drop_first();
        if sources[0].platform != platform {
            lemma_source_converts_own_links(sources[0], converters, url, platform);
        }
        assert forall|i: int| 0 <= i < rest.len() && (#[trigger] rest[i]).platform
            == platform implies !rest[i].config.enabled by {
            assert(rest[i] == sources[i + 1]);
        }
        lemma_disabled_platform_is_skipped(rest, converters, url, platform);
    }
}

/// An entry rewrites links of its own platform only.
pub proof fn lemma_source_needs_own_link(
    source: SourceView,
    converters: Seq<Converter>,
    url: Seq<char>,
)
    requires
        source_conversion(source, converters, url) is Some,
    ensures
        vanilla_for(source.platform, url),
        source.config.enabled,
{
    reveal_strlit("twitter");
    reveal_strlit("bluesky");
    reveal_strlit("instagram");
    reveal_strlit("reddit");
    reveal_strlit("tiktok");
    let name = source.platform.name();
    lemma_first_for(converters, name);
    let c = first_for(converters, name)->0;
    assert(c.parts(url) is Some);
    assert(c.platform() == name);
    assert(name[0] == c.platform()[0]);
    assert(name[1] == c.platform()[1]);
}

/// Where every entry for a platform that the link belongs to is disabled,
/// the link is not rewritten through the configuration. So it is for a
/// text that is no platform's link.
pub proof fn lemma_disabled_entries_are_skipped(
    sources: Seq<SourceView>,
    converters: Seq<Converter>,
    url: Seq<char>,
)
    requires
        forall|i: int|
            0 <= i < sources.len() && vanilla_for((#[trigger] sources[i]).platform, url)
                ==> !sources[i].config.enabled,
    ensures
        first_source_conversion(sources, converters, url) is None,
    decreases sources.len(),
{
    if sources.len() > 0 {
        let rest = sources.drop_first();
        if source_conversion(sources[0], converters, url) is Some {
            lemma_source_needs_own_link(sources[0], converters, url);
        }
        assert forall|i: int| 0 <= i < rest.len() && vanilla_for(
            (#[trigger] rest[i]).platform,
            url,
        ) implies !rest[i].config.enabled by {
            assert(rest[i] == sources[i + 1]);
        }
        lemma_disabled_entries_are_skipped(rest, converters, url);
    }
}

/// What the configuration makes of a link has no white space around it.
pub proof fn lemma_source_conversion_is_trimmed(
    sources: Seq<SourceView>,
    converters: Seq<Converter>,
    url: Seq<char>,
)
    requires
        first_source_conversion(sources, converters, url) is Some,
    ensures
        trimmed(first_source_conversion(sources, converters, url)->0) == first_source_conversion(
            sources,
            converters,
            url,
        )->0,
    decreases sources.len(),
{
    if sources.len() > 0 {
        match source_conversion(sources[0], converters, url) {
            Some(out) => {
                let id = sources[0].config.selected->0;
                let c = first_for(converters, sources[0].platform.name())->0;
                lemma_link_is_trimmed(c, url, id);
            },
            None => {
                lemma_source_conversion_is_trimmed(sources.drop_first(), converters, url);
            },
        }
    }
}

} // verus!
