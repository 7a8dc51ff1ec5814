//! The configuration as it is kept and persisted: one entry per platform,
//! each with its switch, its menu of converters and the converter selected.

use crate::text::same_text;
use vstd::prelude::*;
use vstd::string::StringExecFns;

verus! {

/// The social networks that the configuration can name.
#[derive(Debug, Hash, PartialEq, Eq, Clone, Copy, Structural)]
pub enum Platform {
    Twitter,
    Bluesky,
    Instagram,
    Reddit,
    Tiktok,
}

/// The converters of Twitter links.
#[derive(Debug, Hash, PartialEq, Eq, Clone, Copy, Structural)]
pub enum TwitterConverters {
    Fxtwitter,
    Vxtwitter,
    Fixupx,
    Fixvx,
}

/// The converters of Bluesky links.
#[derive(Debug, Hash, PartialEq, Eq, Clone, Copy, Structural)]
pub enum BlueskyConverters {
    Bsky,
    Fxbsky,
    Vxbsky,
    Bskye,
    Bskyx,
}

impl Platform {
    /// The lower-case name of the platform, by which it is stored and looked up.
    pub open spec fn name(self) -> Seq<char> {
        match self {
            Platform::Twitter => "twitter"@,
            Platform::Bluesky => "bluesky"@,
            Platform::Instagram => "instagram"@,
            Platform::Reddit => "reddit"@,
            Platform::Tiktok => "tiktok"@,
        }
    }

    /// The name of the variant, as it is shown in messages.
    pub open spec fn label(self) -> Seq<char> {
        match self {
            Platform::Twitter => "Twitter"@,
            Platform::Bluesky => "Bluesky"@,
            Platform::Instagram => "Instagram"@,
            Platform::Reddit => "Reddit"@,
            Platform::Tiktok => "Tiktok"@,
        }
    }

    /// Returns the lower-case name of the platform.
    pub fn as_str(&self) -> (name: &'static str)
        ensures
            name@ == self.name(),
    {
        match self {
            Platform::Twitter => "twitter",
            Platform::Bluesky => "bluesky",
            Platform::Instagram => "instagram",
            Platform::Reddit => "reddit",
            Platform::Tiktok => "tiktok",
        }
    }

    /// Returns the name of the variant.
    pub fn variant_name(&self) -> (label: &'static str)
        ensures
            label@ == self.label(),
    {
        match self {
            Platform::Twitter => "Twitter",
            Platform::Bluesky => "Bluesky",
            Platform::Instagram => "Instagram",
            Platform::Reddit => "Reddit",
            Platform::Tiktok => "Tiktok",
        }
    }
}

/// A converter of one platform: a value that stands for a lower-case name.
pub trait ConverterChoice: Copy {
    /// The lower-case name of the converter, its identifier within the platform.
    spec fn name(self) -> Seq<char>;

    /// Returns the lower-case name of the converter.
    fn as_str(&self) -> (name: &'static str)
        ensures
            name@ == (*self).name(),
    ;
}

impl ConverterChoice for TwitterConverters {
    open spec fn name(self) -> Seq<char> {
        match self {
            TwitterConverters::Fxtwitter => "fxtwitter"@,
            TwitterConverters::Vxtwitter => "vxtwitter"@,
            TwitterConverters::Fixupx => "fixupx"@,
            TwitterConverters::Fixvx => "fixvx"@,
        }
    }

    fn as_str(&self) -> (name: &'static str) {
        match self {
            TwitterConverters::Fxtwitter => "fxtwitter",
            TwitterConverters::Vxtwitter => "vxtwitter",
            TwitterConverters::Fixupx => "fixupx",
            TwitterConverters::Fixvx => "fixvx",
        }
    }
}

impl ConverterChoice for BlueskyConverters {
    open spec fn name(self) -> Seq<char> {
        match self {
            BlueskyConverters::Bsky => "bsky"@,
            BlueskyConverters::Fxbsky => "fxbsky"@,
            BlueskyConverters::Vxbsky => "vxbsky"@,
            BlueskyConverters::Bskye => "bskye"@,
            BlueskyConverters::Bskyx => "bskyx"@,
        }
    }

    fn as_str(&self) -> (name: &'static str) {
        match self {
            BlueskyConverters::Bsky => "bsky",
            BlueskyConverters::Fxbsky => "fxbsky",
            BlueskyConverters::Vxbsky => "vxbsky",
            BlueskyConverters::Bskye => "bskye",
            BlueskyConverters::Bskyx => "bskyx",
        }
    }
}

/// What the configuration says of one platform, with converters as names.
pub struct PlatformConfig {
    pub enabled: bool,
    pub converters: Seq<Seq<char>>,
    pub selected: Option<Seq<char>>,
}

impl PlatformConfig {
    /// The selected converter, where there is one, is on the menu.
    pub open spec fn wf(self) -> bool {
        self.selected matches Some(id) ==> self.converters.contains(id)
    }
}

/// The names of `converters`, in order.
pub open spec fn names_of<T: ConverterChoice>(converters: Seq<T>) -> Seq<Seq<char>> {
    Seq::new(converters.len(), |i: int| converters[i].name())
}

/// The name of `selected`, where there is one.
pub open spec fn name_of<T: ConverterChoice>(selected: Option<T>) -> Option<Seq<char>> {
    match selected {
        Some(c) => Some(c.name()),
        None => None,
    }
}

/// The configuration of one platform: whether its links are rewritten,
/// the menu of its converters, and the converter selected.
#[derive(Debug)]
pub struct PlatformConverters<T> {
    pub enabled: bool,
    pub converters: Vec<T>,
    pub selected: Option<T>,
}

impl<T: ConverterChoice> View for PlatformConverters<T> {
    type V = PlatformConfig;

    open spec fn view(&self) -> PlatformConfig {
        PlatformConfig {
            enabled: self.enabled,
            converters: names_of(self.converters@),
            selected: name_of(self.selected),
        }
    }
}

impl<T: ConverterChoice> Clone for PlatformConverters<T> {
    fn clone(&self) -> (copy: Self)
        ensures
            copy.enabled == self.enabled,
            copy.converters@ == self.converters@,
            copy.selected == self.selected,
            copy@ == self@,
    {
        let mut converters: Vec<T> = Vec::new();
        let mut i: usize = 0;
        while i < self.converters.len()
            invariant
                i <= self.converters.len(),
                converters@ == self.converters@.take(i as int),
            decreases self.converters.len() - i,
        {
            converters.push(self.converters[i]);
            assert(self.converters@.take(i + 1) =~= self.converters@.take(i as int).push(
                self.converters@[i as int],
            ));
            i += 1;
        }
        assert(self.converters@.take(i as int) =~= self.converters@);
        PlatformConverters { enabled: self.enabled, converters, selected: self.selected }
    }
}

impl<T: ConverterChoice> PlatformConverters<T> {
    /// The first converter on the menu with the name `id`.
    pub open spec fn first_named(converters: Seq<T>, id: Seq<char>) -> Option<T>
        decreases converters.len(),
    {
        if converters.len() == 0 {
            None
        } else if converters[0].name() == id {
            Some(converters[0])
        } else {
            Self::first_named(converters.drop_first(), id)
        }
    }

    /// `first_named` finds a converter exactly where the name is on the
    /// menu, and what it finds is on the menu and has the name.
    pub proof fn lemma_first_named(converters: Seq<T>, id: Seq<char>)
        ensures
            Self::first_named(converters, id) is Some <==> names_of(converters).contains(id),
            Self::first_named(converters, id) matches Some(c) ==> c.name() == id
                && converters.contains(c),
        decreases converters.len(),
    {
        if converters.len() > 0 {
            let rest = converters.drop_first();
            Self::lemma_first_named(rest, id);
            if converters[0].name() == id {
                assert(names_of(converters)[0] == id);
            } else {
                if names_of(rest).contains(id) {
                    let j = choose|j: int| 0 <= j < rest.len() && names_of(rest)[j] == id;
                    assert(names_of(converters)[j + 1] == id);
                }
                if names_of(converters).contains(id) {
                    let j = choose|j: int|
                        0 <= j < converters.len() && names_of(converters)[j] == id;
                    assert(names_of(rest)[j - 1] == id);
                }
                if Self::first_named(rest, id) is Some {
                    let c = Self::first_named(rest, id)->0;
                    let j = choose|j: int| 0 <= j < rest.len() && rest[j] == c;
                    assert(converters[j + 1] == c);
                }
            }
        }
    }

    /// Finds the first converter on the menu with the name `id`.
    pub fn find_converter(&self, id: &str) -> (found: Option<T>)
        ensures
            found == Self::first_named(self.converters@, id@),
    {
        let mut i: usize = 0;
        assert(self.converters@.skip(0) =~= self.converters@);
        while i < self.converters.len()
            invariant
                i <= self.converters.len(),
                Self::first_named(self.converters@, id@) == Self::first_named(
                    self.converters@.skip(i as int),
                    id@,
                ),
            decreases self.converters.len() - i,
        {
            let c = self.converters[i];
            proof {
                assert(self.converters@.skip(i as int)[0] == c);
                assert(self.converters@.skip(i as int).drop_first() =~= self.converters@.skip(
                    i + 1,
                ));
            }
            if same_text(c.as_str(), id) {
                return Some(c);
            }
            i += 1;
        }
        None
    }
}

/// One entry of the configuration: a platform with its configuration.
#[derive(Debug)]
pub enum PlatformSource {
    Twitter(PlatformConverters<TwitterConverters>),
    Bluesky(PlatformConverters<BlueskyConverters>),
}

/// An entry of the configuration, as a platform and what is configured for it.
pub struct SourceView {
    pub platform: Platform,
    pub config: PlatformConfig,
}

impl View for PlatformSource {
    type V = SourceView;

    open spec fn view(&self) -> SourceView {
        match self {
            PlatformSource::Twitter(data) => SourceView {
                platform: Platform::Twitter,
                config: data@,
            },
            PlatformSource::Bluesky(data) => SourceView {
                platform: Platform::Bluesky,
                config: data@,
            },
        }
    }
}

impl Clone for PlatformSource {
    fn clone(&self) -> (copy: Self)
        ensures
            copy@ == self@,
    {
        match self {
            PlatformSource::Twitter(data) => PlatformSource::Twitter(data.clone()),
            PlatformSource::Bluesky(data) => PlatformSource::Bluesky(data.clone()),
        }
    }
}

/// The index of the first entry for `platform`; the number of entries where there is none.
pub open spec fn first_index(sources: Seq<SourceView>, platform: Platform) -> int
    decreases sources.len(),
{
    if sources.len() == 0 {
        0
    } else if sources[0].platform == platform {
        0
    } else {
        1 + first_index(sources.drop_first(), platform)
    }
}

/// `first_index` is the least index of an entry for `platform`.
pub proof fn lemma_first_index(sources: Seq<SourceView>, platform: Platform)
    ensures
        0 <= first_index(sources, platform) <= sources.len(),
        forall|j: int|
            0 <= j < first_index(sources, platform) ==> (#[trigger] sources[j]).platform
                != platform,
        first_index(sources, platform) < sources.len() ==> sources[first_index(
            sources,
            platform,
        )].platform == platform,
    decreases sources.len(),
{
    if sources.len() > 0 && sources[0].platform != platform {
        let rest = sources.drop_first();
        lemma_first_index(rest, platform);
        assert forall|j: int| 0 <= j < first_index(sources, platform) implies (
        #[trigger] sources[j]).platform != platform by {
            if j > 0 {
                assert(rest[j - 1] == sources[j]);
            }
        }
    }
}

/// The least index with no entry for `platform` before it, and with such
/// an entry at it or none from it on, is `first_index`.
pub proof fn lemma_first_index_is(sources: Seq<SourceView>, platform: Platform, i: int)
    requires
        0 <= i <= sources.len(),
        forall|j: int| 0 <= j < i ==> (#[trigger] sources[j]).platform != platform,
        i < sources.len() ==> sources[i].platform == platform,
    ensures
        first_index(sources, platform) == i,
    decreases sources.len(),
{
    if sources.len() > 0 && i > 0 {
        let rest = sources.drop_first();
        assert(sources[0].platform != platform);
        assert forall|j: int| 0 <= j < i - 1 implies (#[trigger] rest[j]).platform
            != platform by {
            assert(rest[j] == sources[j + 1]);
        }
        lemma_first_index_is(rest, platform, i - 1);
    }
}

/// Each platform has one entry at most, and the selected converter of each
/// entry is on its menu.
pub open spec fn sources_wf(sources: Seq<SourceView>) -> bool {
    &&& forall|i: int| 0 <= i < sources.len() ==> (#[trigger] sources[i]).config.wf()
    &&& forall|i: int, j: int|
        0 <= i < j < sources.len() ==> (#[trigger] sources[i]).platform != (
        #[trigger] sources[j]).platform
}

impl<T: ConverterChoice> PlatformConverters<T> {
    /// Tells whether a converter with the exact name `id` is on the menu.
    pub fn offers(&self, id: &str) -> (on_menu: bool)
        ensures
            on_menu == self@.converters.contains(id@),
    {
        proof {
            Self::lemma_first_named(self.converters@, id@);
        }
        self.find_converter(id).is_some()
    }

    /// Selects the converter with the exact name `id`, where it is on the
    /// menu, and tells whether it is. Nothing else changes, and nothing at
    /// all where it is not.
    pub fn select_by_name(&mut self, id: &str) -> (done: bool)
        ensures
            done == old(self)@.converters.contains(id@),
            done ==> final(self)@ == (PlatformConfig { selected: Some(id@), ..old(self)@ }),
            !done ==> *final(self) == *old(self),
            old(self)@.wf() ==> final(self)@.wf(),
    {
        proof {
            Self::lemma_first_named(self.converters@, id@);
        }
        match self.find_converter(id) {
            Some(found) => {
                self.selected = Some(found);
                true
            },
            None => false,
        }
    }
}

impl PlatformSource {
    /// Tells whether a converter with the exact name `id` is on the menu of this entry.
    pub fn offers(&self, id: &str) -> (on_menu: bool)
        ensures
            on_menu == self@.config.converters.contains(id@),
    {
        match self {
            PlatformSource::Twitter(data) => data.offers(id),
            PlatformSource::Bluesky(data) => data.offers(id),
        }
    }

    /// Selects the converter with the name `id`, where it is on the menu of
    /// this entry, and leaves the rest of the entry as it is.
    pub fn select_by_name(&mut self, id: &str) -> (done: bool)
        ensures
            done == old(self)@.config.converters.contains(id@),
            done ==> final(self)@ == (SourceView {
                platform: old(self)@.platform,
                config: PlatformConfig { selected: Some(id@), ..old(self)@.config },
            }),
            !done ==> *final(self) == *old(self),
            old(self)@.config.wf() ==> final(self)@.config.wf(),
    {
        match self {
            PlatformSource::Twitter(data) => data.select_by_name(id),
            PlatformSource::Bluesky(data) => data.select_by_name(id),
        }
    }
}

/// The whole configuration: the entries of the platforms, in order.
#[derive(Debug)]
pub struct SourcesConfig {
    pub sources: Vec<PlatformSource>,
}

impl View for SourcesConfig {
    type V = Seq<SourceView>;

    open spec fn view(&self) -> Seq<SourceView> {
        Seq::new(self.sources@.len(), |i: int| self.sources@[i]@)
    }
}

impl Clone for SourcesConfig {
    fn clone(&self) -> (copy: Self)
        ensures
            copy@ == self@,
    {
        let mut sources: Vec<PlatformSource> = Vec::new();
        let mut i: usize = 0;
        while i < self.sources.len()
            invariant
                i <= self.sources.len(),
                sources.len() == i,
                forall|k: int| 0 <= k < i ==> sources@[k]@ == self.sources@[k]@,
            decreases self.sources.len() - i,
        {
            sources.push(self.sources[i].clone());
            i += 1;
        }
        let copy = SourcesConfig { sources };
        assert(copy@ =~= self@);
        copy
    }
}

/// The configuration that is used where none was stored: Twitter and
/// Bluesky, both enabled, with their whole menus and the first converter
/// of each selected.
pub open spec fn default_sources() -> Seq<SourceView> {
    seq![
        SourceView {
            platform: Platform::Twitter,
            config: PlatformConfig {
                enabled: true,
                converters: seq!["fxtwitter"@, "vxtwitter"@, "fixupx"@, "fixvx"@],
                selected: Some("fxtwitter"@),
            },
        },
        SourceView {
            platform: Platform::Bluesky,
            config: PlatformConfig {
                enabled: true,
                converters: seq!["bsky"@, "fxbsky"@, "vxbsky"@, "bskye"@, "bskyx"@],
                selected: Some("bsky"@),
            },
        },
    ]
}

impl Default for SourcesConfig {
    fn default() -> (config: Self)
        ensures
            config@ == default_sources(),
            sources_wf(config@),
    {
        let twitter = PlatformConverters {
            enabled: true,
            converters: vec![
                TwitterConverters::Fxtwitter,
                TwitterConverters::Vxtwitter,
                TwitterConverters::Fixupx,
                TwitterConverters::Fixvx,
            ],
            selected: Some(TwitterConverters::Fxtwitter),
        };
        let bluesky = PlatformConverters {
            enabled: true,
            converters: vec![
                BlueskyConverters::Bsky,
                BlueskyConverters::Fxbsky,
                BlueskyConverters::Vxbsky,
                BlueskyConverters::Bskye,
                BlueskyConverters::Bskyx,
            ],
            selected: Some(BlueskyConverters::Bsky),
        };
        assert(twitter@.converters =~= seq!["fxtwitter"@, "vxtwitter"@, "fixupx"@, "fixvx"@]);
        assert(bluesky@.converters =~= seq!["bsky"@, "fxbsky"@, "vxbsky"@, "bskye"@, "bskyx"@]);
        let config = SourcesConfig {
            sources: vec![PlatformSource::Twitter(twitter), PlatformSource::Bluesky(bluesky)],
        };
        assert(config@ =~= default_sources());
        assert(default_sources()[0].config.converters[0] == "fxtwitter"@);
        assert(default_sources()[1].config.converters[0] == "bsky"@);
        config
    }
}

/// The message for a converter that is not on the menu of `platform`.
pub open spec fn converter_missing(name: Seq<char>, platform: Platform) -> Seq<char> {
    "Converter '"@ + name + "' not found in "@ + platform.label() + " converters"@
}

/// The message for a platform that has no entry.
pub open spec fn platform_missing(platform: Platform) -> Seq<char> {
    "Platform '"@ + platform.label() + "' not found in sources"@
}

/// `sources` with the converter `id` selected in the entry at `i`.
pub open spec fn with_selected(sources: Seq<SourceView>, i: int, id: Seq<char>) -> Seq<
    SourceView,
> {
    sources.update(
        i,
        SourceView {
            platform: sources[i].platform,
            config: PlatformConfig { selected: Some(id), ..sources[i].config },
        },
    )
}

/// Selecting a converter that is on the menu keeps a configuration well formed.
pub proof fn lemma_with_selected_wf(sources: Seq<SourceView>, i: int, id: Seq<char>)
    requires
        sources_wf(sources),
        0 <= i < sources.len(),
        sources[i].config.converters.contains(id),
    ensures
        sources_wf(with_selected(sources, i, id)),
{
    let after = with_selected(sources, i, id);
    assert forall|k: int| 0 <= k < after.len() implies (#[trigger] after[k]).config.wf() by {
        if k != i {
            assert(sources[k].config.wf());
        }
    }
    assert forall|j: int, k: int| 0 <= j < k < after.len() implies (#[trigger] after[j]).platform
        != (#[trigger] after[k]).platform by {
        assert(sources[j].platform != sources[k].platform);
    }
}

impl SourcesConfig {
    /// Finds the first entry for `platform`.
    pub fn find_platform(&self, platform: Platform) -> (index: usize)
        ensures
            index == first_index(self@, platform),
            index <= self.sources@.len(),
    {
        let mut i: usize = 0;
        while i < self.sources.len()
            invariant
                i <= self.sources.len(),
                forall|j: int| 0 <= j < i ==> (#[trigger] self@[j]).platform != platform,
            decreases self.sources.len() - i,
        {
            let found = match &self.sources[i] {
                PlatformSource::Twitter(_) => platform == Platform::Twitter,
                PlatformSource::Bluesky(_) => platform == Platform::Bluesky,
            };
            if found {
                proof {
                    lemma_first_index_is(self@, platform, i as int);
                }
                return i;
            }
            i += 1;
        }
        proof {
            lemma_first_index_is(self@, platform, i as int);
        }
        i
    }

    /// Selects the converter with the exact name `id` in the first entry
    /// for `platform`. `None` where `platform` has no entry; else whether
    /// `id` is on the menu of that entry. Nothing changes unless it is.
    pub fn select_converter_id(&mut self, platform: Platform, id: &str) -> (done: Option<bool>)
        ensures
            ({
                let i = first_index(old(self)@, platform);
                if i == old(self)@.len() {
                    done == None::<bool> && final(self)@ == old(self)@
                } else if old(self)@[i].config.converters.contains(id@) {
                    done == Some(true) && final(self)@ == with_selected(old(self)@, i, id@)
                } else {
                    done == Some(false) && final(self)@ == old(self)@
                }
            }),
            sources_wf(old(self)@) ==> sources_wf(final(self)@),
    {
        let i = self.find_platform(platform);
        if i == self.sources.len() {
            return None;
        }
        let ghost before = self@;
        let done = self.sources[i].select_by_name(id);
        proof {
            lemma_first_index(before, platform);
            if done {
                assert(self@ =~= with_selected(before, i as int, id@));
                if sources_wf(before) {
                    lemma_with_selected_wf(before, i as int, id@);
                }
            } else {
                assert(self@ =~= before);
            }
        }
        Some(done)
    }

    /// Selects the converter with the exact name `converter_name` in the
    /// first entry for `platform`. Fails, and changes nothing, where
    /// `platform` has no entry or the name is not on its menu.
    pub fn set_selected_converter(&mut self, platform: Platform, converter_name: &str) -> (r:
        Result<(), String>)
        ensures
            ({
                let i = first_index(old(self)@, platform);
                if i == old(self)@.len() {
                    &&& r matches Err(e)
                    &&& e@ == platform_missing(platform)
                    &&& final(self)@ == old(self)@
                } else if old(self)@[i].config.converters.contains(converter_name@) {
                    &&& r is Ok
                    &&& final(self)@ == with_selected(old(self)@, i, converter_name@)
                } else {
                    &&& r matches Err(e)
                    &&& e@ == converter_missing(converter_name@, platform)
                    &&& final(self)@ == old(self)@
                }
            }),
            sources_wf(old(self)@) ==> sources_wf(final(self)@),
    {
        match self.select_converter_id(platform, converter_name) {
            Some(true) => Ok(()),
            Some(false) => {
                let mut message = String::from_str("Converter '");
                message.append(converter_name);
                message.append("' not found in ");
                message.append(platform.variant_name());
                message.append(" converters");
                Err(message)
            },
            None => {
                let mut message = String::from_str("Platform '");
                message.append(platform.variant_name());
                message.append("' not found in sources");
                Err(message)
            },
        }
    }
}

impl<T: ConverterChoice> PlatformConverters<T> {
    /// Tells whether the selected converter, where there is one, is on the menu.
    pub fn is_well_formed(&self) -> (ok: bool)
        ensures
            ok == self@.wf(),
    {
        match self.selected {
            Some(c) => self.offers(c.as_str()),
            None => true,
        }
    }
}

impl PlatformSource {
    /// Tells whether the selected converter of this entry, where there is
    /// one, is on its menu.
    pub fn is_well_formed(&self) -> (ok: bool)
        ensures
            ok == self@.config.wf(),
    {
        match self {
            PlatformSource::Twitter(data) => data.is_well_formed(),
            PlatformSource::Bluesky(data) => data.is_well_formed(),
        }
    }
}

impl SourcesConfig {
    /// Tells whether the configuration is well formed: one entry at most
    /// for each platform, and each selected converter on its menu.
    pub fn is_well_formed(&self) -> (ok: bool)
        ensures
            ok == sources_wf(self@),
    {
        let mut seen_twitter = false;
        let mut seen_bluesky = false;
        let mut i: usize = 0;
        while i < self.sources.len()
            invariant
                i <= self.sources.len(),
                forall|k: int| 0 <= k < i ==> (#[trigger] self@[k]).config.wf(),
                forall|j: int, k: int|
                    0 <= j < k < i ==> (#[trigger] self@[j]).platform != (
                    #[trigger] self@[k]).platform,
                seen_twitter <==> exists|k: int|
                    0 <= k < i && (#[trigger] self@[k]).platform == Platform::Twitter,
                seen_bluesky <==> exists|k: int|
                    0 <= k < i && (#[trigger] self@[k]).platform == Platform::Bluesky,
            decreases self.sources.len() - i,
        {
            let source = &self.sources[i];
            assert(source@ == self@[i as int]);
            if !source.is_well_formed() {
                return false;
            }
            let seen = match source {
                PlatformSource::Twitter(_) => seen_twitter,
                PlatformSource::Bluesky(_) => seen_bluesky,
            };
            if seen {
                proof {
                    let k = choose|k: int|
                        0 <= k < i && (#[trigger] self@[k]).platform == self@[i as int].platform;
                    assert(self@[k].platform == self@[i as int].platform);
                }
                return false;
            }
            match source {
                PlatformSource::Twitter(_) => {
                    seen_twitter = true;
                },
                PlatformSource::Bluesky(_) => {
                    seen_bluesky = true;
                },
            }
            i += 1;
        }
        true
    }
}

/// Finds the configuration of Twitter: that of the first entry for it.
pub fn get_twitter_config(state: &SourcesConfig) -> (found: Option<
    &PlatformConverters<TwitterConverters>,
>)
    ensures
        match found {
            Some(data) => {
                &&& first_index(state@, Platform::Twitter) < state@.len()
                &&& data@ == state@[first_index(state@, Platform::Twitter)].config
            },
            None => first_index(state@, Platform::Twitter) == state@.len(),
        },
{
    let i = state.find_platform(Platform::Twitter);
    proof {
        lemma_first_index(state@, Platform::Twitter);
    }
    if i == state.sources.len() {
        return None;
    }
    match &state.sources[i] {
        PlatformSource::Twitter(data) => Some(data),
        PlatformSource::Bluesky(_) => None,
    }
}

} // verus!
