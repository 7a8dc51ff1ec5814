//! The configuration as the front end shows it: every entry with the name
//! of its platform, a title and an icon, and its converters as names.

use crate::config::app_config::{
    ConverterChoice, PlatformConverters, PlatformSource, SourceView, SourcesConfig,
};
use crate::text::{ascii_uppercase, same_text, uppercase_first};
use vstd::prelude::*;
use vstd::string::StringExecFns;

verus! {

/// How a platform is presented: its title and the name of its icon.
#[derive(Debug)]
pub struct FrontendPlatformMetadata {
    pub title: String,
    pub icon: String,
}

/// The configuration of a platform, with its converters as names. Where
/// no converter is selected the name is empty.
#[derive(Debug)]
pub struct FrontendConverterConfig {
    pub enabled: bool,
    pub converters: Vec<String>,
    pub selected: String,
}

/// An entry of the configuration as the front end shows it.
#[derive(Debug)]
pub struct FrontendPlatformSource {
    pub platform: String,
    pub metadata: FrontendPlatformMetadata,
    pub data: FrontendConverterConfig,
}

/// The whole configuration as the front end shows it.
#[derive(Debug)]
pub struct FrontendAppConfig {
    pub sources: Vec<FrontendPlatformSource>,
}

/// The title and the icon of a platform, as texts.
pub struct MetadataView {
    pub title: Seq<char>,
    pub icon: Seq<char>,
}

/// An entry as the front end shows it, as texts.
pub struct FrontendSourceView {
    pub platform: Seq<char>,
    pub metadata: MetadataView,
    pub enabled: bool,
    pub converters: Seq<Seq<char>>,
    pub selected: Seq<char>,
}

impl View for FrontendPlatformMetadata {
    type V = MetadataView;

    open spec fn view(&self) -> MetadataView {
        MetadataView { title: self.title@, icon: self.icon@ }
    }
}

impl View for FrontendPlatformSource {
    type V = FrontendSourceView;

    open spec fn view(&self) -> FrontendSourceView {
        FrontendSourceView {
            platform: self.platform@,
            metadata: self.metadata@,
            enabled: self.data.enabled,
            converters: self.data.converters.deep_view(),
            selected: self.data.selected@,
        }
    }
}

impl View for FrontendAppConfig {
    type V = Seq<FrontendSourceView>;

    open spec fn view(&self) -> Seq<FrontendSourceView> {
        Seq::new(self.sources@.len(), |i: int| self.sources@[i]@)
    }
}

/// The platform named `platform` has a title and an icon of its own.
pub open spec fn has_own_metadata(platform: Seq<char>) -> bool {
    platform == "twitter"@ || platform == "bluesky"@ || platform == "tiktok"@ || platform
        == "instagram"@ || platform == "reddit"@
}

/// The title and the icon of the platform named `platform`. A platform
/// without a title and an icon of its own gets its name, with the first
/// character, an ASCII character, in upper case, as title and its name as icon.
pub open spec fn metadata_of(platform: Seq<char>) -> MetadataView {
    if platform == "twitter"@ {
        MetadataView { title: "Twitter"@, icon: "x"@ }
    } else if platform == "bluesky"@ {
        MetadataView { title: "BlueSky"@, icon: "bluesky"@ }
    } else if platform == "tiktok"@ {
        MetadataView { title: "TikTok"@, icon: "tiktok"@ }
    } else if platform == "instagram"@ {
        MetadataView { title: "Instagram"@, icon: "instagram"@ }
    } else if platform == "reddit"@ {
        MetadataView { title: "Reddit"@, icon: "reddit"@ }
    } else {
        MetadataView {
            title: seq![ascii_uppercase(platform[0])] + platform.skip(1),
            icon: platform,
        }
    }
}

/// Makes a title of the name of a platform: `upper`, the upper-case form
/// of its first character, and the rest of the name as it stands.
pub fn title_of(upper: String, platform: &str) -> (title: String)
    requires
        platform@.len() > 0,
    ensures
        title@ == upper@ + platform@.skip(1),
{
    let length = platform.unicode_len();
    let mut title = upper;
    title.append(platform.substring_char(1, length));
    assert(platform@.subrange(1, length as int) =~= platform@.skip(1));
    title
}

/// Returns the title and the icon of the platform named `platform`. The
/// name of a platform without a title of its own must start with an ASCII
/// character.
pub fn get_platform_metadata(platform: &str) -> (metadata: FrontendPlatformMetadata)
    requires
        has_own_metadata(platform@) || (platform@.len() > 0 && (platform@[0] as u32) < 128),
    ensures
        metadata@ == metadata_of(platform@),
{
    if same_text(platform, "twitter") {
        FrontendPlatformMetadata { title: String::from_str("Twitter"), icon: String::from_str("x") }
    } else if same_text(platform, "bluesky") {
        FrontendPlatformMetadata {
            title: String::from_str("BlueSky"),
            icon: String::from_str("bluesky"),
        }
    } else if same_text(platform, "tiktok") {
        FrontendPlatformMetadata {
            title: String::from_str("TikTok"),
            icon: String::from_str("tiktok"),
        }
    } else if same_text(platform, "instagram") {
        FrontendPlatformMetadata {
            title: String::from_str("Instagram"),
            icon: String::from_str("instagram"),
        }
    } else if same_text(platform, "reddit") {
        FrontendPlatformMetadata {
            title: String::from_str("Reddit"),
            icon: String::from_str("reddit"),
        }
    } else {
        let upper = uppercase_first(platform);
        FrontendPlatformMetadata {
            title: title_of(upper, platform),
            icon: String::from_str(platform),
        }
    }
}

/// The entry `source` as the front end shows it.
pub open spec fn frontend_of(source: SourceView) -> FrontendSourceView {
    FrontendSourceView {
        platform: source.platform.name(),
        metadata: metadata_of(source.platform.name()),
        enabled: source.config.enabled,
        converters: source.config.converters,
        selected: match source.config.selected {
            Some(id) => id,
            None => Seq::<char>::empty(),
        },
    }
}

/// The names of the converters on the menu, and the name of the selected
/// one, empty where there is none.
fn converter_names<T: ConverterChoice>(data: &PlatformConverters<T>) -> (names: (Vec<String>, String))
    ensures
        names.0.deep_view() == data@.converters,
        names.1@ == match data@.selected {
            Some(id) => id,
            None => Seq::<char>::empty(),
        },
{
    let mut converters: Vec<String> = Vec::new();
    let mut i: usize = 0;
    while i < data.converters.len()
        invariant
            i <= data.converters.len(),
            converters.len() == i,
            forall|k: int| 0 <= k < i ==> converters@[k]@ == data.converters@[k].name(),
        decreases data.converters.len() - i,
    {
        converters.push(String::from_str(data.converters[i].as_str()));
        i += 1;
    }
    assert(converters.deep_view() =~= data@.converters);
    let selected = match data.selected {
        Some(c) => String::from_str(c.as_str()),
        None => String::new(),
    };
    (converters, selected)
}

/// Puts an entry of the configuration into the form that the front end shows.
pub fn transform_platform_source(source: &PlatformSource) -> (shown: FrontendPlatformSource)
    ensures
        shown@ == frontend_of(source@),
{
    match source {
        PlatformSource::Twitter(data) => {
            let (converters, selected) = converter_names(data);
            FrontendPlatformSource {
                platform: String::from_str("twitter"),
                metadata: get_platform_metadata("twitter"),
                data: FrontendConverterConfig { enabled: data.enabled, converters, selected },
            }
        },
        PlatformSource::Bluesky(data) => {
            let (converters, selected) = converter_names(data);
            FrontendPlatformSource {
                platform: String::from_str("bluesky"),
                metadata: get_platform_metadata("bluesky"),
                data: FrontendConverterConfig { enabled: data.enabled, converters, selected },
            }
        },
    }
}

/// Puts the whole configuration into the form that the front end shows.
pub fn transform_config(config: &SourcesConfig) -> (shown: FrontendAppConfig)
    ensures
        shown@ == Seq::new(config@.len(), |i: int| frontend_of(config@[i])),
{
    let mut sources: Vec<FrontendPlatformSource> = Vec::new();
    let mut i: usize = 0;
    while i < config.sources.len()
        invariant
            i <= config.sources.len(),
            sources.len() == i,
            forall|k: int| 0 <= k < i ==> sources@[k]@ == frontend_of(config@[k]),
        decreases config.sources.len() - i,
    {
        sources.push(transform_platform_source(&config.sources[i]));
        i += 1;
    }
    let shown = FrontendAppConfig { sources };
    assert(shown@ =~= Seq::new(config@.len(), |i: int| frontend_of(config@[i])));
    shown
}

} // verus!
