use link_mirror::config::app_config::{
    get_twitter_config, BlueskyConverters, ConverterChoice, Platform, PlatformConverters,
    PlatformSource, SourcesConfig, TwitterConverters,
};
use link_mirror::config::frontend::{
    get_platform_metadata, transform_config, transform_platform_source,
};
use link_mirror::platform_ops::{
    parse_platform, platform_from_name, try_convert_with_all_platforms, with_platform_data,
    PlatformChange, PlatformOperations,
};
use link_mirror::services::link_converter::LinkConverter;
use link_mirror::tray_menu::MenuId;

fn twitter_of(config: &SourcesConfig) -> &PlatformConverters<TwitterConverters> {
    match &config.sources[0] {
        PlatformSource::Twitter(data) => data,
        PlatformSource::Bluesky(_) => panic!("the first entry is not for twitter"),
    }
}

fn bluesky_of(config: &SourcesConfig) -> &PlatformConverters<BlueskyConverters> {
    match &config.sources[1] {
        PlatformSource::Bluesky(data) => data,
        PlatformSource::Twitter(_) => panic!("the second entry is not for bluesky"),
    }
}

#[test]
fn the_default_configuration() {
    let config = SourcesConfig::default();
    assert_eq!(config.sources.len(), 2);
    let twitter = twitter_of(&config);
    assert!(twitter.enabled);
    assert_eq!(
        twitter.converters,
        vec![
            TwitterConverters::Fxtwitter,
            TwitterConverters::Vxtwitter,
            TwitterConverters::Fixupx,
            TwitterConverters::Fixvx
        ]
    );
    assert_eq!(twitter.selected, Some(TwitterConverters::Fxtwitter));
    let bluesky = bluesky_of(&config);
    assert!(bluesky.enabled);
    assert_eq!(
        bluesky.converters,
        vec![
            BlueskyConverters::Bsky,
            BlueskyConverters::Fxbsky,
            BlueskyConverters::Vxbsky,
            BlueskyConverters::Bskye,
            BlueskyConverters::Bskyx
        ]
    );
    assert_eq!(bluesky.selected, Some(BlueskyConverters::Bsky));
    assert!(config.is_well_formed());
    assert_eq!(config.find_platform(Platform::Twitter), 0);
    assert_eq!(config.find_platform(Platform::Bluesky), 1);
    assert_eq!(config.find_platform(Platform::Reddit), 2);
    assert!(get_twitter_config(&config).is_some());
}

#[test]
fn names_of_platforms_and_converters() {
    assert_eq!(Platform::Twitter.as_str(), "twitter");
    assert_eq!(Platform::Tiktok.as_str(), "tiktok");
    assert_eq!(Platform::Reddit.variant_name(), "Reddit");
    assert_eq!(TwitterConverters::Fixupx.as_str(), "fixupx");
    assert_eq!(BlueskyConverters::Bskyx.as_str(), "bskyx");
    assert_eq!(platform_from_name("twitter"), Some(Platform::Twitter));
    assert_eq!(platform_from_name("bluesky"), Some(Platform::Bluesky));
    assert_eq!(platform_from_name("Twitter"), None);
    assert_eq!(platform_from_name("tiktok"), None);
    assert_eq!(parse_platform("TWITTER"), Some(Platform::Twitter));
    assert_eq!(parse_platform("BlueSky"), Some(Platform::Bluesky));
    assert_eq!(parse_platform("instagram"), None);
    assert_eq!(parse_platform(""), None);
}

#[test]
fn set_selected_converter_takes_exact_names() {
    let mut config = SourcesConfig::default();
    assert_eq!(config.set_selected_converter(Platform::Twitter, "fixvx"), Ok(()));
    assert_eq!(twitter_of(&config).selected, Some(TwitterConverters::Fixvx));
    assert_eq!(bluesky_of(&config).selected, Some(BlueskyConverters::Bsky));
    assert_eq!(config.set_selected_converter(Platform::Bluesky, "vxbsky"), Ok(()));
    assert_eq!(bluesky_of(&config).selected, Some(BlueskyConverters::Vxbsky));
    assert!(config.is_well_formed());

    assert_eq!(
        config.set_selected_converter(Platform::Twitter, "FixupX"),
        Err("Converter 'FixupX' not found in Twitter converters".to_string())
    );
    assert_eq!(
        config.set_selected_converter(Platform::Bluesky, "BSKY"),
        Err("Converter 'BSKY' not found in Bluesky converters".to_string())
    );
    assert_eq!(twitter_of(&config).selected, Some(TwitterConverters::Fixvx));
    assert_eq!(bluesky_of(&config).selected, Some(BlueskyConverters::Vxbsky));
}

#[test]
fn set_selected_converter_rejects_what_is_not_there() {
    let mut config = SourcesConfig::default();
    assert_eq!(
        config.set_selected_converter(Platform::Twitter, "DoesNotExist"),
        Err("Converter 'DoesNotExist' not found in Twitter converters".to_string())
    );
    assert_eq!(
        config.set_selected_converter(Platform::Bluesky, "fxtwitter"),
        Err("Converter 'fxtwitter' not found in Bluesky converters".to_string())
    );
    assert_eq!(
        config.set_selected_converter(Platform::Instagram, "ddinstagram"),
        Err("Platform 'Instagram' not found in sources".to_string())
    );
    assert_eq!(twitter_of(&config).selected, Some(TwitterConverters::Fxtwitter));
    assert_eq!(bluesky_of(&config).selected, Some(BlueskyConverters::Bsky));

    let mut empty = SourcesConfig { sources: vec![] };
    assert_eq!(
        empty.set_selected_converter(Platform::Twitter, "fxtwitter"),
        Err("Platform 'Twitter' not found in sources".to_string())
    );
    assert_eq!(empty.select_converter_id(Platform::Twitter, "fxtwitter"), None);
    assert_eq!(config.select_converter_id(Platform::Twitter, "FXTWITTER"), Some(false));
    assert_eq!(config.select_converter_id(Platform::Twitter, "vxtwitter"), Some(true));
}

#[test]
fn only_what_is_on_the_menu_can_be_selected() {
    let mut config = SourcesConfig {
        sources: vec![PlatformSource::Twitter(PlatformConverters {
            enabled: true,
            converters: vec![TwitterConverters::Vxtwitter],
            selected: None,
        })],
    };
    assert!(config.is_well_formed());
    assert!(config.set_selected_converter(Platform::Twitter, "fxtwitter").is_err());
    assert_eq!(config.set_selected_converter(Platform::Twitter, "vxtwitter"), Ok(()));
    assert_eq!(twitter_of(&config).selected, Some(TwitterConverters::Vxtwitter));
}

#[test]
fn well_formedness_is_told() {
    let off_menu = SourcesConfig {
        sources: vec![PlatformSource::Twitter(PlatformConverters {
            enabled: true,
            converters: vec![TwitterConverters::Vxtwitter],
            selected: Some(TwitterConverters::Fxtwitter),
        })],
    };
    assert!(!off_menu.is_well_formed());
    let twice = SourcesConfig {
        sources: vec![
            PlatformSource::Bluesky(PlatformConverters {
                enabled: true,
                converters: vec![],
                selected: None,
            }),
            PlatformSource::Twitter(PlatformConverters {
                enabled: true,
                converters: vec![],
                selected: None,
            }),
            PlatformSource::Bluesky(PlatformConverters {
                enabled: false,
                converters: vec![BlueskyConverters::Bsky],
                selected: Some(BlueskyConverters::Bsky),
            }),
        ],
    };
    assert!(!twice.is_well_formed());
    assert!(SourcesConfig { sources: vec![] }.is_well_formed());
}

#[test]
fn a_copy_is_equal_and_independent() {
    let mut config = SourcesConfig::default();
    let copy = config.clone();
    config.set_selected_converter(Platform::Twitter, "fixupx").unwrap();
    assert_eq!(twitter_of(&copy).selected, Some(TwitterConverters::Fxtwitter));
    assert_eq!(twitter_of(&config).selected, Some(TwitterConverters::Fixupx));
    assert_eq!(copy.sources.len(), 2);
    assert_eq!(bluesky_of(&copy).converters.len(), 5);
}

#[test]
fn operations_on_one_platform() {
    let mut data = PlatformConverters {
        enabled: true,
        converters: vec![TwitterConverters::Fxtwitter, TwitterConverters::Fixvx],
        selected: None,
    };
    let converter = LinkConverter::new();
    let url = "https://x.com/user/status/5";
    assert!(data.is_enabled());
    assert_eq!(data.get_selected_converter(), None);
    assert_eq!(data.try_convert_link(&converter, url, "twitter"), None);
    assert!(!data.set_converter_by_name("vxtwitter"));
    assert!(!data.set_converter_by_name("FIXVX"));
    assert!(!data.offers("FIXVX"));
    assert!(data.offers("fixvx"));
    assert_eq!(data.selected, None);
    assert!(data.set_converter_by_name("fixvx"));
    assert_eq!(data.get_selected_converter(), Some("fixvx".to_string()));
    assert_eq!(
        data.try_convert_link(&converter, url, "twitter"),
        Some("https://fixvx.com/user/status/5".to_string())
    );
    assert_eq!(data.try_convert_link(&converter, url, "bluesky"), None);
    data.set_enabled(false);
    assert!(!data.is_enabled());
    assert_eq!(data.try_convert_link(&converter, url, "twitter"), None);
    assert_eq!(data.selected, Some(TwitterConverters::Fixvx));
    assert!(data.is_well_formed());
}

#[test]
fn entries_know_their_platform() {
    let config = SourcesConfig::default();
    assert_eq!(config.sources[0].get_platform_type(), Platform::Twitter);
    assert_eq!(config.sources[0].get_platform_name(), "twitter");
    assert_eq!(config.sources[1].get_platform_type(), Platform::Bluesky);
    assert_eq!(config.sources[1].get_platform_name(), "bluesky");
    let converter = LinkConverter::new();
    assert_eq!(
        config.sources[0].try_convert_link(&converter, "https://twitter.com/a/status/1"),
        Some("https://fxtwitter.com/a/status/1".to_string())
    );
    assert_eq!(config.sources[1].try_convert_link(&converter, "https://twitter.com/a/status/1"), None);
}

#[test]
fn changes_to_one_platform() {
    let mut config = SourcesConfig::default();
    let off = PlatformChange { enabled: Some(false), converter: None };
    assert_eq!(with_platform_data(&mut config, Platform::Bluesky, &off), Some(true));
    assert!(!bluesky_of(&config).enabled);
    assert!(twitter_of(&config).enabled);
    assert_eq!(with_platform_data(&mut config, Platform::Tiktok, &off), None);

    // A change is made in full or not at all.
    let both = PlatformChange { enabled: Some(true), converter: Some("nothing".to_string()) };
    assert_eq!(with_platform_data(&mut config, Platform::Bluesky, &both), Some(false));
    assert!(!bluesky_of(&config).enabled);
    assert_eq!(bluesky_of(&config).selected, Some(BlueskyConverters::Bsky));
    let both = PlatformChange { enabled: Some(true), converter: Some("vxbsky".to_string()) };
    assert_eq!(with_platform_data(&mut config, Platform::Bluesky, &both), Some(true));
    assert!(bluesky_of(&config).enabled);
    assert_eq!(bluesky_of(&config).selected, Some(BlueskyConverters::Vxbsky));

    let select = PlatformChange { enabled: None, converter: Some("bskye".to_string()) };
    assert_eq!(with_platform_data(&mut config, Platform::Bluesky, &select), Some(true));
    assert_eq!(bluesky_of(&config).selected, Some(BlueskyConverters::Bskye));
    assert!(config.is_well_formed());
}

#[test]
fn the_first_entry_that_rewrites_wins() {
    let converter = LinkConverter::new();
    let config = SourcesConfig::default();
    assert_eq!(
        try_convert_with_all_platforms(&config, &converter, "https://x.com/u/status/1"),
        Some("https://fxtwitter.com/u/status/1".to_string())
    );
    // The converter selected for Bluesky stands for the platform's own domain.
    assert_eq!(
        try_convert_with_all_platforms(&config, &converter, "https://bsky.app/profile/u/post/1"),
        None
    );
    assert_eq!(
        try_convert_with_all_platforms(&config, &converter, "https://tiktok.com/@u/video/1"),
        None
    );
    assert_eq!(try_convert_with_all_platforms(&config, &converter, "hello"), None);
    let twice = SourcesConfig {
        sources: vec![
            PlatformSource::Twitter(PlatformConverters {
                enabled: false,
                converters: vec![TwitterConverters::Fixvx],
                selected: Some(TwitterConverters::Fixvx),
            }),
            PlatformSource::Twitter(PlatformConverters {
                enabled: true,
                converters: vec![TwitterConverters::Fixupx],
                selected: Some(TwitterConverters::Fixupx),
            }),
        ],
    };
    assert_eq!(
        try_convert_with_all_platforms(&twice, &converter, "https://x.com/u/status/1"),
        Some("https://fixupx.com/u/status/1".to_string())
    );
}

#[test]
fn a_disabled_platform_is_left_out() {
    let converter = LinkConverter::new();
    let mut config = SourcesConfig::default();
    config.set_selected_converter(Platform::Bluesky, "fxbsky").unwrap();
    let url = "https://bsky.app/profile/alice.bsky.social/post/abc123";
    assert_eq!(
        try_convert_with_all_platforms(&config, &converter, url),
        Some("https://fxbsky.app/profile/alice.bsky.social/post/abc123".to_string())
    );
    let off = PlatformChange { enabled: Some(false), converter: None };
    with_platform_data(&mut config, Platform::Bluesky, &off);
    assert_eq!(bluesky_of(&config).selected, Some(BlueskyConverters::Fxbsky));
    assert_eq!(try_convert_with_all_platforms(&config, &converter, url), None);
    assert_eq!(
        try_convert_with_all_platforms(&config, &converter, "https://x.com/u/status/1"),
        Some("https://fxtwitter.com/u/status/1".to_string())
    );
}

#[test]
fn titles_and_icons() {
    let twitter = get_platform_metadata("twitter");
    assert_eq!((twitter.title.as_str(), twitter.icon.as_str()), ("Twitter", "x"));
    let bluesky = get_platform_metadata("bluesky");
    assert_eq!((bluesky.title.as_str(), bluesky.icon.as_str()), ("BlueSky", "bluesky"));
    let tiktok = get_platform_metadata("tiktok");
    assert_eq!((tiktok.title.as_str(), tiktok.icon.as_str()), ("TikTok", "tiktok"));
    let instagram = get_platform_metadata("instagram");
    assert_eq!((instagram.title.as_str(), instagram.icon.as_str()), ("Instagram", "instagram"));
    let reddit = get_platform_metadata("reddit");
    assert_eq!((reddit.title.as_str(), reddit.icon.as_str()), ("Reddit", "reddit"));
    let other = get_platform_metadata("mastodon");
    assert_eq!((other.title.as_str(), other.icon.as_str()), ("Mastodon", "mastodon"));
    let short = get_platform_metadata("x");
    assert_eq!((short.title.as_str(), short.icon.as_str()), ("X", "x"));
    let digit = get_platform_metadata("9gag");
    assert_eq!((digit.title.as_str(), digit.icon.as_str()), ("9gag", "9gag"));
    let upper = get_platform_metadata("Twitter");
    assert_eq!((upper.title.as_str(), upper.icon.as_str()), ("Twitter", "Twitter"));
    let accent = get_platform_metadata("a\u{e9}");
    assert_eq!((accent.title.as_str(), accent.icon.as_str()), ("A\u{e9}", "a\u{e9}"));
}

#[test]
fn the_configuration_as_it_is_shown() {
    let mut config = SourcesConfig::default();
    config.set_selected_converter(Platform::Twitter, "fixupx").unwrap();
    let shown = transform_platform_source(&config.sources[0]);
    assert_eq!(shown.platform, "twitter");
    assert_eq!(shown.metadata.title, "Twitter");
    assert_eq!(shown.metadata.icon, "x");
    assert!(shown.data.enabled);
    assert_eq!(shown.data.converters, vec!["fxtwitter", "vxtwitter", "fixupx", "fixvx"]);
    assert_eq!(shown.data.selected, "fixupx");

    let none = PlatformSource::Bluesky(PlatformConverters {
        enabled: false,
        converters: vec![BlueskyConverters::Bskye],
        selected: None,
    });
    let shown = transform_platform_source(&none);
    assert_eq!(shown.platform, "bluesky");
    assert_eq!(shown.metadata.title, "BlueSky");
    assert!(!shown.data.enabled);
    assert_eq!(shown.data.converters, vec!["bskye"]);
    assert_eq!(shown.data.selected, "");

    let all = transform_config(&config);
    assert_eq!(all.sources.len(), 2);
    assert_eq!(all.sources[1].platform, "bluesky");
    assert_eq!(all.sources[1].data.selected, "bsky");
}

#[test]
fn menu_entries() {
    assert_eq!(MenuId::parse_menu_id("quit"), Ok(MenuId::Quit));
    assert_eq!(MenuId::parse_menu_id("test"), Ok(MenuId::Test));
    assert_eq!(MenuId::parse_menu_id("hide"), Ok(MenuId::Hide));
    assert_eq!(MenuId::parse_menu_id("show"), Ok(MenuId::Show));
    assert_eq!(MenuId::parse_menu_id("set_clipboard"), Ok(MenuId::SetClipboard));
    assert_eq!(MenuId::parse_menu_id("get_clipboard"), Ok(MenuId::GetClipboard));
    assert_eq!(MenuId::parse_menu_id("Quit"), Err("Unknown menu id: Quit".to_string()));
    assert_eq!(MenuId::parse_menu_id(""), Err("Unknown menu id: ".to_string()));
    for entry in [
        MenuId::Quit,
        MenuId::Test,
        MenuId::Hide,
        MenuId::Show,
        MenuId::SetClipboard,
        MenuId::GetClipboard,
    ] {
        assert_eq!(MenuId::parse_menu_id(entry.as_str()), Ok(entry));
    }
}
