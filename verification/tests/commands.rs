use link_mirror::commands::{
    convert_link, get_new_clipboard_content, get_state, monitor_cycle, select_converter,
    select_parsed, toggle_parsed, toggle_platform, update_parsed, update_state, MonitorAction,
};
use link_mirror::config::app_config::{
    BlueskyConverters, Platform, PlatformConverters, PlatformSource, SourcesConfig,
    TwitterConverters,
};
use link_mirror::platform_ops::PlatformChange;
use link_mirror::services::clipboard::{ClipboardManager, MAX_READ_FAILURES};
use link_mirror::services::converters::registry::{Converter, ConverterRegistry};
use link_mirror::services::converters::twitter::TwitterConverter;
use link_mirror::services::converters::LinkConverterStrategy;
use link_mirror::services::link_converter::LinkConverter;
use link_mirror::state::StateManager;

fn store() -> StateManager {
    StateManager::new("config.yaml".to_string(), SourcesConfig::default())
}

fn twitter_of(config: &SourcesConfig) -> &PlatformConverters<TwitterConverters> {
    match &config.sources[0] {
        PlatformSource::Twitter(data) => data,
        PlatformSource::Bluesky(_) => panic!("the first entry is not for twitter"),
    }
}

fn bluesky_of(config: &SourcesConfig) -> &PlatformConverters<BlueskyConverters> {
    match &config.sources[1] {
        PlatformSource::Bluesky(data) => data,
        PlatformSource::Twitter(_) => panic!("the second entry is not for bluesky"),
    }
}

fn same(a: &SourcesConfig, b: &SourcesConfig) -> bool {
    format!("{:?}", a) == format!("{:?}", b)
}

#[test]
fn test_clipboard_manager() {
    let mut clipboard_manager = ClipboardManager::new();

    let test_string = "Test clipboard content";

    let has_changed = clipboard_manager.has_clipboard_changed(test_string);
    assert!(has_changed, "Clipboard change was not detected");
    assert_eq!(clipboard_manager.previous_content(), test_string, "Clipboard content mismatch");

    let has_changed_again = clipboard_manager.has_clipboard_changed(test_string);
    assert!(!has_changed_again, "Clipboard incorrectly detected as changed");
}

#[test]
fn the_store_hands_out_copies() {
    let mut manager = store();
    assert_eq!(manager.config_path(), "config.yaml");
    let before = manager.get_state();
    let change = PlatformChange { enabled: Some(false), converter: Some("fixvx".to_string()) };
    let update = manager.update_state(Platform::Twitter, &change);
    assert_eq!(update.done, Some(true));
    assert!(twitter_of(&before).enabled);
    assert!(!twitter_of(&update.snapshot).enabled);
    assert_eq!(twitter_of(&update.snapshot).selected, Some(TwitterConverters::Fixvx));
    assert!(same(&update.snapshot, &manager.get_state()));
    assert!(same(&get_state(&manager), &manager.get_state()));
    let missing = manager.update_state(Platform::Reddit, &change);
    assert_eq!(missing.done, None);
    assert!(same(&missing.snapshot, &update.snapshot));
}

#[test]
fn toggling_a_platform() {
    let mut manager = store();
    let outcome = toggle_platform("Bluesky", false, &mut manager);
    assert_eq!(outcome.result, Ok(()));
    assert!(!outcome.save);
    let published = outcome.state_changed.expect("the change is published");
    assert!(!bluesky_of(&published).enabled);
    assert!(twitter_of(&published).enabled);
    assert!(same(&published, &manager.get_state()));

    let outcome = toggle_platform("bluesky", true, &mut manager);
    assert_eq!(outcome.result, Ok(()));
    assert!(bluesky_of(&manager.get_state()).enabled);
}

#[test]
fn unknown_platforms_are_rejected_and_nothing_changes() {
    let mut manager = store();
    let before = manager.get_state();

    let outcome = toggle_platform("mastodon", false, &mut manager);
    assert_eq!(outcome.result, Err("Unknown platform: mastodon".to_string()));
    assert!(outcome.state_changed.is_none());
    assert!(!outcome.save);
    assert!(same(&before, &manager.get_state()));

    let outcome = select_converter("tiktok", "tfxktok", &mut manager);
    assert_eq!(outcome.result, Err("Unknown platform: tiktok".to_string()));
    assert!(outcome.state_changed.is_none());
    assert!(!outcome.save);
    assert!(same(&before, &manager.get_state()));

    let outcome = update_state("", true, Some("fxtwitter".to_string()), &mut manager);
    assert_eq!(outcome.result, Err("Unknown platform: ".to_string()));
    assert!(outcome.state_changed.is_none());
    assert!(!outcome.save);
    assert!(same(&before, &manager.get_state()));

    let outcome = toggle_parsed(None, "Reddit", true, &mut manager);
    assert_eq!(outcome.result, Err("Unknown platform: Reddit".to_string()));
    let outcome = select_parsed(None, "x", "fxtwitter", &mut manager);
    assert_eq!(outcome.result, Err("Unknown platform: x".to_string()));
    let outcome = update_parsed(None, "y", false, None, &mut manager);
    assert_eq!(outcome.result, Err("Unknown platform: y".to_string()));
    assert!(same(&before, &manager.get_state()));
}

#[test]
fn selecting_a_converter() {
    let mut manager = store();
    let outcome = select_converter("TWITTER", "vxtwitter", &mut manager);
    assert_eq!(outcome.result, Ok(()));
    assert!(outcome.save);
    let published = outcome.state_changed.expect("the change is published");
    assert_eq!(twitter_of(&published).selected, Some(TwitterConverters::Vxtwitter));
    assert!(same(&published, &manager.get_state()));
}

#[test]
fn an_unknown_converter_is_rejected_and_the_selection_stays() {
    let mut manager = store();
    let before = manager.get_state();
    let outcome = select_converter("twitter", "doesnotexist", &mut manager);
    assert_eq!(
        outcome.result,
        Err("Failed to set converter 'doesnotexist' for platform 'twitter'".to_string())
    );
    assert!(!outcome.save);
    assert!(outcome.state_changed.is_none());
    let after = get_state(&manager);
    assert!(same(&before, &after));
    assert_eq!(twitter_of(&after).selected, Some(TwitterConverters::Fxtwitter));

    // The name of the converter is taken as it is written.
    let outcome = select_converter("twitter", "VXTWITTER", &mut manager);
    assert!(outcome.result.is_err());
    // A converter of another platform is not on the menu.
    let outcome = select_converter("twitter", "fxbsky", &mut manager);
    assert!(outcome.result.is_err());
    assert!(same(&before, &manager.get_state()));

    // A platform without an entry has no converter to select.
    let mut empty = StateManager::new("p".to_string(), SourcesConfig { sources: vec![] });
    let outcome = select_parsed(Some(Platform::Twitter), "twitter", "fxtwitter", &mut empty);
    assert_eq!(
        outcome.result,
        Err("Failed to set converter 'fxtwitter' for platform 'twitter'".to_string())
    );
    let outcome = toggle_parsed(Some(Platform::Twitter), "twitter", true, &mut empty);
    assert_eq!(outcome.result, Ok(()));
    assert_eq!(empty.get_state().sources.len(), 0);
}

#[test]
fn every_update_publishes_the_state_after_it() {
    let mut manager = store();
    let first = update_state("twitter", false, Some("fixupx".to_string()), &mut manager);
    assert_eq!(first.result, Ok(()));
    let after_first = manager.get_state();
    let second = update_state("bluesky", true, Some("bskyx".to_string()), &mut manager);
    assert_eq!(second.result, Ok(()));
    let after_second = manager.get_state();

    let first_published = first.state_changed.expect("the first change is published");
    let second_published = second.state_changed.expect("the second change is published");
    assert!(same(&first_published, &after_first));
    assert!(same(&second_published, &after_second));
    assert!(!twitter_of(&first_published).enabled);
    assert_eq!(twitter_of(&first_published).selected, Some(TwitterConverters::Fixupx));
    assert_eq!(bluesky_of(&first_published).selected, Some(BlueskyConverters::Bsky));
    assert_eq!(twitter_of(&second_published).selected, Some(TwitterConverters::Fixupx));
    assert_eq!(bluesky_of(&second_published).selected, Some(BlueskyConverters::Bskyx));
    assert!(!first.save && !second.save);
}

#[test]
fn an_update_with_an_unknown_converter_changes_nothing() {
    let mut manager = store();
    let before = manager.get_state();
    let outcome = update_state("twitter", false, Some("doesnotexist".to_string()), &mut manager);
    assert_eq!(
        outcome.result,
        Err("Failed to set converter 'doesnotexist' for platform 'twitter'".to_string())
    );
    assert!(outcome.state_changed.is_none());
    assert!(!outcome.save);
    let after = manager.get_state();
    assert!(same(&before, &after));
    assert!(twitter_of(&after).enabled);
    assert_eq!(twitter_of(&after).selected, Some(TwitterConverters::Fxtwitter));

    // The name of the converter is taken as it is written.
    let outcome = update_state("Twitter", false, Some("FixVX".to_string()), &mut manager);
    assert_eq!(
        outcome.result,
        Err("Failed to set converter 'FixVX' for platform 'Twitter'".to_string())
    );
    assert!(same(&before, &manager.get_state()));

    // Without a converter only the switch is set.
    let outcome = update_state("twitter", false, None, &mut manager);
    assert_eq!(outcome.result, Ok(()));
    let after = manager.get_state();
    assert!(!twitter_of(&after).enabled);
    assert_eq!(twitter_of(&after).selected, Some(TwitterConverters::Fxtwitter));
    assert!(same(&outcome.state_changed.expect("the change is published"), &after));

    // With a converter of the menu both are set.
    let outcome = update_state("twitter", true, Some("fixvx".to_string()), &mut manager);
    assert_eq!(outcome.result, Ok(()));
    let after = manager.get_state();
    assert!(twitter_of(&after).enabled);
    assert_eq!(twitter_of(&after).selected, Some(TwitterConverters::Fixvx));

    // A platform without an entry has no converter to select, and no switch to set.
    let mut empty = StateManager::new("p".to_string(), SourcesConfig { sources: vec![] });
    let outcome =
        update_parsed(Some(Platform::Twitter), "twitter", true, Some("fixvx".to_string()), &mut empty);
    assert_eq!(
        outcome.result,
        Err("Failed to set converter 'fixvx' for platform 'twitter'".to_string())
    );
    let outcome = update_parsed(Some(Platform::Twitter), "twitter", true, None, &mut empty);
    assert_eq!(outcome.result, Ok(()));
    assert_eq!(empty.get_state().sources.len(), 0);
}

#[test]
fn converting_one_link() {
    let mut manager = store();
    let converter = LinkConverter::new();
    assert_eq!(
        convert_link("https://twitter.com/user/status/123456", &manager, &converter),
        Ok("https://fxtwitter.com/user/status/123456".to_string())
    );
    assert_eq!(
        convert_link("https://example.com/user/status/123456", &manager, &converter),
        Err("Unable to convert link".to_string())
    );
    toggle_platform("twitter", false, &mut manager);
    assert_eq!(
        convert_link("https://twitter.com/user/status/123456", &manager, &converter),
        Err("Unable to convert link".to_string())
    );
}

#[test]
fn readings_of_the_clipboard() {
    let mut manager = ClipboardManager::new();
    assert_eq!(get_new_clipboard_content(&mut manager, Ok("".to_string())), Ok(None));
    assert_eq!(get_new_clipboard_content(&mut manager, Ok(" \n".to_string())), Ok(None));
    assert_eq!(
        get_new_clipboard_content(&mut manager, Ok("  hello \n".to_string())),
        Ok(Some("  hello \n".to_string()))
    );
    assert_eq!(manager.previous_content(), "hello");
    assert_eq!(get_new_clipboard_content(&mut manager, Ok("hello".to_string())), Ok(None));
    assert_eq!(get_new_clipboard_content(&mut manager, Ok("\thello".to_string())), Ok(None));
    assert_eq!(
        get_new_clipboard_content(&mut manager, Err("no display".to_string())),
        Err("Failed to get clipboard content: no display".to_string())
    );
    assert_eq!(manager.previous_content(), "hello");
    assert_eq!(get_new_clipboard_content(&mut manager, Ok("hello".to_string())), Ok(None));
    assert_eq!(
        get_new_clipboard_content(&mut manager, Ok("Hello".to_string())),
        Ok(Some("Hello".to_string()))
    );
}

#[test]
fn the_baseline_is_cleared_after_too_many_failures() {
    assert_eq!(MAX_READ_FAILURES, 5);
    let mut manager = ClipboardManager::new();
    assert!(manager.has_clipboard_changed("seen"));
    for _ in 0..MAX_READ_FAILURES - 1 {
        manager.note_read_failure();
        assert_eq!(manager.previous_content(), "seen");
    }
    manager.note_read_failure();
    assert_eq!(manager.previous_content(), "");
    assert!(manager.has_clipboard_changed("seen"));

    // A reading that succeeds starts the count anew.
    for _ in 0..MAX_READ_FAILURES - 1 {
        manager.note_read_failure();
    }
    assert!(!manager.has_clipboard_changed("seen"));
    for _ in 0..MAX_READ_FAILURES - 1 {
        manager.note_read_failure();
    }
    assert_eq!(manager.previous_content(), "seen");
    manager.note_read_failure();
    assert_eq!(manager.previous_content(), "");
}

fn rewritten(action: MonitorAction) -> Option<(String, String)> {
    match action {
        MonitorAction::Rewrite { original, converted } => Some((original, converted)),
        _ => None,
    }
}

fn is_idle(action: &MonitorAction) -> bool {
    matches!(action, MonitorAction::Idle)
}

#[test]
fn the_monitor_rewrites_once_and_does_not_answer_itself() {
    let converter = LinkConverter::new();
    let config = SourcesConfig::default();
    let mut manager = ClipboardManager::new();

    let action = monitor_cycle(
        &mut manager,
        Ok(" https://twitter.com/user/status/123456\n".to_string()),
        &config,
        &converter,
    );
    let (original, converted) = rewritten(action).expect("the link is rewritten");
    assert_eq!(original, " https://twitter.com/user/status/123456\n");
    assert_eq!(converted, "https://fxtwitter.com/user/status/123456");
    assert_eq!(manager.previous_content(), converted);

    // What the monitor wrote comes back at the next reading, and again.
    let action = monitor_cycle(&mut manager, Ok(converted.clone()), &config, &converter);
    assert!(is_idle(&action));
    let action = monitor_cycle(&mut manager, Ok(converted.clone()), &config, &converter);
    assert!(is_idle(&action));
    assert_eq!(manager.previous_content(), converted);

    // Had the write failed, the link would still be there, and be rewritten again.
    let action = monitor_cycle(
        &mut manager,
        Ok("https://twitter.com/user/status/123456".to_string()),
        &config,
        &converter,
    );
    assert!(rewritten(action).is_some());
}

#[test]
fn the_monitor_leaves_other_texts_and_disabled_platforms_alone() {
    let converter = LinkConverter::new();
    let mut store = store();
    select_converter("bluesky", "vxbsky", &mut store);
    let mut manager = ClipboardManager::new();

    let action = monitor_cycle(&mut manager, Ok("hello".to_string()), &store.get_state(), &converter);
    assert!(is_idle(&action));
    assert_eq!(manager.previous_content(), "hello");

    toggle_platform("bluesky", false, &mut store);
    let url = "https://bsky.app/profile/alice.bsky.social/post/abc123";
    let action = monitor_cycle(&mut manager, Ok(url.to_string()), &store.get_state(), &converter);
    assert!(is_idle(&action));
    assert_eq!(manager.previous_content(), url);

    toggle_platform("bluesky", true, &mut store);
    let action = monitor_cycle(&mut manager, Ok(url.to_string()), &store.get_state(), &converter);
    assert!(is_idle(&action), "the link was seen already");
    let action =
        monitor_cycle(&mut manager, Ok(format!("{} ", url)), &store.get_state(), &converter);
    assert!(is_idle(&action), "white space around it is no change");
    manager.has_clipboard_changed("something else");
    let action = monitor_cycle(&mut manager, Ok(url.to_string()), &store.get_state(), &converter);
    assert_eq!(
        rewritten(action),
        Some((
            url.to_string(),
            "https://vxbsky.app/profile/alice.bsky.social/post/abc123".to_string()
        ))
    );
}

#[test]
fn the_monitor_reports_failed_readings() {
    let converter = LinkConverter::new();
    let config = SourcesConfig::default();
    let mut manager = ClipboardManager::new();
    let url = "https://x.com/u/status/1";
    assert!(rewritten(monitor_cycle(&mut manager, Ok(url.to_string()), &config, &converter))
        .is_some());
    for _ in 0..MAX_READ_FAILURES {
        match monitor_cycle(&mut manager, Err("busy".to_string()), &config, &converter) {
            MonitorAction::Report(message) => {
                assert_eq!(message, "Failed to get clipboard content: busy")
            }
            _ => panic!("a failed reading is reported"),
        }
    }
    assert_eq!(manager.previous_content(), "");
    // The rewritten link is still on the clipboard: it is no link to rewrite.
    let action = monitor_cycle(
        &mut manager,
        Ok("https://fxtwitter.com/u/status/1".to_string()),
        &config,
        &converter,
    );
    assert!(is_idle(&action));
}

#[test]
fn a_rewritten_link_is_never_rewritten_again() {
    let registry = ConverterRegistry::new();
    let links = [
        ("twitter", "https://twitter.com/user/status/123456"),
        ("twitter", "http://www.x.com/user/status/123456?s=20"),
        ("bluesky", "https://bsky.app/profile/alice.bsky.social/post/abc123"),
        ("tiktok", "https://www.tiktok.com/@user/video/123456"),
        ("instagram", "https://www.instagram.com/user/reel/ABC123/"),
    ];
    let platforms = registry.platforms();
    for (platform, link) in links {
        for name in registry.available_converters(platform) {
            let converted = match registry.convert(link, platform, name) {
                Some(converted) => converted,
                None => {
                    assert_eq!(name, "bsky", "only the own domain has no mirror");
                    continue;
                }
            };
            for other in &platforms {
                for again in registry.available_converters(other) {
                    assert_eq!(registry.convert(&converted, other, again), None);
                    assert_eq!(registry.try_convert_any(&converted, again), None);
                }
            }
        }
    }
    assert_eq!(
        registry.convert("https://fxtwitter.com/user/status/123456", "twitter", "vxtwitter"),
        None
    );
}

#[test]
fn a_registry_tries_its_converters_in_order() {
    let mut registry = ConverterRegistry::new();
    assert_eq!(registry.platforms(), vec!["twitter", "bluesky", "tiktok", "instagram"]);
    registry.register(Converter::Twitter(TwitterConverter::new()));
    assert_eq!(registry.platforms().len(), 5);
    assert_eq!(registry.platforms()[4], "twitter");
    assert_eq!(registry.get_converter("tiktok").map(|c| c.platform_name()), Some("tiktok"));
    assert!(registry.get_converter("Twitter").is_none());
    assert!(registry.get_converter("reddit").is_none());
    assert!(registry.available_converters("reddit").is_empty());
    assert_eq!(registry.try_convert_any("https://x.com/u/status/1", "vxbsky"), None);
    assert_eq!(registry.try_convert_any("https://tiktok.com/@u/video/1", "TIKTOKEZ"), None);
    assert_eq!(
        registry.try_convert_any("https://tiktok.com/@u/video/1", "tiktokez"),
        Some(("tiktok".to_string(), "https://tiktokez.com/@u/video/1".to_string()))
    );
    assert_eq!(registry.convert("https://x.com/u/status/1", "twitter", "FixVX"), None);
    assert_eq!(registry.convert("https://x.com/u/status/1", "Twitter", "fixvx"), None);
    let with = LinkConverter::with_registry(registry);
    assert_eq!(
        with.convert_link("https://x.com/u/status/1", "twitter", "fixvx"),
        Some("https://fixvx.com/u/status/1".to_string())
    );
    assert_eq!(with.convert_link("https://x.com/u/status/1", "bluesky", "fxbsky"), None);
}
