use link_mirror::services::converters::registry::ConverterRegistry;

#[test]
fn test_registry_platforms() {
    let registry = ConverterRegistry::new();
    let platforms = registry.platforms();

    assert!(platforms.contains(&"twitter"));
    assert!(platforms.contains(&"bluesky"));
    assert!(platforms.contains(&"tiktok"));
    assert!(platforms.contains(&"instagram"));
}

#[test]
fn test_registry_convert_twitter() {
    let registry = ConverterRegistry::new();

    let result = registry.convert(
        "https://twitter.com/user/status/123456",
        "twitter",
        "fxtwitter",
    );

    assert_eq!(result, Some("https://fxtwitter.com/user/status/123456".to_string()));
}

#[test]
fn test_registry_convert_bluesky() {
    let registry = ConverterRegistry::new();

    let result = registry.convert(
        "https://bsky.app/profile/user.bsky.social/post/123456",
        "bluesky",
        "fxbsky",
    );

    assert_eq!(
        result,
        Some("https://fxbsky.app/profile/user.bsky.social/post/123456".to_string())
    );
}

#[test]
fn test_registry_convert_tiktok() {
    let registry = ConverterRegistry::new();

    let result = registry.convert(
        "https://www.tiktok.com/@user/video/123456",
        "tiktok",
        "tfxktok",
    );

    assert_eq!(result, Some("https://tfxktok.com/@user/video/123456".to_string()));
}

#[test]
fn test_registry_convert_instagram() {
    let registry = ConverterRegistry::new();

    let result = registry.convert(
        "https://www.instagram.com/user/reel/ABC123",
        "instagram",
        "ddinstagram",
    );

    assert_eq!(result, Some("https://ddinstagram.com/user/reel/ABC123".to_string()));
}

#[test]
fn test_registry_try_convert_any() {
    let registry = ConverterRegistry::new();

    let result = registry.try_convert_any("https://twitter.com/user/status/123456", "fxtwitter");
    assert!(result.is_some());
    let (platform, converted) = result.unwrap();
    assert_eq!(platform, "twitter");
    assert_eq!(converted, "https://fxtwitter.com/user/status/123456");

    let result = registry.try_convert_any(
        "https://bsky.app/profile/user.bsky.social/post/123456",
        "fxbsky",
    );
    assert!(result.is_some());
    let (platform, converted) = result.unwrap();
    assert_eq!(platform, "bluesky");
    assert_eq!(converted, "https://fxbsky.app/profile/user.bsky.social/post/123456");
}

#[test]
fn test_registry_available_converters() {
    let registry = ConverterRegistry::new();

    let twitter_converters = registry.available_converters("twitter");
    assert_eq!(twitter_converters, vec!["fxtwitter", "vxtwitter", "fixupx", "fixvx"]);

    let bluesky_converters = registry.available_converters("bluesky");
    assert_eq!(bluesky_converters, vec!["bsky", "fxbsky", "vxbsky", "bskye", "bskyx"]);
}

#[test]
fn test_registry_unknown_platform() {
    let registry = ConverterRegistry::new();

    let result = registry.convert("https://example.com/post/123", "unknown", "converter");

    assert!(result.is_none());
}
