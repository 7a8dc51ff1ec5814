//! The converter that the configuration is applied through: a registry of
//! platforms behind one call.

use crate::config::app_config::{ConverterChoice, TwitterConverters};
use crate::services::converters::registry::{
    conversion_by, default_converters, Converter, ConverterRegistry,
};
use crate::services::converters::twitter::{twitter_link, TwitterConverter};
use vstd::prelude::*;

verus! {

/// Rewrites links for the platforms of its registry.
pub struct LinkConverter {
    registry: ConverterRegistry,
}

impl View for LinkConverter {
    type V = Seq<Converter>;

    closed spec fn view(&self) -> Seq<Converter> {
        self.registry@
    }
}

impl LinkConverter {
    /// Creates a converter for Twitter, Bluesky, TikTok and Instagram.
    pub fn new() -> (converter: Self)
        ensures
            converter@ == default_converters(),
    {
        LinkConverter { registry: ConverterRegistry::new() }
    }

    /// Creates a converter for the platforms of `registry`.
    pub fn with_registry(registry: ConverterRegistry) -> (converter: Self)
        ensures
            converter@ == registry@,
    {
        LinkConverter { registry }
    }

    /// Rewrites `url` with the converter `converter` of the platform
    /// `platform`, both named exactly; `None` where there is no such
    /// platform, `url` is not a vanilla link of it, or it has no such
    /// converter with a mirror domain.
    pub fn convert_link(&self, url: &str, platform: &str, converter: &str) -> (out: Option<String>)
        ensures
            out.deep_view() == conversion_by(self@, url@, platform@, converter@),
    {
        self.registry.convert(url, platform, converter)
    }

    /// Rewrites the vanilla Twitter link `url` with `converter`; `None`
    /// where `url` is not a vanilla Twitter link.
    pub fn convert_twitter_link(&self, url: &str, converter: &TwitterConverters) -> (out: Option<
        String,
    >)
        ensures
            out.deep_view() == twitter_link(url@, converter.name()),
    {
        TwitterConverter::rewrite(url, converter.as_str())
    }
}

} // verus!
