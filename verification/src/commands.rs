//! The operations that the user interface and the clipboard monitor are
//! built on. Each takes the store, or the monitor's baseline, and says in
//! its result what is to be done outside: what to report, what to publish,
//! whether to save, what to write to the clipboard.

use crate::config::app_config::{first_index, sources_wf, Platform, SourceView, SourcesConfig};
use crate::platform_ops::{
    converter_of, first_source_conversion, lemma_disabled_platform_is_skipped,
    lemma_source_conversion_is_trimmed, parse_platform, platform_named,
    try_convert_with_all_platforms, vanilla_for, with_change, ChangeView, PlatformChange,
};
use crate::services::clipboard::{Baseline, ClipboardManager};
use crate::services::converters::registry::{lemma_vanilla_survives_trim, Converter};
use crate::services::link_converter::LinkConverter;
use crate::state::StateManager;
use crate::text::{lowercase_of, trim, trimmed};
use vstd::prelude::*;
use vstd::string::StringExecFns;

verus! {

/// What a command that changes the configuration hands back.
pub struct CommandOutcome {
    /// What the caller is told.
    pub result: Result<(), String>,
    /// The configuration to publish as changed, where the command succeeded.
    pub state_changed: Option<SourcesConfig>,
    /// Whether the configuration is to be saved at once.
    pub save: bool,
}

/// The message for a name that is no platform's.
pub open spec fn unknown_platform(platform: Seq<char>) -> Seq<char> {
    "Unknown platform: "@ + platform
}

/// The message for a converter that could not be selected.
pub open spec fn converter_not_set(converter: Seq<char>, platform: Seq<char>) -> Seq<char> {
    "Failed to set converter '"@ + converter + "' for platform '"@ + platform + "'"@
}

/// The message for a link that no platform rewrites.
pub open spec fn not_converted() -> Seq<char> {
    "Unable to convert link"@
}

/// The message for a reading of the clipboard that failed.
pub open spec fn read_failed(error: Seq<char>) -> Seq<char> {
    "Failed to get clipboard content: "@ + error
}

/// `sources` after `change` was made to the first entry for `platform`;
/// `sources` itself where `platform` has no entry.
pub open spec fn changed_state(sources: Seq<SourceView>, platform: Platform, change: ChangeView) -> Seq<
    SourceView,
> {
    let i = first_index(sources, platform);
    if i == sources.len() {
        sources
    } else {
        with_change(sources, i, change)
    }
}

/// The change could be made: `platform` has an entry, and the converter
/// that the change names, if any, is on its menu.
pub open spec fn change_fits(sources: Seq<SourceView>, platform: Platform, change: ChangeView) -> bool {
    let i = first_index(sources, platform);
    i < sources.len() && change.fits(sources[i].config)
}

/// A change that cannot be made changes nothing.
pub proof fn lemma_misfit_leaves_state(
    sources: Seq<SourceView>,
    platform: Platform,
    change: ChangeView,
)
    requires
        !change_fits(sources, platform, change),
    ensures
        changed_state(sources, platform, change) == sources,
{
    let i = first_index(sources, platform);
    crate::config::app_config::lemma_first_index(sources, platform);
    if i < sources.len() {
        crate::platform_ops::lemma_misfit_changes_nothing(sources, i, change);
    }
}

fn message_unknown_platform(platform: &str) -> (message: String)
    ensures
        message@ == unknown_platform(platform@),
{
    let mut message = String::from_str("Unknown platform: ");
    message.append(platform);
    message
}

fn message_converter_not_set(converter_name: &str, platform: &str) -> (message: String)
    ensures
        message@ == converter_not_set(converter_name@, platform@),
{
    let mut message = String::from_str("Failed to set converter '");
    message.append(converter_name);
    message.append("' for platform '");
    message.append(platform);
    message.append("'");
    message
}

/// Switches the rewriting of a platform on or off, for the platform that
/// `parsed` gives; `platform` is the name as the caller wrote it. Fails,
/// and changes nothing, where there is no such platform. A platform
/// without an entry is left as it is, and the store is updated all the same.
pub fn toggle_parsed(
    parsed: Option<Platform>,
    platform: &str,
    enabled: bool,
    state_manager: &mut StateManager,
) -> (outcome: CommandOutcome)
    ensures
        !outcome.save,
        final(state_manager).path() == old(state_manager).path(),
        sources_wf(old(state_manager)@) ==> sources_wf(final(state_manager)@),
        match parsed {
            None => {
                &&& outcome.result matches Err(e)
                &&& e@ == unknown_platform(platform@)
                &&& outcome.state_changed is None
                &&& final(state_manager)@ == old(state_manager)@
            },
            Some(p) => {
                &&& outcome.result is Ok
                &&& outcome.state_changed matches Some(snapshot)
                &&& snapshot@ == final(state_manager)@
                &&& final(state_manager)@ == changed_state(
                    old(state_manager)@,
                    p,
                    ChangeView { enabled: Some(enabled), converter: None },
                )
            },
        },
{
    match parsed {
        None => CommandOutcome {
            result: Err(message_unknown_platform(platform)),
            state_changed: None,
            save: false,
        },
        Some(p) => {
            let change = PlatformChange { enabled: Some(enabled), converter: None };
            let update = state_manager.update_state(p, &change);
            CommandOutcome { result: Ok(()), state_changed: Some(update.snapshot), save: false }
        },
    }
}

/// Switches the rewriting of the platform named `platform` on or off.
/// The name is taken whatever its case.
pub fn toggle_platform(platform: &str, enabled: bool, state_manager: &mut StateManager) -> (outcome:
    CommandOutcome)
    ensures
        !outcome.save,
        final(state_manager).path() == old(state_manager).path(),
        sources_wf(old(state_manager)@) ==> sources_wf(final(state_manager)@),
        match platform_named(lowercase_of(platform@)) {
            None => {
                &&& outcome.result matches Err(e)
                &&& e@ == unknown_platform(platform@)
                &&& outcome.state_changed is None
                &&& final(state_manager)@ == old(state_manager)@
            },
            Some(p) => {
                &&& outcome.result is Ok
                &&& outcome.state_changed matches Some(snapshot)
                &&& snapshot@ == final(state_manager)@
                &&& final(state_manager)@ == changed_state(
                    old(state_manager)@,
                    p,
                    ChangeView { enabled: Some(enabled), converter: None },
                )
            },
        },
{
    toggle_parsed(parse_platform(platform), platform, enabled, state_manager)
}

/// Selects the converter with the exact name `converter_name` for the
/// platform that `parsed` gives; `platform` is the name as the caller wrote
/// it. Fails, changes nothing and publishes nothing, where there is no
/// such platform, the platform has no entry, or the converter is not on
/// its menu. Asks for the configuration to be saved at once where the
/// converter was selected.
pub fn select_parsed(
    parsed: Option<Platform>,
    platform: &str,
    converter_name: &str,
    state_manager: &mut StateManager,
) -> (outcome: CommandOutcome)
    ensures
        final(state_manager).path() == old(state_manager).path(),
        sources_wf(old(state_manager)@) ==> sources_wf(final(state_manager)@),
        outcome.result is Err ==> final(state_manager)@ == old(state_manager)@,
        outcome.save == outcome.result is Ok,
        outcome.state_changed is Some == outcome.result is Ok,
        match parsed {
            None => outcome.result matches Err(e) && e@ == unknown_platform(platform@),
            Some(p) => {
                let change = ChangeView { enabled: None, converter: Some(converter_name@) };
                if change_fits(old(state_manager)@, p, change) {
                    &&& outcome.result is Ok
                    &&& outcome.state_changed matches Some(snapshot)
                    &&& snapshot@ == final(state_manager)@
                    &&& final(state_manager)@ == changed_state(old(state_manager)@, p, change)
                } else {
                    &&& outcome.result matches Err(e)
                    &&& e@ == converter_not_set(converter_name@, platform@)
                }
            },
        },
{
    match parsed {
        None => CommandOutcome {
            result: Err(message_unknown_platform(platform)),
            state_changed: None,
            save: false,
        },
        Some(p) => {
            let change = PlatformChange {
                enabled: None,
                converter: Some(String::from_str(converter_name)),
            };
            let ghost before = state_manager@;
            let update = state_manager.update_state(p, &change);
            proof {
                crate::config::app_config::lemma_first_index(before, p);
            }
            match update.done {
                Some(true) => CommandOutcome {
                    result: Ok(()),
                    state_changed: Some(update.snapshot),
                    save: true,
                },
                _ => CommandOutcome {
                    result: Err(message_converter_not_set(converter_name, platform)),
                    state_changed: None,
                    save: false,
                },
            }
        },
    }
}

/// Selects the converter with the exact name `converter_name` for the
/// platform named `platform`. The name of the platform is taken whatever
/// its case.
pub fn select_converter(platform: &str, converter_name: &str, state_manager: &mut StateManager) -> (outcome:
    CommandOutcome)
    ensures
        final(state_manager).path() == old(state_manager).path(),
        sources_wf(old(state_manager)@) ==> sources_wf(final(state_manager)@),
        outcome.result is Err ==> final(state_manager)@ == old(state_manager)@,
        outcome.save == outcome.result is Ok,
        outcome.state_changed is Some == outcome.result is Ok,
        match platform_named(lowercase_of(platform@)) {
            None => outcome.result matches Err(e) && e@ == unknown_platform(platform@),
            Some(p) => {
                let change = ChangeView { enabled: None, converter: Some(converter_name@) };
                if change_fits(old(state_manager)@, p, change) {
                    &&& outcome.result is Ok
                    &&& outcome.state_changed matches Some(snapshot)
                    &&& snapshot@ == final(state_manager)@
                    &&& final(state_manager)@ == changed_state(old(state_manager)@, p, change)
                } else {
                    &&& outcome.result matches Err(e)
                    &&& e@ == converter_not_set(converter_name@, platform@)
                }
            },
        },
{
    select_parsed(parse_platform(platform), platform, converter_name, state_manager)
}

/// The change that `update_state` asks for.
pub open spec fn requested_change(enabled: bool, selected_converter: Option<String>) -> ChangeView {
    ChangeView {
        enabled: Some(enabled),
        converter: match selected_converter {
            Some(name) => Some(name@),
            None => None,
        },
    }
}

/// Sets the switch of the platform that `parsed` gives and, where
/// `selected_converter` names one, selects that converter: both in one
/// update of the store, or neither. `platform` is the name as the caller
/// wrote it. Fails, changes nothing and publishes nothing, where there is
/// no such platform, or where the converter that is named is not on the
/// menu of the platform's entry: the switch is not set then either.
pub fn update_parsed(
    parsed: Option<Platform>,
    platform: &str,
    enabled: bool,
    selected_converter: Option<String>,
    state_manager: &mut StateManager,
) -> (outcome: CommandOutcome)
    ensures
        !outcome.save,
        final(state_manager).path() == old(state_manager).path(),
        sources_wf(old(state_manager)@) ==> sources_wf(final(state_manager)@),
        outcome.result is Err ==> final(state_manager)@ == old(state_manager)@,
        outcome.state_changed is Some == outcome.result is Ok,
        match parsed {
            None => outcome.result matches Err(e) && e@ == unknown_platform(platform@),
            Some(p) => {
                let change = requested_change(enabled, selected_converter);
                if selected_converter matches Some(name) && !change_fits(
                    old(state_manager)@,
                    p,
                    change,
                ) {
                    &&& outcome.result matches Err(e)
                    &&& e@ == converter_not_set(selected_converter->0@, platform@)
                } else {
                    &&& outcome.result is Ok
                    &&& outcome.state_changed matches Some(snapshot)
                    &&& snapshot@ == final(state_manager)@
                    &&& final(state_manager)@ == changed_state(old(state_manager)@, p, change)
                }
            },
        },
{
    match parsed {
        None => CommandOutcome {
            result: Err(message_unknown_platform(platform)),
            state_changed: None,
            save: false,
        },
        Some(p) => {
            let change = PlatformChange { enabled: Some(enabled), converter: selected_converter };
            let ghost before = state_manager@;
            let update = state_manager.update_state(p, &change);
            proof {
                crate::config::app_config::lemma_first_index(before, p);
            }
            match (&change.converter, update.done) {
                (_, Some(true)) | (None, _) => CommandOutcome {
                    result: Ok(()),
                    state_changed: Some(update.snapshot),
                    save: false,
                },
                (Some(name), _) => CommandOutcome {
                    result: Err(message_converter_not_set(name.as_str(), platform)),
                    state_changed: None,
                    save: false,
                },
            }
        },
    }
}

/// Sets the switch of the platform named `platform` and, where
/// `selected_converter` names one, selects that converter: both in one
/// update of the store, or neither. The name of the platform is taken
/// whatever its case.
pub fn update_state(
    platform: &str,
    enabled: bool,
    selected_converter: Option<String>,
    state_manager: &mut StateManager,
) -> (outcome: CommandOutcome)
    ensures
        !outcome.save,
        final(state_manager).path() == old(state_manager).path(),
        sources_wf(old(state_manager)@) ==> sources_wf(final(state_manager)@),
        outcome.result is Err ==> final(state_manager)@ == old(state_manager)@,
        outcome.state_changed is Some == outcome.result is Ok,
        match platform_named(lowercase_of(platform@)) {
            None => outcome.result matches Err(e) && e@ == unknown_platform(platform@),
            Some(p) => {
                let change = requested_change(enabled, selected_converter);
                if selected_converter matches Some(name) && !change_fits(
                    old(state_manager)@,
                    p,
                    change,
                ) {
                    &&& outcome.result matches Err(e)
                    &&& e@ == converter_not_set(selected_converter->0@, platform@)
                } else {
                    &&& outcome.result is Ok
                    &&& outcome.state_changed matches Some(snapshot)
                    &&& snapshot@ == final(state_manager)@
                    &&& final(state_manager)@ == changed_state(old(state_manager)@, p, change)
                }
            },
        },
{
    update_parsed(parse_platform(platform), platform, enabled, selected_converter, state_manager)
}

/// Returns a copy of the configuration as it is now.
pub fn get_state(state_manager: &StateManager) -> (snapshot: SourcesConfig)
    ensures
        snapshot@ == state_manager@,
{
    state_manager.get_state()
}

/// Rewrites `url` once, as the configuration says: by the first entry that
/// is enabled, has a converter selected and rewrites it. Fails where no
/// entry does.
pub fn convert_link(url: &str, state_manager: &StateManager, link_converter: &LinkConverter) -> (r:
    Result<String, String>)
    ensures
        match first_source_conversion(state_manager@, link_converter@, url@) {
            Some(out) => r matches Ok(converted) && converted@ == out,
            None => r matches Err(e) && e@ == not_converted(),
        },
{
    let state = state_manager.get_state();
    match try_convert_with_all_platforms(&state, link_converter, url) {
        Some(converted) => Ok(converted),
        None => Err(String::from_str("Unable to convert link")),
    }
}

/// The reading that the monitor goes on with: the content as it was read,
/// where it differs, white space around it aside, from what was seen last.
pub open spec fn new_content(baseline: Baseline, read: Result<String, String>) -> Result<
    Option<Seq<char>>,
    Seq<char>,
> {
    match read {
        Ok(content) => if baseline.observed(content@).1 {
            Ok(Some(content@))
        } else {
            Ok(None)
        },
        Err(error) => Err(read_failed(error@)),
    }
}

/// The baseline after a reading.
pub open spec fn baseline_after(baseline: Baseline, read: Result<String, String>) -> Baseline {
    match read {
        Ok(content) => baseline.observed(content@).0,
        Err(_) => baseline.failed(),
    }
}

/// The view of a reading that the monitor goes on with.
pub open spec fn content_view(r: Result<Option<String>, String>) -> Result<
    Option<Seq<char>>,
    Seq<char>,
> {
    match r {
        Ok(Some(content)) => Ok(Some(content@)),
        Ok(None) => Ok(None),
        Err(error) => Err(error@),
    }
}

/// Takes a reading of the clipboard, `read`, and returns its content as
/// it was read, where it differs from what was seen last; white space
/// around the content is no difference. A reading that failed is reported
/// and counts as no change.
pub fn get_new_clipboard_content(manager: &mut ClipboardManager, read: Result<String, String>) -> (r:
    Result<Option<String>, String>)
    ensures
        content_view(r) == new_content(old(manager)@, read),
        final(manager)@ == baseline_after(old(manager)@, read),
{
    match read {
        Ok(content) => {
            if manager.has_clipboard_changed(content.as_str()) {
                Ok(Some(content))
            } else {
                Ok(None)
            }
        },
        Err(error) => {
            manager.note_read_failure();
            let mut message = String::from_str("Failed to get clipboard content: ");
            message.append(error.as_str());
            Err(message)
        },
    }
}

/// What the monitor is to do at the end of a cycle.
pub enum MonitorAction {
    /// Nothing: the clipboard did not change, or holds no link to rewrite.
    Idle,
    /// Report that the clipboard could not be read.
    Report(String),
    /// Write `converted` to the clipboard and announce the conversion of
    /// `original`, the content as it was read.
    Rewrite { original: String, converted: String },
}

/// What the monitor is to do, with texts as values.
pub enum ActionView {
    Idle,
    Report(Seq<char>),
    Rewrite { original: Seq<char>, converted: Seq<char> },
}

impl View for MonitorAction {
    type V = ActionView;

    open spec fn view(&self) -> ActionView {
        match self {
            MonitorAction::Idle => ActionView::Idle,
            MonitorAction::Report(message) => ActionView::Report(message@),
            MonitorAction::Rewrite { original, converted } => ActionView::Rewrite {
                original: original@,
                converted: converted@,
            },
        }
    }
}

/// One cycle of the monitor: from the baseline, a reading and the
/// configuration to the next baseline and what is to be done. A content
/// that changed is rewritten as the configuration says, without the white
/// space around it; the rewritten link becomes the baseline at once. What
/// is announced as the original is the content as it was read.
pub open spec fn cycle(
    baseline: Baseline,
    read: Result<String, String>,
    sources: Seq<SourceView>,
    converters: Seq<Converter>,
) -> (Baseline, ActionView) {
    let seen = baseline_after(baseline, read);
    match new_content(baseline, read) {
        Err(message) => (seen, ActionView::Report(message)),
        Ok(None) => (seen, ActionView::Idle),
        Ok(Some(content)) => match first_source_conversion(sources, converters, trimmed(content)) {
            Some(converted) => (
                seen.written(converted),
                ActionView::Rewrite { original: content, converted },
            ),
            None => (seen, ActionView::Idle),
        },
    }
}

/// Runs one cycle of the monitor on the reading `read`, with the
/// configuration `state`.
pub fn monitor_cycle(
    manager: &mut ClipboardManager,
    read: Result<String, String>,
    state: &SourcesConfig,
    link_converter: &LinkConverter,
) -> (action: MonitorAction)
    ensures
        (final(manager)@, action@) == cycle(old(manager)@, read, state@, link_converter@),
{
    match get_new_clipboard_content(manager, read) {
        Err(message) => MonitorAction::Report(message),
        Ok(None) => MonitorAction::Idle,
        Ok(Some(content)) => {
            match try_convert_with_all_platforms(state, link_converter, trim(content.as_str())) {
                Some(converted) => {
                    manager.note_written(converted.as_str());
                    MonitorAction::Rewrite { original: content, converted }
                },
                None => MonitorAction::Idle,
            }
        },
    }
}

/// The monitor does not take its own writing for a change: when a cycle
/// has rewritten a link, the next cycle, reading the rewritten link back,
/// does nothing and leaves the baseline as it is, whatever the
/// configuration has become.
pub proof fn lemma_own_write_is_no_change(
    baseline: Baseline,
    read: Result<String, String>,
    sources: Seq<SourceView>,
    converters: Seq<Converter>,
    read_back: String,
    later_sources: Seq<SourceView>,
    later_converters: Seq<Converter>,
)
    requires
        cycle(baseline, read, sources, converters).1 matches ActionView::Rewrite { converted, .. }
            && read_back@ == converted,
    ensures
        cycle(
            cycle(baseline, read, sources, converters).0,
            Ok(read_back),
            later_sources,
            later_converters,
        ) == (cycle(baseline, read, sources, converters).0, ActionView::Idle),
{
}

/// A disabled platform is left alone by the monitor: a reading that is a
/// link of a platform whose entries are all disabled, as it stands or
/// without the white space around it, is never rewritten.
pub proof fn lemma_monitor_skips_disabled_platform(
    baseline: Baseline,
    content: String,
    sources: Seq<SourceView>,
    converters: Seq<Converter>,
    platform: Platform,
)
    requires
        vanilla_for(platform, content@) || vanilla_for(platform, trimmed(content@)),
        forall|i: int|
            0 <= i < sources.len() && (#[trigger] sources[i]).platform == platform
                ==> !sources[i].config.enabled,
    ensures
        cycle(baseline, Ok(content), sources, converters).1 == ActionView::Idle,
        cycle(baseline, Ok(content), sources, converters).0.content == trimmed(content@),
{
    if vanilla_for(platform, content@) {
        lemma_vanilla_survives_trim(converter_of(platform)->0, content@);
    }
    lemma_disabled_platform_is_skipped(sources, converters, trimmed(content@), platform);
}

/// When a cycle has rewritten a link, the baseline is the rewritten link,
/// character for character, and what is announced as the original is the
/// reading as it was read.
pub proof fn lemma_baseline_is_what_was_written(
    baseline: Baseline,
    content: String,
    sources: Seq<SourceView>,
    converters: Seq<Converter>,
)
    requires
        cycle(baseline, Ok(content), sources, converters).1 is Rewrite,
    ensures
        cycle(baseline, Ok(content), sources, converters).0.content == cycle(
            baseline,
            Ok(content),
            sources,
            converters,
        ).1->converted,
        cycle(baseline, Ok(content), sources, converters).1->original == content@,
{
    lemma_source_conversion_is_trimmed(sources, converters, trimmed(content@));
}

} // verus!
