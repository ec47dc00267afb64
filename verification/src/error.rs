//! Errors of the bot and their messages.
use vstd::prelude::*;
use crate::text::{decimal_view, push_decimal, push_str};

verus! {

/// Which ROI ratio a configuration error is about.
#[derive(Debug, Clone, Copy, PartialEq, Eq, Structural)]
pub enum RoiField {
    X,
    Y,
    W,
    H,
}

/// Which polling interval a configuration error is about.
#[derive(Debug, Clone, Copy, PartialEq, Eq, Structural)]
pub enum PollField {
    DefaultInterval,
    PostBattleInterval,
    DebounceInterval,
}

/// Which `[input]` min/max pair a configuration error is about.
#[derive(Debug, Clone, Copy, PartialEq, Eq, Structural)]
pub enum InputRangeField {
    ClickPressDuration,
    PreClick,
    PostClick,
}

/// A configuration value that the start-up check refuses. Float values are
/// carried as their IEEE-754 bit patterns.
#[derive(Debug, Clone)]
pub enum ConfigError {
    /// A template file path that leaves the templates directory.
    TemplateFilePath { template: String, file: String },
    /// A threshold that is not finite or lies outside `[0, 1]`.
    TemplateThreshold { template: String, threshold: u32 },
    /// An ROI ratio that is not finite or lies outside `[0, 1]`.
    TemplateRoiValue { template: String, field: RoiField, value: u32 },
    /// An ROI whose width or height ratio is not positive.
    TemplateRoiEmpty { template: String, w_pct: u32, h_pct: u32 },
    /// Two templates with the same name.
    DuplicateTemplate { template: String },
    /// No `reisseki_zero_guard` template.
    GuardMissing,
    /// The guard threshold is below the safety minimum.
    GuardThresholdTooLax { threshold: u32 },
    /// The guard template has no ROI.
    GuardRoiMissing,
    /// A polling interval below the minimum.
    PollIntervalTooSmall { field: PollField, value: u64 },
    /// The stability polling interval below its minimum.
    StabilityPollTooSmall { value: u64 },
    /// The coordinate cache padding outside its range.
    SearchPadOutOfRange { value: u32 },
    /// An `[input]` pair whose minimum exceeds its maximum.
    InputRangeInverted { field: InputRangeField, min: u64, max: u64 },
    /// Any other configuration problem, as text.
    Message(String),
}

/// Every failure of the bot.
#[derive(Debug, Clone)]
pub enum BotError {
    WindowNotFound(String),
    CaptureFailed(String),
    /// A step's template was not seen within its timeout; `best_score` is the
    /// bit pattern of the best score seen.
    TemplateWaitTimeout { template: String, elapsed_ms: u64, best_score: u32 },
    /// The premium-currency guard did not see its zero-state template.
    ReissekiGuardFailed { best_score: u32 },
    InputFailed(String),
    TemplateNotFound(String),
    Config(ConfigError),
    TomlParse(String),
    Image(String),
    Io(String),
    Other(String),
}

pub open spec fn roi_field_view(f: RoiField) -> Seq<char> {
    match f {
        RoiField::X => "x_pct"@,
        RoiField::Y => "y_pct"@,
        RoiField::W => "w_pct"@,
        RoiField::H => "h_pct"@,
    }
}

pub open spec fn poll_field_view(f: PollField) -> Seq<char> {
    match f {
        PollField::DefaultInterval => "default_interval_ms"@,
        PollField::PostBattleInterval => "post_battle_interval_ms"@,
        PollField::DebounceInterval => "debounce_interval_ms"@,
    }
}

pub open spec fn input_range_min_view(f: InputRangeField) -> Seq<char> {
    match f {
        InputRangeField::ClickPressDuration => "click_press_duration_min_ms"@,
        InputRangeField::PreClick => "pre_click_min_ms"@,
        InputRangeField::PostClick => "post_click_min_ms"@,
    }
}

pub open spec fn input_range_max_view(f: InputRangeField) -> Seq<char> {
    match f {
        InputRangeField::ClickPressDuration => "click_press_duration_max_ms"@,
        InputRangeField::PreClick => "pre_click_max_ms"@,
        InputRangeField::PostClick => "post_click_max_ms"@,
    }
}

fn roi_field_str(f: RoiField) -> (r: &'static str)
    ensures
        r@ == roi_field_view(f),
{
    match f {
        RoiField::X => "x_pct",
        RoiField::Y => "y_pct",
        RoiField::W => "w_pct",
        RoiField::H => "h_pct",
    }
}

fn poll_field_str(f: PollField) -> (r: &'static str)
    ensures
        r@ == poll_field_view(f),
{
    match f {
        PollField::DefaultInterval => "default_interval_ms",
        PollField::PostBattleInterval => "post_battle_interval_ms",
        PollField::DebounceInterval => "debounce_interval_ms",
    }
}

fn input_range_min_str(f: InputRangeField) -> (r: &'static str)
    ensures
        r@ == input_range_min_view(f),
{
    match f {
        InputRangeField::ClickPressDuration => "click_press_duration_min_ms",
        InputRangeField::PreClick => "pre_click_min_ms",
        InputRangeField::PostClick => "post_click_min_ms",
    }
}

fn input_range_max_str(f: InputRangeField) -> (r: &'static str)
    ensures
        r@ == input_range_max_view(f),
{
    match f {
        InputRangeField::ClickPressDuration => "click_press_duration_max_ms",
        InputRangeField::PreClick => "pre_click_max_ms",
        InputRangeField::PostClick => "post_click_max_ms",
    }
}

impl ConfigError {
    /// The text of the error. Float values are not rendered here; the
    /// program's own copy of the error type prints them.
    pub open spec fn message_view(&self) -> Seq<char> {
        match self {
            ConfigError::TemplateFilePath { template, file } => "template '"@ + template@
                + "': file '"@ + file@
                + "' must be a relative path inside the templates directory"@,
            ConfigError::TemplateThreshold { template, .. } => "template '"@ + template@
                + "': threshold not finite or out of [0.0, 1.0]"@,
            ConfigError::TemplateRoiValue { template, field, .. } => "template '"@ + template@
                + "' roi."@ + roi_field_view(*field) + " not finite or out of [0.0, 1.0]"@,
            ConfigError::TemplateRoiEmpty { template, .. } => "template '"@ + template@
                + "' roi has zero or negative size"@,
            ConfigError::DuplicateTemplate { template } => "template '"@ + template@ + "' is defined twice"@,
            ConfigError::GuardMissing => "reisseki_zero_guard template is required for safety guard"@,
            ConfigError::GuardThresholdTooLax { .. } =>
                "reisseki_zero_guard.threshold is too lax; minimum 0.8 (recommended 0.90+) — refusing to start"@,
            ConfigError::GuardRoiMissing =>
                "reisseki_zero_guard requires explicit roi (refusing fullscreen search)"@,
            ConfigError::PollIntervalTooSmall { field, value } => "loop.poll."@ + poll_field_view(*field)
                + " = "@ + decimal_view(*value as nat) + " is too small (minimum 100ms)"@,
            ConfigError::StabilityPollTooSmall { value } => "input.stability_poll_ms = "@
                + decimal_view(*value as nat) + " is too small (minimum 50ms)"@,
            ConfigError::SearchPadOutOfRange { value } => "loop.coord_cache.search_pad_px = "@
                + decimal_view(*value as nat) + " out of range [1, 256]"@,
            ConfigError::InputRangeInverted { field, min, max } => "input."@ + input_range_min_view(*field)
                + " = "@ + decimal_view(*min as nat) + " exceeds input."@ + input_range_max_view(*field)
                + " = "@ + decimal_view(*max as nat),
            ConfigError::Message(m) => m@,
        }
    }

    pub fn message(&self) -> (r: String)
        ensures
            r@ == self.message_view(),
    {
        let mut s = String::new();
        match self {
            ConfigError::TemplateFilePath { template, file } => {
                push_str(&mut s, "template '");
                push_str(&mut s, template.as_str());
                push_str(&mut s, "': file '");
                push_str(&mut s, file.as_str());
                push_str(&mut s, "' must be a relative path inside the templates directory");
            },
            ConfigError::TemplateThreshold { template, .. } => {
                push_str(&mut s, "template '");
                push_str(&mut s, template.as_str());
                push_str(&mut s, "': threshold not finite or out of [0.0, 1.0]");
            },
            ConfigError::TemplateRoiValue { template, field, .. } => {
                push_str(&mut s, "template '");
                push_str(&mut s, template.as_str());
                push_str(&mut s, "' roi.");
                push_str(&mut s, roi_field_str(*field));
                push_str(&mut s, " not finite or out of [0.0, 1.0]");
            },
            ConfigError::TemplateRoiEmpty { template, .. } => {
                push_str(&mut s, "template '");
                push_str(&mut s, template.as_str());
                push_str(&mut s, "' roi has zero or negative size");
            },
            ConfigError::DuplicateTemplate { template } => {
                push_str(&mut s, "template '");
                push_str(&mut s, template.as_str());
                push_str(&mut s, "' is defined twice");
            },
            ConfigError::GuardMissing => {
                push_str(&mut s, "reisseki_zero_guard template is required for safety guard");
            },
            ConfigError::GuardThresholdTooLax { .. } => {
                push_str(
                    &mut s,
                    "reisseki_zero_guard.threshold is too lax; minimum 0.8 (recommended 0.90+) — refusing to start",
                );
            },
            ConfigError::GuardRoiMissing => {
                push_str(
                    &mut s,
                    "reisseki_zero_guard requires explicit roi (refusing fullscreen search)",
                );
            },
            ConfigError::PollIntervalTooSmall { field, value } => {
                push_str(&mut s, "loop.poll.");
                push_str(&mut s, poll_field_str(*field));
                push_str(&mut s, " = ");
                push_decimal(&mut s, *value);
                push_str(&mut s, " is too small (minimum 100ms)");
            },
            ConfigError::StabilityPollTooSmall { value } => {
                push_str(&mut s, "input.stability_poll_ms = ");
                push_decimal(&mut s, *value);
                push_str(&mut s, " is too small (minimum 50ms)");
            },
            ConfigError::SearchPadOutOfRange { value } => {
                push_str(&mut s, "loop.coord_cache.search_pad_px = ");
                push_decimal(&mut s, *value as u64);
                push_str(&mut s, " out of range [1, 256]");
            },
            ConfigError::InputRangeInverted { field, min, max } => {
                push_str(&mut s, "input.");
                push_str(&mut s, input_range_min_str(*field));
                push_str(&mut s, " = ");
                push_decimal(&mut s, *min);
                push_str(&mut s, " exceeds input.");
                push_str(&mut s, input_range_max_str(*field));
                push_str(&mut s, " = ");
                push_decimal(&mut s, *max);
            },
            ConfigError::Message(m) => {
                push_str(&mut s, m.as_str());
            },
        }
        s
    }
}

impl BotError {
    /// An `Other` error with the given text.
    pub fn other(msg: String) -> (r: BotError)
        ensures
            r == BotError::Other(msg),
    {
        BotError::Other(msg)
    }

    /// The text of the error (the best score is not rendered here).
    pub open spec fn message_view(&self) -> Seq<char> {
        match self {
            BotError::WindowNotFound(s) => "window not found: "@ + s@,
            BotError::CaptureFailed(s) => "capture failed: "@ + s@,
            BotError::TemplateWaitTimeout { template, elapsed_ms, .. } => "template wait timeout: "@
                + template@ + " for "@ + decimal_view(*elapsed_ms as nat) + "ms"@,
            BotError::ReissekiGuardFailed { .. } =>
                "reisseki guard failed: zero-state template did not match — refusing to click 'use'"@,
            BotError::InputFailed(s) => "input send failed: "@ + s@,
            BotError::TemplateNotFound(s) => "template not found in library: "@ + s@,
            BotError::Config(e) => "config error: "@ + e.message_view(),
            BotError::TomlParse(s) => "toml parse error: "@ + s@,
            BotError::Image(s) => "image error: "@ + s@,
            BotError::Io(s) => s@,
            BotError::Other(s) => "other: "@ + s@,
        }
    }

    pub fn message(&self) -> (r: String)
        ensures
            r@ == self.message_view(),
    {
        let mut s = String::new();
        match self {
            BotError::WindowNotFound(m) => {
                push_str(&mut s, "window not found: ");
                push_str(&mut s, m.as_str());
            },
            BotError::CaptureFailed(m) => {
                push_str(&mut s, "capture failed: ");
                push_str(&mut s, m.as_str());
            },
            BotError::TemplateWaitTimeout { template, elapsed_ms, .. } => {
                push_str(&mut s, "template wait timeout: ");
                push_str(&mut s, template.as_str());
                push_str(&mut s, " for ");
                push_decimal(&mut s, *elapsed_ms);
                push_str(&mut s, "ms");
            },
            BotError::ReissekiGuardFailed { .. } => {
                push_str(
                    &mut s,
                    "reisseki guard failed: zero-state template did not match — refusing to click 'use'",
                );
            },
            BotError::InputFailed(m) => {
                push_str(&mut s, "input send failed: ");
                push_str(&mut s, m.as_str());
            },
            BotError::TemplateNotFound(m) => {
                push_str(&mut s, "template not found in library: ");
                push_str(&mut s, m.as_str());
            },
            BotError::Config(e) => {
                push_str(&mut s, "config error: ");
                let inner = e.message();
                push_str(&mut s, inner.as_str());
            },
            BotError::TomlParse(m) => {
                push_str(&mut s, "toml parse error: ");
                push_str(&mut s, m.as_str());
            },
            BotError::Image(m) => {
                push_str(&mut s, "image error: ");
                push_str(&mut s, m.as_str());
            },
            BotError::Io(m) => {
                push_str(&mut s, m.as_str());
            },
            BotError::Other(m) => {
                push_str(&mut s, "other: ");
                push_str(&mut s, m.as_str());
            },
        }
        s
    }
}

} // verus!
