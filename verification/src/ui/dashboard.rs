//! The decisions behind the dashboard's drawing: platform badges, source
//! colours, log-line highlighting and list scrolling.

use vstd::prelude::*;
use crate::models::pipeline::PipelineStatus;
use crate::state::app_state::{SourceStatus, SourceStatusView};
use crate::text::{contains, has_infix, to_lowercase, unicode_lowercase};
use crate::ui::theme::{fg_style, status_color_spec, StyleSpec, Theme, ThemeColor};

verus! {

/// GitLab's brand colour.
pub open spec fn gitlab_color() -> ThemeColor {
    ThemeColor::Rgb(252, 109, 38)
}

/// Jenkins' brand colour.
pub open spec fn jenkins_color() -> ThemeColor {
    ThemeColor::Rgb(215, 58, 74)
}

/// The platform label and colour for a source text.
pub open spec fn badge_spec(source: Seq<char>) -> (Seq<char>, ThemeColor) {
    let lc = unicode_lowercase(source);
    if has_infix(lc, "github"@) {
        ("GH"@, ThemeColor::Blue)
    } else if has_infix(lc, "gitlab"@) {
        ("GL"@, gitlab_color())
    } else if has_infix(lc, "jenkins"@) {
        ("JK"@, jenkins_color())
    } else {
        ("CI"@, ThemeColor::Cyan)
    }
}

/// Short platform label shown as a coloured prefix in the pipeline list.
pub fn platform_badge(source: &str) -> (r: (&'static str, ThemeColor))
    ensures
        (r.0@, r.1) == badge_spec(source@),
{
    let lc = to_lowercase(source);
    if contains(lc.as_str(), "github") {
        ("GH", ThemeColor::Blue)
    } else if contains(lc.as_str(), "gitlab") {
        ("GL", ThemeColor::Rgb(252, 109, 38))
    } else if contains(lc.as_str(), "jenkins") {
        ("JK", ThemeColor::Rgb(215, 58, 74))
    } else {
        ("CI", ThemeColor::Cyan)
    }
}

/// The header style of a source: errors and rate limits show their own
/// colour, otherwise the platform named in the source's name decides.
pub open spec fn source_style_spec(name: Seq<char>, status: SourceStatusView) -> StyleSpec {
    match status {
        SourceStatusView::Error(_) => fg_style(ThemeColor::Red, true),
        SourceStatusView::RateLimited(_) => fg_style(ThemeColor::Yellow, false),
        _ => {
            let lc = unicode_lowercase(name);
            if has_infix(lc, "github"@) {
                fg_style(ThemeColor::Blue, true)
            } else if has_infix(lc, "gitlab"@) {
                fg_style(gitlab_color(), true)
            } else if has_infix(lc, "jenkins"@) {
                fg_style(jenkins_color(), true)
            } else {
                fg_style(ThemeColor::Cyan, true)
            }
        },
    }
}

/// The header style of a source.
pub fn source_type_color(source_name: &str, status: &SourceStatus) -> (r: StyleSpec)
    ensures
        r == source_style_spec(source_name@, status@),
{
    match status {
        SourceStatus::Error(_) => StyleSpec { fg: Some(ThemeColor::Red), bg: None, bold: true, dim: false },
        SourceStatus::RateLimited(_) => StyleSpec {
            fg: Some(ThemeColor::Yellow),
            bg: None,
            bold: false,
            dim: false,
        },
        _ => {
            let lc = to_lowercase(source_name);
            let c = if contains(lc.as_str(), "github") {
                ThemeColor::Blue
            } else if contains(lc.as_str(), "gitlab") {
                ThemeColor::Rgb(252, 109, 38)
            } else if contains(lc.as_str(), "jenkins") {
                ThemeColor::Rgb(215, 58, 74)
            } else {
                ThemeColor::Cyan
            };
            StyleSpec { fg: Some(c), bg: None, bold: true, dim: false }
        },
    }
}

/// The icon of a source status in the header.
pub open spec fn source_icon_spec(status: SourceStatusView) -> Seq<char> {
    match status {
        SourceStatusView::Connected => "✓"@,
        SourceStatusView::Connecting => "⟳"@,
        SourceStatusView::Error(_) => "✗"@,
        SourceStatusView::RateLimited(_) => "⏳"@,
    }
}

/// The icon of a source status in the header.
pub fn source_icon(status: &SourceStatus) -> (r: &'static str)
    ensures
        r@ == source_icon_spec(status@),
{
    match status {
        SourceStatus::Connected => "✓",
        SourceStatus::Connecting => "⟳",
        SourceStatus::Error(_) => "✗",
        SourceStatus::RateLimited(_) => "⏳",
    }
}

/// How a log line is highlighted: lines that speak of errors as failures,
/// warnings as running, successes as success, others as normal text.
pub open spec fn log_line_style_spec(t: Theme, text: Seq<char>) -> StyleSpec {
    let lc = unicode_lowercase(text);
    if has_infix(lc, "error"@) || has_infix(lc, "failed"@) || has_infix(lc, "fatal"@) {
        fg_style(status_color_spec(t, PipelineStatus::Failed), true)
    } else if has_infix(lc, "warning"@) || has_infix(lc, "warn"@) {
        fg_style(status_color_spec(t, PipelineStatus::Running), true)
    } else if has_infix(lc, "success"@) || has_infix(lc, "passed"@) || has_infix(lc, "✓"@) {
        fg_style(status_color_spec(t, PipelineStatus::Success), true)
    } else {
        StyleSpec { fg: Some(t.foreground), bg: Some(t.background), bold: false, dim: false }
    }
}

/// The style of a log line.
pub fn log_line_style(theme: &Theme, text: &str) -> (r: StyleSpec)
    ensures
        r == log_line_style_spec(*theme, text@),
{
    let lc = to_lowercase(text);
    let l = lc.as_str();
    if contains(l, "error") || contains(l, "failed") || contains(l, "fatal") {
        theme.status_style(PipelineStatus::Failed)
    } else if contains(l, "warning") || contains(l, "warn") {
        theme.status_style(PipelineStatus::Running)
    } else if contains(l, "success") || contains(l, "passed") || contains(l, "✓") {
        theme.status_style(PipelineStatus::Success)
    } else {
        theme.normal()
    }
}

/// Rows available inside a bordered panel of `height` rows.
pub fn inner_rows(height: u16) -> (r: usize)
    ensures
        r == (if height >= 2 {
            height - 2
        } else {
            0
        }),
{
    if height >= 2 {
        (height - 2) as usize
    } else {
        0
    }
}

/// The first row shown of a list so that row `selected` is visible in a
/// window of `visible` rows.
pub fn list_scroll_offset(selected: usize, visible: usize) -> (r: usize)
    requires
        visible > 0 || selected < usize::MAX,
    ensures
        r == (if selected >= visible {
            selected - visible + 1
        } else {
            0
        }),
{
    if selected >= visible {
        selected - visible + 1
    } else {
        0
    }
}

} // verus!
