//! Colour themes and the styles the dashboard draws with.

use vstd::prelude::*;
use crate::models::pipeline::PipelineStatus;
use crate::models::stage::StageStatus;
use crate::text::same_text;

verus! {

/// A terminal colour.
#[derive(Debug, Clone, Copy, PartialEq, Eq, Structural)]
pub enum ThemeColor {
    Reset,
    Black,
    Red,
    Green,
    Yellow,
    Blue,
    Magenta,
    Cyan,
    Gray,
    DarkGray,
    White,
    Rgb(u8, u8, u8),
}

/// A text style: foreground and background colours and modifiers.
#[derive(Debug, Clone, Copy, PartialEq, Eq, Structural)]
pub struct StyleSpec {
    pub fg: Option<ThemeColor>,
    pub bg: Option<ThemeColor>,
    pub bold: bool,
    pub dim: bool,
}

/// Theme configuration for the UI.
#[derive(Debug, Clone)]
pub struct Theme {
    pub name: String,
    pub background: ThemeColor,
    pub foreground: ThemeColor,
    pub border: ThemeColor,
    pub border_focused: ThemeColor,
    pub title: ThemeColor,
    pub success: ThemeColor,
    pub running: ThemeColor,
    pub failed: ThemeColor,
    pub pending: ThemeColor,
    pub cancelled: ThemeColor,
    pub skipped: ThemeColor,
    pub selected: ThemeColor,
    pub highlight: ThemeColor,
}

/// The colours shared by the default, dark and light themes for statuses.
pub open spec fn basic_status_colors(t: Theme) -> bool {
    &&& t.success == ThemeColor::Green
    &&& t.running == ThemeColor::Yellow
    &&& t.failed == ThemeColor::Red
    &&& t.pending == ThemeColor::Gray
    &&& t.cancelled == ThemeColor::Magenta
    &&& t.skipped == ThemeColor::DarkGray
}

pub open spec fn is_default_theme(t: Theme) -> bool {
    &&& t.name@ == "default"@
    &&& t.background == ThemeColor::Reset
    &&& t.foreground == ThemeColor::Reset
    &&& t.border == ThemeColor::Gray
    &&& t.border_focused == ThemeColor::Cyan
    &&& t.title == ThemeColor::Cyan
    &&& basic_status_colors(t)
    &&& t.selected == ThemeColor::Blue
    &&& t.highlight == ThemeColor::Cyan
}

pub open spec fn is_dark_theme(t: Theme) -> bool {
    &&& t.name@ == "dark"@
    &&& t.background == ThemeColor::Black
    &&& t.foreground == ThemeColor::White
    &&& t.border == ThemeColor::DarkGray
    &&& t.border_focused == ThemeColor::Cyan
    &&& t.title == ThemeColor::Cyan
    &&& basic_status_colors(t)
    &&& t.selected == ThemeColor::Blue
    &&& t.highlight == ThemeColor::Cyan
}

pub open spec fn is_light_theme(t: Theme) -> bool {
    &&& t.name@ == "light"@
    &&& t.background == ThemeColor::White
    &&& t.foreground == ThemeColor::Black
    &&& t.border == ThemeColor::Gray
    &&& t.border_focused == ThemeColor::Blue
    &&& t.title == ThemeColor::Blue
    &&& basic_status_colors(t)
    &&& t.selected == ThemeColor::Cyan
    &&& t.highlight == ThemeColor::Blue
}

pub open spec fn is_monokai_theme(t: Theme) -> bool {
    &&& t.name@ == "monokai"@
    &&& t.background == ThemeColor::Rgb(39, 40, 34)
    &&& t.foreground == ThemeColor::Rgb(248, 248, 242)
    &&& t.border == ThemeColor::Rgb(117, 113, 94)
    &&& t.border_focused == ThemeColor::Rgb(102, 217, 239)
    &&& t.title == ThemeColor::Rgb(102, 217, 239)
    &&& t.success == ThemeColor::Rgb(166, 226, 46)
    &&& t.running == ThemeColor::Rgb(253, 151, 31)
    &&& t.failed == ThemeColor::Rgb(249, 38, 114)
    &&& t.pending == ThemeColor::Rgb(117, 113, 94)
    &&& t.cancelled == ThemeColor::Rgb(174, 129, 255)
    &&& t.skipped == ThemeColor::Rgb(117, 113, 94)
    &&& t.selected == ThemeColor::Rgb(73, 72, 62)
    &&& t.highlight == ThemeColor::Rgb(102, 217, 239)
}

/// The colour a theme gives a pipeline status.
pub open spec fn status_color_spec(t: Theme, s: PipelineStatus) -> ThemeColor {
    match s {
        PipelineStatus::Success => t.success,
        PipelineStatus::Running => t.running,
        PipelineStatus::Failed => t.failed,
        PipelineStatus::Pending => t.pending,
        PipelineStatus::Cancelled => t.cancelled,
        PipelineStatus::Skipped => t.skipped,
    }
}

/// The colour a theme gives a stage status.
pub open spec fn stage_color_spec(t: Theme, s: StageStatus) -> ThemeColor {
    match s {
        StageStatus::Success => t.success,
        StageStatus::Running => t.running,
        StageStatus::Failed => t.failed,
        StageStatus::Pending => t.pending,
        StageStatus::Skipped => t.skipped,
    }
}

/// A style with only a foreground colour and boldness.
pub open spec fn fg_style(c: ThemeColor, bold: bool) -> StyleSpec {
    StyleSpec { fg: Some(c), bg: None, bold, dim: false }
}

impl Theme {
    /// The default theme.
    pub fn default() -> (t: Self)
        ensures
            is_default_theme(t),
    {
        Theme {
            name: "default".to_owned(),
            background: ThemeColor::Reset,
            foreground: ThemeColor::Reset,
            border: ThemeColor::Gray,
            border_focused: ThemeColor::Cyan,
            title: ThemeColor::Cyan,
            success: ThemeColor::Green,
            running: ThemeColor::Yellow,
            failed: ThemeColor::Red,
            pending: ThemeColor::Gray,
            cancelled: ThemeColor::Magenta,
            skipped: ThemeColor::DarkGray,
            selected: ThemeColor::Blue,
            highlight: ThemeColor::Cyan,
        }
    }

    /// The dark theme.
    pub fn dark() -> (t: Self)
        ensures
            is_dark_theme(t),
    {
        Theme {
            name: "dark".to_owned(),
            background: ThemeColor::Black,
            foreground: ThemeColor::White,
            border: ThemeColor::DarkGray,
            border_focused: ThemeColor::Cyan,
            title: ThemeColor::Cyan,
            success: ThemeColor::Green,
            running: ThemeColor::Yellow,
            failed: ThemeColor::Red,
            pending: ThemeColor::Gray,
            cancelled: ThemeColor::Magenta,
            skipped: ThemeColor::DarkGray,
            selected: ThemeColor::Blue,
            highlight: ThemeColor::Cyan,
        }
    }

    /// The light theme.
    pub fn light() -> (t: Self)
        ensures
            is_light_theme(t),
    {
        Theme {
            name: "light".to_owned(),
            background: ThemeColor::White,
            foreground: ThemeColor::Black,
            border: ThemeColor::Gray,
            border_focused: ThemeColor::Blue,
            title: ThemeColor::Blue,
            success: ThemeColor::Green,
            running: ThemeColor::Yellow,
            failed: ThemeColor::Red,
            pending: ThemeColor::Gray,
            cancelled: ThemeColor::Magenta,
            skipped: ThemeColor::DarkGray,
            selected: ThemeColor::Cyan,
            highlight: ThemeColor::Blue,
        }
    }

    /// The monokai theme.
    pub fn monokai() -> (t: Self)
        ensures
            is_monokai_theme(t),
    {
        Theme {
            name: "monokai".to_owned(),
            background: ThemeColor::Rgb(39, 40, 34),
            foreground: ThemeColor::Rgb(248, 248, 242),
            border: ThemeColor::Rgb(117, 113, 94),
            border_focused: ThemeColor::Rgb(102, 217, 239),
            title: ThemeColor::Rgb(102, 217, 239),
            success: ThemeColor::Rgb(166, 226, 46),
            running: ThemeColor::Rgb(253, 151, 31),
            failed: ThemeColor::Rgb(249, 38, 114),
            pending: ThemeColor::Rgb(117, 113, 94),
            cancelled: ThemeColor::Rgb(174, 129, 255),
            skipped: ThemeColor::Rgb(117, 113, 94),
            selected: ThemeColor::Rgb(73, 72, 62),
            highlight: ThemeColor::Rgb(102, 217, 239),
        }
    }

    /// The theme of a name; unknown names give the default theme.
    pub fn from_name(name: &str) -> (t: Self)
        ensures
            name@ == "dark"@ ==> is_dark_theme(t),
            name@ == "light"@ ==> is_light_theme(t),
            name@ == "monokai"@ ==> is_monokai_theme(t),
            !(name@ == "dark"@ || name@ == "light"@ || name@ == "monokai"@) ==> is_default_theme(t),
    {
        proof {
            reveal_strlit("dark");
            reveal_strlit("light");
            reveal_strlit("monokai");
            assert("dark"@.len() == 4 && "light"@.len() == 5 && "monokai"@.len() == 7);
        }
        if same_text(name, "dark") {
            Self::dark()
        } else if same_text(name, "light") {
            Self::light()
        } else if same_text(name, "monokai") {
            Self::monokai()
        } else {
            Self::default()
        }
    }

    /// The colour for a pipeline status.
    pub fn status_color(&self, status: PipelineStatus) -> (c: ThemeColor)
        ensures
            c == status_color_spec(*self, status),
    {
        match status {
            PipelineStatus::Success => self.success,
            PipelineStatus::Running => self.running,
            PipelineStatus::Failed => self.failed,
            PipelineStatus::Pending => self.pending,
            PipelineStatus::Cancelled => self.cancelled,
            PipelineStatus::Skipped => self.skipped,
        }
    }

    /// The colour for a stage status.
    pub fn stage_status_color(&self, status: StageStatus) -> (c: ThemeColor)
        ensures
            c == stage_color_spec(*self, status),
    {
        match status {
            StageStatus::Success => self.success,
            StageStatus::Running => self.running,
            StageStatus::Failed => self.failed,
            StageStatus::Pending => self.pending,
            StageStatus::Skipped => self.skipped,
        }
    }

    /// The style for normal text.
    pub fn normal(&self) -> (s: StyleSpec)
        ensures
            s == (StyleSpec { fg: Some(self.foreground), bg: Some(self.background), bold: false, dim: false }),
    {
        StyleSpec { fg: Some(self.foreground), bg: Some(self.background), bold: false, dim: false }
    }

    /// The style for titles.
    pub fn title(&self) -> (s: StyleSpec)
        ensures
            s == (StyleSpec { fg: Some(self.title), bg: Some(self.background), bold: true, dim: false }),
    {
        StyleSpec { fg: Some(self.title), bg: Some(self.background), bold: true, dim: false }
    }

    /// The style for borders.
    pub fn border(&self) -> (s: StyleSpec)
        ensures
            s == fg_style(self.border, false),
    {
        StyleSpec { fg: Some(self.border), bg: None, bold: false, dim: false }
    }

    /// The style for focused borders.
    pub fn border_focused(&self) -> (s: StyleSpec)
        ensures
            s == fg_style(self.border_focused, false),
    {
        StyleSpec { fg: Some(self.border_focused), bg: None, bold: false, dim: false }
    }

    /// The style for selected items.
    pub fn selected(&self) -> (s: StyleSpec)
        ensures
            s == (StyleSpec { fg: Some(self.foreground), bg: Some(self.selected), bold: true, dim: false }),
    {
        StyleSpec { fg: Some(self.foreground), bg: Some(self.selected), bold: true, dim: false }
    }

    /// The style for highlighted text.
    pub fn highlight(&self) -> (s: StyleSpec)
        ensures
            s == fg_style(self.highlight, true),
    {
        StyleSpec { fg: Some(self.highlight), bg: None, bold: true, dim: false }
    }

    /// The style for a pipeline status.
    pub fn status_style(&self, status: PipelineStatus) -> (s: StyleSpec)
        ensures
            s == fg_style(status_color_spec(*self, status), true),
    {
        StyleSpec { fg: Some(self.status_color(status)), bg: None, bold: true, dim: false }
    }

    /// The style for a stage status.
    pub fn stage_status_style(&self, status: StageStatus) -> (s: StyleSpec)
        ensures
            s == fg_style(stage_color_spec(*self, status), true),
    {
        StyleSpec { fg: Some(self.stage_status_color(status)), bg: None, bold: true, dim: false }
    }
}

} // verus!
