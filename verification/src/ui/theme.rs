//! Theme presets and the width-dependent layout rules.

use crate::checker::Status;
use vstd::prelude::*;
use vstd::string::StrSliceExecFns;
use vstd::string::StringExecFns;

verus! {

/// Theme preset names.
#[derive(Clone, Copy, Debug, PartialEq, Eq, Structural)]
pub enum ThemeName {
    Dark,
    Light,
    HighContrast,
}

impl ThemeName {
    /// The preset that follows `self` in the cycle Dark, Light, HighContrast.
    pub open spec fn successor(self) -> ThemeName {
        match self {
            ThemeName::Dark => ThemeName::Light,
            ThemeName::Light => ThemeName::HighContrast,
            ThemeName::HighContrast => ThemeName::Dark,
        }
    }

    /// Cycle to the next theme.
    pub fn next(self) -> (n: ThemeName)
        ensures
            n == self.successor(),
    {
        match self {
            ThemeName::Dark => ThemeName::Light,
            ThemeName::Light => ThemeName::HighContrast,
            ThemeName::HighContrast => ThemeName::Dark,
        }
    }

    /// The preset that a lower-case name stands for.
    pub open spec fn named(lower: Seq<char>) -> Option<ThemeName> {
        if lower == "dark"@ {
            Some(ThemeName::Dark)
        } else if lower == "light"@ {
            Some(ThemeName::Light)
        } else if lower == "high-contrast"@ || lower == "high_contrast"@ || lower
            == "highcontrast"@ {
            Some(ThemeName::HighContrast)
        } else {
            None
        }
    }

    /// Reads a preset from its lower-case name; `None` for any other text.
    pub fn from_lowercase(lower: &str) -> (t: Option<ThemeName>)
        ensures
            t == ThemeName::named(lower@),
    {
        if crate::text::same_text(lower, "dark") {
            Some(ThemeName::Dark)
        } else if crate::text::same_text(lower, "light") {
            Some(ThemeName::Light)
        } else if crate::text::same_text(lower, "high-contrast") || crate::text::same_text(
            lower,
            "high_contrast",
        ) || crate::text::same_text(lower, "highcontrast") {
            Some(ThemeName::HighContrast)
        } else {
            None
        }
    }

    /// Reads a preset from a name in any letter case.
    pub fn parse(name: &str) -> (t: Option<ThemeName>)
        ensures
            t == ThemeName::named(lowercase(name@)),
    {
        let lower = to_lowercase(name);
        ThemeName::from_lowercase(lower.as_str())
    }
}

impl Default for ThemeName {
    fn default() -> (t: ThemeName)
        ensures
            t == ThemeName::Dark,
    {
        ThemeName::Dark
    }
}

/// What `str::to_lowercase` makes of a text.
pub uninterp spec fn lowercase(text: Seq<char>) -> Seq<char>;

/// Calls `str::to_lowercase`. The result is the lower-case form of the
/// argument under the Unicode rules that std implements; it depends on the
/// argument alone.
#[verifier::external_body]
fn to_lowercase(text: &str) -> (lower: String)
    ensures
        lower@ == lowercase(text@),
{
    text.to_lowercase()
}

/// A terminal colour.
#[derive(Clone, Copy, Debug, PartialEq, Eq, Structural)]
pub enum Color {
    Black,
    Red,
    Green,
    Yellow,
    Cyan,
    Gray,
    DarkGray,
    White,
    Rgb(u8, u8, u8),
}

/// How a piece of text is drawn.
#[derive(Clone, Copy, Debug, PartialEq, Eq, Structural)]
pub struct Style {
    pub fg: Option<Color>,
    pub bg: Option<Color>,
    pub bold: bool,
}

/// Complete theme with all colour definitions.
#[derive(Clone, Copy, Debug, PartialEq, Eq, Structural)]
pub struct Theme {
    pub status_up: Color,
    pub status_down: Color,
    pub status_warning: Color,
    pub status_unknown: Color,
    pub header_fg: Color,
    pub footer_fg: Color,
    pub border_fg: Color,
    pub selection_bg: Color,
    pub text_primary: Color,
    pub text_secondary: Color,
    pub text_muted: Color,
    pub alert_critical: Color,
    pub alert_warning: Color,
    pub alert_recovery: Color,
    pub chart_line: Color,
    pub chart_axis: Color,
    pub error_fg: Color,
    pub error_bg: Color,
}

impl Theme {
    /// Saturated colours on a dark background.
    pub open spec fn dark_palette() -> Theme {
        Theme {
            status_up: Color::Green,
            status_down: Color::Red,
            status_warning: Color::Yellow,
            status_unknown: Color::Gray,
            header_fg: Color::Cyan,
            footer_fg: Color::DarkGray,
            border_fg: Color::White,
            selection_bg: Color::DarkGray,
            text_primary: Color::White,
            text_secondary: Color::Gray,
            text_muted: Color::DarkGray,
            alert_critical: Color::Red,
            alert_warning: Color::Yellow,
            alert_recovery: Color::Green,
            chart_line: Color::Cyan,
            chart_axis: Color::Gray,
            error_fg: Color::Black,
            error_bg: Color::Yellow,
        }
    }

    /// Softer, pastel colours, still meant for a dark background.
    pub open spec fn light_palette() -> Theme {
        Theme {
            status_up: Color::Rgb(100, 220, 100),
            status_down: Color::Rgb(255, 100, 100),
            status_warning: Color::Rgb(255, 200, 100),
            status_unknown: Color::Gray,
            header_fg: Color::Rgb(150, 180, 255),
            footer_fg: Color::Gray,
            border_fg: Color::Gray,
            selection_bg: Color::Rgb(60, 60, 80),
            text_primary: Color::Rgb(220, 220, 230),
            text_secondary: Color::Rgb(160, 160, 180),
            text_muted: Color::Rgb(100, 100, 120),
            alert_critical: Color::Rgb(255, 100, 100),
            alert_warning: Color::Rgb(255, 200, 100),
            alert_recovery: Color::Rgb(100, 220, 100),
            chart_line: Color::Rgb(150, 180, 255),
            chart_axis: Color::Rgb(120, 120, 140),
            error_fg: Color::Black,
            error_bg: Color::Rgb(255, 200, 100),
        }
    }

    /// Pure primaries and white.
    pub open spec fn high_contrast_palette() -> Theme {
        Theme {
            status_up: Color::Rgb(0, 255, 0),
            status_down: Color::Rgb(255, 0, 0),
            status_warning: Color::Rgb(255, 255, 0),
            status_unknown: Color::White,
            header_fg: Color::Rgb(0, 255, 255),
            footer_fg: Color::White,
            border_fg: Color::White,
            selection_bg: Color::Rgb(80, 80, 80),
            text_primary: Color::White,
            text_secondary: Color::White,
            text_muted: Color::Rgb(180, 180, 180),
            alert_critical: Color::Rgb(255, 0, 0),
            alert_warning: Color::Rgb(255, 255, 0),
            alert_recovery: Color::Rgb(0, 255, 0),
            chart_line: Color::Rgb(0, 255, 255),
            chart_axis: Color::White,
            error_fg: Color::Black,
            error_bg: Color::Rgb(255, 255, 0),
        }
    }

    /// The palette that a preset name selects.
    pub open spec fn palette(name: ThemeName) -> Theme {
        match name {
            ThemeName::Dark => Theme::dark_palette(),
            ThemeName::Light => Theme::light_palette(),
            ThemeName::HighContrast => Theme::high_contrast_palette(),
        }
    }

    pub fn dark() -> (t: Theme)
        ensures
            t == Theme::dark_palette(),
    {
        Theme {
            status_up: Color::Green,
            status_down: Color::Red,
            status_warning: Color::Yellow,
            status_unknown: Color::Gray,
            header_fg: Color::Cyan,
            footer_fg: Color::DarkGray,
            border_fg: Color::White,
            selection_bg: Color::DarkGray,
            text_primary: Color::White,
            text_secondary: Color::Gray,
            text_muted: Color::DarkGray,
            alert_critical: Color::Red,
            alert_warning: Color::Yellow,
            alert_recovery: Color::Green,
            chart_line: Color::Cyan,
            chart_axis: Color::Gray,
            error_fg: Color::Black,
            error_bg: Color::Yellow,
        }
    }

    pub fn light() -> (t: Theme)
        ensures
            t == Theme::light_palette(),
    {
        Theme {
            status_up: Color::Rgb(100, 220, 100),
            status_down: Color::Rgb(255, 100, 100),
            status_warning: Color::Rgb(255, 200, 100),
            status_unknown: Color::Gray,
            header_fg: Color::Rgb(150, 180, 255),
            footer_fg: Color::Gray,
            border_fg: Color::Gray,
            selection_bg: Color::Rgb(60, 60, 80),
            text_primary: Color::Rgb(220, 220, 230),
            text_secondary: Color::Rgb(160, 160, 180),
            text_muted: Color::Rgb(100, 100, 120),
            alert_critical: Color::Rgb(255, 100, 100),
            alert_warning: Color::Rgb(255, 200, 100),
            alert_recovery: Color::Rgb(100, 220, 100),
            chart_line: Color::Rgb(150, 180, 255),
            chart_axis: Color::Rgb(120, 120, 140),
            error_fg: Color::Black,
            error_bg: Color::Rgb(255, 200, 100),
        }
    }

    pub fn high_contrast() -> (t: Theme)
        ensures
            t == Theme::high_contrast_palette(),
    {
        Theme {
            status_up: Color::Rgb(0, 255, 0),
            status_down: Color::Rgb(255, 0, 0),
            status_warning: Color::Rgb(255, 255, 0),
            status_unknown: Color::White,
            header_fg: Color::Rgb(0, 255, 255),
            footer_fg: Color::White,
            border_fg: Color::White,
            selection_bg: Color::Rgb(80, 80, 80),
            text_primary: Color::White,
            text_secondary: Color::White,
            text_muted: Color::Rgb(180, 180, 180),
            alert_critical: Color::Rgb(255, 0, 0),
            alert_warning: Color::Rgb(255, 255, 0),
            alert_recovery: Color::Rgb(0, 255, 0),
            chart_line: Color::Rgb(0, 255, 255),
            chart_axis: Color::White,
            error_fg: Color::Black,
            error_bg: Color::Rgb(255, 255, 0),
        }
    }

    pub fn from_name(name: ThemeName) -> (t: Theme)
        ensures
            t == Theme::palette(name),
    {
        match name {
            ThemeName::Dark => Theme::dark(),
            ThemeName::Light => Theme::light(),
            ThemeName::HighContrast => Theme::high_contrast(),
        }
    }

    /// The colour that a status is shown in.
    pub fn status_color(&self, status: &Status) -> (c: Color)
        ensures
            c == match *status {
                Status::Up => self.status_up,
                Status::Down => self.status_down,
                Status::Warning => self.status_warning,
            },
    {
        match status {
            Status::Up => self.status_up,
            Status::Down => self.status_down,
            Status::Warning => self.status_warning,
        }
    }

    /// Style for selected items: bold on the selection background.
    pub fn selection_style(&self) -> (s: Style)
        ensures
            s == (Style { fg: None, bg: Some(self.selection_bg), bold: true }),
    {
        Style { fg: None, bg: Some(self.selection_bg), bold: true }
    }

    /// Style for headers: bold in the header colour.
    pub fn header_style(&self) -> (s: Style)
        ensures
            s == (Style { fg: Some(self.header_fg), bg: None, bold: true }),
    {
        Style { fg: Some(self.header_fg), bg: None, bold: true }
    }

    /// Style for the error bar: bold, error foreground on error background.
    pub fn error_style(&self) -> (s: Style)
        ensures
            s == (Style { fg: Some(self.error_fg), bg: Some(self.error_bg), bold: true }),
    {
        Style { fg: Some(self.error_fg), bg: Some(self.error_bg), bold: true }
    }
}

/// Responsive layout helper based on terminal width.
pub struct ResponsiveLayout {
    pub width: u16,
}

/// `s` cut to at most `max_len` characters. A text that is cut to more than
/// three characters ends in three dots, which count towards `max_len`.
pub open spec fn truncated(s: Seq<char>, max_len: nat) -> Seq<char> {
    if s.len() <= max_len {
        s
    } else if max_len <= 3 {
        s.subrange(0, max_len as int)
    } else {
        s.subrange(0, max_len - 3) + seq!['.', '.', '.']
    }
}

impl ResponsiveLayout {
    pub fn new(width: u16) -> (l: ResponsiveLayout)
        ensures
            l.width == width,
    {
        ResponsiveLayout { width }
    }

    /// Columns given to the site name at a terminal width.
    pub open spec fn name_columns(width: u16) -> usize {
        if width >= 120 {
            40
        } else if width >= 100 {
            30
        } else if width >= 80 {
            25
        } else {
            15
        }
    }

    /// Longest URL shown at a terminal width.
    pub open spec fn url_columns(width: u16) -> usize {
        if width >= 120 {
            80
        } else if width >= 100 {
            60
        } else if width >= 80 {
            40
        } else {
            25
        }
    }

    /// Rows that one site takes in the list at a terminal width: four where
    /// the sparkline is shown, else two.
    pub open spec fn item_lines(width: u16) -> u16 {
        if width >= 60 {
            4
        } else {
            2
        }
    }

    /// Get appropriate site name width based on terminal width.
    pub fn site_name_width(&self) -> (w: usize)
        ensures
            w == ResponsiveLayout::name_columns(self.width),
    {
        if self.width >= 120 {
            40
        } else if self.width >= 100 {
            30
        } else if self.width >= 80 {
            25
        } else {
            15
        }
    }

    /// Get appropriate URL truncation length.
    pub fn url_max_len(&self) -> (w: usize)
        ensures
            w == ResponsiveLayout::url_columns(self.width),
    {
        if self.width >= 120 {
            80
        } else if self.width >= 100 {
            60
        } else if self.width >= 80 {
            40
        } else {
            25
        }
    }

    /// Whether to show sparkline charts.
    pub fn show_sparkline(&self) -> (show: bool)
        ensures
            show == (self.width >= 60),
    {
        self.width >= 60
    }

    /// Whether to show detailed metrics.
    pub fn show_detailed_metrics(&self) -> (show: bool)
        ensures
            show == (self.width >= 80),
    {
        self.width >= 80
    }

    /// Number of lines per list item (for mouse click calculations).
    pub fn lines_per_site_item(&self) -> (n: u16)
        ensures
            n == ResponsiveLayout::item_lines(self.width),
    {
        if self.show_sparkline() {
            4
        } else if self.show_detailed_metrics() {
            3
        } else {
            2
        }
    }

    /// Truncate string with ellipsis.
    pub fn truncate(s: &str, max_len: usize) -> (t: String)
        ensures
            t@ == truncated(s@, max_len as nat),
    {
        let n = s.unicode_len();
        if n <= max_len {
            String::from_str(s)
        } else if max_len <= 3 {
            String::from_str(s.substring_char(0, max_len))
        } else {
            let mut t = String::from_str(s.substring_char(0, max_len - 3));
            proof {
                reveal_strlit("...");
            }
            t.append("...");
            t
        }
    }
}

} // verus!
