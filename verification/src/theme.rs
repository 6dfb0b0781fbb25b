//! Colours and metrics.
//!
//! A theme is one struct of colours, each written `0xRRGGBB`. Five are compiled
//! in; any other is read from a file.

use vstd::prelude::*;
use vstd::string::*;

use crate::text::{owned, same};
use crate::themes::DiskThemes;

verus! {

broadcast use vstd::seq::group_seq_axioms;

/// The colours of a theme.
#[derive(Clone, Copy, PartialEq, Eq, Debug)]
pub struct Theme {
    pub background: u32,
    pub panel: u32,
    pub border: u32,
    pub text: u32,
    pub text_muted: u32,
    pub accent: u32,
    /// Files git reports as changed.
    pub modified: u32,
    pub hover: u32,
    pub selected: u32,
    /// A control while the mouse is held down on it: one step past `hover`.
    pub pressed: u32,
    pub cursor: u32,
    pub selection: u32,
    pub status_bar: u32,
    /// Syntax colours.
    pub keyword: u32,
    pub types: u32,
    pub function: u32,
    pub variable: u32,
    pub property: u32,
    pub string: u32,
    pub number: u32,
    pub operator: u32,
    pub attribute: u32,
    pub comment: u32,
    pub tag: u32,
    pub blade: u32,
    /// Diagnostic underlines, one for each severity.
    pub error: u32,
    pub warning: u32,
    pub information: u32,
    pub hint: u32,
    /// The rule drawn at each indent level.
    pub indent_guide: u32,
    /// The tint over trailing white space.
    pub trailing_whitespace: u32,
    /// The sixteen slots of the terminal: eight normal, then eight bright.
    pub ansi: [u32; 16],
}

/// Sizes in pixels that do not follow the font.
pub struct Metrics;

impl Metrics {
    pub const ACTIVITY_BAR_WIDTH: u32 = 44;
    /// The sidebar's width on first launch.
    pub const SIDEBAR_WIDTH: u32 = 240;
    /// The chat panel's width on first launch.
    pub const AI_CHAT_WIDTH: u32 = 380;
    /// What a panel may not be dragged below: one dragged to nothing could not
    /// be had back.
    pub const PANEL_MIN_WIDTH: u32 = 160;
    /// What a panel may not be dragged above.
    pub const PANEL_MAX_WIDTH: u32 = 720;
    pub const TAB_HEIGHT: u32 = 32;
    pub const STATUS_HEIGHT: u32 = 24;
    pub const ROW_HEIGHT: u32 = 22;
    /// The terminal panel, its tab strip included.
    pub const TERMINAL_HEIGHT: u32 = 260;
}

/// Which compiled-in theme is active.
#[derive(Clone, Copy, PartialEq, Eq, Structural, Debug)]
pub enum ThemeVariant {
    Dark,
    Light,
    OneDarkPro,
    GitHubDark,
    GitHubLight,
}

impl Default for ThemeVariant {
    fn default() -> (variant: Self)
        ensures
            variant == ThemeVariant::Dark,
    {
        ThemeVariant::Dark
    }
}

impl ThemeVariant {
    /// Every compiled-in theme, in the order the settings panel lists them.
    pub const ALL: [ThemeVariant; 5] = [
        ThemeVariant::Dark,
        ThemeVariant::Light,
        ThemeVariant::OneDarkPro,
        ThemeVariant::GitHubDark,
        ThemeVariant::GitHubLight,
    ];

    /// The colours of this theme.
    pub open spec fn theme(self) -> Theme {
        match self {
            ThemeVariant::Dark => dark_theme(),
            ThemeVariant::Light => light_theme(),
            ThemeVariant::OneDarkPro => one_dark_pro_theme(),
            ThemeVariant::GitHubDark => github_dark_theme(),
            ThemeVariant::GitHubLight => github_light_theme(),
        }
    }

    /// The theme that a toggle goes on to.
    pub open spec fn following(self) -> ThemeVariant {
        match self {
            ThemeVariant::Dark => ThemeVariant::OneDarkPro,
            ThemeVariant::OneDarkPro => ThemeVariant::GitHubDark,
            ThemeVariant::GitHubDark => ThemeVariant::Light,
            ThemeVariant::Light => ThemeVariant::GitHubLight,
            ThemeVariant::GitHubLight => ThemeVariant::Dark,
        }
    }

    /// What the user reads.
    pub open spec fn shown(self) -> Seq<char> {
        match self {
            ThemeVariant::Dark => "Dark"@,
            ThemeVariant::Light => "Light"@,
            ThemeVariant::OneDarkPro => "One Dark Pro"@,
            ThemeVariant::GitHubDark => "GitHub Dark"@,
            ThemeVariant::GitHubLight => "GitHub Light"@,
        }
    }

    /// What the settings file holds.
    pub open spec fn saved(self) -> Seq<char> {
        match self {
            ThemeVariant::Dark => "dark"@,
            ThemeVariant::Light => "light"@,
            ThemeVariant::OneDarkPro => "one-dark-pro"@,
            ThemeVariant::GitHubDark => "github-dark"@,
            ThemeVariant::GitHubLight => "github-light"@,
        }
    }

    /// The colours of this theme.
    pub fn build(self) -> (theme: Theme)
        ensures
            theme == self.theme(),
    {
        match self {
            ThemeVariant::Dark => Theme::dark(),
            ThemeVariant::Light => Theme::light(),
            ThemeVariant::OneDarkPro => Theme::one_dark_pro(),
            ThemeVariant::GitHubDark => Theme::github_dark(),
            ThemeVariant::GitHubLight => Theme::github_light(),
        }
    }

    /// Four swatches for the theme picker: background, accent, string and
    /// keyword.
    pub fn preview(self) -> (swatches: [u32; 4])
        ensures
            swatches@ == seq![
                self.theme().background,
                self.theme().accent,
                self.theme().string,
                self.theme().keyword,
            ],
    {
        let theme = self.build();
        [theme.background, theme.accent, theme.string, theme.keyword]
    }

    /// The next theme in the cycle: the dark ones first, so that a toggle does
    /// not swing between a black and a white window twice on the way round.
    pub fn next(self) -> (variant: Self)
        ensures
            variant == self.following(),
    {
        match self {
            ThemeVariant::Dark => ThemeVariant::OneDarkPro,
            ThemeVariant::OneDarkPro => ThemeVariant::GitHubDark,
            ThemeVariant::GitHubDark => ThemeVariant::Light,
            ThemeVariant::Light => ThemeVariant::GitHubLight,
            ThemeVariant::GitHubLight => ThemeVariant::Dark,
        }
    }

    /// What the user reads.
    pub fn label(self) -> (label: &'static str)
        ensures
            label@ == self.shown(),
    {
        match self {
            ThemeVariant::Dark => "Dark",
            ThemeVariant::Light => "Light",
            ThemeVariant::OneDarkPro => "One Dark Pro",
            ThemeVariant::GitHubDark => "GitHub Dark",
            ThemeVariant::GitHubLight => "GitHub Light",
        }
    }

    /// The name this theme has in the settings file. It is not derived from
    /// the label, which may be reworded freely.
    pub fn name(self) -> (name: &'static str)
        ensures
            name@ == self.saved(),
    {
        match self {
            ThemeVariant::Dark => "dark",
            ThemeVariant::Light => "light",
            ThemeVariant::OneDarkPro => "one-dark-pro",
            ThemeVariant::GitHubDark => "github-dark",
            ThemeVariant::GitHubLight => "github-light",
        }
    }

    /// The theme of that name in the settings file, or `None` where no
    /// compiled-in theme has it.
    pub fn from_name(name: &str) -> (variant: Option<Self>)
        ensures
            variant == variant_named(name@),
    {
        if same(name, "dark") {
            Some(ThemeVariant::Dark)
        } else if same(name, "light") {
            Some(ThemeVariant::Light)
        } else if same(name, "one-dark-pro") {
            Some(ThemeVariant::OneDarkPro)
        } else if same(name, "github-dark") {
            Some(ThemeVariant::GitHubDark)
        } else if same(name, "github-light") {
            Some(ThemeVariant::GitHubLight)
        } else {
            None
        }
    }
}

/// The compiled-in theme of that name.
pub open spec fn variant_named(name: Seq<char>) -> Option<ThemeVariant> {
    if name == ThemeVariant::Dark.saved() {
        Some(ThemeVariant::Dark)
    } else if name == ThemeVariant::Light.saved() {
        Some(ThemeVariant::Light)
    } else if name == ThemeVariant::OneDarkPro.saved() {
        Some(ThemeVariant::OneDarkPro)
    } else if name == ThemeVariant::GitHubDark.saved() {
        Some(ThemeVariant::GitHubDark)
    } else if name == ThemeVariant::GitHubLight.saved() {
        Some(ThemeVariant::GitHubLight)
    } else {
        None
    }
}

/// Which theme is active: a compiled-in one, or one read from a file. A file
/// may be gone by the next launch; a compiled-in theme cannot be.
#[derive(PartialEq, Eq, Debug)]
pub enum ThemeChoice {
    BuiltIn(ThemeVariant),
    /// A theme read from a file, by the name it was selected under.
    Disk(String),
}

/// A choice as contracts see it.
pub enum ChoiceView {
    BuiltIn(ThemeVariant),
    Disk(Seq<char>),
}

impl ChoiceView {
    /// The name of the choice in the settings file.
    pub open spec fn name(self) -> Seq<char> {
        match self {
            ChoiceView::BuiltIn(variant) => variant.saved(),
            ChoiceView::Disk(name) => name,
        }
    }
}

/// The choice that a name stands for. A compiled-in theme wins its own name,
/// so that no file can take its place.
pub open spec fn choice_named(name: Seq<char>) -> ChoiceView {
    match variant_named(name) {
        Some(variant) => ChoiceView::BuiltIn(variant),
        None => ChoiceView::Disk(name),
    }
}

impl View for ThemeChoice {
    type V = ChoiceView;

    open spec fn view(&self) -> ChoiceView {
        match self {
            ThemeChoice::BuiltIn(variant) => ChoiceView::BuiltIn(*variant),
            ThemeChoice::Disk(name) => ChoiceView::Disk(name@),
        }
    }
}

impl Default for ThemeChoice {
    fn default() -> (choice: Self)
        ensures
            choice == ThemeChoice::BuiltIn(ThemeVariant::Dark),
    {
        ThemeChoice::BuiltIn(ThemeVariant::default())
    }
}

impl Clone for ThemeChoice {
    fn clone(&self) -> (copy: Self)
        ensures
            copy == *self,
    {
        match self {
            ThemeChoice::BuiltIn(variant) => ThemeChoice::BuiltIn(*variant),
            ThemeChoice::Disk(name) => ThemeChoice::Disk(name.clone()),
        }
    }
}

impl ThemeChoice {
    /// The name this choice has in the settings file.
    pub fn name(&self) -> (name: &str)
        ensures
            name@ == self@.name(),
    {
        match self {
            ThemeChoice::BuiltIn(variant) => variant.name(),
            ThemeChoice::Disk(name) => name.as_str(),
        }
    }

    /// The compiled-in theme of that name, otherwise a theme on disk.
    pub fn from_name(name: &str) -> (choice: Self)
        ensures
            choice@ == choice_named(name@),
    {
        match ThemeVariant::from_name(name) {
            Some(variant) => ThemeChoice::BuiltIn(variant),
            None => ThemeChoice::Disk(owned(name)),
        }
    }
}

/// A theme read from a file.
pub struct ThemeFile {
    pub name: String,
    /// Its colours by key.
    pub colors: Vec<(String, u32)>,
    /// The terminal's slots, where the file has all of them.
    pub ansi: Option<[u32; 16]>,
}

/// A theme file as contracts see it.
pub struct FileView {
    pub name: Seq<char>,
    pub colors: Seq<(Seq<char>, u32)>,
    pub ansi: Option<[u32; 16]>,
}

/// The first colour listed under a key.
pub open spec fn listed(colors: Seq<(Seq<char>, u32)>, key: Seq<char>) -> Option<u32>
    decreases colors.len(),
{
    if colors.len() == 0 {
        None
    } else if colors[0].0 == key {
        Some(colors[0].1)
    } else {
        listed(colors.skip(1), key)
    }
}

impl FileView {
    /// The colour under a key, or another one.
    pub open spec fn color_or(self, key: Seq<char>, other: u32) -> u32 {
        match listed(self.colors, key) {
            Some(color) => color,
            None => other,
        }
    }

    /// The theme that the file describes. A colour it lacks is taken from one
    /// that it stands near: surfaces from the background, writing from the
    /// text.
    pub open spec fn theme(self) -> Theme {
        let background = self.color_or("background"@, 0x000000);
        let text = self.color_or("text"@, 0xffffff);
        Theme {
            background,
            panel: self.color_or("panel"@, background),
            border: self.color_or("border"@, background),
            text,
            text_muted: self.color_or("text_muted"@, text),
            accent: self.color_or("accent"@, text),
            modified: self.color_or("modified"@, self.color_or("accent"@, text)),
            hover: self.color_or("hover"@, background),
            selected: self.color_or("selected"@, background),
            pressed: self.color_or("pressed"@, background),
            cursor: self.color_or("cursor"@, text),
            selection: self.color_or("selection"@, background),
            status_bar: self.color_or("status_bar"@, background),
            keyword: self.color_or("keyword"@, text),
            types: self.color_or("type"@, text),
            function: self.color_or("function"@, text),
            variable: self.color_or("variable"@, text),
            property: self.color_or("property"@, text),
            string: self.color_or("string"@, text),
            number: self.color_or("number"@, text),
            operator: self.color_or("operator"@, text),
            attribute: self.color_or("attribute"@, text),
            comment: self.color_or("comment"@, text),
            tag: self.color_or("tag"@, text),
            blade: self.color_or("blade"@, text),
            error: self.color_or("error"@, text),
            warning: self.color_or("warning"@, text),
            information: self.color_or("information"@, text),
            hint: self.color_or("hint"@, text),
            indent_guide: self.color_or("indent_guide"@, self.color_or("border"@, background)),
            trailing_whitespace: self.color_or(
                "trailing_whitespace"@,
                self.color_or("selection"@, background),
            ),
            ansi: match self.ansi {
                Some(slots) => slots,
                None => one_colour(text),
            },
        }
    }
}

/// Sixteen slots of one colour.
pub open spec fn one_colour(color: u32) -> [u32; 16] {
    [
        color, color, color, color, color, color, color, color,
        color, color, color, color, color, color, color, color,
    ]
}

impl View for ThemeFile {
    type V = FileView;

    open spec fn view(&self) -> FileView {
        FileView { name: self.name@, colors: self.colors.deep_view(), ansi: self.ansi }
    }
}

impl vstd::view::DeepView for ThemeFile {
    type V = FileView;

    open spec fn deep_view(&self) -> FileView {
        self@
    }
}

impl ThemeFile {
    /// The colour under a key.
    pub fn color(&self, key: &str) -> (color: Option<u32>)
        ensures
            color == listed(self@.colors, key@),
    {
        let ghost colors = self@.colors;
        let mut i: usize = 0;
        assert(colors.skip(0) == colors);
        while i < self.colors.len()
            invariant
                i <= self.colors.len(),
                colors == self.colors.deep_view(),
                listed(colors.skip(i as int), key@) == listed(colors, key@),
            decreases self.colors.len() - i,
        {
            let ghost rest = colors.skip(i as int);
            assert(rest[0] == (self.colors[i as int].0@, self.colors[i as int].1));
            assert(rest.skip(1) == colors.skip(i + 1));
            if same(self.colors[i].0.as_str(), key) {
                return Some(self.colors[i].1);
            }
            i += 1;
        }
        None
    }

    /// The colour under a key, or another one.
    fn color_or(&self, key: &str, other: u32) -> (color: u32)
        ensures
            color == self@.color_or(key@, other),
    {
        match self.color(key) {
            Some(color) => color,
            None => other,
        }
    }
}

/// A colour of a terminal cell.
#[derive(Clone, Copy, PartialEq, Eq, Structural, Debug)]
pub enum CellColor {
    Foreground,
    Background,
    /// A slot by its number, straight off the wire.
    Ansi(u8),
    Rgb(u8, u8, u8),
}

/// What a stretch of source is, for its colour.
#[derive(Clone, Copy, PartialEq, Eq, Structural, Debug)]
pub enum HighlightStyle {
    Keyword,
    Type,
    Function,
    Variable,
    Property,
    String,
    Number,
    Operator,
    Attribute,
    Comment,
    Tag,
    BladeDirective,
}

/// How bad a diagnostic is.
#[derive(Clone, Copy, PartialEq, Eq, Structural, Debug)]
pub enum Severity {
    Error,
    Warning,
    Information,
    Hint,
}

/// A colour laid thinly over what is behind it.
#[derive(Clone, Copy, PartialEq, Eq, Structural, Debug)]
pub struct Wash {
    pub color: u32,
    pub percent: u8,
}

/// How strongly a diff tints its lines.
pub const DIFF_WASH_PERCENT: u8 = 15;

/// `0xRRGGBB` from its three parts.
pub open spec fn rgb(r: u8, g: u8, b: u8) -> u32 {
    (r * 0x10000 + g * 0x100 + b) as u32
}

impl Theme {
    /// The colour of a kind of source.
    pub open spec fn style(self, style: HighlightStyle) -> u32 {
        match style {
            HighlightStyle::Keyword => self.keyword,
            HighlightStyle::Type => self.types,
            HighlightStyle::Function => self.function,
            HighlightStyle::Variable => self.variable,
            HighlightStyle::Property => self.property,
            HighlightStyle::String => self.string,
            HighlightStyle::Number => self.number,
            HighlightStyle::Operator => self.operator,
            HighlightStyle::Attribute => self.attribute,
            HighlightStyle::Comment => self.comment,
            HighlightStyle::Tag => self.tag,
            HighlightStyle::BladeDirective => self.blade,
        }
    }

    /// The colour of a terminal cell. A slot that does not exist, which a
    /// malformed sequence can name, falls back to the text.
    pub open spec fn cell(self, color: CellColor) -> u32 {
        match color {
            CellColor::Foreground => self.text,
            CellColor::Background => self.background,
            CellColor::Ansi(slot) => if slot < 16 {
                self.ansi[slot as int]
            } else {
                self.text
            },
            CellColor::Rgb(r, g, b) => rgb(r, g, b),
        }
    }

    /// The default dark theme.
    pub fn dark() -> (theme: Self)
        ensures
            theme == dark_theme(),
    {
        Theme {
            background: 0x16171d,
            panel: 0x1b1d24,
            border: 0x2a2d36,
            text: 0xd7dae0,
            text_muted: 0x767c8a,
            accent: 0xff5c8a,
            modified: 0xd8a657,
            hover: 0x24272f,
            selected: 0x2d313c,
            pressed: 0x383d4a,
            cursor: 0xff5c8a,
            selection: 0x33405c,
            status_bar: 0x1b1d24,
            keyword: 0xc77dff,
            types: 0x7dd3fc,
            function: 0x82aaff,
            variable: 0xf0a6c8,
            property: 0xe8c7dd,
            string: 0xa3d977,
            number: 0xffb86c,
            operator: 0x9aa2b1,
            attribute: 0xf7c873,
            comment: 0x5c6370,
            tag: 0x8b93a5,
            blade: 0xff9e64,
            error: 0xf7768e,
            warning: 0xe0af68,
            information: 0x7dd3fc,
            hint: 0x6b7280,
            indent_guide: 0x363a45,
            trailing_whitespace: 0x4a2b35,
            ansi: [
                0x3b4048, 0xff5c8a, 0xa3d977, 0xffb86c, 0x82aaff, 0xc77dff, 0x7dd3fc, 0xd7dae0,
                0x5c6370, 0xff8fab, 0xbdea9a, 0xffd29b, 0xa8c4ff, 0xdcaaff, 0xa9e4fd, 0xffffff,
            ],
        }
    }

    /// The light counterpart: not the dark one inverted, every colour is its own.
    pub fn light() -> (theme: Self)
        ensures
            theme == light_theme(),
    {
        Theme {
            background: 0xfbfbfd,
            panel: 0xf1f2f6,
            border: 0xd8dae2,
            text: 0x24262e,
            text_muted: 0x6b7180,
            accent: 0xd6336c,
            modified: 0xb58900,
            hover: 0xe6e8ef,
            selected: 0xdcdfe9,
            pressed: 0xccd0dd,
            cursor: 0xd6336c,
            selection: 0xc7d7f5,
            status_bar: 0xf1f2f6,
            keyword: 0x8125c9,
            types: 0x0b6e8f,
            function: 0x2b52c4,
            variable: 0xa33566,
            property: 0x8a3f6b,
            string: 0x3f7d20,
            number: 0xa2591a,
            operator: 0x6b7180,
            attribute: 0x9a4b12,
            comment: 0x8a8f9c,
            tag: 0x5c6270,
            blade: 0xb54708,
            error: 0xc4314b,
            warning: 0x9a6700,
            information: 0x0b6e8f,
            hint: 0x8a8f9c,
            indent_guide: 0xe2e4ec,
            trailing_whitespace: 0xf7dfe4,
            ansi: [
                0x2b2d34, 0xc02a3f, 0x3f7d20, 0x9a6400, 0x2b52c4, 0x8125c9, 0x0b6e8f, 0x6b7180,
                0x585d6a, 0xd6336c, 0x4f9a2a, 0xb5811a, 0x3a6ae0, 0x9a3ade, 0x1188ad, 0x24262e,
            ],
        }
    }

    /// One Dark Pro, with its published colours.
    pub fn one_dark_pro() -> (theme: Self)
        ensures
            theme == one_dark_pro_theme(),
    {
        Theme {
            background: 0x282c34,
            panel: 0x21252b,
            border: 0x181a1f,
            text: 0xabb2bf,
            text_muted: 0x7f848e,
            accent: 0x61afef,
            modified: 0xe5c07b,
            hover: 0x2c313a,
            selected: 0x2c313a,
            pressed: 0x3a4150,
            cursor: 0x528bff,
            selection: 0x3e4451,
            status_bar: 0x21252b,
            keyword: 0xc678dd,
            types: 0xe5c07b,
            function: 0x61afef,
            variable: 0xe06c75,
            property: 0xe06c75,
            string: 0x98c379,
            number: 0xd19a66,
            operator: 0xabb2bf,
            attribute: 0xd19a66,
            comment: 0x7f848e,
            tag: 0xe06c75,
            blade: 0x56b6c2,
            error: 0xe06c75,
            warning: 0xe5c07b,
            information: 0x61afef,
            hint: 0x7f848e,
            indent_guide: 0x3b4048,
            trailing_whitespace: 0x4b3238,
            ansi: [
                0x3f4451, 0xe05561, 0x8cc265, 0xd18f52, 0x4aa5f0, 0xc162de, 0x42b3c2, 0xd7dae0,
                0x4f5666, 0xff616e, 0xa5e075, 0xf0a45d, 0x4dc4ff, 0xde73ff, 0x4cd1e0, 0xe6e6e6,
            ],
        }
    }

    /// GitHub's dark theme, with its published colours.
    pub fn github_dark() -> (theme: Self)
        ensures
            theme == github_dark_theme(),
    {
        Theme {
            background: 0x0d1117,
            panel: 0x010409,
            border: 0x30363d,
            text: 0xe6edf3,
            text_muted: 0x8b949e,
            accent: 0x2f81f7,
            modified: 0xd29922,
            hover: 0x161b22,
            selected: 0x21262d,
            pressed: 0x30363d,
            cursor: 0x2f81f7,
            selection: 0x264f78,
            status_bar: 0x010409,
            keyword: 0xff7b72,
            types: 0x79c0ff,
            function: 0xd2a8ff,
            variable: 0xffa657,
            property: 0x79c0ff,
            string: 0xa5d6ff,
            number: 0x56d364,
            operator: 0xff7b72,
            attribute: 0x79c0ff,
            comment: 0x8b949e,
            tag: 0x7ee787,
            blade: 0xffa198,
            error: 0xff7b72,
            warning: 0xd29922,
            information: 0x2f81f7,
            hint: 0x8b949e,
            indent_guide: 0x2d333b,
            trailing_whitespace: 0x4a2529,
            ansi: [
                0x484f58, 0xff7b72, 0x3fb950, 0xd29922, 0x58a6ff, 0xbc8cff, 0x39c5cf, 0xb1bac4,
                0x6e7681, 0xffa198, 0x56d364, 0xe3b341, 0x79c0ff, 0xd2a8ff, 0x56d4dd, 0xffffff,
            ],
        }
    }

    /// GitHub's light theme, with its published colours.
    pub fn github_light() -> (theme: Self)
        ensures
            theme == github_light_theme(),
    {
        Theme {
            background: 0xffffff,
            panel: 0xf6f8fa,
            border: 0xd1d9e0,
            text: 0x1f2328,
            text_muted: 0x6e7781,
            accent: 0x0969da,
            modified: 0x9a6700,
            hover: 0xeaeef2,
            selected: 0xd0d7de,
            pressed: 0xafb8c1,
            cursor: 0x0969da,
            selection: 0xb6dcff,
            status_bar: 0xf6f8fa,
            keyword: 0xcf222e,
            types: 0x0550ae,
            function: 0x8250df,
            variable: 0x953800,
            property: 0x0550ae,
            string: 0x0a3069,
            number: 0x0550ae,
            operator: 0xcf222e,
            attribute: 0x0550ae,
            comment: 0x6e7781,
            tag: 0x116329,
            blade: 0xa40e26,
            error: 0xcf222e,
            warning: 0x9a6700,
            information: 0x0969da,
            hint: 0x6e7781,
            indent_guide: 0xd8dee4,
            trailing_whitespace: 0xffebe9,
            ansi: [
                0x24292f, 0xcf222e, 0x116329, 0x4d2d00, 0x0969da, 0x8250df, 0x1b7c83, 0x6e7781,
                0x57606a, 0xa40e26, 0x1a7f37, 0x633c01, 0x218bff, 0xa475f9, 0x3192aa, 0x8c959f,
            ],
        }
    }

    /// The theme that a file describes.
    pub fn from_file(file: &ThemeFile) -> (theme: Self)
        ensures
            theme == file@.theme(),
    {
        let background = file.color_or("background", 0x000000);
        let text = file.color_or("text", 0xffffff);
        let ansi: [u32; 16] = match file.ansi {
            Some(slots) => slots,
            None => [
                text, text, text, text, text, text, text, text, text, text, text, text, text, text,
                text, text,
            ],
        };
        Theme {
            background,
            panel: file.color_or("panel", background),
            border: file.color_or("border", background),
            text,
            text_muted: file.color_or("text_muted", text),
            accent: file.color_or("accent", text),
            modified: file.color_or("modified", file.color_or("accent", text)),
            hover: file.color_or("hover", background),
            selected: file.color_or("selected", background),
            pressed: file.color_or("pressed", background),
            cursor: file.color_or("cursor", text),
            selection: file.color_or("selection", background),
            status_bar: file.color_or("status_bar", background),
            keyword: file.color_or("keyword", text),
            types: file.color_or("type", text),
            function: file.color_or("function", text),
            variable: file.color_or("variable", text),
            property: file.color_or("property", text),
            string: file.color_or("string", text),
            number: file.color_or("number", text),
            operator: file.color_or("operator", text),
            attribute: file.color_or("attribute", text),
            comment: file.color_or("comment", text),
            tag: file.color_or("tag", text),
            blade: file.color_or("blade", text),
            error: file.color_or("error", text),
            warning: file.color_or("warning", text),
            information: file.color_or("information", text),
            hint: file.color_or("hint", text),
            indent_guide: file.color_or("indent_guide", file.color_or("border", background)),
            trailing_whitespace: file.color_or(
                "trailing_whitespace",
                file.color_or("selection", background),
            ),
            ansi,
        }
    }

    /// The colour of a terminal cell.
    pub fn terminal(&self, color: CellColor) -> (cell: u32)
        ensures
            cell == self.cell(color),
    {
        match color {
            CellColor::Foreground => self.text,
            CellColor::Background => self.background,
            CellColor::Ansi(slot) => if slot < 16 {
                self.ansi[slot as usize]
            } else {
                self.text
            },
            CellColor::Rgb(r, g, b) => r as u32 * 0x10000 + g as u32 * 0x100 + b as u32,
        }
    }

    /// The colour of a kind of source.
    pub fn syntax(&self, style: HighlightStyle) -> (color: u32)
        ensures
            color == self.style(style),
    {
        match style {
            HighlightStyle::Keyword => self.keyword,
            HighlightStyle::Type => self.types,
            HighlightStyle::Function => self.function,
            HighlightStyle::Variable => self.variable,
            HighlightStyle::Property => self.property,
            HighlightStyle::String => self.string,
            HighlightStyle::Number => self.number,
            HighlightStyle::Operator => self.operator,
            HighlightStyle::Attribute => self.attribute,
            HighlightStyle::Comment => self.comment,
            HighlightStyle::Tag => self.tag,
            HighlightStyle::BladeDirective => self.blade,
        }
    }

    /// The underline of a diagnostic.
    pub fn diagnostic(&self, severity: Severity) -> (color: u32)
        ensures
            color == (match severity {
                Severity::Error => self.error,
                Severity::Warning => self.warning,
                Severity::Information => self.information,
                Severity::Hint => self.hint,
            }),
    {
        match severity {
            Severity::Error => self.error,
            Severity::Warning => self.warning,
            Severity::Information => self.information,
            Severity::Hint => self.hint,
        }
    }

    /// Behind every search match.
    pub fn search_match(&self) -> (color: u32)
        ensures
            color == self.selected,
    {
        self.selected
    }

    /// Behind the search match that the cursor is on.
    pub fn current_search_match(&self) -> (color: u32)
        ensures
            color == self.selection,
    {
        self.selection
    }

    /// Behind a bracket and its partner.
    pub fn bracket_match(&self) -> (color: u32)
        ensures
            color == self.pressed,
    {
        self.pressed
    }

    /// The text of an added line.
    pub fn diff_added(&self) -> (color: u32)
        ensures
            color == self.string,
    {
        self.string
    }

    /// The text of a removed line.
    pub fn diff_removed(&self) -> (color: u32)
        ensures
            color == self.error,
    {
        self.error
    }

    /// Behind an added line.
    pub fn diff_added_background(&self) -> (wash: Wash)
        ensures
            wash == (Wash { color: self.string, percent: DIFF_WASH_PERCENT }),
    {
        Wash { color: self.diff_added(), percent: DIFF_WASH_PERCENT }
    }

    /// Behind a removed line.
    pub fn diff_removed_background(&self) -> (wash: Wash)
        ensures
            wash == (Wash { color: self.error, percent: DIFF_WASH_PERCENT }),
    {
        Wash { color: self.diff_removed(), percent: DIFF_WASH_PERCENT }
    }
}

/// The default dark theme.
pub open spec fn dark_theme() -> Theme {
    Theme {
        background: 0x16171d,
        panel: 0x1b1d24,
        border: 0x2a2d36,
        text: 0xd7dae0,
        text_muted: 0x767c8a,
        accent: 0xff5c8a,
        modified: 0xd8a657,
        hover: 0x24272f,
        selected: 0x2d313c,
        pressed: 0x383d4a,
        cursor: 0xff5c8a,
        selection: 0x33405c,
        status_bar: 0x1b1d24,
        keyword: 0xc77dff,
        types: 0x7dd3fc,
        function: 0x82aaff,
        variable: 0xf0a6c8,
        property: 0xe8c7dd,
        string: 0xa3d977,
        number: 0xffb86c,
        operator: 0x9aa2b1,
        attribute: 0xf7c873,
        comment: 0x5c6370,
        tag: 0x8b93a5,
        blade: 0xff9e64,
        error: 0xf7768e,
        warning: 0xe0af68,
        information: 0x7dd3fc,
        hint: 0x6b7280,
        indent_guide: 0x363a45,
        trailing_whitespace: 0x4a2b35,
        ansi: [
            0x3b4048, 0xff5c8a, 0xa3d977, 0xffb86c, 0x82aaff, 0xc77dff, 0x7dd3fc, 0xd7dae0,
            0x5c6370, 0xff8fab, 0xbdea9a, 0xffd29b, 0xa8c4ff, 0xdcaaff, 0xa9e4fd, 0xffffff,
        ],
    }
}

/// The light counterpart: not the dark one inverted, every colour is its own.
pub open spec fn light_theme() -> Theme {
    Theme {
        background: 0xfbfbfd,
        panel: 0xf1f2f6,
        border: 0xd8dae2,
        text: 0x24262e,
        text_muted: 0x6b7180,
        accent: 0xd6336c,
        modified: 0xb58900,
        hover: 0xe6e8ef,
        selected: 0xdcdfe9,
        pressed: 0xccd0dd,
        cursor: 0xd6336c,
        selection: 0xc7d7f5,
        status_bar: 0xf1f2f6,
        keyword: 0x8125c9,
        types: 0x0b6e8f,
        function: 0x2b52c4,
        variable: 0xa33566,
        property: 0x8a3f6b,
        string: 0x3f7d20,
        number: 0xa2591a,
        operator: 0x6b7180,
        attribute: 0x9a4b12,
        comment: 0x8a8f9c,
        tag: 0x5c6270,
        blade: 0xb54708,
        error: 0xc4314b,
        warning: 0x9a6700,
        information: 0x0b6e8f,
        hint: 0x8a8f9c,
        indent_guide: 0xe2e4ec,
        trailing_whitespace: 0xf7dfe4,
        ansi: [
            0x2b2d34, 0xc02a3f, 0x3f7d20, 0x9a6400, 0x2b52c4, 0x8125c9, 0x0b6e8f, 0x6b7180,
            0x585d6a, 0xd6336c, 0x4f9a2a, 0xb5811a, 0x3a6ae0, 0x9a3ade, 0x1188ad, 0x24262e,
        ],
    }
}

/// One Dark Pro, with its published colours.
pub open spec fn one_dark_pro_theme() -> Theme {
    Theme {
        background: 0x282c34,
        panel: 0x21252b,
        border: 0x181a1f,
        text: 0xabb2bf,
        text_muted: 0x7f848e,
        accent: 0x61afef,
        modified: 0xe5c07b,
        hover: 0x2c313a,
        selected: 0x2c313a,
        pressed: 0x3a4150,
        cursor: 0x528bff,
        selection: 0x3e4451,
        status_bar: 0x21252b,
        keyword: 0xc678dd,
        types: 0xe5c07b,
        function: 0x61afef,
        variable: 0xe06c75,
        property: 0xe06c75,
        string: 0x98c379,
        number: 0xd19a66,
        operator: 0xabb2bf,
        attribute: 0xd19a66,
        comment: 0x7f848e,
        tag: 0xe06c75,
        blade: 0x56b6c2,
        error: 0xe06c75,
        warning: 0xe5c07b,
        information: 0x61afef,
        hint: 0x7f848e,
        indent_guide: 0x3b4048,
        trailing_whitespace: 0x4b3238,
        ansi: [
            0x3f4451, 0xe05561, 0x8cc265, 0xd18f52, 0x4aa5f0, 0xc162de, 0x42b3c2, 0xd7dae0,
            0x4f5666, 0xff616e, 0xa5e075, 0xf0a45d, 0x4dc4ff, 0xde73ff, 0x4cd1e0, 0xe6e6e6,
        ],
    }
}

/// GitHub's dark theme, with its published colours.
pub open spec fn github_dark_theme() -> Theme {
    Theme {
        background: 0x0d1117,
        panel: 0x010409,
        border: 0x30363d,
        text: 0xe6edf3,
        text_muted: 0x8b949e,
        accent: 0x2f81f7,
        modified: 0xd29922,
        hover: 0x161b22,
        selected: 0x21262d,
        pressed: 0x30363d,
        cursor: 0x2f81f7,
        selection: 0x264f78,
        status_bar: 0x010409,
        keyword: 0xff7b72,
        types: 0x79c0ff,
        function: 0xd2a8ff,
        variable: 0xffa657,
        property: 0x79c0ff,
        string: 0xa5d6ff,
        number: 0x56d364,
        operator: 0xff7b72,
        attribute: 0x79c0ff,
        comment: 0x8b949e,
        tag: 0x7ee787,
        blade: 0xffa198,
        error: 0xff7b72,
        warning: 0xd29922,
        information: 0x2f81f7,
        hint: 0x8b949e,
        indent_guide: 0x2d333b,
        trailing_whitespace: 0x4a2529,
        ansi: [
            0x484f58, 0xff7b72, 0x3fb950, 0xd29922, 0x58a6ff, 0xbc8cff, 0x39c5cf, 0xb1bac4,
            0x6e7681, 0xffa198, 0x56d364, 0xe3b341, 0x79c0ff, 0xd2a8ff, 0x56d4dd, 0xffffff,
        ],
    }
}

/// GitHub's light theme, with its published colours.
pub open spec fn github_light_theme() -> Theme {
    Theme {
        background: 0xffffff,
        panel: 0xf6f8fa,
        border: 0xd1d9e0,
        text: 0x1f2328,
        text_muted: 0x6e7781,
        accent: 0x0969da,
        modified: 0x9a6700,
        hover: 0xeaeef2,
        selected: 0xd0d7de,
        pressed: 0xafb8c1,
        cursor: 0x0969da,
        selection: 0xb6dcff,
        status_bar: 0xf6f8fa,
        keyword: 0xcf222e,
        types: 0x0550ae,
        function: 0x8250df,
        variable: 0x953800,
        property: 0x0550ae,
        string: 0x0a3069,
        number: 0x0550ae,
        operator: 0xcf222e,
        attribute: 0x0550ae,
        comment: 0x6e7781,
        tag: 0x116329,
        blade: 0xa40e26,
        error: 0xcf222e,
        warning: 0x9a6700,
        information: 0x0969da,
        hint: 0x6e7781,
        indent_guide: 0xd8dee4,
        trailing_whitespace: 0xffebe9,
        ansi: [
            0x24292f, 0xcf222e, 0x116329, 0x4d2d00, 0x0969da, 0x8250df, 0x1b7c83, 0x6e7781,
            0x57606a, 0xa40e26, 0x1a7f37, 0x633c01, 0x218bff, 0xa475f9, 0x3192aa, 0x8c959f,
        ],
    }
}

// ---------------------------------------------------------------------------
// The active theme
// ---------------------------------------------------------------------------

/// The active theme.
pub struct ActiveTheme {
    pub choice: ThemeChoice,
    /// The compiled-in theme that a toggle goes on from: the last one that was
    /// active, or the default.
    pub variant: ThemeVariant,
    pub theme: Theme,
}

/// What every view shares: the active theme and the themes found on disk.
pub struct App {
    /// `None` until a theme is set, which happens before a window opens.
    pub active: Option<ActiveTheme>,
    /// `None` until the directories were read.
    pub disk_themes: Option<DiskThemes>,
    /// The names to write to the settings file, oldest first.
    pub to_save: Vec<String>,
}

/// The active theme as contracts see it.
pub struct ActiveView {
    pub choice: ChoiceView,
    pub variant: ThemeVariant,
    pub theme: Theme,
}

/// The shared state as contracts see it.
#[verifier::ext_equal]
pub struct AppView {
    pub active: Option<ActiveView>,
    pub disk_themes: Option<Seq<FileView>>,
    pub to_save: Seq<Seq<char>>,
}

impl AppView {
    /// With a theme set. Its name is saved unless it is the one already
    /// active.
    pub open spec fn with_theme(
        self,
        choice: ChoiceView,
        variant: ThemeVariant,
        theme: Theme,
    ) -> AppView {
        let unchanged = self.active matches Some(active) && active.choice.name() == choice.name();
        AppView {
            active: Some(ActiveView { choice, variant, theme }),
            to_save: if unchanged {
                self.to_save
            } else {
                self.to_save.push(choice.name())
            },
            ..self
        }
    }

    /// With a compiled-in theme set.
    pub open spec fn with_variant(self, variant: ThemeVariant) -> AppView {
        self.with_theme(ChoiceView::BuiltIn(variant), variant, variant.theme())
    }

    /// With the default theme set for want of another. Nothing is put down to
    /// be saved, so that the settings file keeps the name that it has.
    pub open spec fn with_fallback(self) -> AppView {
        AppView { to_save: self.to_save, ..self.with_variant(ThemeVariant::Dark) }
    }

    /// With a theme from a file set.
    pub open spec fn with_file(self, file: FileView, resume: ThemeVariant) -> AppView {
        self.with_theme(ChoiceView::Disk(file.name), resume, file.theme())
    }
}

impl View for ActiveTheme {
    type V = ActiveView;

    open spec fn view(&self) -> ActiveView {
        ActiveView { choice: self.choice@, variant: self.variant, theme: self.theme }
    }
}

impl View for App {
    type V = AppView;

    open spec fn view(&self) -> AppView {
        AppView {
            active: match self.active {
                Some(active) => Some(active@),
                None => None,
            },
            disk_themes: match self.disk_themes {
                Some(disk) => Some(disk.themes.deep_view()),
                None => None,
            },
            to_save: self.to_save.deep_view(),
        }
    }
}

/// Reads the active theme.
pub trait Themed {
    /// The active theme, once one is set.
    spec fn active_theme(&self) -> Option<ActiveView>;

    /// The active colours. A window opened without a theme has none, so one
    /// has to be set first.
    fn theme(&self) -> (theme: &Theme)
        requires
            self.active_theme() is Some,
        ensures
            *theme == self.active_theme()->0.theme,
    ;

    /// The compiled-in theme that a toggle goes on from.
    fn theme_variant(&self) -> (variant: ThemeVariant)
        requires
            self.active_theme() is Some,
        ensures
            variant == self.active_theme()->0.variant,
    ;

    /// What is active.
    fn theme_choice(&self) -> (choice: ThemeChoice)
        requires
            self.active_theme() is Some,
        ensures
            choice@ == self.active_theme()->0.choice,
    ;
}

impl Themed for App {
    open spec fn active_theme(&self) -> Option<ActiveView> {
        self@.active
    }

    fn theme(&self) -> &Theme {
        match &self.active {
            Some(active) => &active.theme,
            None => vstd::pervasive::unreached(),
        }
    }

    fn theme_variant(&self) -> ThemeVariant {
        match &self.active {
            Some(active) => active.variant,
            None => vstd::pervasive::unreached(),
        }
    }

    fn theme_choice(&self) -> ThemeChoice {
        match &self.active {
            Some(active) => active.choice.clone(),
            None => vstd::pervasive::unreached(),
        }
    }
}

/// Sets a compiled-in theme.
pub fn set_theme(variant: ThemeVariant, app: &mut App)
    ensures
        final(app)@ == old(app)@.with_variant(variant),
{
    install(ThemeChoice::BuiltIn(variant), variant, variant.build(), app);
}

/// Sets a theme from a file. `resume` is the compiled-in theme that a toggle
/// goes on from, since a file has no place in that cycle.
pub fn set_disk_theme(file: &ThemeFile, resume: ThemeVariant, app: &mut App)
    ensures
        final(app)@ == old(app)@.with_file(file@, resume),
{
    install(ThemeChoice::Disk(file.name.clone()), resume, Theme::from_file(file), app);
}

/// Sets the default theme for want of another, and leaves the settings file
/// alone.
pub(crate) fn fall_back(app: &mut App)
    ensures
        final(app)@ == old(app)@.with_fallback(),
{
    let ghost before = app@;
    let variant = ThemeVariant::default();
    app.active = Some(
        ActiveTheme { choice: ThemeChoice::BuiltIn(variant), variant, theme: variant.build() },
    );
    assert(app@ =~= before.with_fallback());
}

/// Sets a theme that was chosen: the one place where a theme's name is put down
/// to be saved.
pub(crate) fn install(choice: ThemeChoice, variant: ThemeVariant, theme: Theme, app: &mut App)
    ensures
        final(app)@ == old(app)@.with_theme(choice@, variant, theme),
{
    let ghost before = app@;
    let name = owned(choice.name());
    let unchanged = match &app.active {
        Some(active) => same(active.choice.name(), name.as_str()),
        None => false,
    };
    app.active = Some(ActiveTheme { choice, variant, theme });
    if !unchanged {
        let ghost saved = app.to_save.deep_view();
        app.to_save.push(name);
        assert(app.to_save.deep_view() =~= saved.push(name@));
    }
    assert(app@ =~= before.with_theme(choice@, variant, theme));
}

// ---------------------------------------------------------------------------
// What holds of every theme
// ---------------------------------------------------------------------------

/// The names in the settings file are all different.
proof fn lemma_names_differ()
    ensures
        forall|a: ThemeVariant, b: ThemeVariant| a != b ==> a.saved() != b.saved(),
{
    reveal_strlit("dark");
    reveal_strlit("light");
    reveal_strlit("one-dark-pro");
    reveal_strlit("github-dark");
    reveal_strlit("github-light");
    assert forall|a: ThemeVariant, b: ThemeVariant| a != b implies a.saved() != b.saved() by {
        assert("dark"@[0] == 'd');
        assert("light"@[0] == 'l');
        assert("one-dark-pro"@[0] == 'o');
        assert("github-dark"@[0] == 'g');
        assert("github-light"@.len() == 12 && "github-dark"@.len() == 11);
        assert("github-light"@[0] == 'g');
    }
}

/// A compiled-in theme is found again under the name it is saved with.
pub proof fn law_variant_name_round_trip(variant: ThemeVariant)
    ensures
        variant_named(variant.saved()) == Some(variant),
        choice_named(variant.saved()) == ChoiceView::BuiltIn(variant),
{
    lemma_names_differ();
}

/// A choice is found again under the name it is saved with, unless it is a
/// file that took a compiled-in theme's name.
pub proof fn law_choice_name_round_trip(choice: ChoiceView)
    requires
        choice matches ChoiceView::Disk(name) ==> variant_named(name) is None,
    ensures
        choice_named(choice.name()) == choice,
{
    lemma_names_differ();
}

/// Toggling through every compiled-in theme comes back to the start.
pub proof fn law_toggle_comes_round(variant: ThemeVariant)
    ensures
        variant.following().following().following().following().following() == variant,
        variant.following() != variant,
{
}

/// The list of compiled-in themes holds each of them once.
pub proof fn law_all_holds_each_variant(variant: ThemeVariant)
    ensures
        exists|i: int| 0 <= i < 5 && #[trigger] ThemeVariant::ALL[i] == variant,
        forall|i: int, j: int|
            0 <= i < j < 5 ==> #[trigger] ThemeVariant::ALL[i] != #[trigger] ThemeVariant::ALL[j],
{
    assert(ThemeVariant::ALL[0] == ThemeVariant::Dark);
    assert(ThemeVariant::ALL[1] == ThemeVariant::Light);
    assert(ThemeVariant::ALL[2] == ThemeVariant::OneDarkPro);
    assert(ThemeVariant::ALL[3] == ThemeVariant::GitHubDark);
    assert(ThemeVariant::ALL[4] == ThemeVariant::GitHubLight);
}

/// No theme paints text, its cursor or a terminal slot the colour of what is
/// behind it.
pub proof fn law_text_is_visible(variant: ThemeVariant, slot: int)
    requires
        0 <= slot < 16,
    ensures
        variant.theme().text != variant.theme().background,
        variant.theme().text != variant.theme().panel,
        variant.theme().cursor != variant.theme().background,
        variant.theme().ansi[slot] != variant.theme().background,
{
}

/// Every theme makes a press visible: against the hover it happens through,
/// and against the panel behind it.
pub proof fn law_press_is_visible(variant: ThemeVariant)
    ensures
        variant.theme().pressed != variant.theme().hover,
        variant.theme().pressed != variant.theme().panel,
{
}

/// Every theme can show a search match, which match the cursor is on, and a
/// bracket inside that match.
pub proof fn law_search_match_is_visible(variant: ThemeVariant)
    ensures
        variant.theme().selected != variant.theme().background,
        variant.theme().selection != variant.theme().background,
        variant.theme().selected != variant.theme().selection,
        variant.theme().pressed != variant.theme().selection,
{
}

/// The two themes of this project's own tell every kind of source apart.
pub proof fn law_own_themes_tell_styles_apart(
    variant: ThemeVariant,
    a: HighlightStyle,
    b: HighlightStyle,
)
    requires
        variant is Dark || variant is Light,
        a != b,
    ensures
        variant.theme().style(a) != variant.theme().style(b),
{
}

/// Nothing the dark theme paints is the colour that the light one paints it:
/// surfaces, text, every kind of source, every terminal slot.
pub proof fn law_light_is_not_dark(style: HighlightStyle, slot: u8)
    requires
        slot < 16,
    ensures
        dark_theme().background != light_theme().background,
        dark_theme().panel != light_theme().panel,
        dark_theme().border != light_theme().border,
        dark_theme().text != light_theme().text,
        dark_theme().status_bar != light_theme().status_bar,
        dark_theme().style(style) != light_theme().style(style),
        dark_theme().cell(CellColor::Ansi(slot)) != light_theme().cell(CellColor::Ansi(slot)),
{
}

/// Setting the theme that is already active saves nothing.
pub proof fn law_same_theme_is_not_saved_again(app: AppView, variant: ThemeVariant)
    ensures
        app.with_variant(variant).with_variant(variant).to_save == app.with_variant(
            variant,
        ).to_save,
{
}

/// A colour is the one first listed under its key, and there is none exactly
/// where the key is not listed.
pub proof fn law_first_listed_colour_counts(colors: Seq<(Seq<char>, u32)>, key: Seq<char>)
    ensures
        listed(colors, key) matches Some(color) ==> exists|i: int|
            0 <= i < colors.len() && (#[trigger] colors[i]).0 == key && colors[i].1 == color
                && forall|j: int| 0 <= j < i ==> (#[trigger] colors[j]).0 != key,
        listed(colors, key) is None ==> forall|i: int|
            0 <= i < colors.len() ==> (#[trigger] colors[i]).0 != key,
    decreases colors.len(),
{
    if colors.len() > 0 {
        if colors[0].0 == key {
            assert(listed(colors, key) == Some(colors[0].1));
        } else {
            let rest = colors.skip(1);
            law_first_listed_colour_counts(rest, key);
            if let Some(color) = listed(rest, key) {
                let i = choose|i: int|
                    0 <= i < rest.len() && (#[trigger] rest[i]).0 == key && rest[i].1 == color
                        && forall|j: int| 0 <= j < i ==> (#[trigger] rest[j]).0 != key;
                assert(colors[i + 1] == rest[i]);
                assert forall|j: int| 0 <= j < i + 1 implies (#[trigger] colors[j]).0 != key by {
                    if j > 0 {
                        assert(rest[j - 1] == colors[j]);
                    }
                }
            } else {
                assert forall|i: int| 0 <= i < colors.len() implies (
                #[trigger] colors[i]).0 != key by {
                    if i > 0 {
                        assert(rest[i - 1] == colors[i]);
                    }
                }
            }
        }
    }
}

/// Whether a theme has a file's colour of a key, where the file lists one.
pub open spec fn takes(file: FileView, key: Seq<char>, shown: u32) -> bool {
    listed(file.colors, key) matches Some(color) ==> shown == color
}

/// Every colour that a file lists is used for what it is named after.
pub proof fn law_listed_colours_are_used(file: FileView)
    ensures
        takes(file, "background"@, file.theme().background),
        takes(file, "panel"@, file.theme().panel),
        takes(file, "border"@, file.theme().border),
        takes(file, "text"@, file.theme().text),
        takes(file, "text_muted"@, file.theme().text_muted),
        takes(file, "accent"@, file.theme().accent),
        takes(file, "modified"@, file.theme().modified),
        takes(file, "hover"@, file.theme().hover),
        takes(file, "selected"@, file.theme().selected),
        takes(file, "pressed"@, file.theme().pressed),
        takes(file, "cursor"@, file.theme().cursor),
        takes(file, "selection"@, file.theme().selection),
        takes(file, "status_bar"@, file.theme().status_bar),
        takes(file, "error"@, file.theme().error),
        takes(file, "warning"@, file.theme().warning),
        takes(file, "information"@, file.theme().information),
        takes(file, "hint"@, file.theme().hint),
        takes(file, "indent_guide"@, file.theme().indent_guide),
        takes(file, "trailing_whitespace"@, file.theme().trailing_whitespace),
        takes(file, "keyword"@, file.theme().style(HighlightStyle::Keyword)),
        takes(file, "type"@, file.theme().style(HighlightStyle::Type)),
        takes(file, "function"@, file.theme().style(HighlightStyle::Function)),
        takes(file, "variable"@, file.theme().style(HighlightStyle::Variable)),
        takes(file, "property"@, file.theme().style(HighlightStyle::Property)),
        takes(file, "string"@, file.theme().style(HighlightStyle::String)),
        takes(file, "number"@, file.theme().style(HighlightStyle::Number)),
        takes(file, "operator"@, file.theme().style(HighlightStyle::Operator)),
        takes(file, "attribute"@, file.theme().style(HighlightStyle::Attribute)),
        takes(file, "comment"@, file.theme().style(HighlightStyle::Comment)),
        takes(file, "tag"@, file.theme().style(HighlightStyle::Tag)),
        takes(file, "blade"@, file.theme().style(HighlightStyle::BladeDirective)),
        file.ansi matches Some(slots) ==> file.theme().ansi == slots,
{
}

/// A surface that a file does not list has the colour of the background, and a
/// text that it does not list the colour of the text; without those two a theme
/// is white on black.
pub proof fn law_missing_colours_fall_back(file: FileView, slot: int)
    ensures
        listed(file.colors, "background"@) is None ==> file.theme().background == 0x000000,
        listed(file.colors, "text"@) is None ==> file.theme().text == 0xffffff,
        listed(file.colors, "panel"@) is None ==> file.theme().panel == file.theme().background,
        listed(file.colors, "border"@) is None ==> file.theme().border == file.theme().background,
        listed(file.colors, "hover"@) is None ==> file.theme().hover == file.theme().background,
        listed(file.colors, "selected"@) is None ==> file.theme().selected
            == file.theme().background,
        listed(file.colors, "pressed"@) is None ==> file.theme().pressed == file.theme().background,
        listed(file.colors, "selection"@) is None ==> file.theme().selection
            == file.theme().background,
        listed(file.colors, "status_bar"@) is None ==> file.theme().status_bar
            == file.theme().background,
        listed(file.colors, "text_muted"@) is None ==> file.theme().text_muted == file.theme().text,
        listed(file.colors, "accent"@) is None ==> file.theme().accent == file.theme().text,
        listed(file.colors, "cursor"@) is None ==> file.theme().cursor == file.theme().text,
        listed(file.colors, "modified"@) is None ==> file.theme().modified == file.theme().accent,
        listed(file.colors, "indent_guide"@) is None ==> file.theme().indent_guide
            == file.theme().border,
        listed(file.colors, "trailing_whitespace"@) is None ==> file.theme().trailing_whitespace
            == file.theme().selection,
        listed(file.colors, "keyword"@) is None ==> file.theme().keyword == file.theme().text,
        listed(file.colors, "comment"@) is None ==> file.theme().comment == file.theme().text,
        listed(file.colors, "error"@) is None ==> file.theme().error == file.theme().text,
        listed(file.colors, "warning"@) is None ==> file.theme().warning == file.theme().text,
        file.ansi is None && 0 <= slot < 16 ==> file.theme().ansi[slot] == file.theme().text,
{
}

/// A terminal's cell has the theme's colours by slot, its own colour where it
/// names one, and the text's for a slot that there is not.
pub proof fn law_cells_have_their_colour(theme: Theme, slot: u8, r: u8, g: u8, b: u8)
    ensures
        theme.cell(CellColor::Foreground) == theme.text,
        theme.cell(CellColor::Background) == theme.background,
        slot < 16 ==> theme.cell(CellColor::Ansi(slot)) == theme.ansi[slot as int],
        slot >= 16 ==> theme.cell(CellColor::Ansi(slot)) == theme.text,
        theme.cell(CellColor::Rgb(r, g, b)) / 0x10000 == r,
        theme.cell(CellColor::Rgb(r, g, b)) / 0x100 % 0x100 == g,
        theme.cell(CellColor::Rgb(r, g, b)) % 0x100 == b,
{
}

/// Choosing a theme makes it the active one, with its own colours, and has its
/// name saved exactly where another was active.
pub proof fn law_chosen_theme_is_active_and_saved(
    app: AppView,
    variant: ThemeVariant,
    file: FileView,
    resume: ThemeVariant,
)
    ensures
        app.with_variant(variant).active == Some(
            (ActiveView { choice: ChoiceView::BuiltIn(variant), variant, theme: variant.theme() }),
        ),
        app.with_file(file, resume).active == Some(
            (ActiveView {
                choice: ChoiceView::Disk(file.name),
                variant: resume,
                theme: file.theme(),
            }),
        ),
        app.active is None || app.active->0.choice.name() != variant.saved() ==> app.with_variant(
            variant,
        ).to_save == app.to_save.push(variant.saved()),
        app.active is Some && app.active->0.choice.name() == variant.saved() ==> app.with_variant(
            variant,
        ).to_save == app.to_save,
        app.active is None || app.active->0.choice.name() != file.name ==> app.with_file(
            file,
            resume,
        ).to_save == app.to_save.push(file.name),
        app.active is Some && app.active->0.choice.name() == file.name ==> app.with_file(
            file,
            resume,
        ).to_save == app.to_save,
        app.with_variant(variant).disk_themes == app.disk_themes,
        app.with_file(file, resume).disk_themes == app.disk_themes,
        app.with_fallback().active == app.with_variant(ThemeVariant::Dark).active,
        app.with_fallback().to_save == app.to_save,
        app.with_fallback().disk_themes == app.disk_themes,
{
}

/// A name is a compiled-in theme's where it is the one that theme is saved by,
/// and of a file otherwise.
pub proof fn law_name_tells_the_theme(name: Seq<char>, variant: ThemeVariant)
    ensures
        variant_named(name) == Some(variant) <==> name == variant.saved(),
        variant_named(name) is None ==> choice_named(name) == ChoiceView::Disk(name),
        ChoiceView::Disk(name).name() == name,
        ChoiceView::BuiltIn(variant).name() == variant.saved(),
{
    lemma_names_differ();
}

/// Each compiled-in theme is shown under its own name.
pub proof fn law_themes_are_shown_by_name(variant: ThemeVariant)
    ensures
        variant is Dark ==> variant.shown() == "Dark"@ && variant.theme() == dark_theme(),
        variant is Light ==> variant.shown() == "Light"@ && variant.theme() == light_theme(),
        variant is OneDarkPro ==> variant.shown() == "One Dark Pro"@ && variant.theme()
            == one_dark_pro_theme(),
        variant is GitHubDark ==> variant.shown() == "GitHub Dark"@ && variant.theme()
            == github_dark_theme(),
        variant is GitHubLight ==> variant.shown() == "GitHub Light"@ && variant.theme()
            == github_light_theme(),
{
}

} // verus!
