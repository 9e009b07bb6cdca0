//! Settings: handling, gameplay, video and colors.

use vstd::prelude::*;
use crate::theme::ThemeId;
use crate::text::{eq_ignore_ascii_case, eq_nocase, lemma_nocase_differs_at, lemma_nocase_equiv};

verus! {

#[derive(Clone, Copy, Debug, PartialEq, Eq, Structural)]
pub enum ScaleMode {
    Auto,
    X1,
    X2,
    X3,
    X4,
}

impl ScaleMode {
    pub open spec fn label_text(self) -> Seq<char> {
        match self {
            ScaleMode::Auto => "Auto"@,
            ScaleMode::X1 => "1x"@,
            ScaleMode::X2 => "2x"@,
            ScaleMode::X3 => "3x"@,
            ScaleMode::X4 => "4x"@,
        }
    }

    pub open spec fn key_text(self) -> Seq<char> {
        match self {
            ScaleMode::Auto => "auto"@,
            ScaleMode::X1 => "1"@,
            ScaleMode::X2 => "2"@,
            ScaleMode::X3 => "3"@,
            ScaleMode::X4 => "4"@,
        }
    }

    pub open spec fn spec_next(self) -> ScaleMode {
        match self {
            ScaleMode::Auto => ScaleMode::X1,
            ScaleMode::X1 => ScaleMode::X2,
            ScaleMode::X2 => ScaleMode::X3,
            ScaleMode::X3 => ScaleMode::X4,
            ScaleMode::X4 => ScaleMode::Auto,
        }
    }

    pub open spec fn spec_prev(self) -> ScaleMode {
        match self {
            ScaleMode::Auto => ScaleMode::X4,
            ScaleMode::X1 => ScaleMode::Auto,
            ScaleMode::X2 => ScaleMode::X1,
            ScaleMode::X3 => ScaleMode::X2,
            ScaleMode::X4 => ScaleMode::X3,
        }
    }

    /// The mode that a config value names, ignoring ASCII case.
    #[verifier::opaque]
    pub open spec fn parse_text(s: Seq<char>) -> Option<ScaleMode> {
        if eq_nocase(s, "auto"@) {
            Some(ScaleMode::Auto)
        } else if eq_nocase(s, "1"@) || eq_nocase(s, "1x"@) {
            Some(ScaleMode::X1)
        } else if eq_nocase(s, "2"@) || eq_nocase(s, "2x"@) {
            Some(ScaleMode::X2)
        } else if eq_nocase(s, "3"@) || eq_nocase(s, "3x"@) {
            Some(ScaleMode::X3)
        } else if eq_nocase(s, "4"@) || eq_nocase(s, "4x"@) {
            Some(ScaleMode::X4)
        } else {
            None
        }
    }

    pub fn label(self) -> (r: &'static str)
        ensures
            r@ == self.label_text(),
    {
        match self {
            ScaleMode::Auto => "Auto",
            ScaleMode::X1 => "1x",
            ScaleMode::X2 => "2x",
            ScaleMode::X3 => "3x",
            ScaleMode::X4 => "4x",
        }
    }

    pub fn next(self) -> (r: Self)
        ensures
            r == self.spec_next(),
    {
        match self {
            ScaleMode::Auto => ScaleMode::X1,
            ScaleMode::X1 => ScaleMode::X2,
            ScaleMode::X2 => ScaleMode::X3,
            ScaleMode::X3 => ScaleMode::X4,
            ScaleMode::X4 => ScaleMode::Auto,
        }
    }

    pub fn prev(self) -> (r: Self)
        ensures
            r == self.spec_prev(),
    {
        match self {
            ScaleMode::Auto => ScaleMode::X4,
            ScaleMode::X1 => ScaleMode::Auto,
            ScaleMode::X2 => ScaleMode::X1,
            ScaleMode::X3 => ScaleMode::X2,
            ScaleMode::X4 => ScaleMode::X3,
        }
    }

    /// The value written for this mode in the config file.
    pub fn as_str(self) -> (r: &'static str)
        ensures
            r@ == self.key_text(),
    {
        match self {
            ScaleMode::Auto => "auto",
            ScaleMode::X1 => "1",
            ScaleMode::X2 => "2",
            ScaleMode::X3 => "3",
            ScaleMode::X4 => "4",
        }
    }

    pub fn from_str(s: &str) -> (r: Option<Self>)
        ensures
            r == Self::parse_text(s@),
    {
        reveal(ScaleMode::parse_text);
        if eq_ignore_ascii_case(s, "auto") {
            Some(ScaleMode::Auto)
        } else if eq_ignore_ascii_case(s, "1") || eq_ignore_ascii_case(s, "1x") {
            Some(ScaleMode::X1)
        } else if eq_ignore_ascii_case(s, "2") || eq_ignore_ascii_case(s, "2x") {
            Some(ScaleMode::X2)
        } else if eq_ignore_ascii_case(s, "3") || eq_ignore_ascii_case(s, "3x") {
            Some(ScaleMode::X3)
        } else if eq_ignore_ascii_case(s, "4") || eq_ignore_ascii_case(s, "4x") {
            Some(ScaleMode::X4)
        } else {
            None
        }
    }
}

/// Stepping forward then back, or back then forward, returns to the same mode.
pub proof fn lemma_scale_next_prev(m: ScaleMode)
    ensures
        m.spec_next().spec_prev() == m,
        m.spec_prev().spec_next() == m,
{
}

/// Reading back the written value of a mode gives the mode.
pub proof fn lemma_scale_round_trip(m: ScaleMode)
    ensures
        ScaleMode::parse_text(m.key_text()) == Some(m),
{
    reveal(ScaleMode::parse_text);
    reveal_strlit("auto");
    reveal_strlit("1");
    reveal_strlit("1x");
    reveal_strlit("2");
    reveal_strlit("2x");
    reveal_strlit("3");
    reveal_strlit("3x");
    reveal_strlit("4");
    reveal_strlit("4x");
    let k = m.key_text();
    assert(eq_nocase(k, k));
    assert(!eq_nocase("1"@, "auto"@));
    lemma_nocase_differs_at("2"@, "1"@, 0);
    lemma_nocase_differs_at("3"@, "1"@, 0);
    lemma_nocase_differs_at("3"@, "2"@, 0);
    lemma_nocase_differs_at("4"@, "1"@, 0);
    lemma_nocase_differs_at("4"@, "2"@, 0);
    lemma_nocase_differs_at("4"@, "3"@, 0);
}

/// ScaleMode names are read regardless of ASCII case: texts equal up to case name
/// the same value, so every written value reads back in any mix of case.
pub proof fn lemma_scale_parse_ignores_case(s: Seq<char>, u: Seq<char>, v: ScaleMode)
    requires
        eq_nocase(s, u),
    ensures
        ScaleMode::parse_text(s) == ScaleMode::parse_text(u),
        eq_nocase(u, v.key_text()) ==> ScaleMode::parse_text(u) == Some(v),
{
    reveal(ScaleMode::parse_text);
    lemma_nocase_equiv(s, u, "auto"@);
    lemma_nocase_equiv(s, u, "1"@);
    lemma_nocase_equiv(s, u, "1x"@);
    lemma_nocase_equiv(s, u, "2"@);
    lemma_nocase_equiv(s, u, "2x"@);
    lemma_nocase_equiv(s, u, "3"@);
    lemma_nocase_equiv(s, u, "3x"@);
    lemma_nocase_equiv(s, u, "4"@);
    lemma_nocase_equiv(s, u, "4x"@);
    lemma_scale_round_trip(v);
    let k = v.key_text();
    if eq_nocase(u, k) {
        lemma_nocase_equiv(u, k, "auto"@);
        lemma_nocase_equiv(u, k, "1"@);
        lemma_nocase_equiv(u, k, "1x"@);
        lemma_nocase_equiv(u, k, "2"@);
        lemma_nocase_equiv(u, k, "2x"@);
        lemma_nocase_equiv(u, k, "3"@);
        lemma_nocase_equiv(u, k, "3x"@);
        lemma_nocase_equiv(u, k, "4"@);
        lemma_nocase_equiv(u, k, "4x"@);
    }
}

#[derive(Clone, Copy, Debug, PartialEq, Eq, Structural)]
pub enum GridStyle {
    Checker,
    Flat,
    Off,
}

impl GridStyle {
    pub open spec fn label_text(self) -> Seq<char> {
        match self {
            GridStyle::Checker => "Checker"@,
            GridStyle::Flat => "Flat"@,
            GridStyle::Off => "Off"@,
        }
    }

    pub open spec fn key_text(self) -> Seq<char> {
        match self {
            GridStyle::Checker => "checker"@,
            GridStyle::Flat => "flat"@,
            GridStyle::Off => "off"@,
        }
    }

    pub open spec fn spec_next(self) -> GridStyle {
        match self {
            GridStyle::Checker => GridStyle::Flat,
            GridStyle::Flat => GridStyle::Off,
            GridStyle::Off => GridStyle::Checker,
        }
    }

    pub open spec fn spec_prev(self) -> GridStyle {
        match self {
            GridStyle::Checker => GridStyle::Off,
            GridStyle::Flat => GridStyle::Checker,
            GridStyle::Off => GridStyle::Flat,
        }
    }

    /// The style that a config value names, ignoring ASCII case.
    #[verifier::opaque]
    pub open spec fn parse_text(s: Seq<char>) -> Option<GridStyle> {
        if eq_nocase(s, "checker"@) {
            Some(GridStyle::Checker)
        } else if eq_nocase(s, "flat"@) {
            Some(GridStyle::Flat)
        } else if eq_nocase(s, "off"@) {
            Some(GridStyle::Off)
        } else {
            None
        }
    }

    pub fn label(self) -> (r: &'static str)
        ensures
            r@ == self.label_text(),
    {
        match self {
            GridStyle::Checker => "Checker",
            GridStyle::Flat => "Flat",
            GridStyle::Off => "Off",
        }
    }

    pub fn next(self) -> (r: Self)
        ensures
            r == self.spec_next(),
    {
        match self {
            GridStyle::Checker => GridStyle::Flat,
            GridStyle::Flat => GridStyle::Off,
            GridStyle::Off => GridStyle::Checker,
        }
    }

    pub fn prev(self) -> (r: Self)
        ensures
            r == self.spec_prev(),
    {
        match self {
            GridStyle::Checker => GridStyle::Off,
            GridStyle::Flat => GridStyle::Checker,
            GridStyle::Off => GridStyle::Flat,
        }
    }

    /// The value written for this style in the config file.
    pub fn as_str(self) -> (r: &'static str)
        ensures
            r@ == self.key_text(),
    {
        match self {
            GridStyle::Checker => "checker",
            GridStyle::Flat => "flat",
            GridStyle::Off => "off",
        }
    }

    pub fn from_str(s: &str) -> (r: Option<Self>)
        ensures
            r == Self::parse_text(s@),
    {
        reveal(GridStyle::parse_text);
        if eq_ignore_ascii_case(s, "checker") {
            Some(GridStyle::Checker)
        } else if eq_ignore_ascii_case(s, "flat") {
            Some(GridStyle::Flat)
        } else if eq_ignore_ascii_case(s, "off") {
            Some(GridStyle::Off)
        } else {
            None
        }
    }
}

/// Stepping forward then back, or back then forward, returns to the same style.
pub proof fn lemma_grid_next_prev(g: GridStyle)
    ensures
        g.spec_next().spec_prev() == g,
        g.spec_prev().spec_next() == g,
{
}

/// Reading back the written value of a style gives the style.
pub proof fn lemma_grid_round_trip(g: GridStyle)
    ensures
        GridStyle::parse_text(g.key_text()) == Some(g),
{
    reveal(GridStyle::parse_text);
    reveal_strlit("checker");
    reveal_strlit("flat");
    reveal_strlit("off");
    let k = g.key_text();
    assert(eq_nocase(k, k));
    lemma_nocase_differs_at("flat"@, "checker"@, 0);
    lemma_nocase_differs_at("off"@, "checker"@, 0);
    lemma_nocase_differs_at("off"@, "flat"@, 0);
}

impl GravityCurve {
    pub open spec fn label_text(self) -> Seq<char> {
        match self {
            GravityCurve::Static => "Static"@,
            GravityCurve::Modern => "Modern"@,
            GravityCurve::Classic => "Classic"@,
        }
    }

    pub open spec fn spec_next(self) -> GravityCurve {
        match self {
            GravityCurve::Static => GravityCurve::Modern,
            GravityCurve::Modern => GravityCurve::Classic,
            GravityCurve::Classic => GravityCurve::Static,
        }
    }

    pub open spec fn spec_prev(self) -> GravityCurve {
        match self {
            GravityCurve::Static => GravityCurve::Classic,
            GravityCurve::Modern => GravityCurve::Static,
            GravityCurve::Classic => GravityCurve::Modern,
        }
    }

    pub fn label(self) -> (r: &'static str)
        ensures
            r@ == self.label_text(),
    {
        match self {
            GravityCurve::Static => "Static",
            GravityCurve::Modern => "Modern",
            GravityCurve::Classic => "Classic",
        }
    }

    pub fn next(self) -> (r: Self)
        ensures
            r == self.spec_next(),
    {
        match self {
            GravityCurve::Static => GravityCurve::Modern,
            GravityCurve::Modern => GravityCurve::Classic,
            GravityCurve::Classic => GravityCurve::Static,
        }
    }

    pub fn prev(self) -> (r: Self)
        ensures
            r == self.spec_prev(),
    {
        match self {
            GravityCurve::Static => GravityCurve::Classic,
            GravityCurve::Modern => GravityCurve::Static,
            GravityCurve::Classic => GravityCurve::Modern,
        }
    }
}

/// Stepping forward then back, or back then forward, returns to the same curve.
pub proof fn lemma_gravity_next_prev(c: GravityCurve)
    ensures
        c.spec_next().spec_prev() == c,
        c.spec_prev().spec_next() == c,
{
}

impl HandlingPreset {
    pub open spec fn label_text(self) -> Seq<char> {
        match self {
            HandlingPreset::Default => "Default"@,
            HandlingPreset::Fast => "Fast"@,
            HandlingPreset::Slow => "Slow"@,
            HandlingPreset::Custom => "Custom"@,
        }
    }

    pub open spec fn spec_next(self) -> HandlingPreset {
        match self {
            HandlingPreset::Default => HandlingPreset::Fast,
            HandlingPreset::Fast => HandlingPreset::Slow,
            HandlingPreset::Slow => HandlingPreset::Custom,
            HandlingPreset::Custom => HandlingPreset::Default,
        }
    }

    pub open spec fn spec_prev(self) -> HandlingPreset {
        match self {
            HandlingPreset::Default => HandlingPreset::Custom,
            HandlingPreset::Fast => HandlingPreset::Default,
            HandlingPreset::Slow => HandlingPreset::Fast,
            HandlingPreset::Custom => HandlingPreset::Slow,
        }
    }

    /// `s` with this preset's handling values; `Custom` keeps the values.
    pub open spec fn applied(self, s: Settings) -> Settings {
        match self {
            HandlingPreset::Default => Settings {
                handling_preset: self,
                das_ms: 120,
                arr_ms: 20,
                sdf_ms: 25,
                sdf_infinite: false,
                soft_drop_points: true,
                ..s
            },
            HandlingPreset::Fast => Settings {
                handling_preset: self,
                das_ms: 83,
                arr_ms: 0,
                sdf_ms: 5,
                sdf_infinite: true,
                soft_drop_points: true,
                ..s
            },
            HandlingPreset::Slow => Settings {
                handling_preset: self,
                das_ms: 167,
                arr_ms: 33,
                sdf_ms: 50,
                sdf_infinite: false,
                soft_drop_points: true,
                ..s
            },
            HandlingPreset::Custom => Settings { handling_preset: self, ..s },
        }
    }

    pub fn label(self) -> (r: &'static str)
        ensures
            r@ == self.label_text(),
    {
        match self {
            HandlingPreset::Default => "Default",
            HandlingPreset::Fast => "Fast",
            HandlingPreset::Slow => "Slow",
            HandlingPreset::Custom => "Custom",
        }
    }

    pub fn next(self) -> (r: Self)
        ensures
            r == self.spec_next(),
    {
        match self {
            HandlingPreset::Default => HandlingPreset::Fast,
            HandlingPreset::Fast => HandlingPreset::Slow,
            HandlingPreset::Slow => HandlingPreset::Custom,
            HandlingPreset::Custom => HandlingPreset::Default,
        }
    }

    pub fn prev(self) -> (r: Self)
        ensures
            r == self.spec_prev(),
    {
        match self {
            HandlingPreset::Default => HandlingPreset::Custom,
            HandlingPreset::Fast => HandlingPreset::Default,
            HandlingPreset::Slow => HandlingPreset::Fast,
            HandlingPreset::Custom => HandlingPreset::Slow,
        }
    }

    /// Write this preset's handling values into `settings`.
    pub fn apply(self, settings: &mut Settings)
        ensures
            *final(settings) == self.applied(*old(settings)),
    {
        let s = *settings;
        *settings = match self {
            HandlingPreset::Default => Settings {
                handling_preset: self,
                das_ms: 120,
                arr_ms: 20,
                sdf_ms: 25,
                sdf_infinite: false,
                soft_drop_points: true,
                ..s
            },
            HandlingPreset::Fast => Settings {
                handling_preset: self,
                das_ms: 83,
                arr_ms: 0,
                sdf_ms: 5,
                sdf_infinite: true,
                soft_drop_points: true,
                ..s
            },
            HandlingPreset::Slow => Settings {
                handling_preset: self,
                das_ms: 167,
                arr_ms: 33,
                sdf_ms: 50,
                sdf_infinite: false,
                soft_drop_points: true,
                ..s
            },
            HandlingPreset::Custom => Settings { handling_preset: self, ..s },
        };
    }
}

/// Stepping forward then back, or back then forward, returns to the same preset.
pub proof fn lemma_preset_next_prev(p: HandlingPreset)
    ensures
        p.spec_next().spec_prev() == p,
        p.spec_prev().spec_next() == p,
{
}

/// The default settings hold the default preset's handling values.
pub proof fn lemma_default_handling_is_default_preset()
    ensures
        HandlingPreset::Default.applied(spec_default_settings()) == spec_default_settings(),
{
}

/// The words shown for a switch.
pub open spec fn on_off_text(b: bool) -> Seq<char> {
    if b {
        "On"@
    } else {
        "Off"@
    }
}

pub fn on_off(b: bool) -> (r: &'static str)
    ensures
        r@ == on_off_text(b),
{
    if b {
        "On"
    } else {
        "Off"
    }
}

/// `v` clamped to `[lo, hi]`.
pub open spec fn clamp_nat(v: int, lo: int, hi: int) -> int {
    if v < lo {
        lo
    } else if v > hi {
        hi
    } else {
        v
    }
}

/// The settings with the handling and preview values held in their ranges.
pub open spec fn clamped(s: Settings) -> Settings {
    Settings {
        das_ms: clamp_nat(s.das_ms as int, 50, 333) as u64,
        arr_ms: clamp_nat(s.arr_ms as int, 0, 100) as u64,
        sdf_ms: clamp_nat(s.sdf_ms as int, 5, 100) as u64,
        next_count: clamp_nat(s.next_count as int, 1, 5) as usize,
        ..s
    }
}

/// The settings have the ranges that `clamp` gives.
pub open spec fn in_ranges(s: Settings) -> bool {
    &&& 50 <= s.das_ms <= 333
    &&& s.arr_ms <= 100
    &&& 5 <= s.sdf_ms <= 100
    &&& 1 <= s.next_count <= 5
}

/// Clamping twice is clamping once, and clamped settings are in range.
pub proof fn lemma_clamp_idempotent(s: Settings)
    ensures
        in_ranges(clamped(s)),
        clamped(clamped(s)) == clamped(s),
        in_ranges(s) ==> clamped(s) == s,
{
}

/// GridStyle names are read regardless of ASCII case: texts equal up to case name
/// the same value, so every written value reads back in any mix of case.
pub proof fn lemma_grid_parse_ignores_case(s: Seq<char>, u: Seq<char>, v: GridStyle)
    requires
        eq_nocase(s, u),
    ensures
        GridStyle::parse_text(s) == GridStyle::parse_text(u),
        eq_nocase(u, v.key_text()) ==> GridStyle::parse_text(u) == Some(v),
{
    reveal(GridStyle::parse_text);
    lemma_nocase_equiv(s, u, "checker"@);
    lemma_nocase_equiv(s, u, "flat"@);
    lemma_nocase_equiv(s, u, "off"@);
    lemma_grid_round_trip(v);
    let k = v.key_text();
    if eq_nocase(u, k) {
        lemma_nocase_equiv(u, k, "checker"@);
        lemma_nocase_equiv(u, k, "flat"@);
        lemma_nocase_equiv(u, k, "off"@);
    }
}

/// How the gravity interval follows the level.
#[derive(Clone, Copy, Debug, PartialEq, Eq, Structural)]
pub enum GravityCurve {
    Static,
    Modern,
    Classic,
}

/// Named handling presets; `Custom` marks hand-tuned values.
#[derive(Clone, Copy, Debug, PartialEq, Eq, Structural)]
pub enum HandlingPreset {
    Default,
    Fast,
    Slow,
    Custom,
}

#[derive(Clone, Copy, Debug, PartialEq, Eq, Structural)]
pub struct Settings {
    // Handling
    pub handling_preset: HandlingPreset,
    pub das_ms: u64,
    pub arr_ms: u64,
    pub sdf_ms: u64,
    pub sdf_infinite: bool,
    pub soft_drop_points: bool,
    // Gameplay
    pub start_level: u32,
    pub lines_per_level: u32,
    pub lock_delay_ms: u64,
    pub lock_resets_max: u32,
    pub gravity: GravityCurve,
    pub static_gravity_ms: u64,
    pub hold_enabled: bool,
    pub allow_180: bool,
    pub next_count: usize,
    pub line_clear_ms: u64,
    // Video
    pub scale: ScaleMode,
    pub show_ghost: bool,
    pub grid: GridStyle,
    pub center: bool,
    pub show_action_text: bool,
    pub show_stats: bool,
    pub show_pps: bool,
    pub show_time: bool,
    pub mino_bevel: bool,
    pub show_footer: bool,
    // Colors
    pub theme: ThemeId,
}

pub open spec fn spec_default_settings() -> Settings {
    Settings {
        handling_preset: HandlingPreset::Default,
        das_ms: 120,
        arr_ms: 20,
        sdf_ms: 25,
        sdf_infinite: false,
        soft_drop_points: true,
        start_level: 1,
        lines_per_level: 10,
        lock_delay_ms: 500,
        lock_resets_max: 15,
        gravity: GravityCurve::Modern,
        static_gravity_ms: 1000,
        hold_enabled: true,
        allow_180: false,
        next_count: 5,
        line_clear_ms: 200,
        scale: ScaleMode::Auto,
        show_ghost: true,
        grid: GridStyle::Checker,
        center: true,
        show_action_text: true,
        show_stats: true,
        show_pps: true,
        show_time: true,
        mino_bevel: true,
        show_footer: true,
        theme: ThemeId::Guideline,
    }
}

impl Settings {
    /// Hold the handling and preview values in their ranges.
    pub fn clamp(&mut self)
        ensures
            *final(self) == clamped(*old(self)),
    {
        self.das_ms = if self.das_ms < 50 {
            50
        } else if self.das_ms > 333 {
            333
        } else {
            self.das_ms
        };
        self.arr_ms = if self.arr_ms > 100 {
            100
        } else {
            self.arr_ms
        };
        self.sdf_ms = if self.sdf_ms < 5 {
            5
        } else if self.sdf_ms > 100 {
            100
        } else {
            self.sdf_ms
        };
        self.next_count = if self.next_count < 1 {
            1
        } else if self.next_count > 5 {
            5
        } else {
            self.next_count
        };
    }

    /// Mark the handling values as hand-tuned.
    pub fn mark_handling_custom(&mut self)
        ensures
            *final(self) == (Settings { handling_preset: HandlingPreset::Custom, ..*old(self) }),
    {
        self.handling_preset = HandlingPreset::Custom;
    }
}

impl Default for Settings {
    fn default() -> (r: Self)
        ensures
            r == spec_default_settings(),
    {
        Self {
            handling_preset: HandlingPreset::Default,
            das_ms: 120,
            arr_ms: 20,
            sdf_ms: 25,
            sdf_infinite: false,
            soft_drop_points: true,
            start_level: 1,
            lines_per_level: 10,
            lock_delay_ms: 500,
            lock_resets_max: 15,
            gravity: GravityCurve::Modern,
            static_gravity_ms: 1000,
            hold_enabled: true,
            allow_180: false,
            next_count: 5,
            line_clear_ms: 200,
            scale: ScaleMode::Auto,
            show_ghost: true,
            grid: GridStyle::Checker,
            center: true,
            show_action_text: true,
            show_stats: true,
            show_pps: true,
            show_time: true,
            mino_bevel: true,
            show_footer: true,
            theme: ThemeId::Guideline,
        }
    }
}

} // verus!
