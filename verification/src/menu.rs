//! Title and settings menu navigation (TETR.IO-style tabs).

use vstd::prelude::*;
use crate::theme::ThemeId;
use crate::text::{decimal, decimal_text};
use vstd::string::*;
use crate::settings::{
    clamp_nat, clamped, on_off, on_off_text, spec_default_settings, HandlingPreset, Settings,
};

verus! {

#[derive(Clone, Copy, Debug, PartialEq, Eq, Structural)]
pub enum AppScreen {
    Title,
    Playing,
    Settings,
}

#[derive(Clone, Copy, Debug, PartialEq, Eq, Structural)]
pub enum TitleItem {
    Start,
    Settings,
    Quit,
}

impl TitleItem {
    pub open spec fn label_text(self) -> Seq<char> {
        match self {
            TitleItem::Start => "Start"@,
            TitleItem::Settings => "Settings"@,
            TitleItem::Quit => "Quit"@,
        }
    }

    pub open spec fn spec_next(self) -> TitleItem {
        match self {
            TitleItem::Start => TitleItem::Settings,
            TitleItem::Settings => TitleItem::Quit,
            TitleItem::Quit => TitleItem::Start,
        }
    }

    pub open spec fn spec_prev(self) -> TitleItem {
        match self {
            TitleItem::Start => TitleItem::Quit,
            TitleItem::Settings => TitleItem::Start,
            TitleItem::Quit => TitleItem::Settings,
        }
    }

    pub fn label(self) -> (r: &'static str)
        ensures
            r@ == self.label_text(),
    {
        match self {
            TitleItem::Start => "Start",
            TitleItem::Settings => "Settings",
            TitleItem::Quit => "Quit",
        }
    }

    pub fn next(self) -> (r: Self)
        ensures
            r == self.spec_next(),
    {
        match self {
            TitleItem::Start => TitleItem::Settings,
            TitleItem::Settings => TitleItem::Quit,
            TitleItem::Quit => TitleItem::Start,
        }
    }

    pub fn prev(self) -> (r: Self)
        ensures
            r == self.spec_prev(),
    {
        match self {
            TitleItem::Start => TitleItem::Quit,
            TitleItem::Settings => TitleItem::Start,
            TitleItem::Quit => TitleItem::Settings,
        }
    }
}

/// Stepping forward then back, or back then forward, returns to the same item.
pub proof fn lemma_title_next_prev(t: TitleItem)
    ensures
        t.spec_next().spec_prev() == t,
        t.spec_prev().spec_next() == t,
{
}

#[derive(Clone, Copy, Debug, PartialEq, Eq, Structural)]
pub enum SettingsTab {
    Handling,
    Gameplay,
    Video,
    Colors,
}

impl SettingsTab {
    pub open spec fn label_text(self) -> Seq<char> {
        match self {
            SettingsTab::Handling => "Handling"@,
            SettingsTab::Gameplay => "Gameplay"@,
            SettingsTab::Video => "Video"@,
            SettingsTab::Colors => "Colors"@,
        }
    }

    pub open spec fn spec_next(self) -> SettingsTab {
        match self {
            SettingsTab::Handling => SettingsTab::Gameplay,
            SettingsTab::Gameplay => SettingsTab::Video,
            SettingsTab::Video => SettingsTab::Colors,
            SettingsTab::Colors => SettingsTab::Handling,
        }
    }

    pub open spec fn spec_prev(self) -> SettingsTab {
        match self {
            SettingsTab::Handling => SettingsTab::Colors,
            SettingsTab::Gameplay => SettingsTab::Handling,
            SettingsTab::Video => SettingsTab::Gameplay,
            SettingsTab::Colors => SettingsTab::Video,
        }
    }

    /// How many rows the tab shows.
    pub open spec fn rows(self) -> nat {
        match self {
            SettingsTab::Handling => 6,
            SettingsTab::Gameplay => 10,
            SettingsTab::Video => 10,
            SettingsTab::Colors => 2,
        }
    }

    pub fn label(self) -> (r: &'static str)
        ensures
            r@ == self.label_text(),
    {
        match self {
            SettingsTab::Handling => "Handling",
            SettingsTab::Gameplay => "Gameplay",
            SettingsTab::Video => "Video",
            SettingsTab::Colors => "Colors",
        }
    }

    pub fn next(self) -> (r: Self)
        ensures
            r == self.spec_next(),
    {
        match self {
            SettingsTab::Handling => SettingsTab::Gameplay,
            SettingsTab::Gameplay => SettingsTab::Video,
            SettingsTab::Video => SettingsTab::Colors,
            SettingsTab::Colors => SettingsTab::Handling,
        }
    }

    pub fn prev(self) -> (r: Self)
        ensures
            r == self.spec_prev(),
    {
        match self {
            SettingsTab::Handling => SettingsTab::Colors,
            SettingsTab::Gameplay => SettingsTab::Handling,
            SettingsTab::Video => SettingsTab::Gameplay,
            SettingsTab::Colors => SettingsTab::Video,
        }
    }

    /// How many rows the tab shows.
    pub fn row_count(self) -> (r: usize)
        ensures
            r == self.rows(),
    {
        match self {
            SettingsTab::Handling => 6,
            SettingsTab::Gameplay => 10,
            SettingsTab::Video => 10,
            SettingsTab::Colors => 2,
        }
    }
}

/// Stepping forward then back, or back then forward, returns to the same tab.
pub proof fn lemma_tab_next_prev(t: SettingsTab)
    ensures
        t.spec_next().spec_prev() == t,
        t.spec_prev().spec_next() == t,
{
}

#[derive(Clone, Copy, Debug, PartialEq, Eq, Structural)]
pub enum SettingsReturn {
    Title,
    Pause,
}

#[derive(Clone, Copy, Debug, PartialEq, Eq, Structural)]
pub struct MenuState {
    pub screen: AppScreen,
    pub title_sel: TitleItem,
    pub settings_tab: SettingsTab,
    pub settings_row: usize,
    pub settings_return: SettingsReturn,
    pub dirty: bool,
}

pub open spec fn spec_default_menu() -> MenuState {
    MenuState {
        screen: AppScreen::Title,
        title_sel: TitleItem::Start,
        settings_tab: SettingsTab::Handling,
        settings_row: 0,
        settings_return: SettingsReturn::Title,
        dirty: false,
    }
}

impl Default for MenuState {
    fn default() -> (r: Self)
        ensures
            r == spec_default_menu(),
    {
        Self {
            screen: AppScreen::Title,
            title_sel: TitleItem::Start,
            settings_tab: SettingsTab::Handling,
            settings_row: 0,
            settings_return: SettingsReturn::Title,
            dirty: false,
        }
    }
}

/// The row reached by moving `delta` rows from `row` in a list of `n` rows:
/// past either end the selection wraps to the other end.
pub open spec fn moved_row(row: int, delta: int, n: int) -> int {
    let r = row + delta;
    if r < 0 {
        n - 1
    } else if r >= n {
        0
    } else {
        r
    }
}

/// The first row shown when `visible` rows fit and `sel` is selected in a list
/// of `n`: the selection is kept near the middle, within the list.
pub open spec fn scroll_start(n: int, sel: int, visible: int) -> int {
    if n <= visible {
        0
    } else if sel < visible / 2 {
        0
    } else if sel + visible / 2 >= n {
        n - visible
    } else {
        sel - visible / 2
    }
}

/// `v`, read as a signed 64-bit number as `v as i64` reads it, moved by `step`
/// and clamped to `[lo, hi]`.
pub open spec fn step_u64(v: u64, step: int, lo: int, hi: int) -> u64 {
    clamp_nat((v as i64) + step, lo, hi) as u64
}

/// `v`, read as a signed 32-bit number as `v as i32` reads it, moved by `step`
/// and clamped to `[lo, hi]`.
pub open spec fn step_u32(v: u32, step: int, lo: int, hi: int) -> u32 {
    clamp_nat((v as i32) + step, lo, hi) as u32
}

/// The preset reached by one step in direction `dir`, skipping `Custom`.
pub open spec fn preset_step(p: HandlingPreset, dir: int) -> HandlingPreset {
    let q = if dir > 0 {
        p.spec_next()
    } else {
        p.spec_prev()
    };
    if q == HandlingPreset::Custom {
        if dir > 0 {
            HandlingPreset::Default
        } else {
            HandlingPreset::Slow
        }
    } else {
        q
    }
}

/// Stepping through the presets with the arrows lands on a named preset,
/// never on `Custom`.
pub proof fn lemma_preset_step_named(p: HandlingPreset, dir: int)
    ensures
        preset_step(p, dir) != HandlingPreset::Custom,
{
}

/// The soft drop row: one step down from the slowest finite speed turns
/// infinite soft drop on; one step down from infinite turns it off at 25 ms.
pub open spec fn sdf_step(s: Settings, dir: int) -> Settings {
    if s.sdf_infinite {
        if dir < 0 {
            Settings { sdf_infinite: false, sdf_ms: 25, ..s }
        } else {
            s
        }
    } else {
        let next = (s.sdf_ms as i64) + dir;
        if next < 0 || (next == 0 && dir < 0) {
            Settings { sdf_infinite: true, sdf_ms: 0, ..s }
        } else {
            Settings { sdf_ms: clamp_nat(next, 1, 200) as u64, ..s }
        }
    }
}

/// The arithmetic of a step on `row` of `tab` stays within the machine
/// integers that the step computes in.
pub open spec fn step_fits(tab: SettingsTab, row: usize, s: Settings, dir: i32) -> bool {
    match tab {
        SettingsTab::Handling => if row == 1 {
            i64::MIN <= (s.das_ms as i64) + 5 * dir <= i64::MAX
        } else if row == 2 {
            i64::MIN <= (s.arr_ms as i64) + dir <= i64::MAX
        } else if row == 3 {
            s.sdf_infinite || i64::MIN <= (s.sdf_ms as i64) + dir <= i64::MAX
        } else {
            true
        },
        SettingsTab::Gameplay => if row == 0 {
            i32::MIN <= (s.start_level as i32) + dir <= i32::MAX
        } else if row == 1 {
            i32::MIN <= (s.lines_per_level as i32) + dir <= i32::MAX
        } else if row == 2 {
            i64::MIN <= (s.lock_delay_ms as i64) + 25 * dir <= i64::MAX
        } else if row == 3 {
            i32::MIN <= (s.lock_resets_max as i32) + dir <= i32::MAX
        } else if row == 5 {
            i64::MIN <= (s.static_gravity_ms as i64) + 25 * dir <= i64::MAX
        } else if row == 8 {
            i32::MIN <= (s.next_count as i32) + dir <= i32::MAX
        } else if row == 9 {
            i64::MIN <= (s.line_clear_ms as i64) + 25 * dir <= i64::MAX
        } else {
            true
        },
        _ => true,
    }
}

/// A step on one row of the handling tab; every change but the preset's own
/// marks the handling as custom.
#[verifier::opaque]
pub open spec fn handling_step(row: usize, s: Settings, dir: int) -> Settings {
    if row == 0 {
        preset_step(s.handling_preset, dir).applied(s)
    } else if row == 1 {
        Settings {
            das_ms: step_u64(s.das_ms, 5 * dir, 1, 500),
            handling_preset: HandlingPreset::Custom,
            ..s
        }
    } else if row == 2 {
        Settings {
            arr_ms: step_u64(s.arr_ms, dir, 0, 200),
            handling_preset: HandlingPreset::Custom,
            ..s
        }
    } else if row == 3 {
        Settings { handling_preset: HandlingPreset::Custom, ..sdf_step(s, dir) }
    } else if row == 4 {
        Settings {
            sdf_infinite: !s.sdf_infinite,
            sdf_ms: if s.sdf_infinite && s.sdf_ms == 0 {
                25
            } else {
                s.sdf_ms
            },
            handling_preset: HandlingPreset::Custom,
            ..s
        }
    } else if row == 5 {
        Settings {
            soft_drop_points: !s.soft_drop_points,
            handling_preset: HandlingPreset::Custom,
            ..s
        }
    } else {
        s
    }
}

/// A step on one row of the gameplay tab.
#[verifier::opaque]
pub open spec fn gameplay_step(row: usize, s: Settings, dir: int) -> Settings {
    if row == 0 {
        Settings { start_level: step_u32(s.start_level, dir, 1, 20), ..s }
    } else if row == 1 {
        Settings { lines_per_level: step_u32(s.lines_per_level, dir, 1, 30), ..s }
    } else if row == 2 {
        Settings { lock_delay_ms: step_u64(s.lock_delay_ms, 25 * dir, 50, 2000), ..s }
    } else if row == 3 {
        Settings { lock_resets_max: step_u32(s.lock_resets_max, dir, 0, 40), ..s }
    } else if row == 4 {
        Settings {
            gravity: if dir > 0 {
                s.gravity.spec_next()
            } else {
                s.gravity.spec_prev()
            },
            ..s
        }
    } else if row == 5 {
        Settings { static_gravity_ms: step_u64(s.static_gravity_ms, 25 * dir, 10, 2000), ..s }
    } else if row == 6 {
        Settings { hold_enabled: !s.hold_enabled, ..s }
    } else if row == 7 {
        Settings { allow_180: !s.allow_180, ..s }
    } else if row == 8 {
        Settings {
            next_count: clamp_nat((s.next_count as i32) + dir, 0, 5) as usize,
            ..s
        }
    } else if row == 9 {
        Settings { line_clear_ms: step_u64(s.line_clear_ms, 25 * dir, 0, 500), ..s }
    } else {
        s
    }
}

/// A step on one row of the video tab.
#[verifier::opaque]
pub open spec fn video_step(row: usize, s: Settings, dir: int) -> Settings {
    if row == 0 {
        Settings {
            scale: if dir > 0 {
                s.scale.spec_next()
            } else {
                s.scale.spec_prev()
            },
            ..s
        }
    } else if row == 1 {
        Settings { show_ghost: !s.show_ghost, ..s }
    } else if row == 2 {
        Settings {
            grid: if dir > 0 {
                s.grid.spec_next()
            } else {
                s.grid.spec_prev()
            },
            ..s
        }
    } else if row == 3 {
        Settings { center: !s.center, ..s }
    } else if row == 4 {
        Settings { show_action_text: !s.show_action_text, ..s }
    } else if row == 5 {
        Settings { show_stats: !s.show_stats, ..s }
    } else if row == 6 {
        Settings { show_pps: !s.show_pps, ..s }
    } else if row == 7 {
        Settings { show_time: !s.show_time, ..s }
    } else if row == 8 {
        Settings { mino_bevel: !s.mino_bevel, ..s }
    } else if row == 9 {
        Settings { show_footer: !s.show_footer, ..s }
    } else {
        s
    }
}

/// A step on one row of the colors tab: the theme, or a reset of everything.
pub open spec fn colors_step(row: usize, s: Settings, dir: int) -> Settings {
    if row == 0 {
        Settings {
            theme: if dir > 0 {
                ThemeId::at((s.theme.index() + 1) % 7)
            } else {
                ThemeId::at((s.theme.index() + 6) % 7)
            },
            ..s
        }
    } else if row == 1 {
        spec_default_settings()
    } else {
        s
    }
}

/// The settings after a step in direction `dir` on `row` of `tab`, then clamped.
pub open spec fn adjusted(tab: SettingsTab, row: usize, s: Settings, dir: int) -> Settings {
    clamped(
        match tab {
            SettingsTab::Handling => handling_step(row, s, dir),
            SettingsTab::Gameplay => gameplay_step(row, s, dir),
            SettingsTab::Video => video_step(row, s, dir),
            SettingsTab::Colors => colors_step(row, s, dir),
        },
    )
}

fn step_u64_exec(v: u64, step: i64, lo: i64, hi: i64) -> (r: u64)
    requires
        0 <= lo <= hi,
        i64::MIN <= (v as i64) + step <= i64::MAX,
    ensures
        r == step_u64(v, step as int, lo as int, hi as int),
{
    let t: i64 = #[verifier::truncate] (v as i64);
    let n = t + step;
    let c = if n < lo {
        lo
    } else if n > hi {
        hi
    } else {
        n
    };
    c as u64
}

fn step_u32_exec(v: u32, step: i32, lo: i32, hi: i32) -> (r: u32)
    requires
        0 <= lo <= hi,
        i32::MIN <= (v as i32) + step <= i32::MAX,
    ensures
        r == step_u32(v, step as int, lo as int, hi as int),
{
    let t: i32 = #[verifier::truncate] (v as i32);
    let n = t + step;
    let c = if n < lo {
        lo
    } else if n > hi {
        hi
    } else {
        n
    };
    c as u32
}

fn preset_step_exec(p: HandlingPreset, dir: i32) -> (r: HandlingPreset)
    ensures
        r == preset_step(p, dir as int),
{
    let q = if dir > 0 {
        p.next()
    } else {
        p.prev()
    };
    if q == HandlingPreset::Custom {
        if dir > 0 {
            HandlingPreset::Default
        } else {
            HandlingPreset::Slow
        }
    } else {
        q
    }
}

fn sdf_step_exec(s: Settings, dir: i32) -> (r: Settings)
    requires
        s.sdf_infinite || i64::MIN <= (s.sdf_ms as i64) + dir <= i64::MAX,
    ensures
        r == sdf_step(s, dir as int),
{
    if s.sdf_infinite {
        if dir < 0 {
            Settings { sdf_infinite: false, sdf_ms: 25, ..s }
        } else {
            s
        }
    } else {
        let cur: i64 = #[verifier::truncate] (s.sdf_ms as i64);
        let next = cur + dir as i64;
        if next < 0 || (next == 0 && dir < 0) {
            Settings { sdf_infinite: true, sdf_ms: 0, ..s }
        } else {
            let c = if next < 1 {
                1
            } else if next > 200 {
                200
            } else {
                next
            };
            Settings { sdf_ms: c as u64, ..s }
        }
    }
}

fn adjust_handling(settings: &mut Settings, row: usize, dir: i32)
    requires
        step_fits(SettingsTab::Handling, row, *old(settings), dir),
    ensures
        *final(settings) == handling_step(row, *old(settings), dir as int),
{
    let s = *settings;
    if row == 0 {
        let p = preset_step_exec(s.handling_preset, dir);
        p.apply(settings);
    } else if row == 1 {
        let v = step_u64_exec(s.das_ms, 5 * (dir as i64), 1, 500);
        *settings = Settings { das_ms: v, handling_preset: HandlingPreset::Custom, ..s };
    } else if row == 2 {
        let v = step_u64_exec(s.arr_ms, dir as i64, 0, 200);
        *settings = Settings { arr_ms: v, handling_preset: HandlingPreset::Custom, ..s };
    } else if row == 3 {
        let t = sdf_step_exec(s, dir);
        *settings = Settings { handling_preset: HandlingPreset::Custom, ..t };
    } else if row == 4 {
        let ms = if s.sdf_infinite && s.sdf_ms == 0 {
            25
        } else {
            s.sdf_ms
        };
        *settings = Settings {
            sdf_infinite: !s.sdf_infinite,
            sdf_ms: ms,
            handling_preset: HandlingPreset::Custom,
            ..s
        };
    } else if row == 5 {
        *settings = Settings {
            soft_drop_points: !s.soft_drop_points,
            handling_preset: HandlingPreset::Custom,
            ..s
        };
    }
    proof {
        reveal(handling_step);
    }
}

fn adjust_gameplay(settings: &mut Settings, row: usize, dir: i32)
    requires
        step_fits(SettingsTab::Gameplay, row, *old(settings), dir),
    ensures
        *final(settings) == gameplay_step(row, *old(settings), dir as int),
{
    reveal(gameplay_step);
    let s = *settings;
    if row == 0 {
        let v = step_u32_exec(s.start_level, dir, 1, 20);
        *settings = Settings { start_level: v, ..s };
    } else if row == 1 {
        let v = step_u32_exec(s.lines_per_level, dir, 1, 30);
        *settings = Settings { lines_per_level: v, ..s };
    } else if row == 2 {
        let v = step_u64_exec(s.lock_delay_ms, 25 * (dir as i64), 50, 2000);
        *settings = Settings { lock_delay_ms: v, ..s };
    } else if row == 3 {
        let v = step_u32_exec(s.lock_resets_max, dir, 0, 40);
        *settings = Settings { lock_resets_max: v, ..s };
    } else if row == 4 {
        let g = if dir > 0 {
            s.gravity.next()
        } else {
            s.gravity.prev()
        };
        *settings = Settings { gravity: g, ..s };
    } else if row == 5 {
        let v = step_u64_exec(s.static_gravity_ms, 25 * (dir as i64), 10, 2000);
        *settings = Settings { static_gravity_ms: v, ..s };
    } else if row == 6 {
        *settings = Settings { hold_enabled: !s.hold_enabled, ..s };
    } else if row == 7 {
        *settings = Settings { allow_180: !s.allow_180, ..s };
    } else if row == 8 {
        let cur: i32 = #[verifier::truncate] (s.next_count as i32);
        let n = cur + dir;
        let c = if n < 0 {
            0
        } else if n > 5 {
            5
        } else {
            n
        };
        *settings = Settings { next_count: c as usize, ..s };
    } else if row == 9 {
        let v = step_u64_exec(s.line_clear_ms, 25 * (dir as i64), 0, 500);
        *settings = Settings { line_clear_ms: v, ..s };
    }
}

fn adjust_video(settings: &mut Settings, row: usize, dir: i32)
    ensures
        *final(settings) == video_step(row, *old(settings), dir as int),
{
    reveal(video_step);
    let s = *settings;
    if row == 0 {
        let m = if dir > 0 {
            s.scale.next()
        } else {
            s.scale.prev()
        };
        *settings = Settings { scale: m, ..s };
    } else if row == 1 {
        *settings = Settings { show_ghost: !s.show_ghost, ..s };
    } else if row == 2 {
        let g = if dir > 0 {
            s.grid.next()
        } else {
            s.grid.prev()
        };
        *settings = Settings { grid: g, ..s };
    } else if row == 3 {
        *settings = Settings { center: !s.center, ..s };
    } else if row == 4 {
        *settings = Settings { show_action_text: !s.show_action_text, ..s };
    } else if row == 5 {
        *settings = Settings { show_stats: !s.show_stats, ..s };
    } else if row == 6 {
        *settings = Settings { show_pps: !s.show_pps, ..s };
    } else if row == 7 {
        *settings = Settings { show_time: !s.show_time, ..s };
    } else if row == 8 {
        *settings = Settings { mino_bevel: !s.mino_bevel, ..s };
    } else if row == 9 {
        *settings = Settings { show_footer: !s.show_footer, ..s };
    }
}

fn adjust_colors(settings: &mut Settings, row: usize, dir: i32)
    ensures
        *final(settings) == colors_step(row, *old(settings), dir as int),
{
    let s = *settings;
    if row == 0 {
        let t = if dir > 0 {
            s.theme.next()
        } else {
            s.theme.prev()
        };
        *settings = Settings { theme: t, ..s };
    } else if row == 1 {
        *settings = Settings::default();
    }
}

/// The settings with the gameplay values put back to their defaults.
pub open spec fn gameplay_reset(s: Settings) -> Settings {
    let d = spec_default_settings();
    Settings {
        start_level: d.start_level,
        lines_per_level: d.lines_per_level,
        lock_delay_ms: d.lock_delay_ms,
        lock_resets_max: d.lock_resets_max,
        gravity: d.gravity,
        static_gravity_ms: d.static_gravity_ms,
        hold_enabled: d.hold_enabled,
        allow_180: d.allow_180,
        next_count: d.next_count,
        line_clear_ms: d.line_clear_ms,
        ..s
    }
}

/// The settings with the video values put back to their defaults.
pub open spec fn video_reset(s: Settings) -> Settings {
    let d = spec_default_settings();
    Settings {
        scale: d.scale,
        show_ghost: d.show_ghost,
        grid: d.grid,
        center: d.center,
        show_action_text: d.show_action_text,
        show_stats: d.show_stats,
        show_pps: d.show_pps,
        show_time: d.show_time,
        mino_bevel: d.mino_bevel,
        show_footer: d.show_footer,
        ..s
    }
}

/// The settings with the values of `tab` put back to their defaults.
pub open spec fn tab_reset(tab: SettingsTab, s: Settings) -> Settings {
    match tab {
        SettingsTab::Handling => HandlingPreset::Default.applied(s),
        SettingsTab::Gameplay => gameplay_reset(s),
        SettingsTab::Video => video_reset(s),
        SettingsTab::Colors => Settings { theme: spec_default_settings().theme, ..s },
    }
}

/// Resetting every tab, in any order, gives the default settings.
pub proof fn lemma_reset_all_tabs(s: Settings)
    ensures
        tab_reset(
            SettingsTab::Colors,
            tab_reset(
                SettingsTab::Video,
                tab_reset(SettingsTab::Gameplay, tab_reset(SettingsTab::Handling, s)),
            ),
        ) == spec_default_settings(),
{
}

/// Resetting a tab twice is resetting it once.
pub proof fn lemma_reset_idempotent(tab: SettingsTab, s: Settings)
    ensures
        tab_reset(tab, tab_reset(tab, s)) == tab_reset(tab, s),
{
    match tab {
        SettingsTab::Handling => {
            let t = HandlingPreset::Default.applied(s);
            assert(HandlingPreset::Default.applied(t) =~= t);
        },
        SettingsTab::Gameplay => {
            assert(gameplay_reset(gameplay_reset(s)) =~= gameplay_reset(s));
        },
        SettingsTab::Video => {
            assert(video_reset(video_reset(s)) =~= video_reset(s));
        },
        SettingsTab::Colors => {},
    }
}

fn fits_i64(v: u64, step: i64) -> (r: bool)
    ensures
        r == (i64::MIN <= (v as i64) + step <= i64::MAX),
{
    let t: i64 = #[verifier::truncate] (v as i64);
    let sum: i128 = t as i128 + step as i128;
    i64::MIN as i128 <= sum && sum <= i64::MAX as i128
}

fn fits_i32(v: u64, step: i32) -> (r: bool)
    ensures
        r == (i32::MIN <= (v as i32) + step <= i32::MAX),
{
    let t: i32 = #[verifier::truncate] (v as i32);
    let sum: i64 = t as i64 + step as i64;
    i32::MIN as i64 <= sum && sum <= i32::MAX as i64
}

impl MenuState {
    /// Whether a step in direction `dir` on the selected row stays within the
    /// machine integers it is computed in (what `adjust` requires).
    pub fn can_adjust(&self, settings: &Settings, dir: i32) -> (r: bool)
        ensures
            r == step_fits(self.settings_tab, self.settings_row, *settings, dir),
    {
        let row = self.settings_row;
        let d = dir as i64;
        match self.settings_tab {
            SettingsTab::Handling => if row == 1 {
                fits_i64(settings.das_ms, 5 * d)
            } else if row == 2 {
                fits_i64(settings.arr_ms, d)
            } else if row == 3 {
                settings.sdf_infinite || fits_i64(settings.sdf_ms, d)
            } else {
                true
            },
            SettingsTab::Gameplay => if row == 0 {
                fits_i32(settings.start_level as u64, dir)
            } else if row == 1 {
                fits_i32(settings.lines_per_level as u64, dir)
            } else if row == 2 {
                fits_i64(settings.lock_delay_ms, 25 * d)
            } else if row == 3 {
                fits_i32(settings.lock_resets_max as u64, dir)
            } else if row == 5 {
                fits_i64(settings.static_gravity_ms, 25 * d)
            } else if row == 8 {
                fits_i32(settings.next_count as u64, dir)
            } else if row == 9 {
                fits_i64(settings.line_clear_ms, 25 * d)
            } else {
                true
            },
            _ => true,
        }
    }

    /// Change the setting on the selected row one step in direction `dir`
    /// (positive: forward), then clamp the settings.
    pub fn adjust(&mut self, settings: &mut Settings, dir: i32)
        requires
            step_fits(old(self).settings_tab, old(self).settings_row, *old(settings), dir),
        ensures
            *final(self) == (MenuState { dirty: true, ..*old(self) }),
            *final(settings) == adjusted(
                old(self).settings_tab,
                old(self).settings_row,
                *old(settings),
                dir as int,
            ),
    {
        self.dirty = true;
        match self.settings_tab {
            SettingsTab::Handling => adjust_handling(settings, self.settings_row, dir),
            SettingsTab::Gameplay => adjust_gameplay(settings, self.settings_row, dir),
            SettingsTab::Video => adjust_video(settings, self.settings_row, dir),
            SettingsTab::Colors => adjust_colors(settings, self.settings_row, dir),
        }
        settings.clamp();
    }

    /// Put the values of the current tab back to their defaults.
    pub fn reset_current_tab(&mut self, settings: &mut Settings)
        ensures
            *final(self) == (MenuState { dirty: true, ..*old(self) }),
            *final(settings) == tab_reset(old(self).settings_tab, *old(settings)),
    {
        self.dirty = true;
        let d = Settings::default();
        let s = *settings;
        match self.settings_tab {
            SettingsTab::Handling => {
                HandlingPreset::Default.apply(settings);
            },
            SettingsTab::Gameplay => {
                *settings = Settings {
                    start_level: d.start_level,
                    lines_per_level: d.lines_per_level,
                    lock_delay_ms: d.lock_delay_ms,
                    lock_resets_max: d.lock_resets_max,
                    gravity: d.gravity,
                    static_gravity_ms: d.static_gravity_ms,
                    hold_enabled: d.hold_enabled,
                    allow_180: d.allow_180,
                    next_count: d.next_count,
                    line_clear_ms: d.line_clear_ms,
                    ..s
                };
            },
            SettingsTab::Video => {
                *settings = Settings {
                    scale: d.scale,
                    show_ghost: d.show_ghost,
                    grid: d.grid,
                    center: d.center,
                    show_action_text: d.show_action_text,
                    show_stats: d.show_stats,
                    show_pps: d.show_pps,
                    show_time: d.show_time,
                    mino_bevel: d.mino_bevel,
                    show_footer: d.show_footer,
                    ..s
                };
            },
            SettingsTab::Colors => {
                *settings = Settings { theme: d.theme, ..s };
            },
        }
    }

    pub fn open_settings(&mut self, ret: SettingsReturn)
        ensures
            *final(self) == (MenuState {
                screen: AppScreen::Settings,
                settings_return: ret,
                settings_tab: SettingsTab::Handling,
                settings_row: 0,
                dirty: false,
                ..*old(self)
            }),
    {
        self.screen = AppScreen::Settings;
        self.settings_return = ret;
        self.settings_tab = SettingsTab::Handling;
        self.settings_row = 0;
        self.dirty = false;
    }

    /// Move the selection by `delta` rows, wrapping at both ends. The row is
    /// read as a signed 32-bit number, as `row as i32` reads it.
    pub fn move_row(&mut self, delta: i32)
        requires
            i32::MIN <= (old(self).settings_row as i32) + delta <= i32::MAX,
        ensures
            *final(self) == (MenuState {
                settings_row: moved_row(
                    (old(self).settings_row as i32) as int,
                    delta as int,
                    old(self).settings_tab.rows() as int,
                ) as usize,
                ..*old(self)
            }),
    {
        let n = self.settings_tab.row_count() as i32;
        let cur: i32 = #[verifier::truncate] (self.settings_row as i32);
        let mut r = cur + delta;
        if r < 0 {
            r = n - 1;
        } else if r >= n {
            r = 0;
        }
        self.settings_row = r as usize;
    }

    /// First visible row index for scrollable lists.
    pub fn scroll_offset(&self, visible: usize) -> (r: usize)
        requires
            self.settings_tab.rows() <= visible || self.settings_row < visible / 2
                || self.settings_row + visible / 2 <= usize::MAX,
        ensures
            r == scroll_start(
                self.settings_tab.rows() as int,
                self.settings_row as int,
                visible as int,
            ),
    {
        let n = self.settings_tab.row_count();
        if n <= visible {
            return 0;
        }
        let sel = self.settings_row;
        if sel < visible / 2 {
            0
        } else if sel + visible / 2 >= n {
            n - visible
        } else {
            sel - visible / 2
        }
    }
}

/// Moving within a tab keeps the selection on one of its rows.
pub proof fn lemma_move_row_stays_in_tab(row: int, delta: int, n: int)
    requires
        n > 0,
    ensures
        0 <= moved_row(row, delta, n) < n,
{
}

/// The rows shown start within the list and, when the list is longer than the
/// view, show the selected row and run no further than its end.
pub proof fn lemma_scroll_shows_selection(n: int, sel: int, visible: int)
    requires
        0 <= sel < n,
        visible > 0,
    ensures
        0 <= scroll_start(n, sel, visible),
        n > visible ==> scroll_start(n, sel, visible) + visible <= n,
        n > visible ==> scroll_start(n, sel, visible) <= sel < scroll_start(n, sel, visible)
            + visible,
{
}

/// A number of milliseconds as shown: its decimal digits and " ms".
pub open spec fn ms_text(n: nat) -> Seq<char> {
    decimal_text(n) + " ms"@
}

/// The rows of `tab` as shown: a name and a value each.
pub open spec fn rows_text(s: Settings, tab: SettingsTab) -> Seq<(Seq<char>, Seq<char>)> {
    match tab {
        SettingsTab::Handling => seq![
            ("Preset"@, s.handling_preset.label_text()),
            ("DAS"@, ms_text(s.das_ms as nat)),
            ("ARR"@, ms_text(s.arr_ms as nat)),
            ("SDF"@, if s.sdf_infinite { "INF"@ } else { ms_text(s.sdf_ms as nat) }),
            ("SDF infinite"@, on_off_text(s.sdf_infinite)),
            ("Soft drop points"@, on_off_text(s.soft_drop_points)),
        ],
        SettingsTab::Gameplay => seq![
            ("Start level"@, decimal_text(s.start_level as nat)),
            ("Lines / level"@, decimal_text(s.lines_per_level as nat)),
            ("Lock delay"@, ms_text(s.lock_delay_ms as nat)),
            ("Lock reset max"@, decimal_text(s.lock_resets_max as nat)),
            ("Gravity curve"@, s.gravity.label_text()),
            ("Static gravity"@, ms_text(s.static_gravity_ms as nat)),
            ("Hold"@, on_off_text(s.hold_enabled)),
            ("180° rotate"@, on_off_text(s.allow_180)),
            ("Next queue"@, decimal_text(s.next_count as nat)),
            ("Line clear anim"@, ms_text(s.line_clear_ms as nat)),
        ],
        SettingsTab::Video => seq![
            ("Scale"@, s.scale.label_text()),
            ("Ghost piece"@, on_off_text(s.show_ghost)),
            ("Grid"@, s.grid.label_text()),
            ("Center board"@, on_off_text(s.center)),
            ("Action text"@, on_off_text(s.show_action_text)),
            ("Stats panel"@, on_off_text(s.show_stats)),
            ("Show PPS"@, on_off_text(s.show_pps)),
            ("Show time"@, on_off_text(s.show_time)),
            ("Mino bevel"@, on_off_text(s.mino_bevel)),
            ("Footer help"@, on_off_text(s.show_footer)),
        ],
        SettingsTab::Colors => seq![
            ("Theme"@, s.theme.label_text()),
            ("Reset ALL settings"@, "←→ / Enter"@),
        ],
    }
}

/// The text of each row.
pub open spec fn rows_view(v: Seq<(String, String)>) -> Seq<(Seq<char>, Seq<char>)> {
    v.map_values(|p: (String, String)| (p.0@, p.1@))
}

fn ms_string(n: u64) -> (r: String)
    ensures
        r@ == ms_text(n as nat),
{
    let mut t = decimal(n);
    t.append(" ms");
    t
}

fn push_row(v: &mut Vec<(String, String)>, name: &str, value: String)
    ensures
        rows_view(final(v)@) == rows_view(old(v)@).push((name@, value@)),
{
    let ghost before = v@;
    v.push((String::from_str(name), value));
    assert(rows_view(v@) =~= rows_view(before).push((name@, value@)));
}

fn handling_rows(s: &Settings) -> (r: Vec<(String, String)>)
    ensures
        rows_view(r@) == rows_text(*s, SettingsTab::Handling),
{
    let mut v: Vec<(String, String)> = Vec::new();
    assert(rows_view(v@) =~= Seq::empty());
    push_row(&mut v, "Preset", String::from_str(s.handling_preset.label()));
    push_row(&mut v, "DAS", ms_string(s.das_ms));
    push_row(&mut v, "ARR", ms_string(s.arr_ms));
    let sdf = if s.sdf_infinite {
        String::from_str("INF")
    } else {
        ms_string(s.sdf_ms)
    };
    push_row(&mut v, "SDF", sdf);
    push_row(&mut v, "SDF infinite", String::from_str(on_off(s.sdf_infinite)));
    push_row(&mut v, "Soft drop points", String::from_str(on_off(s.soft_drop_points)));
    assert(rows_view(v@) =~= rows_text(*s, SettingsTab::Handling));
    v
}

fn gameplay_rows(s: &Settings) -> (r: Vec<(String, String)>)
    ensures
        rows_view(r@) == rows_text(*s, SettingsTab::Gameplay),
{
    let mut v: Vec<(String, String)> = Vec::new();
    assert(rows_view(v@) =~= Seq::empty());
    push_row(&mut v, "Start level", decimal(s.start_level as u64));
    push_row(&mut v, "Lines / level", decimal(s.lines_per_level as u64));
    push_row(&mut v, "Lock delay", ms_string(s.lock_delay_ms));
    push_row(&mut v, "Lock reset max", decimal(s.lock_resets_max as u64));
    push_row(&mut v, "Gravity curve", String::from_str(s.gravity.label()));
    push_row(&mut v, "Static gravity", ms_string(s.static_gravity_ms));
    push_row(&mut v, "Hold", String::from_str(on_off(s.hold_enabled)));
    push_row(&mut v, "180° rotate", String::from_str(on_off(s.allow_180)));
    push_row(&mut v, "Next queue", decimal(s.next_count as u64));
    push_row(&mut v, "Line clear anim", ms_string(s.line_clear_ms));
    assert(rows_view(v@) =~= rows_text(*s, SettingsTab::Gameplay));
    v
}

fn video_rows(s: &Settings) -> (r: Vec<(String, String)>)
    ensures
        rows_view(r@) == rows_text(*s, SettingsTab::Video),
{
    let mut v: Vec<(String, String)> = Vec::new();
    assert(rows_view(v@) =~= Seq::empty());
    push_row(&mut v, "Scale", String::from_str(s.scale.label()));
    push_row(&mut v, "Ghost piece", String::from_str(on_off(s.show_ghost)));
    push_row(&mut v, "Grid", String::from_str(s.grid.label()));
    push_row(&mut v, "Center board", String::from_str(on_off(s.center)));
    push_row(&mut v, "Action text", String::from_str(on_off(s.show_action_text)));
    push_row(&mut v, "Stats panel", String::from_str(on_off(s.show_stats)));
    push_row(&mut v, "Show PPS", String::from_str(on_off(s.show_pps)));
    push_row(&mut v, "Show time", String::from_str(on_off(s.show_time)));
    push_row(&mut v, "Mino bevel", String::from_str(on_off(s.mino_bevel)));
    push_row(&mut v, "Footer help", String::from_str(on_off(s.show_footer)));
    assert(rows_view(v@) =~= rows_text(*s, SettingsTab::Video));
    v
}

fn colors_rows(s: &Settings) -> (r: Vec<(String, String)>)
    ensures
        rows_view(r@) == rows_text(*s, SettingsTab::Colors),
{
    let mut v: Vec<(String, String)> = Vec::new();
    assert(rows_view(v@) =~= Seq::empty());
    push_row(&mut v, "Theme", String::from_str(s.theme.label()));
    push_row(&mut v, "Reset ALL settings", String::from_str("←→ / Enter"));
    assert(rows_view(v@) =~= rows_text(*s, SettingsTab::Colors));
    v
}

/// Human-readable rows for the current settings tab.
pub fn settings_rows(settings: &Settings, tab: SettingsTab) -> (r: Vec<(String, String)>)
    ensures
        rows_view(r@) == rows_text(*settings, tab),
{
    match tab {
        SettingsTab::Handling => handling_rows(settings),
        SettingsTab::Gameplay => gameplay_rows(settings),
        SettingsTab::Video => video_rows(settings),
        SettingsTab::Colors => colors_rows(settings),
    }
}

/// Each tab shows as many rows as `row_count` says.
pub proof fn lemma_rows_match_row_count(s: Settings, tab: SettingsTab)
    ensures
        rows_text(s, tab).len() == tab.rows(),
{
}

} // verus!
