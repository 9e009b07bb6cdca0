//! The settings file: `key=value` lines, read leniently and written in full.

use vstd::prelude::*;
use vstd::string::*;
use crate::settings::{
    clamped, lemma_grid_round_trip, lemma_scale_round_trip, spec_default_settings, GridStyle, ScaleMode, Settings};
use crate::text::{
    decimal, decimal_text, eq_ignore_ascii_case, eq_nocase, find_char, index_of, is_white,
    lemma_decimal_digits, lemma_decimal_reads_back, lemma_index_of, lemma_index_of_bounds,
    parse_u64, parse_u64_text, str_eq, trim, trim_end_text, trim_start_text, trim_text,
};
use crate::theme::{lemma_theme_round_trip, ThemeId};

verus! {

/// A switch value: `1`, or `true` in any ASCII case.
pub open spec fn switch_value(v: Seq<char>) -> bool {
    v == "1"@ || eq_nocase(v, "true"@)
}

/// The settings after a `das` entry with value `v`.
pub open spec fn das_entry(s: Settings, v: Seq<char>) -> Settings {
    match parse_u64_text(v) {
        Some(n) => Settings { das_ms: n, ..s },
        None => s,
    }
}

/// The settings after an `arr` entry with value `v`.
pub open spec fn arr_entry(s: Settings, v: Seq<char>) -> Settings {
    match parse_u64_text(v) {
        Some(n) => Settings { arr_ms: n, ..s },
        None => s,
    }
}

/// The settings after a `sdf` entry with value `v`.
pub open spec fn sdf_entry(s: Settings, v: Seq<char>) -> Settings {
    match parse_u64_text(v) {
        Some(n) => Settings { sdf_ms: n, ..s },
        None => s,
    }
}

/// The settings after a `scale` entry with value `v`.
pub open spec fn scale_entry(s: Settings, v: Seq<char>) -> Settings {
    match ScaleMode::parse_text(v) {
        Some(x) => Settings { scale: x, ..s },
        None => s,
    }
}

/// The settings after a `ghost` entry with value `v`.
pub open spec fn ghost_entry(s: Settings, v: Seq<char>) -> Settings {
    Settings { show_ghost: switch_value(v), ..s }
}

/// The settings after a `next` entry with value `v`.
pub open spec fn next_entry(s: Settings, v: Seq<char>) -> Settings {
    match parse_u64_text(v) {
        Some(n) => if n <= usize::MAX {
            Settings { next_count: n as usize, ..s }
        } else {
            s
        },
        None => s,
    }
}

/// The settings after a `grid` entry with value `v`.
pub open spec fn grid_entry(s: Settings, v: Seq<char>) -> Settings {
    match GridStyle::parse_text(v) {
        Some(x) => Settings { grid: x, ..s },
        None => s,
    }
}

/// The settings after a `center` entry with value `v`.
pub open spec fn center_entry(s: Settings, v: Seq<char>) -> Settings {
    Settings { center: switch_value(v), ..s }
}

/// The settings after a `theme` entry with value `v`.
pub open spec fn theme_entry(s: Settings, v: Seq<char>) -> Settings {
    match ThemeId::parse_text(v) {
        Some(x) => Settings { theme: x, ..s },
        None => s,
    }
}

/// The settings after the entry `k=v`; an unknown key, or a value that does
/// not read, changes nothing.
pub open spec fn apply_entry(s: Settings, k: Seq<char>, v: Seq<char>) -> Settings {
    if k == "das"@ {
        das_entry(s, v)
    } else if k == "arr"@ {
        arr_entry(s, v)
    } else if k == "sdf"@ {
        sdf_entry(s, v)
    } else if k == "scale"@ {
        scale_entry(s, v)
    } else if k == "ghost"@ {
        ghost_entry(s, v)
    } else if k == "next"@ {
        next_entry(s, v)
    } else if k == "grid"@ {
        grid_entry(s, v)
    } else if k == "center"@ {
        center_entry(s, v)
    } else if k == "theme"@ {
        theme_entry(s, v)
    } else {
        s
    }
}

/// The settings after one line: blank lines, comments (`#`) and lines without
/// `=` change nothing; else the key before the first `=` and the value after
/// it, each trimmed, make an entry.
pub open spec fn apply_line(s: Settings, line: Seq<char>) -> Settings {
    let l = trim_text(line);
    let e = index_of(l, '=');
    if l.len() == 0 || l[0] == '#' || e >= l.len() {
        s
    } else {
        apply_entry(s, trim_text(l.subrange(0, e)), trim_text(l.subrange(e + 1, l.len() as int)))
    }
}

/// The settings after the text `line + t`, where `line` is the start of a
/// line that `t` goes on with: each line of the text applied in order.
pub open spec fn apply_text(s: Settings, line: Seq<char>, t: Seq<char>) -> Settings
    decreases t.len(),
{
    if t.len() == 0 {
        apply_line(s, line)
    } else if t[0] == '\n' {
        apply_text(apply_line(s, line), Seq::empty(), t.drop_first())
    } else {
        apply_text(s, line.push(t[0]), t.drop_first())
    }
}

/// The settings that a config file's text gives: the defaults, each line of
/// the text applied in order, then clamped.
pub open spec fn parse_config_text(t: Seq<char>) -> Settings {
    clamped(apply_text(spec_default_settings(), Seq::empty(), t))
}

/// One `key=value` line.
pub open spec fn entry_text(k: Seq<char>, v: Seq<char>) -> Seq<char> {
    k + "="@ + v + "\n"@
}

/// The text of a switch: `1` or `0`.
pub open spec fn switch_text(b: bool) -> Seq<char> {
    if b {
        "1"@
    } else {
        "0"@
    }
}

/// The config file written for `s`: a comment line, then one line for each
/// value that the file keeps.
pub open spec fn config_text(s: Settings) -> Seq<char> {
    "# cli-tetris config\n"@ + entry_text("das"@, decimal_text(s.das_ms as nat)) + entry_text(
        "arr"@,
        decimal_text(s.arr_ms as nat),
    ) + entry_text("sdf"@, decimal_text(s.sdf_ms as nat)) + entry_text("scale"@, s.scale.key_text())
        + entry_text("ghost"@, switch_text(s.show_ghost)) + entry_text(
        "next"@,
        decimal_text(s.next_count as nat),
    ) + entry_text("grid"@, s.grid.key_text()) + entry_text("center"@, switch_text(s.center))
        + entry_text("theme"@, s.theme.key_text())
}

/// The keys of the config file are distinct.
proof fn lemma_keys_distinct()
    ensures
        "das"@ != "arr"@,
        "das"@ != "sdf"@,
        "das"@ != "scale"@,
        "das"@ != "ghost"@,
        "das"@ != "next"@,
        "das"@ != "grid"@,
        "das"@ != "center"@,
        "das"@ != "theme"@,
        "arr"@ != "sdf"@,
        "arr"@ != "scale"@,
        "arr"@ != "ghost"@,
        "arr"@ != "next"@,
        "arr"@ != "grid"@,
        "arr"@ != "center"@,
        "arr"@ != "theme"@,
        "sdf"@ != "scale"@,
        "sdf"@ != "ghost"@,
        "sdf"@ != "next"@,
        "sdf"@ != "grid"@,
        "sdf"@ != "center"@,
        "sdf"@ != "theme"@,
        "scale"@ != "ghost"@,
        "scale"@ != "next"@,
        "scale"@ != "grid"@,
        "scale"@ != "center"@,
        "scale"@ != "theme"@,
        "ghost"@ != "next"@,
        "ghost"@ != "grid"@,
        "ghost"@ != "center"@,
        "ghost"@ != "theme"@,
        "next"@ != "grid"@,
        "next"@ != "center"@,
        "next"@ != "theme"@,
        "grid"@ != "center"@,
        "grid"@ != "theme"@,
        "center"@ != "theme"@,
{
    reveal_strlit("das");
    reveal_strlit("arr");
    reveal_strlit("sdf");
    reveal_strlit("scale");
    reveal_strlit("ghost");
    reveal_strlit("next");
    reveal_strlit("grid");
    reveal_strlit("center");
    reveal_strlit("theme");
    assert("das"@.len() != "scale"@.len());
    assert("das"@.len() != "ghost"@.len());
    assert("das"@.len() != "next"@.len());
    assert("das"@.len() != "grid"@.len());
    assert("das"@.len() != "center"@.len());
    assert("das"@.len() != "theme"@.len());
    assert("arr"@.len() != "scale"@.len());
    assert("arr"@.len() != "ghost"@.len());
    assert("arr"@.len() != "next"@.len());
    assert("arr"@.len() != "grid"@.len());
    assert("arr"@.len() != "center"@.len());
    assert("arr"@.len() != "theme"@.len());
    assert("sdf"@.len() != "scale"@.len());
    assert("sdf"@.len() != "ghost"@.len());
    assert("sdf"@.len() != "next"@.len());
    assert("sdf"@.len() != "grid"@.len());
    assert("sdf"@.len() != "center"@.len());
    assert("sdf"@.len() != "theme"@.len());
    assert("scale"@.len() != "next"@.len());
    assert("scale"@.len() != "grid"@.len());
    assert("scale"@.len() != "center"@.len());
    assert("ghost"@.len() != "next"@.len());
    assert("ghost"@.len() != "grid"@.len());
    assert("ghost"@.len() != "center"@.len());
    assert("next"@.len() != "center"@.len());
    assert("next"@.len() != "theme"@.len());
    assert("grid"@.len() != "center"@.len());
    assert("grid"@.len() != "theme"@.len());
    assert("center"@.len() != "theme"@.len());
    assert("das"@[0] != "arr"@[0]);
    assert("das"@[0] != "sdf"@[0]);
    assert("arr"@[0] != "sdf"@[0]);
    assert("scale"@[0] != "ghost"@[0]);
    assert("scale"@[0] != "theme"@[0]);
    assert("ghost"@[0] != "theme"@[0]);
    assert("next"@[0] != "grid"@[0]);
}

fn is_switch_on(v: &str) -> (r: bool)
    ensures
        r == switch_value(v@),
{
    str_eq(v, "1") || eq_ignore_ascii_case(v, "true")
}

fn das_entry_exec(s: Settings, v: &str) -> (r: Settings)
    ensures
        r == das_entry(s, v@),
{
    match parse_u64(v) {
        Some(n) => Settings { das_ms: n, ..s },
        None => s,
    }
}

fn arr_entry_exec(s: Settings, v: &str) -> (r: Settings)
    ensures
        r == arr_entry(s, v@),
{
    match parse_u64(v) {
        Some(n) => Settings { arr_ms: n, ..s },
        None => s,
    }
}

fn sdf_entry_exec(s: Settings, v: &str) -> (r: Settings)
    ensures
        r == sdf_entry(s, v@),
{
    match parse_u64(v) {
        Some(n) => Settings { sdf_ms: n, ..s },
        None => s,
    }
}

fn scale_entry_exec(s: Settings, v: &str) -> (r: Settings)
    ensures
        r == scale_entry(s, v@),
{
    match ScaleMode::from_str(v) {
        Some(x) => Settings { scale: x, ..s },
        None => s,
    }
}

fn ghost_entry_exec(s: Settings, v: &str) -> (r: Settings)
    ensures
        r == ghost_entry(s, v@),
{
    Settings { show_ghost: is_switch_on(v), ..s }
}

fn next_entry_exec(s: Settings, v: &str) -> (r: Settings)
    ensures
        r == next_entry(s, v@),
{
    match parse_u64(v) {
        Some(n) => if (n as u128) <= (usize::MAX as u128) {
            Settings { next_count: n as usize, ..s }
        } else {
            s
        },
        None => s,
    }
}

fn grid_entry_exec(s: Settings, v: &str) -> (r: Settings)
    ensures
        r == grid_entry(s, v@),
{
    match GridStyle::from_str(v) {
        Some(x) => Settings { grid: x, ..s },
        None => s,
    }
}

fn center_entry_exec(s: Settings, v: &str) -> (r: Settings)
    ensures
        r == center_entry(s, v@),
{
    Settings { center: is_switch_on(v), ..s }
}

fn theme_entry_exec(s: Settings, v: &str) -> (r: Settings)
    ensures
        r == theme_entry(s, v@),
{
    match ThemeId::from_str(v) {
        Some(x) => Settings { theme: x, ..s },
        None => s,
    }
}

fn apply_entry_exec(s: Settings, k: &str, v: &str) -> (r: Settings)
    ensures
        r == apply_entry(s, k@, v@),
{
    proof {
        lemma_keys_distinct();
    }
    if str_eq(k, "das") {
        das_entry_exec(s, v)
    } else if str_eq(k, "arr") {
        arr_entry_exec(s, v)
    } else if str_eq(k, "sdf") {
        sdf_entry_exec(s, v)
    } else if str_eq(k, "scale") {
        scale_entry_exec(s, v)
    } else if str_eq(k, "ghost") {
        ghost_entry_exec(s, v)
    } else if str_eq(k, "next") {
        next_entry_exec(s, v)
    } else if str_eq(k, "grid") {
        grid_entry_exec(s, v)
    } else if str_eq(k, "center") {
        center_entry_exec(s, v)
    } else if str_eq(k, "theme") {
        theme_entry_exec(s, v)
    } else {
        s
    }
}

fn apply_line_exec(s: Settings, line: &str) -> (r: Settings)
    ensures
        r == apply_line(s, line@),
{
    let l = trim(line);
    let n = l.unicode_len();
    if n == 0 {
        return s;
    }
    if l.get_char(0) == '#' {
        return s;
    }
    let e = find_char(l, '=');
    proof {
        lemma_index_of_bounds(l@, '=');
    }
    if e >= n {
        return s;
    }
    let k = trim(l.substring_char(0, e));
    let v = trim(l.substring_char(e + 1, n));
    apply_entry_exec(s, k, v)
}

impl Settings {
    /// The settings that the text of a config file gives: each `key=value`
    /// line read over the defaults, then clamped.
    pub fn from_config_text(text: &str) -> (r: Settings)
        ensures
            r == parse_config_text(text@),
    {
        let n = text.unicode_len();
        let mut s = Settings::default();
        let mut start: usize = 0;
        let mut i: usize = 0;
        assert(text@.subrange(0, 0) =~= Seq::<char>::empty());
        assert(text@.subrange(0, n as int) =~= text@);
        while i < n
            invariant
                n == text@.len(),
                start <= i <= n,
                apply_text(spec_default_settings(), Seq::empty(), text@) == apply_text(
                    s,
                    text@.subrange(start as int, i as int),
                    text@.subrange(i as int, n as int),
                ),
            decreases n - i,
        {
            let ghost line = text@.subrange(start as int, i as int);
            let ghost rest = text@.subrange(i as int, n as int);
            assert(rest[0] == text@[i as int]);
            assert(rest.drop_first() =~= text@.subrange(i + 1, n as int));
            if text.get_char(i) == '\n' {
                let l = text.substring_char(start, i);
                s = apply_line_exec(s, l);
                start = i + 1;
                assert(text@.subrange(start as int, start as int) =~= Seq::<char>::empty());
            } else {
                assert(line.push(text@[i as int]) =~= text@.subrange(start as int, i + 1));
            }
            i = i + 1;
        }
        let l = text.substring_char(start, n);
        s = apply_line_exec(s, l);
        s.clamp();
        s
    }

    /// The text of the config file that keeps these settings.
    pub fn to_config_text(&self) -> (r: String)
        ensures
            r@ == config_text(*self),
    {
        let mut t = String::from_str("# cli-tetris config\n");
        push_entry(&mut t, "das", decimal(self.das_ms).as_str());
        push_entry(&mut t, "arr", decimal(self.arr_ms).as_str());
        push_entry(&mut t, "sdf", decimal(self.sdf_ms).as_str());
        push_entry(&mut t, "scale", self.scale.as_str());
        push_entry(&mut t, "ghost", switch_str(self.show_ghost));
        push_entry(&mut t, "next", decimal(self.next_count as u64).as_str());
        push_entry(&mut t, "grid", self.grid.as_str());
        push_entry(&mut t, "center", switch_str(self.center));
        push_entry(&mut t, "theme", self.theme.as_str());
        t
    }
}

fn switch_str(b: bool) -> (r: &'static str)
    ensures
        r@ == switch_text(b),
{
    if b {
        "1"
    } else {
        "0"
    }
}

fn push_entry(t: &mut String, k: &str, v: &str)
    ensures
        final(t)@ == old(t)@ + entry_text(k@, v@),
{
    let ghost t0 = t@;
    t.append(k);
    t.append("=");
    t.append(v);
    t.append("\n");
    assert(t@ =~= t0 + entry_text(k@, v@));
}

/// A text that holds no white space, no `=` and no line break.
pub open spec fn plain(t: Seq<char>) -> bool {
    forall|i: int| 0 <= i < t.len() ==> !is_white(#[trigger] t[i]) && t[i] != '=' && t[i] != '\n'
}

proof fn lemma_trim_plain(t: Seq<char>)
    requires
        plain(t),
    ensures
        trim_text(t) == t,
{
    if t.len() > 0 {
        assert(!is_white(t[0]));
        assert(trim_start_text(t) == t);
        assert(!is_white(t[t.len() - 1]));
        assert(trim_end_text(t) == t);
    } else {
        assert(trim_start_text(t) == t);
        assert(trim_end_text(t) == t);
    }
}

/// Reading `prefix + l + "\n" + rest`, where `l` holds no line break, reads the
/// line `prefix + l` and then goes on with `rest`.
proof fn lemma_apply_text_line(s: Settings, prefix: Seq<char>, l: Seq<char>, rest: Seq<char>)
    requires
        forall|i: int| 0 <= i < l.len() ==> #[trigger] l[i] != '\n',
    ensures
        apply_text(s, prefix, l + "\n"@ + rest) == apply_text(
            apply_line(s, prefix + l),
            Seq::empty(),
            rest,
        ),
    decreases l.len(),
{
    reveal_strlit("\n");
    let t = l + "\n"@ + rest;
    if l.len() == 0 {
        assert(t[0] == '\n');
        assert(t.drop_first() =~= rest);
        assert(prefix + l =~= prefix);
    } else {
        assert(t[0] == l[0]);
        let l2 = l.drop_first();
        assert(t.drop_first() =~= l2 + "\n"@ + rest);
        assert forall|i: int| 0 <= i < l2.len() implies #[trigger] l2[i] != '\n' by {
            assert(l2[i] == l[i + 1]);
        }
        lemma_apply_text_line(s, prefix.push(l[0]), l2, rest);
        assert(prefix.push(l[0]) + l2 =~= prefix + l);
    }
}

/// A line `k=v` of plain texts, `k` not empty and not a comment, is the entry
/// `k=v`.
proof fn lemma_apply_entry_line(s: Settings, k: Seq<char>, v: Seq<char>)
    requires
        plain(k),
        plain(v),
        k.len() > 0,
        k[0] != '#',
    ensures
        apply_line(s, k + "="@ + v) == apply_entry(s, k, v),
{
    reveal_strlit("=");
    let l = k + "="@ + v;
    assert(l[k.len() as int] == '=');
    assert forall|i: int| 0 <= i < l.len() implies !is_white(#[trigger] l[i]) by {
        if i < k.len() {
            assert(l[i] == k[i]);
        } else if i > k.len() {
            assert(l[i] == v[i - k.len() - 1]);
        }
    }
    assert(trim_start_text(l) == l) by {
        assert(!is_white(l[0]));
    }
    assert(trim_end_text(l) == l) by {
        assert(!is_white(l[l.len() - 1]));
    }
    assert forall|i: int| 0 <= i < k.len() implies #[trigger] l[i] != '=' by {
        assert(l[i] == k[i]);
    }
    lemma_index_of(l, '=', k.len() as int);
    assert(l.subrange(0, k.len() as int) =~= k);
    assert(l.subrange(k.len() as int + 1, l.len() as int) =~= v);
    lemma_trim_plain(k);
    lemma_trim_plain(v);
}

/// Reading the line `k=v` and then `rest` is the entry `k=v`, then `rest`.
proof fn lemma_read_entry(s: Settings, k: Seq<char>, v: Seq<char>, rest: Seq<char>)
    requires
        plain(k),
        plain(v),
        k.len() > 0,
        k[0] != '#',
    ensures
        apply_text(s, Seq::empty(), entry_text(k, v) + rest) == apply_text(
            apply_entry(s, k, v),
            Seq::empty(),
            rest,
        ),
{
    reveal_strlit("=");
    let l = k + "="@ + v;
    assert forall|i: int| 0 <= i < l.len() implies #[trigger] l[i] != '\n' by {
        if i < k.len() {
            assert(l[i] == k[i]);
        } else if i > k.len() {
            assert(l[i] == v[i - k.len() - 1]);
        }
    }
    assert(entry_text(k, v) + rest =~= l + "\n"@ + rest);
    lemma_apply_text_line(s, Seq::empty(), l, rest);
    assert(Seq::<char>::empty() + l =~= l);
    lemma_apply_entry_line(s, k, v);
}

proof fn lemma_decimal_plain(n: nat)
    ensures
        plain(decimal_text(n)),
        n <= u64::MAX ==> parse_u64_text(decimal_text(n)) == Some(n as u64),
{
    lemma_decimal_digits(n);
    if n <= u64::MAX {
        lemma_decimal_reads_back(n as u64);
    }
}

proof fn lemma_key_plain(t: Seq<char>)
    requires
        t.len() > 0,
        forall|i: int| 0 <= i < t.len() ==> 'a' <= #[trigger] t[i] <= 'z' || '0' <= t[i] <= '9',
    ensures
        plain(t),
        t[0] != '#',
{
}

proof fn lemma_values_plain(s: Settings)
    ensures
        plain(s.scale.key_text()),
        plain(s.grid.key_text()),
        plain(s.theme.key_text()),
        plain(switch_text(s.show_ghost)),
        plain(switch_text(s.center)),
        switch_value(switch_text(s.show_ghost)) == s.show_ghost,
        switch_value(switch_text(s.center)) == s.center,
{
    reveal_strlit("auto");
    reveal_strlit("1");
    reveal_strlit("2");
    reveal_strlit("3");
    reveal_strlit("4");
    reveal_strlit("0");
    reveal_strlit("true");
    reveal_strlit("checker");
    reveal_strlit("flat");
    reveal_strlit("off");
    reveal_strlit("terminal");
    reveal_strlit("guideline");
    reveal_strlit("catppuccin");
    reveal_strlit("dracula");
    reveal_strlit("nord");
    reveal_strlit("gruvbox");
    reveal_strlit("monochrome");
    lemma_key_plain(s.scale.key_text());
    lemma_key_plain(s.grid.key_text());
    lemma_key_plain(s.theme.key_text());
    lemma_key_plain(switch_text(s.show_ghost));
    lemma_key_plain(switch_text(s.center));
    assert("0"@ != "1"@) by {
        assert("0"@[0] != "1"@[0]);
    }
}

/// The settings that the config file keeps: those of `s` that it writes, the
/// defaults for the rest.
pub open spec fn kept_settings(s: Settings) -> Settings {
    Settings {
        das_ms: s.das_ms,
        arr_ms: s.arr_ms,
        sdf_ms: s.sdf_ms,
        scale: s.scale,
        show_ghost: s.show_ghost,
        next_count: s.next_count,
        grid: s.grid,
        center: s.center,
        theme: s.theme,
        ..spec_default_settings()
    }
}

proof fn lemma_read_das(s: Settings, x: u64, rest: Seq<char>)
    ensures
        apply_text(s, Seq::empty(), entry_text("das"@, decimal_text(x as nat)) + rest) == apply_text(
            Settings { das_ms: x, ..s },
            Seq::empty(),
            rest,
        ),
{
    reveal_strlit("das");
    lemma_keys_distinct();
    lemma_key_plain("das"@);
    lemma_decimal_plain(x as nat);
    lemma_read_entry(s, "das"@, decimal_text(x as nat), rest);
}

proof fn lemma_read_arr(s: Settings, x: u64, rest: Seq<char>)
    ensures
        apply_text(s, Seq::empty(), entry_text("arr"@, decimal_text(x as nat)) + rest) == apply_text(
            Settings { arr_ms: x, ..s },
            Seq::empty(),
            rest,
        ),
{
    reveal_strlit("arr");
    lemma_keys_distinct();
    lemma_key_plain("arr"@);
    lemma_decimal_plain(x as nat);
    lemma_read_entry(s, "arr"@, decimal_text(x as nat), rest);
}

proof fn lemma_read_sdf(s: Settings, x: u64, rest: Seq<char>)
    ensures
        apply_text(s, Seq::empty(), entry_text("sdf"@, decimal_text(x as nat)) + rest) == apply_text(
            Settings { sdf_ms: x, ..s },
            Seq::empty(),
            rest,
        ),
{
    reveal_strlit("sdf");
    lemma_keys_distinct();
    lemma_key_plain("sdf"@);
    lemma_decimal_plain(x as nat);
    lemma_read_entry(s, "sdf"@, decimal_text(x as nat), rest);
}

proof fn lemma_read_scale(s: Settings, x: ScaleMode, rest: Seq<char>)
    ensures
        apply_text(s, Seq::empty(), entry_text("scale"@, x.key_text()) + rest) == apply_text(
            Settings { scale: x, ..s },
            Seq::empty(),
            rest,
        ),
{
    reveal_strlit("scale");
    lemma_keys_distinct();
    lemma_key_plain("scale"@);
    lemma_scale_round_trip(x);
    lemma_values_plain(Settings { scale: x, ..s });
    lemma_read_entry(s, "scale"@, x.key_text(), rest);
}

proof fn lemma_read_ghost(s: Settings, x: bool, rest: Seq<char>)
    ensures
        apply_text(s, Seq::empty(), entry_text("ghost"@, switch_text(x)) + rest) == apply_text(
            Settings { show_ghost: x, ..s },
            Seq::empty(),
            rest,
        ),
{
    reveal_strlit("ghost");
    lemma_keys_distinct();
    lemma_key_plain("ghost"@);
    lemma_values_plain(Settings { show_ghost: x, ..s });
    lemma_read_entry(s, "ghost"@, switch_text(x), rest);
}

proof fn lemma_read_next(s: Settings, x: usize, rest: Seq<char>)
    ensures
        apply_text(s, Seq::empty(), entry_text("next"@, decimal_text(x as nat)) + rest) == apply_text(
            Settings { next_count: x, ..s },
            Seq::empty(),
            rest,
        ),
{
    reveal_strlit("next");
    lemma_keys_distinct();
    lemma_key_plain("next"@);
    lemma_decimal_plain(x as nat);
    lemma_read_entry(s, "next"@, decimal_text(x as nat), rest);
}

proof fn lemma_read_grid(s: Settings, x: GridStyle, rest: Seq<char>)
    ensures
        apply_text(s, Seq::empty(), entry_text("grid"@, x.key_text()) + rest) == apply_text(
            Settings { grid: x, ..s },
            Seq::empty(),
            rest,
        ),
{
    reveal_strlit("grid");
    lemma_keys_distinct();
    lemma_key_plain("grid"@);
    lemma_grid_round_trip(x);
    lemma_values_plain(Settings { grid: x, ..s });
    lemma_read_entry(s, "grid"@, x.key_text(), rest);
}

proof fn lemma_read_center(s: Settings, x: bool, rest: Seq<char>)
    ensures
        apply_text(s, Seq::empty(), entry_text("center"@, switch_text(x)) + rest) == apply_text(
            Settings { center: x, ..s },
            Seq::empty(),
            rest,
        ),
{
    reveal_strlit("center");
    lemma_keys_distinct();
    lemma_key_plain("center"@);
    lemma_values_plain(Settings { center: x, ..s });
    lemma_read_entry(s, "center"@, switch_text(x), rest);
}

proof fn lemma_read_theme(s: Settings, x: ThemeId, rest: Seq<char>)
    ensures
        apply_text(s, Seq::empty(), entry_text("theme"@, x.key_text()) + rest) == apply_text(
            Settings { theme: x, ..s },
            Seq::empty(),
            rest,
        ),
{
    reveal_strlit("theme");
    lemma_keys_distinct();
    lemma_key_plain("theme"@);
    lemma_theme_round_trip(x);
    lemma_values_plain(Settings { theme: x, ..s });
    lemma_read_entry(s, "theme"@, x.key_text(), rest);
}

/// Reading back a written config file gives the values it keeps, clamped, and
/// the defaults for the others.
pub proof fn lemma_config_round_trip(s: Settings)
    ensures
        parse_config_text(config_text(s)) == clamped(kept_settings(s)),
{
    let d = spec_default_settings();
    let c = "# cli-tetris config"@;
    reveal_strlit("# cli-tetris config");
    reveal_strlit("# cli-tetris config\n");
    reveal_strlit("\n");
    let e1 = entry_text("das"@, decimal_text(s.das_ms as nat));
    let e2 = entry_text("arr"@, decimal_text(s.arr_ms as nat));
    let e3 = entry_text("sdf"@, decimal_text(s.sdf_ms as nat));
    let e4 = entry_text("scale"@, s.scale.key_text());
    let e5 = entry_text("ghost"@, switch_text(s.show_ghost));
    let e6 = entry_text("next"@, decimal_text(s.next_count as nat));
    let e7 = entry_text("grid"@, s.grid.key_text());
    let e8 = entry_text("center"@, switch_text(s.center));
    let e9 = entry_text("theme"@, s.theme.key_text());
    let empty = Seq::<char>::empty();
    let r9 = e9 + empty;
    let r8 = e8 + r9;
    let r7 = e7 + r8;
    let r6 = e6 + r7;
    let r5 = e5 + r6;
    let r4 = e4 + r5;
    let r3 = e3 + r4;
    let r2 = e2 + r3;
    let r1 = e1 + r2;
    assert(config_text(s) =~= c + "\n"@ + r1);
    // The comment line changes nothing.
    assert forall|i: int| 0 <= i < c.len() implies #[trigger] c[i] != '\n' by {}
    lemma_apply_text_line(d, empty, c, r1);
    assert(empty + c =~= c);
    assert(trim_start_text(c) == c) by {
        assert(!is_white(c[0]));
    }
    assert(trim_end_text(c) == c) by {
        assert(!is_white(c[c.len() - 1]));
    }
    assert(apply_line(d, c) == d);
    // Each entry sets its value.
    let s1 = Settings { das_ms: s.das_ms, ..d };
    let s2 = Settings { arr_ms: s.arr_ms, ..s1 };
    let s3 = Settings { sdf_ms: s.sdf_ms, ..s2 };
    let s4 = Settings { scale: s.scale, ..s3 };
    let s5 = Settings { show_ghost: s.show_ghost, ..s4 };
    let s6 = Settings { next_count: s.next_count, ..s5 };
    let s7 = Settings { grid: s.grid, ..s6 };
    let s8 = Settings { center: s.center, ..s7 };
    let s9 = Settings { theme: s.theme, ..s8 };
    lemma_read_das(d, s.das_ms, r2);
    lemma_read_arr(s1, s.arr_ms, r3);
    lemma_read_sdf(s2, s.sdf_ms, r4);
    lemma_read_scale(s3, s.scale, r5);
    lemma_read_ghost(s4, s.show_ghost, r6);
    lemma_read_next(s5, s.next_count, r7);
    lemma_read_grid(s6, s.grid, r8);
    lemma_read_center(s7, s.center, r9);
    lemma_read_theme(s8, s.theme, empty);
    assert(apply_text(s9, empty, empty) == s9) by {
        assert(trim_start_text(empty) == empty);
        assert(trim_end_text(empty) == empty);
    }
    assert(s9 == kept_settings(s));
}

} // verus!
