//! Startup configuration: command-line switches, environment flags, and the
//! window diagnostic printed at launch.
use vstd::prelude::*;
use crate::text::{
    decimal, digit_char, trimmed, has_prefix, chars_of, trim_chars, chars_are, chars_start_with, string_of_chars,
};

verus! {

/// Whether the asset server reads raw or processed assets.
#[derive(Clone, Copy, Debug, PartialEq, Eq, Structural)]
pub enum AssetMode {
    Unprocessed,
    Processed,
}

impl AssetMode {
    pub open spec fn spec_label(self) -> Seq<char> {
        match self {
            AssetMode::Unprocessed => "unprocessed"@,
            AssetMode::Processed => "processed"@,
        }
    }

    /// The mode's name.
    pub fn label(self) -> (r: &'static str)
        ensures
            r@ == self.spec_label(),
    {
        match self {
            AssetMode::Unprocessed => "unprocessed",
            AssetMode::Processed => "processed",
        }
    }
}

impl Default for AssetMode {
    fn default() -> (r: AssetMode)
        ensures
            r == AssetMode::Unprocessed,
    {
        AssetMode::Unprocessed
    }
}

/// The graphics back-end profile asked for.
#[derive(Clone, Copy, Debug, PartialEq, Eq, Structural)]
pub enum RenderProfile {
    Compatibility,
    Functionality,
    WebGl2,
    Gl,
}

impl RenderProfile {
    pub open spec fn spec_label(self) -> Seq<char> {
        match self {
            RenderProfile::Compatibility => "compatibility"@,
            RenderProfile::Functionality => "functionality"@,
            RenderProfile::WebGl2 => "webgl2"@,
            RenderProfile::Gl => "gl"@,
        }
    }

    /// The profile's name.
    pub fn label(self) -> (r: &'static str)
        ensures
            r@ == self.spec_label(),
    {
        match self {
            RenderProfile::Compatibility => "compatibility",
            RenderProfile::Functionality => "functionality",
            RenderProfile::WebGl2 => "webgl2",
            RenderProfile::Gl => "gl",
        }
    }
}

/// The windowing back end forced on the command line.
#[derive(Clone, Copy, Debug, PartialEq, Eq, Structural)]
pub enum WindowBackend {
    X11,
    Wayland,
}

impl WindowBackend {
    pub open spec fn spec_label(self) -> Seq<char> {
        match self {
            WindowBackend::X11 => "x11"@,
            WindowBackend::Wayland => "wayland"@,
        }
    }

    /// The value the windowing library reads for this back end.
    pub fn winit_value(self) -> (r: &'static str)
        ensures
            r@ == self.spec_label(),
    {
        match self {
            WindowBackend::X11 => "x11",
            WindowBackend::Wayland => "wayland",
        }
    }

    /// The back end's name.
    pub fn label(self) -> (r: &'static str)
        ensures
            r@ == self.spec_label(),
    {
        self.winit_value()
    }
}

/// ASCII upper case letters turned to lower case; every other character
/// kept.
pub open spec fn ascii_lower(c: char) -> char {
    if 'A' <= c && c <= 'Z' {
        ((c as u32) + 32) as char
    } else {
        c
    }
}

/// A text with its ASCII letters lowered.
pub open spec fn lowered(s: Seq<char>) -> Seq<char> {
    s.map_values(|c: char| ascii_lower(c))
}

fn lower_char(c: char) -> (r: char)
    ensures
        r == ascii_lower(c),
{
    if 'A' <= c && c <= 'Z' {
        let b = (c as u8) + 32;
        b as char
    } else {
        c
    }
}

/// The characters of `v` with their ASCII letters lowered.
pub fn lower_chars(v: &Vec<char>) -> (r: Vec<char>)
    ensures
        r@ == lowered(v@),
{
    let mut r: Vec<char> = Vec::new();
    let mut i: usize = 0;
    while i < v.len()
        invariant
            i <= v@.len(),
            r@ == lowered(v@.take(i as int)),
        decreases v@.len() - i,
    {
        r.push(lower_char(v[i]));
        i += 1;
        proof {
            assert(lowered(v@.take(i as int)) =~= lowered(v@.take(i - 1)).push(ascii_lower(v@[i - 1])));
        }
    }
    proof {
        assert(v@.take(v@.len() as int) =~= v@);
    }
    r
}

/// A decimal digit.
pub open spec fn is_digit(c: char) -> bool {
    '0' <= c && c <= '9'
}

/// The value of the decimal digits `s`.
pub open spec fn digits_value(s: Seq<char>) -> int
    decreases s.len(),
{
    if s.len() == 0 {
        0
    } else {
        digits_value(s.drop_last()) * 10 + ((s.last() as int) - 48)
    }
}

/// What `u32::from_str` gives for `s`: an optional `+` and then one or more
/// decimal digits whose value fits, or else no number.
/// The digits of a number: the text without a leading `+`.
pub open spec fn number_body(s: Seq<char>) -> Seq<char> {
    if s.len() > 0 && s[0] == '+' {
        s.drop_first()
    } else {
        s
    }
}

/// Every character of `s` is a decimal digit.
pub open spec fn all_digits(s: Seq<char>) -> bool {
    forall|i: int| 0 <= i < s.len() ==> is_digit(#[trigger] s[i])
}

pub open spec fn spec_parse_u32(s: Seq<char>) -> Option<u32> {
    let body = number_body(s);
    if body.len() > 0 && all_digits(body) && digits_value(body) <= u32::MAX {
        Some(digits_value(body) as u32)
    } else {
        None
    }
}

proof fn lemma_digits_grow(s: Seq<char>, i: int)
    requires
        0 <= i <= s.len(),
        forall|k: int| 0 <= k < s.len() ==> is_digit(#[trigger] s[k]),
    ensures
        digits_value(s.take(i)) <= digits_value(s),
        digits_value(s.take(i)) >= 0,
    decreases s.len(),
{
    if s.len() > 0 {
        let d = s.drop_last();
        if i == s.len() {
            assert(s.take(i) =~= s);
            lemma_digits_grow(d, d.len() as int);
            assert(d.take(d.len() as int) =~= d);
        } else {
            lemma_digits_grow(d, i);
            assert(d.take(i) =~= s.take(i));
            lemma_digits_grow(d, d.len() as int);
            assert(d.take(d.len() as int) =~= d);
        }
    } else {
        assert(s.take(i) =~= s);
    }
}

/// Reads an unsigned 32-bit number as `u32::from_str` does.
pub fn parse_u32(s: &Vec<char>) -> (r: Option<u32>)
    ensures
        r == spec_parse_u32(s@),
{
    let mut start: usize = 0;
    if s.len() > 0 && s[0] == '+' {
        start = 1;
    }
    let ghost body = number_body(s@);
    proof {
        assert(body =~= s@.subrange(start as int, s@.len() as int));
    }
    if start >= s.len() {
        return None;
    }
    let mut value: u32 = 0;
    let mut i: usize = start;
    while i < s.len()
        invariant
            body == s@.subrange(start as int, s@.len() as int),
            body == number_body(s@),
            start <= i <= s@.len(),
            start < s@.len(),
            forall|k: int| start <= k < i ==> is_digit(#[trigger] s@[k]),
            value == digits_value(s@.subrange(start as int, i as int)),
        decreases s@.len() - i,
    {
        let c = s[i];
        if !('0' <= c && c <= '9') {
            proof {
                assert(body[i - start] == s@[i as int]);
                assert(!is_digit(body[i - start]));
                assert(!all_digits(body));
            }
            return None;
        }
        let d = (c as u32) - 48;
        proof {
            let t = s@.subrange(start as int, i + 1);
            assert(t.drop_last() =~= s@.subrange(start as int, i as int));
            assert(t.last() == c);
            assert(digits_value(t) == value * 10 + d);
        }
        let grown = match value.checked_mul(10) {
            Some(v) => v.checked_add(d),
            None => None,
        };
        match grown {
            Some(v) => {
                value = v;
            },
            None => {
                proof {
                    let t = s@.subrange(start as int, i + 1);
                    assert(value * 10 + d > u32::MAX);
                    if all_digits(body) {
                        lemma_digits_grow(body, i + 1 - start);
                        assert(body.take(i + 1 - start) =~= t);
                        assert(digits_value(body) > u32::MAX);
                    }
                }
                return None;
            },
        }
        i += 1;
    }
    proof {
        assert(s@.subrange(start as int, i as int) =~= body);
        assert forall|k: int| 0 <= k < body.len() implies is_digit(#[trigger] body[k]) by {
            assert(body[k] == s@[start + k]);
        }
        assert(all_digits(body));
    }
    Some(value)
}

/// Smoke-test frames from a setting: a number clamped to `1..=600`, or 12
/// when the setting is missing or not a number.
pub open spec fn spec_smoke_frames(value: Option<Seq<char>>) -> u32 {
    match value {
        Some(v) => match spec_parse_u32(trimmed(v)) {
            Some(n) => if n < 1 {
                1
            } else if n > 600 {
                600
            } else {
                n
            },
            None => 12,
        },
        None => 12,
    }
}

/// Smoke-test frames from a setting.
pub fn parse_smoke_frames(value: Option<&str>) -> (r: u32)
    ensures
        r == spec_smoke_frames(match value {
            Some(v) => Some(v@),
            None => None,
        }),
{
    match value {
        Some(v) => {
            let c = chars_of(v);
            let t = trim_chars(&c);
            match parse_u32(&t) {
                Some(n) => if n < 1 {
                    1
                } else if n > 600 {
                    600
                } else {
                    n
                },
                None => 12,
            }
        },
        None => 12,
    }
}

/// The asset mode a setting asks for: processed for "processed",
/// "processor", "imported" or "imported_assets" in any ASCII case and with
/// surrounding white space; unprocessed otherwise.
pub open spec fn spec_asset_mode(value: Option<Seq<char>>) -> AssetMode {
    match value {
        Some(v) => {
            let l = lowered(trimmed(v));
            if l == "processed"@ || l == "processor"@ || l == "imported"@ || l == "imported_assets"@ {
                AssetMode::Processed
            } else {
                AssetMode::Unprocessed
            }
        },
        None => AssetMode::Unprocessed,
    }
}

/// The asset mode a setting asks for.
pub fn parse_asset_mode(value: Option<&str>) -> (r: AssetMode)
    ensures
        r == spec_asset_mode(match value {
            Some(v) => Some(v@),
            None => None,
        }),
{
    match value {
        Some(v) => {
            let c = chars_of(v);
            let t = trim_chars(&c);
            let l = lower_chars(&t);
            if chars_are(&l, "processed") || chars_are(&l, "processor") || chars_are(&l, "imported")
                || chars_are(&l, "imported_assets") {
                AssetMode::Processed
            } else {
                AssetMode::Unprocessed
            }
        },
        None => AssetMode::Unprocessed,
    }
}

/// The render profile a setting asks for, by its aliases in any ASCII case.
pub open spec fn spec_render_profile(value: Option<Seq<char>>) -> Option<RenderProfile> {
    match value {
        Some(v) => {
            let l = lowered(trimmed(v));
            if l == "compat"@ || l == "compatibility"@ || l == "stable"@ || l == "safe"@ || l
                == "conservative"@ {
                Some(RenderProfile::Compatibility)
            } else if l == "functionality"@ || l == "full"@ || l == "high"@ {
                Some(RenderProfile::Functionality)
            } else if l == "webgl2"@ || l == "webgl"@ {
                Some(RenderProfile::WebGl2)
            } else if l == "gl"@ || l == "gles"@ || l == "opengl"@ {
                Some(RenderProfile::Gl)
            } else {
                None
            }
        },
        None => None,
    }
}

/// The render profile a setting asks for.
pub fn parse_render_profile(value: Option<&str>) -> (r: Option<RenderProfile>)
    ensures
        r == spec_render_profile(match value {
            Some(v) => Some(v@),
            None => None,
        }),
{
    match value {
        Some(v) => {
            let c = chars_of(v);
            let t = trim_chars(&c);
            let l = lower_chars(&t);
            if chars_are(&l, "compat") || chars_are(&l, "compatibility") || chars_are(&l, "stable")
                || chars_are(&l, "safe") || chars_are(&l, "conservative") {
                Some(RenderProfile::Compatibility)
            } else if chars_are(&l, "functionality") || chars_are(&l, "full") || chars_are(
                &l,
                "high",
            ) {
                Some(RenderProfile::Functionality)
            } else if chars_are(&l, "webgl2") || chars_are(&l, "webgl") {
                Some(RenderProfile::WebGl2)
            } else if chars_are(&l, "gl") || chars_are(&l, "gles") || chars_are(&l, "opengl") {
                Some(RenderProfile::Gl)
            } else {
                None
            }
        },
        None => None,
    }
}

/// The switches given on the command line; `None` where a switch was not
/// given.
#[derive(Clone, Copy, Debug, PartialEq, Eq, Structural)]
pub struct CliArgs {
    pub audio_enabled: Option<bool>,
    pub debug_visuals: Option<bool>,
    pub headless_smoke: Option<bool>,
    pub remote_enabled: Option<bool>,
    pub smoke_frames: Option<u32>,
    pub asset_mode: Option<AssetMode>,
    pub render_profile: Option<RenderProfile>,
    pub window_backend: Option<WindowBackend>,
}

impl CliArgs {
    pub open spec fn spec_empty() -> CliArgs {
        CliArgs {
            audio_enabled: None,
            debug_visuals: None,
            headless_smoke: None,
            remote_enabled: None,
            smoke_frames: None,
            asset_mode: None,
            render_profile: None,
            window_backend: None,
        }
    }
}

impl Default for CliArgs {
    fn default() -> (r: CliArgs)
        ensures
            r == CliArgs::spec_empty(),
    {
        CliArgs {
            audio_enabled: None,
            debug_visuals: None,
            headless_smoke: None,
            remote_enabled: None,
            smoke_frames: None,
            asset_mode: None,
            render_profile: None,
            window_backend: None,
        }
    }
}

/// The switches after reading one more argument, trimmed: the flags set
/// their switch, and `--smoke-frames=`, `--asset-mode=` and
/// `--render-profile=` read the value after the `=`. Anything else is
/// ignored.
pub open spec fn spec_parse_arg(arg: Seq<char>, p: CliArgs) -> CliArgs {
    let t = trimmed(arg);
    if t == "--audio"@ {
        CliArgs { audio_enabled: Some(true), ..p }
    } else if t == "--no-audio"@ || t == "--mute"@ {
        CliArgs { audio_enabled: Some(false), ..p }
    } else if t == "--debug-gizmos"@ {
        CliArgs { debug_visuals: Some(true), ..p }
    } else if t == "--no-debug-gizmos"@ {
        CliArgs { debug_visuals: Some(false), ..p }
    } else if t == "--headless-smoke"@ {
        CliArgs { headless_smoke: Some(true), ..p }
    } else if t == "--windowed"@ {
        CliArgs { headless_smoke: Some(false), ..p }
    } else if t == "--remote"@ {
        CliArgs { remote_enabled: Some(true), ..p }
    } else if t == "--no-remote"@ {
        CliArgs { remote_enabled: Some(false), ..p }
    } else if t == "--x11"@ {
        CliArgs { window_backend: Some(WindowBackend::X11), ..p }
    } else if t == "--wayland"@ {
        CliArgs { window_backend: Some(WindowBackend::Wayland), ..p }
    } else if has_prefix(t, "--smoke-frames="@) {
        CliArgs {
            smoke_frames: Some(spec_smoke_frames(Some(t.subrange(15, t.len() as int)))),
            ..p
        }
    } else if has_prefix(t, "--asset-mode="@) {
        CliArgs { asset_mode: Some(spec_asset_mode(Some(t.subrange(13, t.len() as int)))), ..p }
    } else if has_prefix(t, "--render-profile="@) {
        CliArgs { render_profile: spec_render_profile(Some(t.subrange(17, t.len() as int))), ..p }
    } else {
        p
    }
}

fn chars_after(v: &Vec<char>, start: usize) -> (r: String)
    requires
        start <= v@.len(),
    ensures
        r@ == v@.subrange(start as int, v@.len() as int),
{
    let mut rest: Vec<char> = Vec::new();
    let mut i: usize = start;
    while i < v.len()
        invariant
            start <= i <= v@.len(),
            rest@ == v@.subrange(start as int, i as int),
        decreases v@.len() - i,
    {
        rest.push(v[i]);
        i += 1;
        proof {
            assert(rest@ =~= v@.subrange(start as int, i as int));
        }
    }
    string_of_chars(&rest)
}

/// Reads one command-line argument into `parsed`.
pub fn parse_cli_arg(arg: &str, parsed: &mut CliArgs)
    ensures
        *final(parsed) == spec_parse_arg(arg@, *old(parsed)),
{
    let c = chars_of(arg);
    let t = trim_chars(&c);
    proof {
        reveal_strlit("--smoke-frames=");
        reveal_strlit("--asset-mode=");
        reveal_strlit("--render-profile=");
    }
    if chars_are(&t, "--audio") {
        parsed.audio_enabled = Some(true);
    } else if chars_are(&t, "--no-audio") || chars_are(&t, "--mute") {
        parsed.audio_enabled = Some(false);
    } else if chars_are(&t, "--debug-gizmos") {
        parsed.debug_visuals = Some(true);
    } else if chars_are(&t, "--no-debug-gizmos") {
        parsed.debug_visuals = Some(false);
    } else if chars_are(&t, "--headless-smoke") {
        parsed.headless_smoke = Some(true);
    } else if chars_are(&t, "--windowed") {
        parsed.headless_smoke = Some(false);
    } else if chars_are(&t, "--remote") {
        parsed.remote_enabled = Some(true);
    } else if chars_are(&t, "--no-remote") {
        parsed.remote_enabled = Some(false);
    } else if chars_are(&t, "--x11") {
        parsed.window_backend = Some(WindowBackend::X11);
    } else if chars_are(&t, "--wayland") {
        parsed.window_backend = Some(WindowBackend::Wayland);
    } else if chars_start_with(&t, "--smoke-frames=") {
        let value = chars_after(&t, 15);
        parsed.smoke_frames = Some(parse_smoke_frames(Some(value.as_str())));
    } else if chars_start_with(&t, "--asset-mode=") {
        let value = chars_after(&t, 13);
        parsed.asset_mode = Some(parse_asset_mode(Some(value.as_str())));
    } else if chars_start_with(&t, "--render-profile=") {
        let value = chars_after(&t, 17);
        parsed.render_profile = parse_render_profile(Some(value.as_str()));
    }
}

/// The switches after reading `args` in order from none.
pub open spec fn spec_parse_args(args: Seq<Seq<char>>) -> CliArgs
    decreases args.len(),
{
    if args.len() == 0 {
        CliArgs::spec_empty()
    } else {
        spec_parse_arg(args.last(), spec_parse_args(args.drop_last()))
    }
}

/// Reads the command-line arguments in order; a later switch overrides an
/// earlier one.
pub fn parse_cli_args(args: &Vec<String>) -> (r: CliArgs)
    ensures
        r == spec_parse_args(crate::text::views(args@)),
{
    let ghost a = crate::text::views(args@);
    let mut parsed = CliArgs::default();
    let mut i: usize = 0;
    while i < args.len()
        invariant
            a == crate::text::views(args@),
            i <= args@.len(),
            parsed == spec_parse_args(a.take(i as int)),
        decreases args@.len() - i,
    {
        parse_cli_arg(args[i].as_str(), &mut parsed);
        i += 1;
        proof {
            assert(a.take(i as int).drop_last() =~= a.take(i - 1));
            assert(a.take(i as int).last() == args@[i - 1]@);
        }
    }
    proof {
        assert(a.take(args@.len() as int) =~= a);
    }
    parsed
}

/// An environment flag: true for "1", "true", "TRUE", "on", "ON", "yes" or
/// "YES" after trimming, false for any other value; `None` when unset.
pub open spec fn spec_env_flag(value: Option<Seq<char>>) -> Option<bool> {
    match value {
        Some(v) => {
            let t = trimmed(v);
            Some(
                t == "1"@ || t == "true"@ || t == "TRUE"@ || t == "on"@ || t == "ON"@ || t
                    == "yes"@ || t == "YES"@,
            )
        },
        None => None,
    }
}

/// Reads an environment flag's value.
pub fn env_flag_value(value: Option<&str>) -> (r: Option<bool>)
    ensures
        r == spec_env_flag(match value {
            Some(v) => Some(v@),
            None => None,
        }),
{
    match value {
        Some(v) => {
            let c = chars_of(v);
            let t = trim_chars(&c);
            Some(
                chars_are(&t, "1") || chars_are(&t, "true") || chars_are(&t, "TRUE") || chars_are(
                    &t,
                    "on",
                ) || chars_are(&t, "ON") || chars_are(&t, "yes") || chars_are(&t, "YES"),
            )
        },
        None => None,
    }
}

/// The audio setting from the environment: off for "0", "false", "FALSE",
/// "off", "OFF", "no" or "NO" after trimming, on for any other value; `None`
/// when unset.
pub open spec fn spec_audio_env(value: Option<Seq<char>>) -> Option<bool> {
    match value {
        Some(v) => {
            let t = trimmed(v);
            Some(
                !(t == "0"@ || t == "false"@ || t == "FALSE"@ || t == "off"@ || t == "OFF"@ || t
                    == "no"@ || t == "NO"@),
            )
        },
        None => None,
    }
}

/// Reads the audio setting's value from the environment.
pub fn audio_enabled_from_env(value: Option<&str>) -> (r: Option<bool>)
    ensures
        r == spec_audio_env(match value {
            Some(v) => Some(v@),
            None => None,
        }),
{
    match value {
        Some(v) => {
            let c = chars_of(v);
            let t = trim_chars(&c);
            Some(
                !(chars_are(&t, "0") || chars_are(&t, "false") || chars_are(&t, "FALSE")
                    || chars_are(&t, "off") || chars_are(&t, "OFF") || chars_are(&t, "no")
                    || chars_are(&t, "NO")),
            )
        },
        None => None,
    }
}

/// The settings read from the environment.
#[derive(Clone, Copy, Debug, PartialEq, Eq, Structural)]
pub struct EnvSettings {
    pub audio_enabled: Option<bool>,
    pub debug_visuals: Option<bool>,
    pub headless_smoke: Option<bool>,
    pub remote_enabled: bool,
    pub smoke_frames: u32,
    pub asset_mode: AssetMode,
    pub render_profile: Option<RenderProfile>,
}

/// How the game starts.
#[derive(Clone, Copy, Debug, PartialEq, Eq, Structural)]
pub struct RuntimeConfig {
    pub audio_enabled: bool,
    pub audio_locked: bool,
    pub debug_visuals: bool,
    pub debug_visuals_locked: bool,
    pub headless_smoke: bool,
    pub remote_enabled: bool,
    pub smoke_frames: u32,
    pub asset_mode: AssetMode,
    pub render_profile: Option<RenderProfile>,
    pub window_backend: Option<WindowBackend>,
    pub explicit_windowed_request: bool,
}

pub open spec fn or_else<T>(a: Option<T>, b: Option<T>) -> Option<T> {
    if a is Some {
        a
    } else {
        b
    }
}

pub open spec fn or_default<T>(a: Option<T>, d: T) -> T {
    match a {
        Some(v) => v,
        None => d,
    }
}

/// How the game starts, given the command line and the environment: a
/// command-line switch wins over the environment, which wins over the
/// default; `--windowed` rules out the headless smoke run whatever the
/// environment says.
pub open spec fn spec_runtime_config(a: CliArgs, e: EnvSettings) -> RuntimeConfig {
    let explicit = a.headless_smoke == Some(false);
    RuntimeConfig {
        audio_enabled: or_default(or_else(a.audio_enabled, e.audio_enabled), true),
        audio_locked: a.audio_enabled is Some || e.audio_enabled is Some,
        debug_visuals: or_default(or_else(a.debug_visuals, e.debug_visuals), false),
        debug_visuals_locked: a.debug_visuals is Some || e.debug_visuals is Some,
        headless_smoke: if explicit {
            false
        } else {
            or_default(or_else(a.headless_smoke, e.headless_smoke), false)
        },
        remote_enabled: or_default(a.remote_enabled, e.remote_enabled),
        smoke_frames: or_default(a.smoke_frames, e.smoke_frames),
        asset_mode: or_default(a.asset_mode, e.asset_mode),
        render_profile: or_else(a.render_profile, e.render_profile),
        window_backend: a.window_backend,
        explicit_windowed_request: explicit,
    }
}

fn pick<T: Copy>(a: Option<T>, b: Option<T>) -> (r: Option<T>)
    ensures
        r == or_else(a, b),
{
    match a {
        Some(_) => a,
        None => b,
    }
}

fn value_or<T: Copy>(a: Option<T>, d: T) -> (r: T)
    ensures
        r == or_default(a, d),
{
    match a {
        Some(v) => v,
        None => d,
    }
}

/// How the game starts, given the command line and the environment.
pub fn runtime_config(args: CliArgs, env: EnvSettings) -> (r: RuntimeConfig)
    ensures
        r == spec_runtime_config(args, env),
{
    let explicit = match args.headless_smoke {
        Some(h) => !h,
        None => false,
    };
    RuntimeConfig {
        audio_enabled: value_or(pick(args.audio_enabled, env.audio_enabled), true),
        audio_locked: args.audio_enabled.is_some() || env.audio_enabled.is_some(),
        debug_visuals: value_or(pick(args.debug_visuals, env.debug_visuals), false),
        debug_visuals_locked: args.debug_visuals.is_some() || env.debug_visuals.is_some(),
        headless_smoke: if explicit {
            false
        } else {
            value_or(pick(args.headless_smoke, env.headless_smoke), false)
        },
        remote_enabled: value_or(args.remote_enabled, env.remote_enabled),
        smoke_frames: value_or(args.smoke_frames, env.smoke_frames),
        asset_mode: value_or(args.asset_mode, env.asset_mode),
        render_profile: pick(args.render_profile, env.render_profile),
        window_backend: args.window_backend,
        explicit_windowed_request: explicit,
    }
}

/// Whether to run headless because no display was found: only when a window
/// was not asked for outright and the run is not headless already.
pub fn should_fallback_to_headless_smoke(config: RuntimeConfig, display_present: bool) -> (r: bool)
    ensures
        r == (!config.headless_smoke && !display_present && !config.explicit_windowed_request),
{
    !config.headless_smoke && !display_present && !config.explicit_windowed_request
}

/// An environment value is set and holds more than white space.
pub open spec fn spec_present(value: Option<Seq<char>>) -> bool {
    match value {
        Some(v) => trimmed(v).len() > 0,
        None => false,
    }
}

pub open spec fn opt_str(value: Option<&str>) -> Option<Seq<char>> {
    match value {
        Some(v) => Some(v@),
        None => None,
    }
}

/// Whether an environment value is set and holds more than white space.
pub fn env_value_present(value: Option<&str>) -> (r: bool)
    ensures
        r == spec_present(opt_str(value)),
{
    match value {
        Some(v) => {
            let c = chars_of(v);
            let t = trim_chars(&c);
            t.len() > 0
        },
        None => false,
    }
}

/// Whether any display variable is set.
pub fn display_vars_present(
    display: Option<&str>,
    wayland_display: Option<&str>,
    wayland_socket: Option<&str>,
) -> (r: bool)
    ensures
        r == (spec_present(opt_str(display)) || spec_present(opt_str(wayland_display))
            || spec_present(opt_str(wayland_socket))),
{
    env_value_present(display) || env_value_present(wayland_display) || env_value_present(
        wayland_socket,
    )
}

/// The display servers found, joined by "+": "x11", "wayland" and
/// "socket" in that order, or "none".
pub open spec fn spec_display_label(x: bool, w: bool, s: bool) -> Seq<char> {
    if x && !w && !s {
        "x11"@
    } else if x && w && !s {
        "x11+wayland"@
    } else if x && w && s {
        "x11+wayland+socket"@
    } else if x && !w && s {
        "x11+socket"@
    } else if !x && w && !s {
        "wayland"@
    } else if !x && w && s {
        "wayland+socket"@
    } else if !x && !w && s {
        "socket"@
    } else {
        "none"@
    }
}

/// The display servers the environment names.
pub fn display_server_label(
    display: Option<&str>,
    wayland_display: Option<&str>,
    wayland_socket: Option<&str>,
) -> (r: &'static str)
    ensures
        r@ == spec_display_label(
            spec_present(opt_str(display)),
            spec_present(opt_str(wayland_display)),
            spec_present(opt_str(wayland_socket)),
        ),
{
    let x = env_value_present(display);
    let w = env_value_present(wayland_display);
    let s = env_value_present(wayland_socket);
    if x && !w && !s {
        "x11"
    } else if x && w && !s {
        "x11+wayland"
    } else if x && w && s {
        "x11+wayland+socket"
    } else if x && !w && s {
        "x11+socket"
    } else if !x && w && !s {
        "wayland"
    } else if !x && w && s {
        "wayland+socket"
    } else if !x && !w && s {
        "socket"
    } else {
        "none"
    }
}

/// The window back end in use: a forced one, else the environment's
/// trimmed choice, else "auto".
pub open spec fn spec_backend_label(explicit: Option<WindowBackend>, winit: Option<Seq<char>>) -> Seq<char> {
    match explicit {
        Some(b) => b.spec_label() + "(forced)"@,
        None => match winit {
            Some(v) => if trimmed(v).len() > 0 {
                trimmed(v) + "(env)"@
            } else {
                "auto"@
            },
            None => "auto"@,
        },
    }
}

/// The window back end in use.
pub fn startup_window_backend_label(explicit: Option<WindowBackend>, winit_backend: Option<&str>) -> (r:
    String)
    ensures
        r@ == spec_backend_label(explicit, opt_str(winit_backend)),
{
    if let Some(backend) = explicit {
        let mut s = String::from_str(backend.label());
        s.append("(forced)");
        return s;
    }
    match winit_backend {
        Some(v) => {
            let c = chars_of(v);
            let t = trim_chars(&c);
            if t.len() > 0 {
                let mut s = string_of_chars(&t);
                s.append("(env)");
                s
            } else {
                String::from_str("auto")
            }
        },
        None => String::from_str("auto"),
    }
}

/// The render profile's name, or "auto" when none is set.
pub open spec fn spec_render_label(p: Option<RenderProfile>) -> Seq<char> {
    match p {
        Some(r) => r.spec_label(),
        None => "auto"@,
    }
}

fn render_label(p: Option<RenderProfile>) -> (r: &'static str)
    ensures
        r@ == spec_render_label(p),
{
    match p {
        Some(r) => r.label(),
        None => "auto",
    }
}

/// The line printed at startup: whether a window opens and with what, the
/// display, back end, render profile, audio and asset mode, a hint for when
/// no window shows, and the feature audit.
pub open spec fn spec_startup_diagnostic(
    c: RuntimeConfig,
    display: Option<Seq<char>>,
    wayland_display: Option<Seq<char>>,
    winit_backend: Option<Seq<char>>,
    display_present: bool,
    wayland_socket: Option<Seq<char>>,
    feature_audit: Seq<char>,
) -> Seq<char> {
    let shown = spec_display_label(
        spec_present(display),
        spec_present(wayland_display),
        spec_present(wayland_socket),
    );
    let backend = spec_backend_label(c.window_backend, winit_backend);
    let tail = " display="@ + shown + " backend="@ + backend + " render="@ + spec_render_label(
        c.render_profile,
    ) + " audio="@ + (if c.audio_enabled {
        "on"@
    } else {
        "off"@
    }) + " asset_mode="@ + c.asset_mode.spec_label();
    let head = if c.headless_smoke {
        "Bevy Open ARPG startup: window=disabled(headless-smoke)"@ + tail
            + ". If you expected a popup, run `cargo run -- --windowed` or unset BEVY_OPEN_ARPG_HEADLESS_SMOKE."@
    } else {
        "Bevy Open ARPG startup: window=enabled title=\"Bevy Open ARPG\" size=1280x720"@ + tail
            + "."@
    };
    let hint = if c.headless_smoke {
        ""@
    } else if display_present {
        " If no window appears, retry `cargo run -- --x11 --render-profile=compat` or `cargo run -- --wayland --render-profile=compat`."@
    } else {
        " A graphical display server was not detected, but windowed mode was requested. Verify `DISPLAY`/`WAYLAND_DISPLAY` in your shell launch context, then retry with a matching backend switch (`--x11` or `--wayland`) or unset `--headless-smoke` overrides."@
    };
    head + hint + " Feature audit: "@ + feature_audit + "."@
}

/// The line printed at startup; `feature_audit` is the summary of the
/// engine features the build enables.
pub fn startup_window_diagnostic(
    config: RuntimeConfig,
    display: Option<&str>,
    wayland_display: Option<&str>,
    winit_backend: Option<&str>,
    display_present: bool,
    wayland_socket: Option<&str>,
    feature_audit: &str,
) -> (r: String)
    ensures
        r@ == spec_startup_diagnostic(
            config,
            opt_str(display),
            opt_str(wayland_display),
            opt_str(winit_backend),
            display_present,
            opt_str(wayland_socket),
            feature_audit@,
        ),
{
    let shown = display_server_label(display, wayland_display, wayland_socket);
    let backend = startup_window_backend_label(config.window_backend, winit_backend);
    let mut tail = String::from_str(" display=");
    tail.append(shown);
    tail.append(" backend=");
    tail.append(backend.as_str());
    tail.append(" render=");
    tail.append(render_label(config.render_profile));
    tail.append(" audio=");
    tail.append(if config.audio_enabled {
        "on"
    } else {
        "off"
    });
    tail.append(" asset_mode=");
    tail.append(config.asset_mode.label());
    let mut message = if config.headless_smoke {
        let mut m = String::from_str("Bevy Open ARPG startup: window=disabled(headless-smoke)");
        m.append(tail.as_str());
        m.append(
            ". If you expected a popup, run `cargo run -- --windowed` or unset BEVY_OPEN_ARPG_HEADLESS_SMOKE.",
        );
        m
    } else {
        let mut m = String::from_str(
            "Bevy Open ARPG startup: window=enabled title=\"Bevy Open ARPG\" size=1280x720",
        );
        m.append(tail.as_str());
        m.append(".");
        m
    };
    let ghost head = message@;
    if !config.headless_smoke {
        if display_present {
            message.append(
                " If no window appears, retry `cargo run -- --x11 --render-profile=compat` or `cargo run -- --wayland --render-profile=compat`.",
            );
        } else {
            message.append(
                " A graphical display server was not detected, but windowed mode was requested. Verify `DISPLAY`/`WAYLAND_DISPLAY` in your shell launch context, then retry with a matching backend switch (`--x11` or `--wayland`) or unset `--headless-smoke` overrides.",
            );
        }
    } else {
        proof {
            reveal_strlit("");
            assert(message@ =~= head + ""@);
        }
    }
    message.append(" Feature audit: ");
    message.append(feature_audit);
    message.append(".");
    message
}

/// The preferences saved for the next run.
pub struct UserSettings {
    pub audio_enabled: bool,
    pub debug_visuals: bool,
    pub remote_enabled: bool,
    pub asset_mode: String,
    pub render_profile: String,
}

impl UserSettings {
    /// The preferences a run's configuration saves.
    pub fn from_config(config: RuntimeConfig) -> (r: UserSettings)
        ensures
            r.audio_enabled == config.audio_enabled,
            r.debug_visuals == config.debug_visuals,
            r.remote_enabled == config.remote_enabled,
            r.asset_mode@ == config.asset_mode.spec_label(),
            r.render_profile@ == spec_render_label(config.render_profile),
    {
        UserSettings {
            audio_enabled: config.audio_enabled,
            debug_visuals: config.debug_visuals,
            remote_enabled: config.remote_enabled,
            asset_mode: String::from_str(config.asset_mode.label()),
            render_profile: String::from_str(render_label(config.render_profile)),
        }
    }
}

impl Default for UserSettings {
    fn default() -> (r: UserSettings)
        ensures
            r.audio_enabled && !r.debug_visuals && !r.remote_enabled,
            r.asset_mode@ == "unprocessed"@,
            r.render_profile@ == "auto"@,
    {
        UserSettings {
            audio_enabled: true,
            debug_visuals: false,
            remote_enabled: false,
            asset_mode: String::from_str("unprocessed"),
            render_profile: String::from_str("auto"),
        }
    }
}


proof fn lemma_decimal_digits(n: nat)
    ensures
        decimal(n).len() > 0,
        all_digits(decimal(n)),
        digits_value(decimal(n)) == n,
    decreases n,
{
    if n < 10 {
        let d = decimal(n);
        assert(d == seq![digit_char(n as int)]);
        assert(d.drop_last() =~= Seq::<char>::empty());
        assert((digit_char(n as int) as int) == 48 + n);
        assert(digits_value(d.drop_last()) == 0);
        assert(digits_value(d) == digits_value(d.drop_last()) * 10 + ((d.last() as int) - 48));
        assert(is_digit(d[0]));
    } else {
        lemma_decimal_digits(n / 10);
        let p = decimal(n / 10);
        let d = decimal(n);
        let c = digit_char((n % 10) as int);
        assert(d == p + seq![c]);
        assert(d.drop_last() =~= p);
        assert(d.last() == c);
        assert((c as int) == 48 + n % 10);
        assert(digits_value(d) == digits_value(d.drop_last()) * 10 + ((d.last() as int) - 48));
        assert(digits_value(d) == (n / 10) * 10 + n % 10);
        assert forall|i: int| 0 <= i < d.len() implies is_digit(#[trigger] d[i]) by {
            if i < p.len() {
                assert(d[i] == p[i]);
            }
        }
        assert((n / 10) * 10 + n % 10 == n);
    }
}

/// A number written out in decimal reads back as itself.
pub proof fn lemma_parse_decimal_roundtrip(n: u32)
    ensures
        spec_parse_u32(decimal(n as nat)) == Some(n),
{
    lemma_decimal_digits(n as nat);
    let d = decimal(n as nat);
    assert(is_digit(d[0]));
    assert(number_body(d) == d);
}

/// A later switch overrides an earlier one: whatever came before, the last
/// of `--audio`, `--no-audio`, `--headless-smoke` and `--windowed` decides
/// its setting.
pub proof fn lemma_later_switch_wins(args: Seq<Seq<char>>)
    ensures
        spec_parse_args(args.push("--audio"@)).audio_enabled == Some(true),
        spec_parse_args(args.push("--no-audio"@)).audio_enabled == Some(false),
        spec_parse_args(args.push("--headless-smoke"@)).headless_smoke == Some(true),
        spec_parse_args(args.push("--windowed"@)).headless_smoke == Some(false),
{
    reveal_strlit("--audio");
    reveal_strlit("--no-audio");
    reveal_strlit("--mute");
    reveal_strlit("--debug-gizmos");
    reveal_strlit("--no-debug-gizmos");
    reveal_strlit("--headless-smoke");
    reveal_strlit("--windowed");
    assert(args.push("--audio"@).drop_last() =~= args);
    assert(args.push("--no-audio"@).drop_last() =~= args);
    assert(args.push("--headless-smoke"@).drop_last() =~= args);
    assert(args.push("--windowed"@).drop_last() =~= args);
    assert(trimmed("--audio"@) == "--audio"@);
    assert(trimmed("--no-audio"@) == "--no-audio"@);
    assert(trimmed("--headless-smoke"@) == "--headless-smoke"@);
    assert(trimmed("--windowed"@) == "--windowed"@);
}

} // verus!
