//! The selection color extension: writes the system selection and hot
//! tracking colors to the configuration store, after normalizing the
//! caller's color input from either hex or space-separated RGB form.

use vstd::prelude::*;

use crate::api::PluginApi;
use crate::logger::Logger;
use crate::plugin::{Plugin, PluginPreview};
use crate::settings::{
    FieldView, MetaView, PluginMeta, SettingField, SettingKind, SettingUi, UiView,
};
use crate::text::{
    hex_digit_char, hex_digit_to_char, is_ws, is_ws_exec, lead_len, lemma_lead_len_exact,
    parse_u8, parse_u8_spec, push_char, tokens,
};
use crate::value::{get_text, SettingsValue, ValueView};

verus! {

/// The selection color extension.
pub struct CursorHighlightPlugin;

/// The fallback selection color.
pub fn default_hilight_color() -> (r: String)
    ensures
        r@ == "#3aa3ff"@,
{
    "#3aa3ff".to_owned()
}

/// The fallback hot tracking color.
pub fn default_hot_tracking_color() -> (r: String)
    ensures
        r@ == "#2bd3a7"@,
{
    "#2bd3a7".to_owned()
}

/// What parsing an "R G B" triple accepts: exactly three tokens, each a
/// byte in decimal.
pub open spec fn rgb_string_spec(s: Seq<char>) -> Option<(u8, u8, u8)> {
    let parts = tokens(s);
    if parts.len() == 3 {
        match (parse_u8_spec(parts[0]), parse_u8_spec(parts[1]), parse_u8_spec(parts[2])) {
            (Some(r), Some(g), Some(b)) => Some((r, g, b)),
            _ => None,
        }
    } else {
        None
    }
}

/// Parses a color given as three decimal components separated by spaces or
/// commas.
pub fn parse_rgb_string(value: &str) -> (r: Option<(u8, u8, u8)>)
    ensures
        r == rgb_string_spec(value@),
{
    let parts = crate::text::split_tokens(value);
    if parts.len() != 3 {
        return None;
    }
    let r0 = parse_u8(parts[0].as_str());
    let g0 = parse_u8(parts[1].as_str());
    let b0 = parse_u8(parts[2].as_str());
    match (r0, g0, b0) {
        (Some(r), Some(g), Some(b)) => Some((r, g, b)),
        _ => None,
    }
}

/// The hex form a color input reduces to: whitespace trimmed from both
/// ends, then every leading hash mark dropped.
pub open spec fn hex_body(s: Seq<char>) -> Seq<char> {
    let lead = lead_len(s, |c: char| is_ws(c));
    let trimmed_front = s.skip(lead as int);
    let trail = lead_len(trimmed_front.reverse(), |c: char| is_ws(c));
    let trimmed = trimmed_front.take(trimmed_front.len() - trail);
    trimmed.skip(lead_len(trimmed, |c: char| c == '#') as int)
}

/// The value of one hexadecimal digit character, either case.
pub open spec fn hex_value(c: char) -> Option<nat> {
    if '0' <= c <= '9' {
        Some((c as u32 - '0' as u32) as nat)
    } else if 'a' <= c <= 'f' {
        Some((c as u32 - 'a' as u32 + 10) as nat)
    } else if 'A' <= c <= 'F' {
        Some((c as u32 - 'A' as u32 + 10) as nat)
    } else {
        None
    }
}

/// The byte two hex digits at `i` denote, if both are digits.
pub open spec fn hex_pair(s: Seq<char>, i: int) -> Option<u8> {
    match (hex_value(s[i]), hex_value(s[i + 1])) {
        (Some(hi), Some(lo)) => Some((hi * 16 + lo) as u8),
        _ => None,
    }
}

/// The error given when a color is neither hex nor an RGB triple.
pub open spec fn color_format_msg() -> Seq<char> {
    "Color must be HEX (#RRGGBB) or RGB (R G B)."@
}

/// What parsing a color accepts: an RGB triple, or six hex digits after
/// trimming, with one error per malformed component.
pub open spec fn color_spec(s: Seq<char>) -> Result<(u8, u8, u8), Seq<char>> {
    match rgb_string_spec(s) {
        Some(rgb) => Ok(rgb),
        None => {
            let h = hex_body(s);
            if h.len() != 6 {
                Err(color_format_msg())
            } else {
                match hex_pair(h, 0) {
                    None => Err("Invalid R"@),
                    Some(r) => match hex_pair(h, 2) {
                        None => Err("Invalid G"@),
                        Some(g) => match hex_pair(h, 4) {
                            None => Err("Invalid B"@),
                            Some(b) => Ok((r, g, b)),
                        },
                    },
                }
            }
        },
    }
}

/// Reads one hex digit of the body at `i`.
fn hex_digit_at(s: &str, i: usize) -> (r: Option<u8>)
    requires
        i < s@.len(),
    ensures
        match r {
            Some(v) => hex_value(s@[i as int]) == Some(v as nat) && v < 16,
            None => hex_value(s@[i as int]) is None,
        },
{
    let c = s.get_char(i);
    let cu = c as u32;
    if 48 <= cu && cu <= 57 {
        Some((cu - 48) as u8)
    } else if 97 <= cu && cu <= 102 {
        Some((cu - 87) as u8)
    } else if 65 <= cu && cu <= 70 {
        Some((cu - 55) as u8)
    } else {
        None
    }
}

/// Parses a color from hex (`#RRGGBB`) or RGB (`R G B`) text.
pub fn parse_color(value: &str) -> (r: Result<(u8, u8, u8), String>)
    ensures
        match color_spec(value@) {
            Ok(rgb) => r is Ok && r->Ok_0 == rgb,
            Err(m) => r is Err && r->Err_0@ == m,
        },
{
    if let Some(rgb) = parse_rgb_string(value) {
        return Ok(rgb);
    }
    let hex = trim_color_body(value);
    let h = hex.as_str();
    if h.unicode_len() != 6 {
        return Err("Color must be HEX (#RRGGBB) or RGB (R G B).".to_owned());
    }
    let r_hi = hex_digit_at(h, 0);
    let r_lo = hex_digit_at(h, 1);
    let red = match (r_hi, r_lo) {
        (Some(hi), Some(lo)) => hi * 16 + lo,
        _ => {
            return Err("Invalid R".to_owned());
        },
    };
    let g_hi = hex_digit_at(h, 2);
    let g_lo = hex_digit_at(h, 3);
    let green = match (g_hi, g_lo) {
        (Some(hi), Some(lo)) => hi * 16 + lo,
        _ => {
            return Err("Invalid G".to_owned());
        },
    };
    let b_hi = hex_digit_at(h, 4);
    let b_lo = hex_digit_at(h, 5);
    let blue = match (b_hi, b_lo) {
        (Some(hi), Some(lo)) => hi * 16 + lo,
        _ => {
            return Err("Invalid B".to_owned());
        },
    };
    Ok((red, green, blue))
}

/// Trims whitespace from both ends, then drops every leading hash mark.
fn trim_color_body(value: &str) -> (r: String)
    ensures
        r@ == hex_body(value@),
{
    let len = value.unicode_len();
    let ghost ws = |c: char| is_ws(c);
    let mut lead: usize = 0;
    while lead < len && is_ws_exec(value.get_char(lead))
        invariant
            len == value@.len(),
            lead <= len,
            forall|j: int| 0 <= j < lead ==> is_ws(#[trigger] value@[j]),
        decreases len - lead,
    {
        lead += 1;
    }
    let mut end = len;
    while end > lead && is_ws_exec(value.get_char(end - 1))
        invariant
            len == value@.len(),
            lead <= end <= len,
            forall|j: int| 0 <= j < lead ==> is_ws(#[trigger] value@[j]),
            lead == len || !is_ws(value@[lead as int]),
            forall|j: int| end <= j < len ==> is_ws(#[trigger] value@[j]),
        decreases end,
    {
        end -= 1;
    }
    let mut start = lead;
    while start < end && value.get_char(start) == '#'
        invariant
            len == value@.len(),
            lead <= start <= end <= len,
            forall|j: int| 0 <= j < lead ==> is_ws(#[trigger] value@[j]),
            lead == len || !is_ws(value@[lead as int]),
            forall|j: int| end <= j < len ==> is_ws(#[trigger] value@[j]),
            end == lead || !is_ws(value@[end - 1]),
            forall|j: int| lead <= j < start ==> value@[j] == '#',
        decreases end - start,
    {
        start += 1;
    }
    let mut out = String::new();
    let mut i = start;
    while i < end
        invariant
            len == value@.len(),
            lead <= start <= i <= end <= len,
            forall|j: int| 0 <= j < lead ==> is_ws(#[trigger] value@[j]),
            lead == len || !is_ws(value@[lead as int]),
            forall|j: int| end <= j < len ==> is_ws(#[trigger] value@[j]),
            end == lead || !is_ws(value@[end - 1]),
            forall|j: int| lead <= j < start ==> value@[j] == '#',
            start == end || value@[start as int] != '#',
            out@ == value@.subrange(start as int, i as int),
        decreases end - i,
    {
        push_char(&mut out, value.get_char(i));
        proof {
            assert(out@ =~= value@.subrange(start as int, i + 1));
        }
        i += 1;
    }
    proof {
        assert(out@ =~= value@.subrange(start as int, end as int));
        lemma_trim_shape(value@, lead as int, end as int, start as int);
    }
    out
}

/// A string whose whitespace ends at `lead` and resumes at `end`, with hash
/// marks from `lead` to `start`, reduces to the middle part.
proof fn lemma_trim_shape(s: Seq<char>, lead: int, end: int, start: int)
    requires
        0 <= lead <= start <= end <= s.len(),
        forall|j: int| 0 <= j < lead ==> is_ws(#[trigger] s[j]),
        lead == s.len() || !is_ws(s[lead]),
        forall|j: int| end <= j < s.len() ==> is_ws(#[trigger] s[j]),
        end == lead || !is_ws(s[end - 1]),
        forall|j: int| lead <= j < start ==> s[j] == '#',
        start == end || s[start] != '#',
    ensures
        hex_body(s) == s.subrange(start, end),
{
    let wsp = |c: char| is_ws(c);
    lemma_lead_len_exact(s, wsp, lead);
    let front = s.skip(lead);
    assert(front.len() == s.len() - lead);
    let trail = s.len() - end;
    assert forall|j: int| 0 <= j < trail implies wsp(#[trigger] front.reverse()[j]) by {
        assert(front.reverse()[j] == front[front.len() - 1 - j]);
        assert(front[front.len() - 1 - j] == s[s.len() - 1 - j]);
    }
    if trail < front.len() {
        assert(front.reverse()[trail] == front[front.len() - 1 - trail]);
        assert(front[front.len() - 1 - trail] == s[end - 1 - lead + lead]);
        assert(!wsp(front.reverse()[trail]));
    }
    lemma_lead_len_exact(front.reverse(), wsp, trail);
    let trimmed = front.take(front.len() - trail);
    assert(trimmed =~= s.subrange(lead, end));
    let hp = |c: char| c == '#';
    assert forall|j: int| 0 <= j < start - lead implies hp(#[trigger] trimmed[j]) by {
        assert(trimmed[j] == s[lead + j]);
    }
    if start - lead < trimmed.len() {
        assert(trimmed[start - lead] == s[start]);
    }
    lemma_lead_len_exact(trimmed, hp, start - lead);
    assert(hex_body(s) =~= s.subrange(start, end));
}

/// The lower-case hex rendering of a color triple, led by a hash mark.
pub open spec fn rgb_hex_spec(r: u8, g: u8, b: u8) -> Seq<char> {
    seq!['#', hex_digit_char((r / 16) as nat), hex_digit_char((r % 16) as nat), hex_digit_char(
        (g / 16) as nat,
    ), hex_digit_char((g % 16) as nat), hex_digit_char((b / 16) as nat), hex_digit_char(
        (b % 16) as nat,
    )]
}

/// Renders a color triple as lower-case hex.
pub fn rgb_to_hex(r: u8, g: u8, b: u8) -> (out: String)
    ensures
        out@ == rgb_hex_spec(r, g, b),
{
    let mut s = "#".to_owned();
    push_char(&mut s, hex_digit_to_char(r / 16));
    push_char(&mut s, hex_digit_to_char(r % 16));
    push_char(&mut s, hex_digit_to_char(g / 16));
    push_char(&mut s, hex_digit_to_char(g % 16));
    push_char(&mut s, hex_digit_to_char(b / 16));
    push_char(&mut s, hex_digit_to_char(b % 16));
    proof {
        reveal_strlit("#");
        assert(s@ =~= rgb_hex_spec(r, g, b));
    }
    s
}

/// Brings a color in either accepted form to lower-case hex.
pub fn normalize_to_hex(input: &str) -> (out: Result<String, String>)
    ensures
        match color_spec(input@) {
            Ok((r, g, b)) => out is Ok && out->Ok_0@ == rgb_hex_spec(r, g, b),
            Err(m) => out is Err && out->Err_0@ == m,
        },
{
    let (r, g, b) = match parse_color(input) {
        Ok(rgb) => rgb,
        Err(e) => {
            return Err(e);
        },
    };
    Ok(rgb_to_hex(r, g, b))
}

/// A character with any ASCII capital folded to lower case.
pub open spec fn ascii_fold(c: char) -> char {
    if 'A' <= c <= 'Z' {
        (((c as u32) + 32) as u8) as char
    } else {
        c
    }
}

/// Equality up to ASCII case.
pub open spec fn eq_ignore_ascii(a: Seq<char>, b: Seq<char>) -> bool {
    a.len() == b.len() && forall|i: int| 0 <= i < a.len() ==> ascii_fold(a[i]) == ascii_fold(b[i])
}

/// Compares two strings up to ASCII case.
fn eq_ignore_ascii_exec(a: &str, b: &str) -> (r: bool)
    ensures
        r == eq_ignore_ascii(a@, b@),
{
    let a_len = a.unicode_len();
    let b_len = b.unicode_len();
    if a_len != b_len {
        return false;
    }
    let mut i: usize = 0;
    while i < a_len
        invariant
            a_len == a@.len(),
            b_len == b@.len(),
            a_len == b_len,
            i <= a_len,
            forall|j: int| 0 <= j < i ==> ascii_fold(a@[j]) == ascii_fold(b@[j]),
        decreases a_len - i,
    {
        let ca = fold_char(a.get_char(i));
        let cb = fold_char(b.get_char(i));
        if ca != cb {
            return false;
        }
        i += 1;
    }
    true
}

/// Folds one ASCII capital to lower case.
fn fold_char(c: char) -> (r: char)
    ensures
        r == ascii_fold(c),
{
    let cu = c as u32;
    if 65 <= cu && cu <= 90 {
        ((cu + 32) as u8) as char
    } else {
        c
    }
}

/// The store key under which the system colors live.
const COLORS_KEY: &'static str = "Control Panel\\Colors";

/// Reads a color from the configuration store and brings it to hex; any
/// failure along the way reads as no opinion.
fn read_registry_color_hex<A: PluginApi>(api: &A, name: &str) -> (r: Option<String>) {
    match api.get_registry_string(COLORS_KEY, name) {
        Ok(raw) => match parse_rgb_string(raw.as_str()) {
            Some((red, green, blue)) => Some(rgb_to_hex(red, green, blue)),
            None => None,
        },
        Err(_) => None,
    }
}

/// Writes one color value unless the store already holds it; the logger
/// only grows and keeps its depth.
fn apply_color<A: PluginApi>(api: &A, logger: &mut Logger, name: &str, desired_hex: &str) -> (r:
    Result<(), String>)
    ensures
        final(logger)@.logs.len() >= old(logger)@.logs.len(),
        final(logger)@.logs.take(old(logger)@.logs.len() as int) == old(logger)@.logs,
        final(logger)@.indent == old(logger)@.indent,
{
    let current = read_registry_color_hex(api, name);
    let same = match &current {
        Some(c) => eq_ignore_ascii_exec(c.as_str(), desired_hex),
        None => false,
    };
    if same {
        let mut msg = name.to_owned();
        msg.append(" is already set: ");
        msg.append(desired_hex);
        logger.info(msg.as_str());
        proof {
            assert(logger@.logs.take(old(logger)@.logs.len() as int) =~= old(logger)@.logs);
        }
        return Ok(());
    }
    let (red, green, blue) = match parse_color(desired_hex) {
        Ok(rgb) => rgb,
        Err(e) => {
            return Err(e);
        },
    };
    let mut value = crate::text::u64_to_string(red as u64);
    push_char(&mut value, ' ');
    value.append(crate::text::u64_to_string(green as u64).as_str());
    push_char(&mut value, ' ');
    value.append(crate::text::u64_to_string(blue as u64).as_str());
    match api.set_registry_string(COLORS_KEY, name, value.as_str()) {
        Ok(()) => {},
        Err(e) => {
            return Err(e);
        },
    }
    let mut msg = name.to_owned();
    msg.append(" set: ");
    msg.append(value.as_str());
    logger.info(msg.as_str());
    proof {
        assert(logger@.logs.take(old(logger)@.logs.len() as int) =~= old(logger)@.logs);
    }
    Ok(())
}

/// The description this extension always gives of itself.
pub open spec fn cursor_highlight_meta() -> MetaView {
    MetaView {
        id: "cursor_highlight"@,
        name: "selection colors"@,
        description: "Adjusts the system selection and highlight colors."@,
        category: "Appearance"@,
        settings: seq![
            FieldView {
                key: "hilight_color"@,
                label: "Hilight - text selection"@,
                kind: SettingKind::Color,
                description: Some("HKCU\\Control Panel\\Colors\\Hilight"@),
                required: true,
                default_value: ValueView::Text("#3aa3ff"@),
                options: None,
                ui: Some(UiView {
                    placeholder: Some("#3aa3ff"@),
                    min: None,
                    max: None,
                    step: None,
                    rows: None,
                    unit: None,
                    danger: None,
                }),
            },
            FieldView {
                key: "hot_tracking_color"@,
                label: "HotTrackingColor - selection bar and links"@,
                kind: SettingKind::Color,
                description: Some("HKCU\\Control Panel\\Colors\\HotTrackingColor"@),
                required: true,
                default_value: ValueView::Text("#2bd3a7"@),
                options: None,
                ui: Some(UiView {
                    placeholder: Some("#2bd3a7"@),
                    min: None,
                    max: None,
                    step: None,
                    rows: None,
                    unit: None,
                    danger: None,
                }),
            },
        ],
    }
}

impl Plugin for CursorHighlightPlugin {
    open spec fn spec_meta(&self) -> MetaView {
        cursor_highlight_meta()
    }

    fn meta(&self) -> (m: PluginMeta) {
        let mut fields: Vec<SettingField> = Vec::new();
        fields.push(
            SettingField {
                key: "hilight_color".to_owned(),
                label: "Hilight - text selection".to_owned(),
                kind: SettingKind::Color,
                description: Some("HKCU\\Control Panel\\Colors\\Hilight".to_owned()),
                required: true,
                default_value: SettingsValue::Text("#3aa3ff".to_owned()),
                options: None,
                ui: Some(
                    SettingUi {
                        placeholder: Some("#3aa3ff".to_owned()),
                        min: None,
                        max: None,
                        step: None,
                        rows: None,
                        unit: None,
                        danger: None,
                    },
                ),
            },
        );
        fields.push(
            SettingField {
                key: "hot_tracking_color".to_owned(),
                label: "HotTrackingColor - selection bar and links".to_owned(),
                kind: SettingKind::Color,
                description: Some("HKCU\\Control Panel\\Colors\\HotTrackingColor".to_owned()),
                required: true,
                default_value: SettingsValue::Text("#2bd3a7".to_owned()),
                options: None,
                ui: Some(
                    SettingUi {
                        placeholder: Some("#2bd3a7".to_owned()),
                        min: None,
                        max: None,
                        step: None,
                        rows: None,
                        unit: None,
                        danger: None,
                    },
                ),
            },
        );
        let m = PluginMeta {
            id: "cursor_highlight".to_owned(),
            name: "selection colors".to_owned(),
            description: "Adjusts the system selection and highlight colors.".to_owned(),
            category: "Appearance".to_owned(),
            settings: fields,
        };
        proof {
            assert(m@.settings =~= cursor_highlight_meta().settings);
        }
        m
    }

    /// Probes the store for the colors currently set, falling back to the
    /// shipped defaults when a color cannot be read.
    fn defaults<A: PluginApi>(&self, api: &A) -> (r: Option<SettingsValue>) {
        let hilight = match read_registry_color_hex(api, "Hilight") {
            Some(c) => c,
            None => default_hilight_color(),
        };
        let hot_tracking = match read_registry_color_hex(api, "HotTrackingColor") {
            Some(c) => c,
            None => default_hot_tracking_color(),
        };
        let mut pairs: Vec<(String, SettingsValue)> = Vec::new();
        pairs.push(("hilight_color".to_owned(), SettingsValue::Text(hilight)));
        pairs.push(("hot_tracking_color".to_owned(), SettingsValue::Text(hot_tracking)));
        Some(SettingsValue::Obj(pairs))
    }

    fn preview<A: PluginApi>(&self, api: &A) -> (r: Result<Option<PluginPreview>, String>)
        ensures
            r is Ok,
    {
        Ok(None)
    }

    fn run<A: PluginApi>(&self, api: &A, settings: &SettingsValue, logger: &mut Logger) -> (r:
        Result<(), String>) {
        let hilight = get_text(settings, "hilight_color", "#3aa3ff");
        let hot_tracking = get_text(settings, "hot_tracking_color", "#2bd3a7");

        let desired_hilight = match normalize_to_hex(hilight.as_str()) {
            Ok(h) => h,
            Err(e) => {
                return Err(e);
            },
        };
        let desired_hot_tracking = match normalize_to_hex(hot_tracking.as_str()) {
            Ok(h) => h,
            Err(e) => {
                return Err(e);
            },
        };

        match apply_color(api, logger, "Hilight", desired_hilight.as_str()) {
            Ok(()) => {},
            Err(e) => {
                return Err(e);
            },
        }
        match apply_color(api, logger, "HotTrackingColor", desired_hot_tracking.as_str()) {
            Ok(()) => {},
            Err(e) => {
                return Err(e);
            },
        }

        logger.success("Done! Restart the computer to apply the change.");
        proof {
            assert(logger@.logs.take(old(logger)@.logs.len() as int) =~= old(logger)@.logs);
        }
        Ok(())
    }
}

/// The instance of the selection color extension that the registry holds.
pub fn plugin() -> CursorHighlightPlugin {
    CursorHighlightPlugin
}

} // verus!
