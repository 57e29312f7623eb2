//! Verified parsing of the platform probes' text output.
//!
//! The display probe prints one line per video mode, marking the active one
//! with a `*`; its first whitespace-separated token is the resolution, its
//! second the refresh rate, decorated with `*` and `+` markers.  The audio
//! probe prints one sink per line; the second token of the first line is
//! the default device.  Running those platform utilities is the
//! application's business; this module only parses what they printed, and
//! anything unparseable falls back to the `"Unknown"` defaults.

use vstd::prelude::*;
use crate::info::{AudioInfo, DisplayInfo};

verus! {

/// Horizontal whitespace (and a stray carriage return) between tokens.
pub open spec fn is_space_char(c: char) -> bool {
    c == ' ' || c == '\t' || c == '\r'
}

/// Decoration the display probe attaches to the active mode's rate.
pub open spec fn is_marker_char(c: char) -> bool {
    c == '*' || c == '+'
}

/// First position of `target` in `s[pos..end]`, or `end` if absent.
pub open spec fn spec_find(s: Seq<char>, pos: int, end: int, target: char) -> int
    decreases end - pos,
{
    if pos < 0 || pos >= end {
        end
    } else if s[pos] == target {
        pos
    } else {
        spec_find(s, pos + 1, end, target)
    }
}

/// First position of a non-space in `s[pos..end]`, or `end` if none.
pub open spec fn spec_skip_spaces(s: Seq<char>, pos: int, end: int) -> int
    decreases end - pos,
{
    if pos < 0 || pos >= end {
        end
    } else if is_space_char(s[pos]) {
        spec_skip_spaces(s, pos + 1, end)
    } else {
        pos
    }
}

/// First space at or after `pos` in `s[pos..end]`, or `end` if none: the
/// end of the token starting at `pos`.
pub open spec fn spec_token_end(s: Seq<char>, pos: int, end: int) -> int
    decreases end - pos,
{
    if pos < 0 || pos >= end {
        end
    } else if is_space_char(s[pos]) {
        pos
    } else {
        spec_token_end(s, pos + 1, end)
    }
}

/// The token with the display probe's markers removed.
pub open spec fn spec_clean(s: Seq<char>) -> Seq<char> {
    s.filter(|c: char| !is_marker_char(c))
}

proof fn lemma_find_bounds(s: Seq<char>, pos: int, end: int, target: char)
    requires
        0 <= pos <= end <= s.len(),
    ensures
        pos <= spec_find(s, pos, end, target) <= end,
    decreases end - pos,
{
    if pos < end && s[pos] != target {
        lemma_find_bounds(s, pos + 1, end, target);
    }
}

/// Resolution and cleaned refresh rate from the first probe line that both
/// carries the active-mode marker and has at least two tokens; nothing if
/// no line from `pos` on qualifies.
pub open spec fn spec_display_scan(s: Seq<char>, pos: int) -> Option<(Seq<char>, Seq<char>)>
    decreases s.len() - pos,
    when 0 <= pos <= s.len()
    via spec_display_scan_decreases
{
    if pos >= s.len() {
        None
    } else {
        let line_end = spec_find(s, pos, s.len() as int, '\n');
        let star = spec_find(s, pos, line_end, '*');
        let first_start = spec_skip_spaces(s, pos, line_end);
        let first_end = spec_token_end(s, first_start, line_end);
        let second_start = spec_skip_spaces(s, first_end, line_end);
        let second_end = spec_token_end(s, second_start, line_end);
        if star < line_end && second_start < line_end {
            Some(
                (s.subrange(first_start, first_end), spec_clean(s.subrange(second_start, second_end))),
            )
        } else if line_end >= s.len() {
            None
        } else {
            spec_display_scan(s, line_end + 1)
        }
    }
}

#[via_fn]
proof fn spec_display_scan_decreases(s: Seq<char>, pos: int) {
    if pos < s.len() {
        lemma_find_bounds(s, pos, s.len() as int, '\n');
    }
}

/// Second token of the first probe line: the default audio device;
/// nothing when that line has fewer than two tokens.
pub open spec fn spec_audio_device(s: Seq<char>) -> Option<Seq<char>> {
    let line_end = spec_find(s, 0, s.len() as int, '\n');
    let first_start = spec_skip_spaces(s, 0, line_end);
    let first_end = spec_token_end(s, first_start, line_end);
    let second_start = spec_skip_spaces(s, first_end, line_end);
    let second_end = spec_token_end(s, second_start, line_end);
    if second_start < line_end {
        Some(s.subrange(second_start, second_end))
    } else {
        None
    }
}

/// Relies on String::from_iter (through Iterator::collect): the collected
/// string holds exactly the given characters, in order.
#[verifier::external_body]
fn chars_to_string(chars: &Vec<char>) -> (text: String)
    ensures
        text@ == chars@,
{
    chars.iter().collect()
}

fn is_space(c: char) -> (space: bool)
    ensures
        space == is_space_char(c),
{
    c == ' ' || c == '\t' || c == '\r'
}

fn find_char(text: &str, pos: usize, end: usize, target: char) -> (idx: usize)
    requires
        pos <= end <= text@.len(),
    ensures
        idx == spec_find(text@, pos as int, end as int, target),
        pos <= idx <= end,
    decreases end - pos,
{
    if pos >= end {
        end
    } else if text.get_char(pos) == target {
        pos
    } else {
        find_char(text, pos + 1, end, target)
    }
}

fn skip_spaces(text: &str, pos: usize, end: usize) -> (idx: usize)
    requires
        pos <= end <= text@.len(),
    ensures
        idx == spec_skip_spaces(text@, pos as int, end as int),
        pos <= idx <= end,
    decreases end - pos,
{
    if pos >= end {
        end
    } else if is_space(text.get_char(pos)) {
        skip_spaces(text, pos + 1, end)
    } else {
        pos
    }
}

fn token_end(text: &str, pos: usize, end: usize) -> (idx: usize)
    requires
        pos <= end <= text@.len(),
    ensures
        idx == spec_token_end(text@, pos as int, end as int),
        pos <= idx <= end,
    decreases end - pos,
{
    if pos >= end {
        end
    } else if is_space(text.get_char(pos)) {
        pos
    } else {
        token_end(text, pos + 1, end)
    }
}

/// Copy of `text[pos..end]` without the display probe's marker characters.
fn clean_chars(text: &str, pos: usize, end: usize) -> (kept: Vec<char>)
    requires
        pos <= end <= text@.len(),
    ensures
        kept@ == spec_clean(text@.subrange(pos as int, end as int)),
    decreases end - pos,
{
    if pos == end {
        proof {
            reveal(Seq::filter);
            assert(text@.subrange(pos as int, end as int) =~= Seq::<char>::empty());
        }
        Vec::new()
    } else {
        let mut kept = clean_chars(text, pos, end - 1);
        let c = text.get_char(end - 1);
        proof {
            reveal(Seq::filter);
            let whole = text@.subrange(pos as int, end as int);
            assert(whole.drop_last() =~= text@.subrange(pos as int, end - 1));
            assert(whole.last() == c);
        }
        if !(c == '*' || c == '+') {
            kept.push(c);
        }
        kept
    }
}

/// Scans the display probe's output from `pos` for the active mode's line.
fn display_scan(text: &str, pos: usize) -> (found: Option<DisplayInfo>)
    requires
        pos <= text@.len(),
    ensures
        (match spec_display_scan(text@, pos as int) {
            Some(pair) => {
                &&& found is Some
                &&& found->Some_0.resolution@ == pair.0
                &&& found->Some_0.refresh_rate@ == pair.1
            },
            None => found is None,
        }),
    decreases text@.len() - pos,
{
    let len = text.unicode_len();
    if pos >= len {
        return None;
    }
    let line_end = find_char(text, pos, len, '\n');
    let star = find_char(text, pos, line_end, '*');
    let first_start = skip_spaces(text, pos, line_end);
    let first_end = token_end(text, first_start, line_end);
    let second_start = skip_spaces(text, first_end, line_end);
    let second_end = token_end(text, second_start, line_end);
    if star < line_end && second_start < line_end {
        let resolution = text.substring_char(first_start, first_end).to_owned();
        let cleaned = clean_chars(text, second_start, second_end);
        let refresh_rate = chars_to_string(&cleaned);
        Some(DisplayInfo { resolution, refresh_rate })
    } else if line_end >= len {
        None
    } else {
        display_scan(text, line_end + 1)
    }
}

/// Parses the display probe's output: the first token of the marked line
/// is the resolution, the second, stripped of its markers, the refresh
/// rate.  Output without such a line yields the `"Unknown"` defaults.
pub fn parse_display_output(text: &str) -> (info: DisplayInfo)
    ensures
        (match spec_display_scan(text@, 0) {
            Some(pair) => info.resolution@ == pair.0 && info.refresh_rate@ == pair.1,
            None => info.resolution@ == "Unknown"@ && info.refresh_rate@ == "Unknown"@,
        }),
{
    match display_scan(text, 0) {
        Some(info) => info,
        None => DisplayInfo {
            resolution: String::from_str("Unknown"),
            refresh_rate: String::from_str("Unknown"),
        },
    }
}

/// Parses the audio probe's output: the second token of its first line is
/// the default device.  Output without one yields the `"Unknown"` default.
/// The probe lists no further devices here, so the device list is empty.
pub fn parse_audio_output(text: &str) -> (info: AudioInfo)
    ensures
        (match spec_audio_device(text@) {
            Some(device) => info.default_device@ == device,
            None => info.default_device@ == "Unknown"@,
        }),
        info.output_devices@.len() == 0,
{
    let len = text.unicode_len();
    let line_end = find_char(text, 0, len, '\n');
    let first_start = skip_spaces(text, 0, line_end);
    let first_end = token_end(text, first_start, line_end);
    let second_start = skip_spaces(text, first_end, line_end);
    let second_end = token_end(text, second_start, line_end);
    if second_start < line_end {
        AudioInfo {
            default_device: text.substring_char(second_start, second_end).to_owned(),
            output_devices: Vec::new(),
        }
    } else {
        AudioInfo { default_device: String::from_str("Unknown"), output_devices: Vec::new() }
    }
}

} // verus!
