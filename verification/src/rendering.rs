//! The pure parts of the renderer: how one entry is written, and how many
//! terminal lines a text needs. The host owns the terminal and performs the
//! actual drawing; it is handed a resolved page and settings and builds its
//! screen from these functions.

use vstd::prelude::*;
use vstd::arithmetic::div_mod::{lemma_div_is_ordered, lemma_div_plus_one, lemma_div_pos_is_pos};
use vstd::string::{StringExecFns, StringSliceAdditionalSpecFns};

use crate::entry::{Entry, EntryV};
use crate::settings::{spec_markup_name, spec_with_color, SettingsAccumulator};
use crate::text::push_char;

verus! {

/// One entry as it is rendered without color: the shortcut in brackets,
/// then the title, then two trailing spaces.
pub open spec fn spec_render_entry(e: EntryV) -> Seq<char> {
    "["@ + seq![e.shortcut] + "] "@ + e.title + "  "@
}

/// One entry as it is rendered with color markup around the shortcut; the
/// color is the given accumulator resolved through the entry's override.
pub open spec fn spec_render_entry_color(e: EntryV, settings: SettingsAccumulator) -> Seq<char> {
    "[{fg="@ + spec_markup_name(spec_with_color(settings, e.shortcut_color).shortcut_color) + " "@
        + seq![e.shortcut] + "}] "@ + e.title + "  "@
}

/// Renders one entry without color markup.
pub fn render_entry(entry: &Entry) -> (r: String)
    ensures
        r@ == spec_render_entry(entry@),
{
    let mut out = String::new();
    out.append("[");
    push_char(&mut out, entry.shortcut());
    out.append("] ");
    out.append(entry.title());
    out.append("  ");
    proof {
        assert(out@ =~= spec_render_entry(entry@));
    }
    out
}

/// Renders one entry with color markup around its shortcut, resolving the
/// entry's color override over the given accumulator.
pub fn render_entry_color(entry: &Entry, settings: &SettingsAccumulator) -> (r: String)
    ensures
        r@ == spec_render_entry_color(entry@, *settings),
{
    let resolved = settings.with_entry(entry);
    let mut out = String::new();
    out.append("[{fg=");
    out.append(resolved.shortcut_color.markup_name());
    out.append(" ");
    push_char(&mut out, entry.shortcut());
    out.append("}] ");
    out.append(entry.title());
    out.append("  ");
    proof {
        assert(out@ =~= spec_render_entry_color(entry@, *settings));
    }
    out
}

/// The screen lines a text needs at the given width, with `cur` bytes
/// already on the current line: each newline byte ends a line, and every
/// segment takes one screen line per `max_width` bytes begun, an empty
/// segment still taking one.
pub open spec fn spec_lines_count(bytes: Seq<u8>, max_width: int, cur: int) -> int
    decreases bytes.len(),
{
    if bytes.len() == 0 {
        cur / max_width + 1
    } else if bytes[0] == 10 {
        (cur / max_width + 1) + spec_lines_count(
            bytes.subrange(1, bytes.len() as int),
            max_width,
            0,
        )
    } else {
        spec_lines_count(bytes.subrange(1, bytes.len() as int), max_width, cur + 1)
    }
}

/// The screen lines a text needs at the given width.
pub open spec fn spec_required_lines(bytes: Seq<u8>, max_width: int) -> int {
    spec_lines_count(bytes, max_width, 0)
}

/// A text needs at least one screen line, and at most one line per byte on
/// top of the one every segment gets.
proof fn lemma_lines_count_bounds(bytes: Seq<u8>, max_width: int, cur: int)
    requires
        max_width >= 1,
        cur >= 0,
    ensures
        1 <= spec_lines_count(bytes, max_width, cur),
        spec_lines_count(bytes, max_width, cur) <= bytes.len() + cur / max_width + 1,
    decreases bytes.len(),
{
    lemma_div_pos_is_pos(cur, max_width);
    if bytes.len() == 0 {
    } else if bytes[0] == 10 {
        lemma_lines_count_bounds(bytes.subrange(1, bytes.len() as int), max_width, 0);
    } else {
        lemma_lines_count_bounds(bytes.subrange(1, bytes.len() as int), max_width, cur + 1);
        lemma_div_is_ordered(cur + 1, cur + max_width, max_width);
        lemma_div_plus_one(cur, max_width);
    }
}

/// The screen lines a text needs at the given width, as the column layout
/// estimates it: one line per `max_width` bytes begun of each
/// newline-separated segment.
pub fn required_lines(string: &str, max_width: usize) -> (r: usize)
    requires
        max_width >= 1,
        string.spec_bytes().len() < usize::MAX,
    ensures
        r == spec_required_lines(string.spec_bytes(), max_width as int),
{
    let bytes = string.as_bytes();
    let ghost all = string.spec_bytes();
    let ghost goal = spec_required_lines(all, max_width as int);
    proof {
        lemma_lines_count_bounds(all, max_width as int, 0);
        assert(goal <= all.len() + 1);
        assert(all.subrange(0, all.len() as int) =~= all);
    }
    let mut total: usize = 0;
    let mut cur: usize = 0;
    for i in 0..bytes.len()
        invariant
            bytes@ == all,
            all.len() < usize::MAX,
            max_width >= 1,
            goal == spec_required_lines(all, max_width as int),
            goal <= all.len() + 1,
            cur <= i,
            total + spec_lines_count(
                all.subrange(i as int, all.len() as int),
                max_width as int,
                cur as int,
            ) == goal,
    {
        let ghost suffix = all.subrange(i as int, all.len() as int);
        proof {
            assert(suffix[0] == all[i as int]);
            assert(suffix.subrange(1, suffix.len() as int) =~= all.subrange(
                i + 1 as int,
                all.len() as int,
            ));
        }
        if bytes[i] == 10 {
            proof {
                lemma_lines_count_bounds(
                    all.subrange(i + 1 as int, all.len() as int),
                    max_width as int,
                    0,
                );
                lemma_div_pos_is_pos(cur as int, max_width as int);
            }
            total = total + cur / max_width + 1;
            cur = 0;
        } else {
            cur = cur + 1;
        }
    }
    proof {
        assert(all.subrange(all.len() as int, all.len() as int) =~= Seq::<u8>::empty());
        lemma_div_pos_is_pos(cur as int, max_width as int);
    }
    total + cur / max_width + 1
}

/// The screen lines an optional text needs: none takes none.
pub fn required_lines_option(option: Option<&str>, max_width: usize) -> (r: usize)
    requires
        max_width >= 1,
        option matches Some(s) ==> s.spec_bytes().len() < usize::MAX,
    ensures
        r == match option {
            Some(s) => spec_required_lines(s.spec_bytes(), max_width as int),
            None => 0,
        },
{
    match option {
        Some(string) => required_lines(string, max_width),
        None => 0,
    }
}

} // verus!
