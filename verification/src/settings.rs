//! Display settings and their cascading resolution.
//!
//! A `Settings` value is a sparse override record: any field may be left
//! unset. A `SettingsAccumulator` is a fully resolved pair of layout and
//! shortcut color, built by merging overrides over built-in defaults in the
//! fixed order global, page, group, entry; a field set at a deeper level
//! always wins.

use vstd::prelude::*;

use crate::entry::Entry;
use crate::group::Group;
use crate::page::Page;

verus! {

/// A sparse display-settings override record.
#[derive(Debug, Clone, Copy, PartialEq)]
pub struct Settings {
    pub layout: Option<Layout>,
    pub shortcut_color: Option<Color>,
}

/// A fully resolved display configuration at one position of the
/// page/group/entry tree.
#[derive(Debug, Clone, Copy, PartialEq)]
pub struct SettingsAccumulator {
    pub layout: Layout,
    pub shortcut_color: Color,
}

/// How a page's entries are arranged on screen.
#[derive(Debug, Clone, Copy, PartialEq, Eq, Structural)]
pub enum Layout {
    List,
    Columns,
}

/// A terminal color for rendering an entry's shortcut character.
#[derive(Debug, Clone, Copy, PartialEq, Eq, Structural)]
pub enum Color {
    Reset,
    Black,
    Blue,
    Cyan,
    Green,
    Magenta,
    Red,
    White,
    Yellow,
}

/// The layout used when no level of the cascade sets one.
pub open spec fn default_layout() -> Layout {
    Layout::List
}

/// The shortcut color used when no level of the cascade sets one.
pub open spec fn default_shortcut_color() -> Color {
    Color::Red
}

/// The result of applying the sparse override `s` on top of `acc`: a field
/// present in `s` replaces the field of `acc`, an absent field keeps it.
pub open spec fn spec_merge(acc: SettingsAccumulator, s: Settings) -> SettingsAccumulator {
    SettingsAccumulator {
        layout: if s.layout is Some {
            s.layout->0
        } else {
            acc.layout
        },
        shortcut_color: if s.shortcut_color is Some {
            s.shortcut_color->0
        } else {
            acc.shortcut_color
        },
    }
}

/// The base accumulator that the global settings resolve to: each unset
/// field falls back to the built-in default.
pub open spec fn spec_base(s: Settings) -> SettingsAccumulator {
    spec_merge(
        SettingsAccumulator { layout: default_layout(), shortcut_color: default_shortcut_color() },
        s,
    )
}

impl Default for Settings {
    /// The built-in defaults, written as a fully populated override record.
    fn default() -> (r: Settings)
        ensures
            r.layout == Some(default_layout()),
            r.shortcut_color == Some(default_shortcut_color()),
    {
        Settings { shortcut_color: Some(Color::Red), layout: Some(Layout::List) }
    }
}

impl SettingsAccumulator {
    /// Applies one sparse override record on top of this accumulator.
    pub fn with_settings(&self, settings: &Settings) -> (r: SettingsAccumulator)
        ensures
            r == spec_merge(*self, *settings),
    {
        SettingsAccumulator {
            layout: match settings.layout {
                Some(layout) => layout,
                None => self.layout,
            },
            shortcut_color: match settings.shortcut_color {
                Some(color) => color,
                None => self.shortcut_color,
            },
        }
    }

    /// Applies a page's settings override if the page carries one, and keeps
    /// this accumulator unchanged otherwise.
    pub fn with_page(&self, page: &Page) -> (r: SettingsAccumulator)
        ensures
            r == spec_merge_opt(*self, page@.settings),
    {
        match page.settings() {
            Some(settings) => self.with_settings(settings),
            None => *self,
        }
    }

    /// Applies a group's settings override if the group carries one, and
    /// keeps this accumulator unchanged otherwise.
    pub fn with_group(&self, group: &Group) -> (r: SettingsAccumulator)
        ensures
            r == spec_merge_opt(*self, group@.settings),
    {
        match group.settings() {
            Some(settings) => self.with_settings(settings),
            None => *self,
        }
    }

    /// Applies an entry's shortcut-color override; layout is not an
    /// entry-level concept, so it is kept as it is.
    pub fn with_entry(&self, entry: &Entry) -> (r: SettingsAccumulator)
        ensures
            r == spec_with_color(*self, entry@.shortcut_color),
    {
        SettingsAccumulator {
            layout: self.layout,
            shortcut_color: match entry.shortcut_color() {
                Some(color) => color,
                None => self.shortcut_color,
            },
        }
    }

    /// The layout this accumulator resolved to.
    pub fn layout(&self) -> (r: Layout)
        ensures
            r == self.layout,
    {
        self.layout
    }
}

/// The result of applying an optional override record: the input unchanged
/// when there is none.
pub open spec fn spec_merge_opt(acc: SettingsAccumulator, s: Option<Settings>) -> SettingsAccumulator {
    match s {
        Some(s) => spec_merge(acc, s),
        None => acc,
    }
}

/// The result of applying an optional shortcut-color override alone.
pub open spec fn spec_with_color(acc: SettingsAccumulator, c: Option<Color>) -> SettingsAccumulator {
    SettingsAccumulator {
        layout: acc.layout,
        shortcut_color: match c {
            Some(c) => c,
            None => acc.shortcut_color,
        },
    }
}

/// The layout the cascade global → page → group resolves to: the deepest
/// level that sets one wins, and when no level sets one it is the built-in
/// default.
pub open spec fn spec_layout_cascade(
    global: Settings,
    page: Option<Settings>,
    group: Option<Settings>,
) -> Layout {
    if group is Some && group->0.layout is Some {
        group->0.layout->0
    } else if page is Some && page->0.layout is Some {
        page->0.layout->0
    } else if global.layout is Some {
        global.layout->0
    } else {
        default_layout()
    }
}

/// The shortcut color the cascade global → page → group → entry resolves
/// to: the deepest level that sets one wins, and when no level sets one it
/// is the built-in default.
pub open spec fn spec_color_cascade(
    global: Settings,
    page: Option<Settings>,
    group: Option<Settings>,
    entry_color: Option<Color>,
) -> Color {
    if entry_color is Some {
        entry_color->0
    } else if group is Some && group->0.shortcut_color is Some {
        group->0.shortcut_color->0
    } else if page is Some && page->0.shortcut_color is Some {
        page->0.shortcut_color->0
    } else if global.shortcut_color is Some {
        global.shortcut_color->0
    } else {
        default_shortcut_color()
    }
}

/// Cascading settings: applying the chain global → page → group → entry in
/// that fixed order resolves each field to the value set at the deepest
/// level that sets it, and to the built-in default when no level sets it.
pub proof fn lemma_settings_cascade(
    global: Settings,
    page: Option<Settings>,
    group: Option<Settings>,
    entry_color: Option<Color>,
)
    ensures
        ({
            let resolved = spec_with_color(
                spec_merge_opt(spec_merge_opt(spec_base(global), page), group),
                entry_color,
            );
            &&& resolved.layout == spec_layout_cascade(global, page, group)
            &&& resolved.shortcut_color == spec_color_cascade(global, page, group, entry_color)
        }),
{
}

impl vstd::std_specs::convert::FromSpecImpl<&Settings> for SettingsAccumulator {
    open spec fn obeys_from_spec() -> bool {
        true
    }

    open spec fn from_spec(s: &Settings) -> SettingsAccumulator {
        spec_base(*s)
    }
}

impl From<&Settings> for SettingsAccumulator {
    /// Resolves the global settings over the built-in defaults, yielding the
    /// base accumulator of the cascade.
    fn from(settings: &Settings) -> (r: SettingsAccumulator) {
        SettingsAccumulator {
            layout: match settings.layout {
                Some(layout) => layout,
                None => Layout::List,
            },
            shortcut_color: match settings.shortcut_color {
                Some(color) => color,
                None => Color::Red,
            },
        }
    }
}

impl Color {
    /// The name of this color in the renderer's markup language.
    pub fn markup_name(&self) -> (r: &'static str)
        ensures
            r@ == spec_markup_name(*self),
    {
        match *self {
            Color::Reset => "reset",
            Color::Black => "black",
            Color::Blue => "blue",
            Color::Cyan => "cyan",
            Color::Green => "green",
            Color::Magenta => "magenta",
            Color::Red => "red",
            Color::White => "white",
            Color::Yellow => "yellow",
        }
    }
}

/// The markup name of each color.
pub open spec fn spec_markup_name(c: Color) -> Seq<char> {
    match c {
        Color::Reset => "reset"@,
        Color::Black => "black"@,
        Color::Blue => "blue"@,
        Color::Cyan => "cyan"@,
        Color::Green => "green"@,
        Color::Magenta => "magenta"@,
        Color::Red => "red"@,
        Color::White => "white"@,
        Color::Yellow => "yellow"@,
    }
}

} // verus!
