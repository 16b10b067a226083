//! A named screen containing ordered groups of selectable entries.

use vstd::prelude::*;

use crate::entry::{Entry, EntryV};
use crate::group::{Group, GroupV};
use crate::settings::Settings;

verus! {

/// One screen of the menu: a title, optional header and footer text, an
/// optional settings override and an ordered list of groups.
#[derive(Debug)]
pub struct Page {
    pub title: String,
    pub header: Option<String>,
    pub footer: Option<String>,
    pub settings: Option<Settings>,
    pub groups: Vec<Group>,
}

/// The mathematical model of a `Page`.
#[verifier::ext_equal]
pub struct PageV {
    pub title: Seq<char>,
    pub header: Option<Seq<char>>,
    pub footer: Option<Seq<char>>,
    pub settings: Option<Settings>,
    pub groups: Seq<GroupV>,
}

impl View for Page {
    type V = PageV;

    open spec fn view(&self) -> PageV {
        PageV {
            title: self.title@,
            header: match self.header {
                Some(header) => Some(header@),
                None => None,
            },
            footer: match self.footer {
                Some(footer) => Some(footer@),
                None => None,
            },
            settings: self.settings,
            groups: self.groups@.map_values(|g: Group| g@),
        }
    }
}

/// The entries of the groups from index `i` on, concatenated in source order.
pub open spec fn flat_entries_from(groups: Seq<GroupV>, i: int) -> Seq<EntryV>
    decreases groups.len() - i,
{
    if i < 0 || i >= groups.len() {
        Seq::empty()
    } else {
        groups[i].entries + flat_entries_from(groups, i + 1)
    }
}

/// A page's flattened entry list: all groups concatenated in source order.
pub open spec fn flat_entries(p: PageV) -> Seq<EntryV> {
    flat_entries_from(p.groups, 0)
}

/// The first entry with the given shortcut among the entries from index `i`
/// on, if any.
pub open spec fn find_entry_from(entries: Seq<EntryV>, shortcut: char, i: int) -> Option<EntryV>
    decreases entries.len() - i,
{
    if i < 0 || i >= entries.len() {
        None
    } else if entries[i].shortcut == shortcut {
        Some(entries[i])
    } else {
        find_entry_from(entries, shortcut, i + 1)
    }
}

/// The first entry of the page's flattened entry list with the given
/// shortcut, if any.
pub open spec fn find_entry(p: PageV, shortcut: char) -> Option<EntryV> {
    find_entry_from(flat_entries(p), shortcut, 0)
}

impl Page {
    /// The placeholder title a page gets when the source sets none.
    pub fn default_title() -> (r: String)
        ensures
            r@ == "Tydra"@,
    {
        "Tydra".to_owned()
    }

    /// The page's flattened entry list: all groups concatenated, in source
    /// order.
    pub fn all_entries(&self) -> (r: Vec<&Entry>)
        ensures
            r@.map_values(|e: &Entry| e@) == flat_entries(self@),
    {
        let ghost flat = flat_entries(self@);
        let mut out: Vec<&Entry> = Vec::new();
        let ghost mut acc: Seq<EntryV> = Seq::empty();
        proof {
            assert(acc + flat_entries_from(self@.groups, 0) =~= flat);
        }
        for i in 0..self.groups.len()
            invariant
                flat == flat_entries(self@),
                acc + flat_entries_from(self@.groups, i as int) == flat,
                out@.len() == acc.len(),
                forall|k: int| 0 <= k < acc.len() ==> out@[k]@ == acc[k],
        {
            let group = &self.groups[i];
            assert(group@ == self@.groups[i as int]);
            let ghost before = acc;
            for j in 0..group.entries.len()
                invariant
                    0 <= i < self@.groups.len(),
                    group@ == self@.groups[i as int],
                    group@.entries.len() == group.entries.len(),
                    acc =~= before + group@.entries.subrange(0, j as int),
                    out@.len() == acc.len(),
                    forall|k: int| 0 <= k < acc.len() ==> out@[k]@ == acc[k],
            {
                let entry = &group.entries[j];
                assert(entry@ == group@.entries[j as int]);
                out.push(entry);
                proof {
                    acc = acc.push(entry@);
                    assert(acc =~= before + group@.entries.subrange(0, j + 1 as int));
                }
            }
            proof {
                assert(group@.entries.subrange(0, group@.entries.len() as int) =~= group@.entries);
                assert(flat_entries_from(self@.groups, i as int) == group@.entries
                    + flat_entries_from(self@.groups, i + 1 as int));
                assert(acc + flat_entries_from(self@.groups, i + 1 as int) =~= before
                    + flat_entries_from(self@.groups, i as int));
            }
        }
        proof {
            assert(flat_entries_from(self@.groups, self@.groups.len() as int)
                =~= Seq::<EntryV>::empty());
            assert(acc =~= flat);
            assert(out@.map_values(|e: &Entry| e@) =~= flat);
        }
        out
    }

    /// The first entry of the page whose shortcut is the given character, in
    /// groups-then-entries source order.
    pub fn entry_with_shortcut(&self, shortcut: char) -> (r: Option<&Entry>)
        ensures
            r is Some <==> find_entry(self@, shortcut) is Some,
            r matches Some(e) ==> find_entry(self@, shortcut) == Some(e@),
    {
        let all = self.all_entries();
        let ghost flat = flat_entries(self@);
        for k in 0..all.len()
            invariant
                all@.map_values(|e: &Entry| e@) == flat,
                k <= all@.len(),
                find_entry_from(flat, shortcut, k as int) == find_entry(self@, shortcut),
        {
            assert(all@[k as int]@ == flat[k as int]);
            if all[k].shortcut == shortcut {
                return Some(all[k]);
            }
        }
        None
    }

    pub fn title(&self) -> (r: &str)
        ensures
            r@ == self@.title,
    {
        self.title.as_str()
    }

    pub fn header(&self) -> (r: Option<&str>)
        ensures
            r is Some <==> self@.header is Some,
            r matches Some(header) ==> self@.header == Some(header@),
    {
        match &self.header {
            Some(header) => Some(header.as_str()),
            None => None,
        }
    }

    pub fn footer(&self) -> (r: Option<&str>)
        ensures
            r is Some <==> self@.footer is Some,
            r matches Some(footer) ==> self@.footer == Some(footer@),
    {
        match &self.footer {
            Some(footer) => Some(footer.as_str()),
            None => None,
        }
    }

    pub fn settings(&self) -> (r: Option<&Settings>)
        ensures
            r is Some <==> self@.settings is Some,
            r matches Some(settings) ==> self@.settings == Some(*settings),
    {
        self.settings.as_ref()
    }

    pub fn groups(&self) -> (r: &[Group])
        ensures
            r@.map_values(|g: Group| g@) == self@.groups,
    {
        self.groups.as_slice()
    }
}

} // verus!
