//! A cluster of entries displayed together within a page.

use vstd::prelude::*;

use crate::entry::{Entry, EntryV};
use crate::settings::Settings;

verus! {

/// A titled, optionally restyled cluster of entries within a page.
#[derive(Debug)]
pub struct Group {
    pub title: Option<String>,
    pub settings: Option<Settings>,
    pub entries: Vec<Entry>,
}

/// The mathematical model of a `Group`.
#[verifier::ext_equal]
pub struct GroupV {
    pub title: Option<Seq<char>>,
    pub settings: Option<Settings>,
    pub entries: Seq<EntryV>,
}

impl View for Group {
    type V = GroupV;

    open spec fn view(&self) -> GroupV {
        GroupV {
            title: match self.title {
                Some(title) => Some(title@),
                None => None,
            },
            settings: self.settings,
            entries: self.entries@.map_values(|e: Entry| e@),
        }
    }
}

impl Group {
    pub fn title(&self) -> (r: Option<&str>)
        ensures
            r is Some <==> self@.title is Some,
            r matches Some(title) ==> self@.title == Some(title@),
    {
        match &self.title {
            Some(title) => Some(title.as_str()),
            None => None,
        }
    }

    pub fn settings(&self) -> (r: Option<&Settings>)
        ensures
            r is Some <==> self@.settings is Some,
            r matches Some(settings) ==> self@.settings == Some(*settings),
    {
        self.settings.as_ref()
    }

    pub fn entries(&self) -> (r: &[Entry])
        ensures
            r@.map_values(|e: Entry| e@) == self@.entries,
    {
        self.entries.as_slice()
    }
}

} // verus!
