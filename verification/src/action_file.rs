//! The whole configuration model: global settings plus the name-keyed,
//! order-preserving collection of pages.

use vstd::prelude::*;

use crate::page::{Page, PageV};
use crate::settings::{Settings, SettingsAccumulator};
use crate::settings::spec_base;
use crate::text::str_equal;
use crate::validator;
use crate::validator::ValidationError;

verus! {

/// The parsed configuration: global settings and the ordered collection of
/// named pages.
#[derive(Debug)]
pub struct ActionFile {
    pub global_settings: Settings,
    pub pages: Vec<(String, Page)>,
}

/// The mathematical model of an `ActionFile`.
#[verifier::ext_equal]
pub struct ActionFileV {
    pub global_settings: Settings,
    pub pages: Seq<(Seq<char>, PageV)>,
}

impl View for ActionFile {
    type V = ActionFileV;

    open spec fn view(&self) -> ActionFileV {
        ActionFileV {
            global_settings: self.global_settings,
            pages: self.pages@.map_values(|p: (String, Page)| (p.0@, p.1@)),
        }
    }
}

/// Whether a page of the given name exists.
pub open spec fn spec_has_page(af: ActionFileV, name: Seq<char>) -> bool {
    exists|i: int| 0 <= i < af.pages.len() && af.pages[i].0 == name
}

/// The first index of a page of the given name among those from index `i`
/// on, if any.
pub open spec fn page_index_from(pages: Seq<(Seq<char>, PageV)>, name: Seq<char>, i: int) -> Option<
    int,
>
    decreases pages.len() - i,
{
    if i < 0 || i >= pages.len() {
        None
    } else if pages[i].0 == name {
        Some(i)
    } else {
        page_index_from(pages, name, i + 1)
    }
}

/// The first index of a page of the given name, if any.
pub open spec fn spec_page_index(af: ActionFileV, name: Seq<char>) -> Option<int> {
    page_index_from(af.pages, name, 0)
}

/// A page exists under a name exactly when the name has a first index, and
/// that index carries the name.
pub proof fn lemma_page_index_some(af: ActionFileV, name: Seq<char>)
    ensures
        spec_has_page(af, name) <==> spec_page_index(af, name) is Some,
        spec_page_index(af, name) matches Some(i) ==> 0 <= i < af.pages.len() && af.pages[i].0
            == name,
{
    lemma_page_index_from(af.pages, name, 0);
}

proof fn lemma_page_index_from(pages: Seq<(Seq<char>, PageV)>, name: Seq<char>, i: int)
    requires
        0 <= i <= pages.len(),
    ensures
        (page_index_from(pages, name, i) is Some) <==> exists|k: int|
            i <= k < pages.len() && pages[k].0 == name,
        page_index_from(pages, name, i) matches Some(k) ==> i <= k < pages.len() && pages[k].0
            == name,
    decreases pages.len() - i,
{
    if i < pages.len() {
        if pages[i].0 == name {
        } else {
            lemma_page_index_from(pages, name, i + 1);
        }
    }
}

/// The page at a name's first index. Meaningful only when the name exists.
pub open spec fn spec_get_page(af: ActionFileV, name: Seq<char>) -> PageV {
    af.pages[spec_page_index(af, name)->0].1
}

impl ActionFile {
    /// Every page of the configuration paired with its name, in source
    /// order.
    pub fn pages_with_names(&self) -> (r: Vec<(&Page, &str)>)
        ensures
            r@.len() == self@.pages.len(),
            forall|i: int|
                0 <= i < r@.len() ==> r@[i].0@ == self@.pages[i].1 && r@[i].1@ == self@.pages[i].0,
    {
        let mut out: Vec<(&Page, &str)> = Vec::new();
        for i in 0..self.pages.len()
            invariant
                out@.len() == i,
                forall|k: int|
                    0 <= k < i ==> out@[k].0@ == self@.pages[k].1 && out@[k].1@
                        == self@.pages[k].0,
        {
            let pair = &self.pages[i];
            out.push((&pair.1, pair.0.as_str()));
        }
        out
    }

    /// Collects every consistency violation of this configuration, with the
    /// given page name as the intended start page.
    pub fn validate(&self, start_page: &str) -> (r: Result<(), Vec<ValidationError>>)
        ensures
            r is Ok <==> validator::spec_errors(self@, start_page@).len() == 0,
            r matches Err(v) ==> v@.map_values(|e: ValidationError| e@) == validator::spec_errors(
                self@,
                start_page@,
            ),
    {
        validator::validate(self, start_page)
    }

    /// The first index of the page of the given name, if one exists.
    pub fn page_index(&self, page_name: &str) -> (r: Option<usize>)
        ensures
            r matches Some(i) ==> spec_page_index(self@, page_name@) == Some(i as int),
            r is Some <==> spec_has_page(self@, page_name@),
    {
        let ghost name = page_name@;
        proof {
            assert(self@.pages.len() == self.pages@.len());
        }
        for i in 0..self.pages.len()
            invariant
                name == page_name@,
                self@.pages.len() == self.pages@.len(),
                page_index_from(self@.pages, name, i as int) == spec_page_index(self@, name),
        {
            let pair = &self.pages[i];
            proof {
                assert(self@.pages[i as int] == (
                    self.pages@[i as int].0@,
                    self.pages@[i as int].1@,
                ));
                assert(pair.0@ == self@.pages[i as int].0);
            }
            if str_equal(pair.0.as_str(), page_name) {
                proof {
                    assert(self@.pages[i as int].0 == name);
                    assert(page_index_from(self@.pages, name, i as int) == Some(i as int));
                    lemma_page_index_some(self@, name);
                }
                return Some(i);
            }
            proof {
                assert(self@.pages[i as int].0 != name);
                assert(page_index_from(self@.pages, name, i as int) == page_index_from(
                    self@.pages,
                    name,
                    i + 1 as int,
                ));
            }
        }
        proof {
            lemma_page_index_some(self@, name);
        }
        None
    }

    /// Whether a page of the given name exists.
    pub fn has_page(&self, page_name: &str) -> (r: bool)
        ensures
            r == spec_has_page(self@, page_name@),
    {
        self.page_index(page_name).is_some()
    }

    /// The page of the given name, which must exist; the validator
    /// guarantees it for every name the engine looks up.
    pub fn get_page(&self, page_name: &str) -> (r: &Page)
        requires
            spec_has_page(self@, page_name@),
        ensures
            r@ == spec_get_page(self@, page_name@),
    {
        let index = match self.page_index(page_name) {
            Some(index) => index,
            None => {
                proof {
                    lemma_page_index_some(self@, page_name@);
                }
                unreached()
            },
        };
        proof {
            lemma_page_index_some(self@, page_name@);
        }
        &self.pages[index].1
    }

    /// The base settings accumulator: the global settings resolved over the
    /// built-in defaults.
    pub fn settings_accumulator(&self) -> (r: SettingsAccumulator)
        ensures
            r == spec_base(self@.global_settings),
    {
        SettingsAccumulator::from(&self.global_settings)
    }
}

} // verus!
