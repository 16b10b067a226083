//! The exhaustive static consistency checker over the configuration model.
//!
//! Validation never stops at the first problem: every applicable error across
//! every page and entry is collected, in a fixed traversal order — the start
//! page check first, then each page in source order, and within a page each
//! entry in groups-then-entries source order.

use vstd::prelude::*;

use crate::action_file::{ActionFile, ActionFileV, spec_has_page};
use crate::entry::{Entry, EntryV, Return, RunMode};
use crate::page::{Page, PageV, flat_entries};

verus! {

/// One consistency violation found in a configuration.
#[derive(Debug, PartialEq)]
pub enum ValidationError {
    /// A navigation rule names a page that does not exist.
    UnknownPage { page_name: String },
    /// A page's flattened entry list is empty.
    EmptyPage { page_name: String },
    /// No page exists under the configured start page name.
    NoRoot { root_name: String },
    /// A shortcut character occurs more than once within a page; the error
    /// carries the title of the later, offending entry.
    DuplicatedShortcut { page_name: String, shortcut: char, title: String },
    /// An entry in exec mode has a navigation rule other than quitting.
    ExecWithReturn { page_name: String, shortcut: char },
    /// An entry in exec mode has no command to replace the process with.
    ExecWithoutCommand { page_name: String, shortcut: char },
}

/// The mathematical model of a `ValidationError`.
#[verifier::ext_equal]
pub enum ValidationErrorV {
    UnknownPage { page_name: Seq<char> },
    EmptyPage { page_name: Seq<char> },
    NoRoot { root_name: Seq<char> },
    DuplicatedShortcut { page_name: Seq<char>, shortcut: char, title: Seq<char> },
    ExecWithReturn { page_name: Seq<char>, shortcut: char },
    ExecWithoutCommand { page_name: Seq<char>, shortcut: char },
}

impl View for ValidationError {
    type V = ValidationErrorV;

    open spec fn view(&self) -> ValidationErrorV {
        match *self {
            ValidationError::UnknownPage { page_name } => ValidationErrorV::UnknownPage {
                page_name: page_name@,
            },
            ValidationError::EmptyPage { page_name } => ValidationErrorV::EmptyPage {
                page_name: page_name@,
            },
            ValidationError::NoRoot { root_name } => ValidationErrorV::NoRoot {
                root_name: root_name@,
            },
            ValidationError::DuplicatedShortcut { page_name, shortcut, title } => {
                ValidationErrorV::DuplicatedShortcut {
                    page_name: page_name@,
                    shortcut,
                    title: title@,
                }
            },
            ValidationError::ExecWithReturn { page_name, shortcut } => {
                ValidationErrorV::ExecWithReturn { page_name: page_name@, shortcut }
            },
            ValidationError::ExecWithoutCommand { page_name, shortcut } => {
                ValidationErrorV::ExecWithoutCommand { page_name: page_name@, shortcut }
            },
        }
    }
}

/// The duplicated-shortcut errors of entry `i` of a flattened entry list:
/// one error exactly when an earlier entry already uses the shortcut.
pub open spec fn spec_duplicate_errors(
    page_name: Seq<char>,
    entries: Seq<EntryV>,
    i: int,
) -> Seq<ValidationErrorV> {
    if exists|j: int| 0 <= j < i && entries[j].shortcut == entries[i].shortcut {
        seq![
            ValidationErrorV::DuplicatedShortcut {
                page_name,
                shortcut: entries[i].shortcut,
                title: entries[i].title,
            },
        ]
    } else {
        Seq::empty()
    }
}

/// The unknown-page errors of one entry: one error exactly when its
/// navigation rule names a page absent from the configuration.
pub open spec fn spec_link_errors(af: ActionFileV, e: EntryV) -> Seq<ValidationErrorV> {
    match e.return_to {
        crate::entry::ReturnV::OtherPage(target) => if !spec_has_page(af, target) {
            seq![ValidationErrorV::UnknownPage { page_name: target }]
        } else {
            Seq::empty()
        },
        _ => Seq::empty(),
    }
}

/// The exec-mode errors of one entry, in order: exec with a non-quit
/// navigation rule, then exec without a command.
pub open spec fn spec_mode_errors(page_name: Seq<char>, e: EntryV) -> Seq<ValidationErrorV> {
    (if e.runner_mode is Exec && !(e.return_to is Quit) {
        seq![ValidationErrorV::ExecWithReturn { page_name, shortcut: e.shortcut }]
    } else {
        Seq::empty()
    }) + (if e.runner_mode is Exec && e.command is Nothing {
        seq![ValidationErrorV::ExecWithoutCommand { page_name, shortcut: e.shortcut }]
    } else {
        Seq::empty()
    })
}

/// All errors of entry `i` of a page's flattened entry list, in reporting
/// order.
pub open spec fn spec_entry_errors(
    af: ActionFileV,
    page_name: Seq<char>,
    entries: Seq<EntryV>,
    i: int,
) -> Seq<ValidationErrorV> {
    spec_duplicate_errors(page_name, entries, i) + spec_link_errors(af, entries[i])
        + spec_mode_errors(page_name, entries[i])
}

/// The errors of the entries from index `i` on, concatenated in order.
pub open spec fn spec_entries_errors_from(
    af: ActionFileV,
    page_name: Seq<char>,
    entries: Seq<EntryV>,
    i: int,
) -> Seq<ValidationErrorV>
    decreases entries.len() - i,
{
    if i < 0 || i >= entries.len() {
        Seq::empty()
    } else {
        spec_entry_errors(af, page_name, entries, i) + spec_entries_errors_from(
            af,
            page_name,
            entries,
            i + 1,
        )
    }
}

/// All errors of one page: an empty-page error when its flattened entry list
/// is empty, then each entry's errors in order.
pub open spec fn spec_page_errors(af: ActionFileV, page_name: Seq<char>, p: PageV) -> Seq<
    ValidationErrorV,
> {
    (if flat_entries(p).len() == 0 {
        seq![ValidationErrorV::EmptyPage { page_name }]
    } else {
        Seq::empty()
    }) + spec_entries_errors_from(af, page_name, flat_entries(p), 0)
}

/// The errors of the pages from index `i` on, concatenated in source order.
pub open spec fn spec_pages_errors_from(af: ActionFileV, i: int) -> Seq<ValidationErrorV>
    decreases af.pages.len() - i,
{
    if i < 0 || i >= af.pages.len() {
        Seq::empty()
    } else {
        spec_page_errors(af, af.pages[i].0, af.pages[i].1) + spec_pages_errors_from(af, i + 1)
    }
}

/// The complete ordered error list of a configuration: a missing start page
/// first, then every page's errors in source order.
pub open spec fn spec_errors(af: ActionFileV, root_name: Seq<char>) -> Seq<ValidationErrorV> {
    (if !spec_has_page(af, root_name) {
        seq![ValidationErrorV::NoRoot { root_name }]
    } else {
        Seq::empty()
    }) + spec_pages_errors_from(af, 0)
}

/// The errors `new` holds beyond `old`: `new` keeps `old` as a prefix and
/// appends exec values whose models are exactly `evs`.
pub open spec fn appended(
    old: Seq<ValidationError>,
    new: Seq<ValidationError>,
    evs: Seq<ValidationErrorV>,
) -> bool {
    &&& new.len() == old.len() + evs.len()
    &&& forall|k: int| 0 <= k < old.len() ==> new[k] == old[k]
    &&& forall|k: int| 0 <= k < evs.len() ==> new[old.len() + k]@ == evs[k]
}

/// The exec values of `v` have exactly the models `s`, pointwise.
pub open spec fn views_match(v: Seq<ValidationError>, s: Seq<ValidationErrorV>) -> bool {
    &&& v.len() == s.len()
    &&& forall|k: int| 0 <= k < v.len() ==> v[k]@ == s[k]
}

proof fn lemma_appended_compose(
    a: Seq<ValidationError>,
    b: Seq<ValidationError>,
    c: Seq<ValidationError>,
    x: Seq<ValidationErrorV>,
    y: Seq<ValidationErrorV>,
)
    requires
        appended(a, b, x),
        appended(b, c, y),
    ensures
        appended(a, c, x + y),
{
    assert forall|k: int| 0 <= k < (x + y).len() implies c[a.len() + k]@ == (x + y)[k] by {
        if k < x.len() {
            assert(c[a.len() + k] == b[a.len() + k]);
        } else {
            assert(c[a.len() + k]@ == y[k - x.len()]);
        }
    }
}

proof fn lemma_views_append(
    a: Seq<ValidationError>,
    b: Seq<ValidationError>,
    s: Seq<ValidationErrorV>,
    x: Seq<ValidationErrorV>,
)
    requires
        views_match(a, s),
        appended(a, b, x),
    ensures
        views_match(b, s + x),
{
    assert forall|k: int| 0 <= k < b.len() implies b[k]@ == (s + x)[k] by {
        if k < a.len() {
            assert(b[k] == a[k]);
        } else {
            assert(b[k]@ == x[k - a.len()]);
        }
    }
}

/// Validation is deterministic, hence idempotent: any two runs on the same
/// configuration and start page yield error lists of the same length whose
/// entries agree pairwise.
pub proof fn lemma_validation_idempotent(
    af: ActionFileV,
    root_name: Seq<char>,
    first: Seq<ValidationError>,
    second: Seq<ValidationError>,
)
    requires
        first.map_values(|e: ValidationError| e@) == spec_errors(af, root_name),
        second.map_values(|e: ValidationError| e@) == spec_errors(af, root_name),
    ensures
        first.len() == second.len(),
        forall|k: int| 0 <= k < first.len() ==> first[k]@ == second[k]@,
{
    assert(first.map_values(|e: ValidationError| e@).len() == first.len());
    assert(second.map_values(|e: ValidationError| e@).len() == second.len());
    assert forall|k: int| 0 <= k < first.len() implies first[k]@ == second[k]@ by {
        assert(first.map_values(|e: ValidationError| e@)[k] == first[k]@);
        assert(second.map_values(|e: ValidationError| e@)[k] == second[k]@);
    }
}

proof fn lemma_filter_empty(pred: spec_fn(ValidationErrorV) -> bool)
    ensures
        Seq::<ValidationErrorV>::empty().filter(pred) == Seq::<ValidationErrorV>::empty(),
{
    reveal_with_fuel(Seq::filter, 1);
}

proof fn lemma_filter_singleton(x: ValidationErrorV, pred: spec_fn(ValidationErrorV) -> bool)
    ensures
        pred(x) ==> seq![x].filter(pred) == seq![x],
        !pred(x) ==> seq![x].filter(pred) == Seq::<ValidationErrorV>::empty(),
{
    reveal_with_fuel(Seq::filter, 2);
    assert(seq![x].drop_last() =~= Seq::<ValidationErrorV>::empty());
    assert(seq![x].last() == x);
    if pred(x) {
        assert(seq![x].filter(pred) =~= seq![x]);
    } else {
        assert(seq![x].filter(pred) =~= Seq::<ValidationErrorV>::empty());
    }
}

/// Duplicate-shortcut reporting: among the errors entry `i` of a page's
/// flattened entry list contributes, there is no duplicated-shortcut error
/// when no earlier entry uses its shortcut — the first occurrence is never
/// reported — and exactly one, carrying the offending entry's title, when
/// one does; occurrences are reported at their own position of the
/// traversal, so later occurrences appear in source order.
pub proof fn lemma_duplicate_reporting(
    af: ActionFileV,
    page_name: Seq<char>,
    entries: Seq<EntryV>,
    i: int,
)
    requires
        0 <= i < entries.len(),
    ensures
        ({
            let dups = spec_entry_errors(af, page_name, entries, i).filter(
                |e: ValidationErrorV| e is DuplicatedShortcut,
            );
            &&& (exists|j: int| 0 <= j < i && entries[j].shortcut == entries[i].shortcut)
                ==> dups == seq![
                ValidationErrorV::DuplicatedShortcut {
                    page_name,
                    shortcut: entries[i].shortcut,
                    title: entries[i].title,
                },
            ]
            &&& !(exists|j: int| 0 <= j < i && entries[j].shortcut == entries[i].shortcut)
                ==> dups == Seq::<ValidationErrorV>::empty()
        }),
{
    broadcast use Seq::filter_distributes_over_add;

    let pred = |e: ValidationErrorV| e is DuplicatedShortcut;
    let dup = spec_duplicate_errors(page_name, entries, i);
    let link = spec_link_errors(af, entries[i]);
    let ret_err = if entries[i].runner_mode is Exec && !(entries[i].return_to is Quit) {
        seq![ValidationErrorV::ExecWithReturn { page_name, shortcut: entries[i].shortcut }]
    } else {
        Seq::<ValidationErrorV>::empty()
    };
    let cmd_err = if entries[i].runner_mode is Exec && entries[i].command is Nothing {
        seq![ValidationErrorV::ExecWithoutCommand { page_name, shortcut: entries[i].shortcut }]
    } else {
        Seq::<ValidationErrorV>::empty()
    };
    assert(spec_mode_errors(page_name, entries[i]) == ret_err + cmd_err);
    assert(spec_entry_errors(af, page_name, entries, i).filter(pred) == dup.filter(pred)
        + link.filter(pred) + (ret_err.filter(pred) + cmd_err.filter(pred)));

    lemma_filter_empty(pred);
    if exists|j: int| 0 <= j < i && entries[j].shortcut == entries[i].shortcut {
        lemma_filter_singleton(
            ValidationErrorV::DuplicatedShortcut {
                page_name,
                shortcut: entries[i].shortcut,
                title: entries[i].title,
            },
            pred,
        );
    }
    match entries[i].return_to {
        crate::entry::ReturnV::OtherPage(target) => {
            if !spec_has_page(af, target) {
                lemma_filter_singleton(ValidationErrorV::UnknownPage { page_name: target }, pred);
            }
        },
        _ => {},
    }
    if entries[i].runner_mode is Exec && !(entries[i].return_to is Quit) {
        lemma_filter_singleton(
            ValidationErrorV::ExecWithReturn { page_name, shortcut: entries[i].shortcut },
            pred,
        );
    }
    if entries[i].runner_mode is Exec && entries[i].command is Nothing {
        lemma_filter_singleton(
            ValidationErrorV::ExecWithoutCommand { page_name, shortcut: entries[i].shortcut },
            pred,
        );
    }
    if exists|j: int| 0 <= j < i && entries[j].shortcut == entries[i].shortcut {
        assert(spec_entry_errors(af, page_name, entries, i).filter(pred) =~= seq![
            ValidationErrorV::DuplicatedShortcut {
                page_name,
                shortcut: entries[i].shortcut,
                title: entries[i].title,
            },
        ]);
    } else {
        assert(spec_entry_errors(af, page_name, entries, i).filter(pred)
            =~= Seq::<ValidationErrorV>::empty());
    }
}

/// Whether the vector holds the given character.
fn contains_char(v: &Vec<char>, c: char) -> (r: bool)
    ensures
        r == v@.contains(c),
{
    for i in 0..v.len()
        invariant
            forall|k: int| 0 <= k < i ==> v@[k] != c,
    {
        if v[i] == c {
            assert(v@[i as int] == c);
            return true;
        }
    }
    false
}

/// The duplicate errors one entry contributes, given the set of shortcuts
/// seen earlier in its page.
pub open spec fn spec_seen_duplicate(
    seen: Seq<char>,
    e: EntryV,
    page_name: Seq<char>,
) -> Seq<ValidationErrorV> {
    if seen.contains(e.shortcut) {
        seq![
            ValidationErrorV::DuplicatedShortcut {
                page_name,
                shortcut: e.shortcut,
                title: e.title,
            },
        ]
    } else {
        Seq::empty()
    }
}

/// Reports the entry's shortcut as duplicated when it was already seen in
/// this page, and records it as seen otherwise; the first occurrence of a
/// shortcut is never reported.
fn validate_shortcut_duplicates(
    errors: &mut Vec<ValidationError>,
    entry: &Entry,
    seen_shortcuts: &mut Vec<char>,
    page_name: &str,
)
    ensures
        appended(
            old(errors)@,
            final(errors)@,
            spec_seen_duplicate(old(seen_shortcuts)@, entry@, page_name@),
        ),
        old(seen_shortcuts)@.contains(entry@.shortcut) ==> final(seen_shortcuts)@ == old(
            seen_shortcuts,
        )@,
        !old(seen_shortcuts)@.contains(entry@.shortcut) ==> final(seen_shortcuts)@ == old(
            seen_shortcuts,
        )@.push(entry@.shortcut),
{
    let shortcut = entry.shortcut();
    if contains_char(seen_shortcuts, shortcut) {
        errors.push(
            ValidationError::DuplicatedShortcut {
                page_name: page_name.to_owned(),
                shortcut,
                title: entry.title().to_owned(),
            },
        );
    } else {
        seen_shortcuts.push(shortcut);
    }
}

/// Reports a navigation rule that names a page absent from the
/// configuration.
fn validate_return_link(errors: &mut Vec<ValidationError>, entry: &Entry, actions: &ActionFile)
    ensures
        appended(old(errors)@, final(errors)@, spec_link_errors(actions@, entry@)),
{
    match entry.return_to() {
        Return::OtherPage(page_name) => {
            if !actions.has_page(page_name.as_str()) {
                errors.push(ValidationError::UnknownPage { page_name: page_name.clone() });
            }
        },
        _ => {},
    }
}

/// Reports an exec-mode entry that either has a non-quit navigation rule or
/// no command: a successful exec never returns control to the menu, so both
/// are contradictions.
fn validate_mode(errors: &mut Vec<ValidationError>, entry: &Entry, page_name: &str)
    ensures
        appended(old(errors)@, final(errors)@, spec_mode_errors(page_name@, entry@)),
{
    if entry.runner_mode() == RunMode::Exec {
        match entry.return_to() {
            Return::SamePage | Return::OtherPage(_) => {
                errors.push(
                    ValidationError::ExecWithReturn {
                        page_name: page_name.to_owned(),
                        shortcut: entry.shortcut(),
                    },
                );
            },
            Return::Quit => {},
        }
        match entry.command() {
            crate::entry::Command::Nothing => {
                errors.push(
                    ValidationError::ExecWithoutCommand {
                        page_name: page_name.to_owned(),
                        shortcut: entry.shortcut(),
                    },
                );
            },
            _ => {},
        }
    }
}

/// Collects every consistency violation of the configuration, with
/// `root_name` as the intended start page. Returns `Ok` exactly when no
/// violation exists, and otherwise the complete ordered list of errors.
pub fn validate(actions: &ActionFile, root_name: &str) -> (r: Result<(), Vec<ValidationError>>)
    ensures
        r is Ok <==> spec_errors(actions@, root_name@).len() == 0,
        r matches Err(v) ==> v@.map_values(|e: ValidationError| e@) == spec_errors(
            actions@,
            root_name@,
        ),
{
    let ghost af = actions@;
    let ghost total = spec_errors(af, root_name@);
    let mut errors: Vec<ValidationError> = Vec::new();
    let ghost mut accv: Seq<ValidationErrorV> = Seq::empty();

    if !actions.has_page(root_name) {
        errors.push(ValidationError::NoRoot { root_name: root_name.to_owned() });
        proof {
            accv = accv.push(ValidationErrorV::NoRoot { root_name: root_name@ });
        }
    }
    proof {
        assert(accv + spec_pages_errors_from(af, 0) =~= total);
        assert(views_match(errors@, accv));
    }

    for i in 0..actions.pages.len()
        invariant
            af == actions@,
            total == spec_errors(af, root_name@),
            views_match(errors@, accv),
            accv + spec_pages_errors_from(af, i as int) == total,
    {
        let pair = &actions.pages[i];
        let page_name: &str = pair.0.as_str();
        let page: &Page = &pair.1;
        proof {
            assert(af.pages[i as int] == (actions.pages@[i as int].0@, actions.pages@[i as int].1@));
        }
        let ghost name = af.pages[i as int].0;
        let ghost pagev = af.pages[i as int].1;
        let ghost flat = flat_entries(pagev);
        let ghost page_start_acc = accv;

        let mut seen_shortcuts: Vec<char> = Vec::new();
        let all = page.all_entries();
        proof {
            assert(flat.len() == all@.len());
            assert forall|k: int| 0 <= k < flat.len() implies all@[k]@ == flat[k] by {
                assert(all@.map_values(|e: &Entry| e@)[k] == flat[k]);
            }
        }

        if all.len() == 0 {
            errors.push(ValidationError::EmptyPage { page_name: page_name.to_owned() });
            proof {
                accv = accv.push(ValidationErrorV::EmptyPage { page_name: name });
                assert(views_match(errors@, accv));
            }
        }
        proof {
            assert(spec_pages_errors_from(af, i as int) == spec_page_errors(af, name, pagev)
                + spec_pages_errors_from(af, i + 1 as int));
            assert(accv + (spec_entries_errors_from(af, name, flat, 0) + spec_pages_errors_from(
                af,
                i + 1 as int,
            )) =~= total);
        }

        for j in 0..all.len()
            invariant
                af == actions@,
                total == spec_errors(af, root_name@),
                0 <= i < actions.pages@.len(),
                name == af.pages[i as int].0,
                name == page_name@,
                pagev == af.pages[i as int].1,
                flat == flat_entries(pagev),
                all@.len() == flat.len(),
                forall|k: int| 0 <= k < flat.len() ==> all@[k]@ == flat[k],
                views_match(errors@, accv),
                accv + (spec_entries_errors_from(af, name, flat, j as int)
                    + spec_pages_errors_from(af, i + 1 as int)) == total,
                forall|c: char|
                    seen_shortcuts@.contains(c) <==> exists|k: int|
                        0 <= k < j && flat[k].shortcut == c,
        {
            let entry: &Entry = all[j];
            proof {
                assert(entry@ == flat[j as int]);
            }
            let ghost e = flat[j as int];
            let ghost errs0 = errors@;
            let ghost acc0 = accv;
            let ghost seen0 = seen_shortcuts@;

            validate_shortcut_duplicates(&mut errors, entry, &mut seen_shortcuts, page_name);
            let ghost errs1 = errors@;
            proof {
                assert(spec_seen_duplicate(seen0, e, name) == spec_duplicate_errors(
                    name,
                    flat,
                    j as int,
                ));
            }

            validate_return_link(&mut errors, entry, actions);
            let ghost errs2 = errors@;

            validate_mode(&mut errors, entry, page_name);
            proof {
                lemma_appended_compose(
                    errs0,
                    errs1,
                    errs2,
                    spec_duplicate_errors(name, flat, j as int),
                    spec_link_errors(af, e),
                );
                lemma_appended_compose(
                    errs0,
                    errs2,
                    errors@,
                    spec_duplicate_errors(name, flat, j as int) + spec_link_errors(af, e),
                    spec_mode_errors(name, e),
                );
                lemma_views_append(
                    errs0,
                    errors@,
                    acc0,
                    spec_duplicate_errors(name, flat, j as int) + spec_link_errors(af, e)
                        + spec_mode_errors(name, e),
                );
                accv = acc0 + spec_entry_errors(af, name, flat, j as int);
                assert(views_match(errors@, accv));
                assert(spec_entries_errors_from(af, name, flat, j as int) == spec_entry_errors(
                    af,
                    name,
                    flat,
                    j as int,
                ) + spec_entries_errors_from(af, name, flat, j + 1 as int));
                assert(accv + (spec_entries_errors_from(af, name, flat, j + 1 as int)
                    + spec_pages_errors_from(af, i + 1 as int)) =~= acc0 + (
                spec_entries_errors_from(af, name, flat, j as int) + spec_pages_errors_from(
                    af,
                    i + 1 as int,
                )));
                // The seen set after this entry covers exactly the shortcuts
                // of the entries up to and including it.
                if seen0.contains(e.shortcut) {
                    assert forall|c: char| seen_shortcuts@.contains(c) implies exists|k: int|
                        0 <= k < j + 1 && flat[k].shortcut == c by {}
                    assert forall|c: char|
                        (exists|k: int| 0 <= k < j + 1 && flat[k].shortcut == c) implies
                        seen_shortcuts@.contains(c) by {
                        let k = choose|k: int| 0 <= k < j + 1 && flat[k].shortcut == c;
                        if k == j {
                            assert(seen0.contains(c));
                        }
                    }
                } else {
                    assert(seen_shortcuts@ == seen0.push(e.shortcut));
                    assert forall|c: char| seen_shortcuts@.contains(c) implies exists|k: int|
                        0 <= k < j + 1 && flat[k].shortcut == c by {
                        let m = choose|m: int|
                            0 <= m < seen_shortcuts@.len() && seen_shortcuts@[m] == c;
                        if m == seen0.len() {
                            assert(flat[j as int].shortcut == c);
                        } else {
                            assert(seen0[m] == c);
                            assert(seen0.contains(c));
                        }
                    }
                    assert forall|c: char|
                        (exists|k: int| 0 <= k < j + 1 && flat[k].shortcut == c) implies
                        seen_shortcuts@.contains(c) by {
                        let k = choose|k: int| 0 <= k < j + 1 && flat[k].shortcut == c;
                        if k == j {
                            assert(seen_shortcuts@[seen0.len() as int] == c);
                        } else {
                            assert(seen0.contains(c));
                            let m = choose|m: int| 0 <= m < seen0.len() && seen0[m] == c;
                            assert(seen_shortcuts@[m] == c);
                        }
                    }
                }
            }
        }
        proof {
            assert(spec_entries_errors_from(af, name, flat, flat.len() as int)
                =~= Seq::<ValidationErrorV>::empty());
            assert(accv + spec_pages_errors_from(af, i + 1 as int) =~= total);
        }
    }

    proof {
        assert(spec_pages_errors_from(af, af.pages.len() as int)
            =~= Seq::<ValidationErrorV>::empty());
        assert(accv =~= total);
    }

    if errors.is_empty() {
        Ok(())
    } else {
        proof {
            assert(errors@.map_values(|e: ValidationError| e@) =~= total);
        }
        Err(errors)
    }
}

} // verus!
