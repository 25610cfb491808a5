//! The filter capability: a pure keep-or-drop predicate over records, with
//! two strategies — by-name substring match and by-id decimal-prefix match —
//! and the toggle between them.

use vstd::prelude::*;

use crate::file_picker::FileItem;
use crate::playbook::PlaybookLine;
use crate::seq_util::lemma_filter_all_true;
use crate::text::{
    contains_seq, dec_rep, is_prefix, str_contains, str_is_prefix_of_chars, to_decimal,
};

verus! {

/// A keep-or-drop capability over records of type `T`.
pub trait Filter<T> {
    /// Which records the filter keeps, as a pure predicate.
    spec fn keeps(self, t: T) -> bool;

    /// Decides `keeps` on one record.
    fn keep(&self, t: &T) -> (r: bool)
        ensures
            r == self.keeps(*t),
    ;
}

/// The filter as a sequence predicate, for speaking about whole collections.
pub open spec fn keeps_pred<T, F: Filter<T>>(f: F) -> spec_fn(T) -> bool {
    |t: T| f.keeps(t)
}

/// Which record attribute the filter text is matched against.
#[derive(Clone, Copy, Debug, PartialEq, Eq, Structural)]
pub enum Mode {
    Name,
    ID,
}

impl Default for Mode {
    /// Filtering starts out by name.
    fn default() -> (r: Mode)
        ensures
            r == Mode::Name,
    {
        Mode::Name
    }
}

impl Mode {
    /// Where a toggle request lands: back at the default when the requested
    /// mode is already active, at the requested mode otherwise.
    pub open spec fn switch_spec(self, requested: Mode) -> Mode {
        if self == requested {
            Mode::Name
        } else {
            requested
        }
    }

    /// Adopts the requested mode, or reverts to the default when the request
    /// names the mode already active.
    pub fn switch_to(&self, mode: Mode) -> (r: Mode)
        ensures
            r == self.switch_spec(mode),
    {
        if *self == mode {
            Mode::Name
        } else {
            mode
        }
    }
}

/// Whether a record name matches the filter text: empty text matches
/// everything, otherwise the text must occur in the name as a contiguous
/// substring (case-sensitive, no normalization).
pub open spec fn name_matches(text: Seq<char>, name: Seq<char>) -> bool {
    text.len() == 0 || contains_seq(name, text)
}

/// Whether a record id matches the filter text: the text must be a prefix of
/// the id's decimal digits (empty text trivially is).
pub open spec fn id_matches(text: Seq<char>, id: int) -> bool {
    is_prefix(text, dec_rep(id))
}

/// What a `(mode, text)` filter keeps, over a record's id and name.
pub open spec fn keeps_rec(mode: Mode, text: Seq<char>, id: int, name: Seq<char>) -> bool {
    match mode {
        Mode::ID => id_matches(text, id),
        Mode::Name => name_matches(text, name),
    }
}

/// A `(mode, text)` filter over file records.
pub struct FileFilter {
    pub mode: Mode,
    pub filter: String,
}

impl FileFilter {
    /// Packs the mode and the filter text.
    pub fn new(mode: Mode, filter: String) -> (r: FileFilter)
        ensures
            r.mode == mode,
            r.filter@ == filter@,
    {
        FileFilter { mode, filter }
    }

    fn keep_by_name(&self, file: &FileItem) -> (r: bool)
        ensures
            r == name_matches(self.filter@, file.name@),
    {
        if self.filter.as_str().unicode_len() == 0 {
            return true;
        }
        str_contains(file.name.as_str(), self.filter.as_str())
    }

    fn keep_by_id(&self, file: &FileItem) -> (r: bool)
        ensures
            r == id_matches(self.filter@, file.id as int),
    {
        let digits = to_decimal(file.id);
        str_is_prefix_of_chars(self.filter.as_str(), &digits)
    }
}

impl Filter<FileItem> for FileFilter {
    open spec fn keeps(self, t: FileItem) -> bool {
        keeps_rec(self.mode, self.filter@, t.id as int, t.name@)
    }

    fn keep(&self, t: &FileItem) -> (r: bool) {
        match self.mode {
            Mode::ID => self.keep_by_id(t),
            Mode::Name => self.keep_by_name(t),
        }
    }
}

/// A `(mode, text)` filter over playbook lines.
pub struct PlaybookFilter {
    pub mode: Mode,
    pub filter: String,
}

impl PlaybookFilter {
    /// Packs the mode and the filter text.
    pub fn new(mode: Mode, filter: String) -> (r: PlaybookFilter)
        ensures
            r.mode == mode,
            r.filter@ == filter@,
    {
        PlaybookFilter { mode, filter }
    }

    fn keep_by_name(&self, line: &PlaybookLine) -> (r: bool)
        ensures
            r == name_matches(self.filter@, line.content@),
    {
        if self.filter.as_str().unicode_len() == 0 {
            return true;
        }
        str_contains(line.content.as_str(), self.filter.as_str())
    }

    fn keep_by_id(&self, line: &PlaybookLine) -> (r: bool)
        ensures
            r == id_matches(self.filter@, line.id as int),
    {
        let digits = to_decimal(line.id);
        str_is_prefix_of_chars(self.filter.as_str(), &digits)
    }
}

impl Filter<PlaybookLine> for PlaybookFilter {
    open spec fn keeps(self, t: PlaybookLine) -> bool {
        keeps_rec(self.mode, self.filter@, t.id as int, t.content@)
    }

    fn keep(&self, t: &PlaybookLine) -> (r: bool) {
        match self.mode {
            Mode::ID => self.keep_by_id(t),
            Mode::Name => self.keep_by_name(t),
        }
    }
}

/// Law: a filter whose text is empty keeps every record, in either mode.
pub proof fn lemma_empty_text_keeps_every_record(mode: Mode, id: int, name: Seq<char>)
    ensures
        keeps_rec(mode, Seq::<char>::empty(), id, name),
{
}

/// Law: applying a file filter with empty text to any collection keeps the
/// whole collection.
pub proof fn lemma_empty_text_keeps_all_files(f: FileFilter, items: Seq<FileItem>)
    requires
        f.filter@.len() == 0,
    ensures
        items.filter(keeps_pred(f)) == items,
{
    assert(forall|i: int| 0 <= i < items.len() ==> keeps_pred(f)(items[i]));
    lemma_filter_all_true(items, keeps_pred(f));
}

/// Law: applying a playbook filter with empty text to any collection keeps
/// the whole collection.
pub proof fn lemma_empty_text_keeps_all_lines(f: PlaybookFilter, items: Seq<PlaybookLine>)
    requires
        f.filter@.len() == 0,
    ensures
        items.filter(keeps_pred(f)) == items,
{
    assert(forall|i: int| 0 <= i < items.len() ==> keeps_pred(f)(items[i]));
    lemma_filter_all_true(items, keeps_pred(f));
}

/// Law: toggling to the same non-default mode twice in a row is an
/// involution: the second toggle restores the mode the first one saw.
pub proof fn lemma_switch_involution(m: Mode, requested: Mode)
    requires
        requested != Mode::Name,
    ensures
        m.switch_spec(requested).switch_spec(requested) == m,
{
}

} // verus!
