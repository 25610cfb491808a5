//! The event-decision core: one plain value per input event comes in, the
//! state steps, and one plain action goes back out for the caller to perform
//! (quit, load a file, write a line out, open an editor, reload). The caller
//! owns all I/O; everything decided here is verified.

use vstd::prelude::*;

use crate::file_picker::{FileItem, FilePicker};
use crate::filters::{keeps_pred, keeps_rec, FileFilter, Mode as FilterMode, PlaybookFilter};
use crate::modes::{mode_of_ordinal, next_mode, prev_mode, Mode};
use crate::playbook::{build_playbook_lines, kept_views, PlaybookLine};
use crate::seq_util::lemma_filter_all_true;
use crate::tab_manager::{next_sel, prev_sel, TabManager, TabView};
use crate::text::{
    char_is_digit, digit_of_char, digit_val, is_digit_char, string_pop_char, string_push_char,
};

verus! {

/// One decoded input event, already freed of any host key encoding.
#[derive(Clone, Copy, Debug, PartialEq, Eq, Structural)]
pub enum KeyEvent {
    Quit,
    Down,
    Up,
    NextMode,
    PrevMode,
    SelectMode(char),
    Input(char),
    Backspace,
    Enter,
    Edit,
    Reload,
    SwitchFilterId,
}

/// What the caller must do after a step; all file and host work stays with
/// the caller.
#[derive(Debug, Clone, PartialEq)]
pub enum Action {
    Nothing,
    Quit,
    LoadFile(String),
    WriteLine(String),
    OpenFile(String),
    ReloadFiles,
}

/// The whole decision state: current display mode, current filter, the two
/// record lists, and the name of the loaded file.
pub struct State {
    pub mode: Mode,
    pub filter_mode: FilterMode,
    pub filter: String,
    pub files_mgr: TabManager<FileItem>,
    pub playbook_mgr: TabManager<PlaybookLine>,
    pub file_picker: FilePicker,
    pub current_file: Option<String>,
}

/// The file-record predicate a `(mode, text)` filter denotes.
pub open spec fn file_pred(fm: FilterMode, text: Seq<char>) -> spec_fn(FileItem) -> bool {
    |t: FileItem| keeps_rec(fm, text, t.id as int, t.name@)
}

/// The playbook-line predicate a `(mode, text)` filter denotes.
pub open spec fn line_pred(fm: FilterMode, text: Seq<char>) -> spec_fn(PlaybookLine) -> bool {
    |t: PlaybookLine| keeps_rec(fm, text, t.id as int, t.content@)
}

/// The mode, filter, loaded-file name and picker did not move.
pub open spec fn same_config(pre: State, post: State) -> bool {
    &&& post.mode == pre.mode
    &&& post.filter_mode == pre.filter_mode
    &&& post.filter == pre.filter
    &&& post.current_file == pre.current_file
    &&& post.file_picker == pre.file_picker
}

/// What re-applying the `(fm, text)` filter does to the list the given mode
/// shows: that list's working view is recomputed from its full collection and
/// its selection resets; the other list, and everything in usage mode, stays.
pub open spec fn refiltered(
    pre: State,
    post: State,
    mode: Mode,
    fm: FilterMode,
    text: Seq<char>,
) -> bool {
    match mode {
        Mode::Primary => {
            &&& post.playbook_mgr == pre.playbook_mgr
            &&& post.files_mgr@.origin == pre.files_mgr@.origin
            &&& post.files_mgr@.working == pre.files_mgr@.origin.filter(file_pred(fm, text))
            &&& post.files_mgr@.selected == 0
        },
        Mode::Secondary => {
            &&& post.files_mgr == pre.files_mgr
            &&& post.playbook_mgr@.origin == pre.playbook_mgr@.origin
            &&& post.playbook_mgr@.working == pre.playbook_mgr@.origin.filter(line_pred(fm, text))
            &&& post.playbook_mgr@.selected == 0
        },
        Mode::Usage => {
            &&& post.files_mgr == pre.files_mgr
            &&& post.playbook_mgr == pre.playbook_mgr
        },
    }
}

/// One wrap-around step down of a manager, everything else equal.
pub open spec fn stepped_down<T>(a: TabView<T>, b: TabView<T>) -> bool {
    &&& b.origin == a.origin
    &&& b.working == a.working
    &&& b.selected == next_sel(a.selected, a.working.len())
}

/// One wrap-around step up of a manager, everything else equal.
pub open spec fn stepped_up<T>(a: TabView<T>, b: TabView<T>) -> bool {
    &&& b.origin == a.origin
    &&& b.working == a.working
    &&& b.selected == prev_sel(a.selected, a.working.len())
}

/// What switching the display mode to `m2` does: the filter mode reverts to
/// its default, the filter text is cleared, and the list the new mode shows
/// is re-filtered (with the cleared text, so it shows whole again).
pub open spec fn switched_mode(pre: State, post: State, m2: Mode) -> bool {
    &&& post.mode == m2
    &&& post.filter_mode == FilterMode::Name
    &&& post.filter@ == Seq::<char>::empty()
    &&& post.current_file == pre.current_file
    &&& post.file_picker == pre.file_picker
    &&& refiltered(pre, post, m2, FilterMode::Name, Seq::<char>::empty())
}

/// The filter mode a typed character lands in: the first character typed into
/// an empty filter picks the mode (a digit starts id filtering, anything else
/// name filtering); later characters keep the mode.
pub open spec fn input_filter_mode(pre: State, c: char) -> FilterMode {
    if pre.filter@.len() == 0 {
        if is_digit_char(c) {
            FilterMode::ID
        } else {
            FilterMode::Name
        }
    } else {
        pre.filter_mode
    }
}

/// Whether a typed character extends the filter text: in name mode always;
/// in id mode only digits, and no leading zero.
pub open spec fn input_accepted(pre: State, c: char) -> bool {
    match input_filter_mode(pre, c) {
        FilterMode::Name => true,
        FilterMode::ID => is_digit_char(c) && (pre.filter@.len() > 0 || digit_val(c) > 0),
    }
}

/// What typing one character does: an accepted character is appended to the
/// filter text and the active list re-filtered; a rejected one at most pins
/// the filter mode.
pub open spec fn typed(pre: State, post: State, c: char) -> bool {
    let fm = input_filter_mode(pre, c);
    if input_accepted(pre, c) {
        &&& post.mode == pre.mode
        &&& post.filter_mode == fm
        &&& post.filter@ == pre.filter@.push(c)
        &&& post.current_file == pre.current_file
        &&& post.file_picker == pre.file_picker
        &&& refiltered(pre, post, pre.mode, fm, pre.filter@.push(c))
    } else {
        &&& post.mode == pre.mode
        &&& post.filter_mode == fm
        &&& post.filter == pre.filter
        &&& post.current_file == pre.current_file
        &&& post.file_picker == pre.file_picker
        &&& post.files_mgr == pre.files_mgr
        &&& post.playbook_mgr == pre.playbook_mgr
    }
}

/// What erasing one character does: the last filter character goes (an empty
/// filter stays empty) and the active list is re-filtered either way.
pub open spec fn erased(pre: State, post: State) -> bool {
    let t2 = if pre.filter@.len() == 0 {
        pre.filter@
    } else {
        pre.filter@.drop_last()
    };
    &&& post.mode == pre.mode
    &&& post.filter_mode == pre.filter_mode
    &&& post.filter@ == t2
    &&& post.current_file == pre.current_file
    &&& post.file_picker == pre.file_picker
    &&& refiltered(pre, post, pre.mode, pre.filter_mode, t2)
}

impl State {
    /// The state before anything was loaded: primary mode, name filtering,
    /// empty filter, empty lists, no file.
    pub fn new() -> (s: State)
        ensures
            s.mode == Mode::Primary,
            s.filter_mode == FilterMode::Name,
            s.filter@ == Seq::<char>::empty(),
            s.files_mgr@.origin == Seq::<FileItem>::empty(),
            s.files_mgr@.working == Seq::<FileItem>::empty(),
            s.files_mgr@.selected == 0,
            s.playbook_mgr@.origin == Seq::<PlaybookLine>::empty(),
            s.playbook_mgr@.working == Seq::<PlaybookLine>::empty(),
            s.playbook_mgr@.selected == 0,
            s.file_picker@.len() == 0,
            s.current_file is None,
    {
        let files_mgr: TabManager<FileItem> = Default::default();
        let playbook_mgr: TabManager<PlaybookLine> = Default::default();
        let file_picker: FilePicker = Default::default();
        State {
            mode: Mode::Primary,
            filter_mode: FilterMode::Name,
            filter: String::new(),
            files_mgr,
            playbook_mgr,
            file_picker,
            current_file: None,
        }
    }

    /// Builds the filter the current mode and text denote and re-applies it
    /// to the list the current display mode shows.
    pub fn set_filter(&mut self)
        ensures
            final(self).mode == old(self).mode,
            final(self).filter_mode == old(self).filter_mode,
            final(self).filter == old(self).filter,
            final(self).current_file == old(self).current_file,
            final(self).file_picker == old(self).file_picker,
            refiltered(
                *old(self),
                *final(self),
                old(self).mode,
                old(self).filter_mode,
                old(self).filter@,
            ),
    {
        match self.mode {
            Mode::Primary => {
                let f = FileFilter::new(self.filter_mode, self.filter.clone());
                self.files_mgr.with_filter(&f);
                proof {
                    assert(keeps_pred(f) =~= file_pred(self.filter_mode, self.filter@));
                }
            },
            Mode::Secondary => {
                let f = PlaybookFilter::new(self.filter_mode, self.filter.clone());
                self.playbook_mgr.with_filter(&f);
                proof {
                    assert(keeps_pred(f) =~= line_pred(self.filter_mode, self.filter@));
                }
            },
            Mode::Usage => {},
        }
    }

    /// Replaces the file list with the given names, ranked 1-based in the
    /// order handed in; the selection starts back at the top and no filter is
    /// applied yet.
    pub fn set_files(&mut self, names: Vec<String>)
        ensures
            final(self).mode == old(self).mode,
            final(self).filter_mode == old(self).filter_mode,
            final(self).filter == old(self).filter,
            final(self).current_file == old(self).current_file,
            final(self).playbook_mgr == old(self).playbook_mgr,
            final(self).file_picker@.len() == names@.len(),
            final(self).files_mgr@.origin.len() == names@.len(),
            forall|i: int|
                0 <= i < names@.len() ==> (#[trigger] final(self).files_mgr@.origin[i]).id == i + 1
                    && final(self).files_mgr@.origin[i].name@ == names@[i]@,
            final(self).files_mgr@.working == final(self).files_mgr@.origin,
            final(self).files_mgr@.selected == 0,
    {
        self.file_picker.load_names(names);
        self.files_mgr = self.file_picker.manager();
        proof {
            assert forall|i: int| 0 <= i < names@.len() implies self.files_mgr@.origin[i].id == i
                + 1 && self.files_mgr@.origin[i].name@ == names@[i]@ by {
                assert(self.file_picker@[i].id == i + 1);
                assert(self.file_picker@[i].name@ == names@[i]@);
                assert(self.files_mgr@.origin[i].id == self.file_picker@[i].id);
                assert(self.files_mgr@.origin[i].name@ == self.file_picker@[i].name@);
            }
        }
    }

    /// Replaces the playbook with the kept lines of the given file: blank
    /// lines go, comment lines go when comments are ignored, and what is left
    /// is ranked 1-based. The rest of the state is untouched.
    pub fn load_lines(&mut self, file_name: String, lines: Vec<String>, ignore_comments: bool)
        ensures
            final(self).mode == old(self).mode,
            final(self).filter_mode == old(self).filter_mode,
            final(self).filter == old(self).filter,
            final(self).files_mgr == old(self).files_mgr,
            final(self).file_picker == old(self).file_picker,
            final(self).current_file == Some(file_name),
            final(self).playbook_mgr@.origin.len() == kept_views(lines@, ignore_comments).len(),
            forall|i: int|
                0 <= i < final(self).playbook_mgr@.origin.len() ==> (#[trigger] final(self).playbook_mgr@.origin[i]).id == i + 1 && final(self).playbook_mgr@.origin[i].content@
                    == kept_views(lines@, ignore_comments)[i],
            final(self).playbook_mgr@.working == final(self).playbook_mgr@.origin,
            final(self).playbook_mgr@.selected == 0,
    {
        let records = build_playbook_lines(lines, ignore_comments);
        self.playbook_mgr = TabManager::new(records);
        self.current_file = Some(file_name);
    }

    /// What follows a successful file load requested by `Action::LoadFile`:
    /// the playbook is rebuilt from the kept lines, the display switches to
    /// the playbook, and the filter text is cleared, so the new playbook
    /// shows whole.
    pub fn open_selected_file(
        &mut self,
        file_name: String,
        lines: Vec<String>,
        ignore_comments: bool,
    )
        ensures
            final(self).mode == Mode::Secondary,
            final(self).filter_mode == old(self).filter_mode,
            final(self).filter@ == Seq::<char>::empty(),
            final(self).files_mgr == old(self).files_mgr,
            final(self).file_picker == old(self).file_picker,
            final(self).current_file == Some(file_name),
            final(self).playbook_mgr@.origin.len() == kept_views(lines@, ignore_comments).len(),
            forall|i: int|
                0 <= i < final(self).playbook_mgr@.origin.len() ==> (#[trigger] final(self).playbook_mgr@.origin[i]).id == i + 1 && final(self).playbook_mgr@.origin[i].content@
                    == kept_views(lines@, ignore_comments)[i],
            final(self).playbook_mgr@.working == final(self).playbook_mgr@.origin,
            final(self).playbook_mgr@.selected == 0,
    {
        self.load_lines(file_name, lines, ignore_comments);
        self.mode = Mode::Secondary;
        self.filter = String::new();
        let ghost mid = *self;
        self.set_filter();
        proof {
            let p = line_pred(mid.filter_mode, mid.filter@);
            assert(forall|i: int|
                0 <= i < mid.playbook_mgr@.origin.len() ==> #[trigger] p(
                    mid.playbook_mgr@.origin[i],
                ));
            lemma_filter_all_true(mid.playbook_mgr@.origin, p);
            let kept = kept_views(lines@, ignore_comments);
            assert forall|i: int| 0 <= i < self.playbook_mgr@.origin.len() implies (#[trigger] self
                .playbook_mgr@.origin[i]).id == i + 1 && self.playbook_mgr@.origin[i].content@
                == kept[i] by {
                assert(self.playbook_mgr@.origin == mid.playbook_mgr@.origin);
                assert(mid.playbook_mgr@.origin[i].id == i + 1);
                assert(mid.playbook_mgr@.origin[i].content@ == kept[i]);
            }
        }
    }

    /// Steps the state by one input event and says what the caller must do.
    /// The second half of the result is whether anything shown may have
    /// changed, so the caller knows to redraw.
    pub fn update(&mut self, event: KeyEvent) -> (r: (Action, bool))
        ensures
            ({
                let pre = *old(self);
                let post = *final(self);
                let action = r.0;
                let render = r.1;
                match event {
                    KeyEvent::Quit => post == pre && action == Action::Quit && !render,
                    KeyEvent::Down => match pre.mode {
                        Mode::Primary => same_config(pre, post) && post.playbook_mgr
                            == pre.playbook_mgr && stepped_down(pre.files_mgr@, post.files_mgr@)
                            && action == Action::Nothing && render,
                        Mode::Secondary => same_config(pre, post) && post.files_mgr
                            == pre.files_mgr && stepped_down(
                            pre.playbook_mgr@,
                            post.playbook_mgr@,
                        ) && action == Action::Nothing && render,
                        Mode::Usage => post == pre && action == Action::Nothing && !render,
                    },
                    KeyEvent::Up => match pre.mode {
                        Mode::Primary => same_config(pre, post) && post.playbook_mgr
                            == pre.playbook_mgr && stepped_up(pre.files_mgr@, post.files_mgr@)
                            && action == Action::Nothing && render,
                        Mode::Secondary => same_config(pre, post) && post.files_mgr
                            == pre.files_mgr && stepped_up(pre.playbook_mgr@, post.playbook_mgr@)
                            && action == Action::Nothing && render,
                        Mode::Usage => post == pre && action == Action::Nothing && !render,
                    },
                    KeyEvent::NextMode => switched_mode(pre, post, next_mode(pre.mode)) && action
                        == Action::Nothing && render,
                    KeyEvent::PrevMode => switched_mode(pre, post, prev_mode(pre.mode)) && action
                        == Action::Nothing && render,
                    KeyEvent::SelectMode(c) => {
                        let target = if is_digit_char(c) {
                            mode_of_ordinal(digit_val(c) as u32)
                        } else {
                            Option::<Mode>::None
                        };
                        match target {
                            Some(m) => if m != pre.mode {
                                switched_mode(pre, post, m) && action == Action::Nothing && render
                            } else {
                                post == pre && action == Action::Nothing && !render
                            },
                            None => post == pre && action == Action::Nothing && !render,
                        }
                    },
                    KeyEvent::Input(c) => match pre.mode {
                        Mode::Usage => post == pre && action == Action::Nothing && !render,
                        _ => typed(pre, post, c) && action == Action::Nothing && render
                            == input_accepted(pre, c),
                    },
                    KeyEvent::Backspace => match pre.mode {
                        Mode::Usage => post == pre && action == Action::Nothing && !render,
                        _ => erased(pre, post) && action == Action::Nothing && render,
                    },
                    KeyEvent::Enter => match pre.mode {
                        Mode::Primary => if pre.files_mgr@.working.len() > 0 {
                            post == pre && render && (match action {
                                Action::LoadFile(n) => n@ == pre.files_mgr@.working[
                                    pre.files_mgr@.selected as int
                                ].name@,
                                _ => false,
                            })
                        } else {
                            post == pre && action == Action::Nothing && !render
                        },
                        Mode::Secondary => if pre.playbook_mgr@.working.len() > 0 {
                            post == pre && !render && (match action {
                                Action::WriteLine(n) => n@ == pre.playbook_mgr@.working[
                                    pre.playbook_mgr@.selected as int
                                ].content@,
                                _ => false,
                            })
                        } else {
                            post == pre && action == Action::Nothing && !render
                        },
                        Mode::Usage => post == pre && action == Action::Nothing && !render,
                    },
                    KeyEvent::Edit => match pre.mode {
                        Mode::Primary => if pre.files_mgr@.working.len() > 0 {
                            post == pre && !render && (match action {
                                Action::OpenFile(n) => n@ == pre.files_mgr@.working[
                                    pre.files_mgr@.selected as int
                                ].name@,
                                _ => false,
                            })
                        } else {
                            post == pre && action == Action::Nothing && !render
                        },
                        Mode::Secondary => match pre.current_file {
                            Some(fname) => post == pre && !render && (match action {
                                Action::OpenFile(n) => n@ == fname@,
                                _ => false,
                            }),
                            None => post == pre && action == Action::Nothing && !render,
                        },
                        Mode::Usage => post == pre && action == Action::Nothing && !render,
                    },
                    KeyEvent::Reload => post == pre && action == Action::ReloadFiles && render,
                    KeyEvent::SwitchFilterId => {
                        let fm2 = pre.filter_mode.switch_spec(FilterMode::ID);
                        &&& post.mode == pre.mode
                        &&& post.filter_mode == fm2
                        &&& post.filter == pre.filter
                        &&& post.current_file == pre.current_file
                        &&& post.file_picker == pre.file_picker
                        &&& refiltered(pre, post, pre.mode, fm2, pre.filter@)
                        &&& action == Action::Nothing
                        &&& render
                    },
                }
            }),
    {
        let mut render = false;
        let mut action = Action::Nothing;
        match event {
            KeyEvent::Quit => {
                action = Action::Quit;
            },
            KeyEvent::Down => {
                match self.mode {
                    Mode::Primary => {
                        self.files_mgr.select_down();
                        render = true;
                    },
                    Mode::Secondary => {
                        self.playbook_mgr.select_down();
                        render = true;
                    },
                    Mode::Usage => {},
                }
            },
            KeyEvent::Up => {
                match self.mode {
                    Mode::Primary => {
                        self.files_mgr.select_up();
                        render = true;
                    },
                    Mode::Secondary => {
                        self.playbook_mgr.select_up();
                        render = true;
                    },
                    Mode::Usage => {},
                }
            },
            KeyEvent::NextMode => {
                self.mode = self.mode.next();
                self.filter_mode = FilterMode::Name;
                self.filter = String::new();
                self.set_filter();
                render = true;
            },
            KeyEvent::PrevMode => {
                self.mode = self.mode.prev();
                self.filter_mode = FilterMode::Name;
                self.filter = String::new();
                self.set_filter();
                render = true;
            },
            KeyEvent::SelectMode(c) => {
                if char_is_digit(c) {
                    let d = digit_of_char(c);
                    match Mode::from_ordinal(d) {
                        Some(m) => {
                            if self.mode != m {
                                self.mode = m;
                                self.filter_mode = FilterMode::Name;
                                self.filter = String::new();
                                self.set_filter();
                                render = true;
                            }
                        },
                        None => {},
                    }
                }
            },
            KeyEvent::Input(c) => {
                match self.mode {
                    Mode::Usage => {},
                    _ => {
                        if self.filter.as_str().unicode_len() == 0 {
                            if char_is_digit(c) {
                                self.filter_mode = FilterMode::ID;
                            } else {
                                self.filter_mode = FilterMode::Name;
                            }
                        }
                        match self.filter_mode {
                            FilterMode::ID => {
                                if char_is_digit(c) {
                                    let d = digit_of_char(c);
                                    if self.filter.as_str().unicode_len() != 0 || d > 0 {
                                        string_push_char(&mut self.filter, c);
                                        self.set_filter();
                                        render = true;
                                    }
                                }
                            },
                            FilterMode::Name => {
                                string_push_char(&mut self.filter, c);
                                self.set_filter();
                                render = true;
                            },
                        }
                    },
                }
            },
            KeyEvent::Backspace => {
                match self.mode {
                    Mode::Usage => {},
                    _ => {
                        let _popped = string_pop_char(&mut self.filter);
                        self.set_filter();
                        render = true;
                    },
                }
            },
            KeyEvent::Enter => {
                match self.mode {
                    Mode::Primary => {
                        match self.files_mgr.get_selected() {
                            Some(file) => {
                                action = Action::LoadFile(file.name.clone());
                                render = true;
                            },
                            None => {},
                        }
                    },
                    Mode::Secondary => {
                        match self.playbook_mgr.get_selected() {
                            Some(line) => {
                                action = Action::WriteLine(line.content.clone());
                            },
                            None => {},
                        }
                    },
                    Mode::Usage => {},
                }
            },
            KeyEvent::Edit => {
                match self.mode {
                    Mode::Primary => {
                        match self.files_mgr.get_selected() {
                            Some(file) => {
                                action = Action::OpenFile(file.name.clone());
                            },
                            None => {},
                        }
                    },
                    Mode::Secondary => {
                        match &self.current_file {
                            Some(f) => {
                                action = Action::OpenFile(f.clone());
                            },
                            None => {},
                        }
                    },
                    Mode::Usage => {},
                }
            },
            KeyEvent::Reload => {
                action = Action::ReloadFiles;
                render = true;
            },
            KeyEvent::SwitchFilterId => {
                self.filter_mode = self.filter_mode.switch_to(FilterMode::ID);
                self.set_filter();
                render = true;
            },
        }
        (action, render)
    }
}

impl Default for State {
    /// Same as `State::new`.
    fn default() -> (s: State)
        ensures
            s.mode == Mode::Primary,
            s.filter_mode == FilterMode::Name,
            s.filter@ == Seq::<char>::empty(),
            s.files_mgr@.origin == Seq::<FileItem>::empty(),
            s.files_mgr@.working == Seq::<FileItem>::empty(),
            s.files_mgr@.selected == 0,
            s.playbook_mgr@.origin == Seq::<PlaybookLine>::empty(),
            s.playbook_mgr@.working == Seq::<PlaybookLine>::empty(),
            s.playbook_mgr@.selected == 0,
            s.file_picker@.len() == 0,
            s.current_file is None,
    {
        State::new()
    }
}

} // verus!
