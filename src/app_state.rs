//! Per-tab browsing state: the listing of the current directory, the cursor
//! and the preview of the selected entry.

use crate::clipboard::{Clipboard, ClipboardMode};
use crate::paths::{file_name, file_name_of, join_path, joined_path, parent_dir, parent_of};
use crate::task_manager::{Task, TaskKind, TaskManager, TaskStatus};
use vstd::string::StringExecFns;
use crate::preview::{new_task_id, PreviewSlot, TaskId};
use vstd::string::StrSliceExecFns;
use vstd::prelude::*;

verus! {

/// One entry of a directory listing.
#[derive(Debug, Clone, PartialEq, Eq)]
pub struct DirEntry {
    pub name: String,
    pub path: String,
    pub is_dir: bool,
}

impl DirEntry {
    /// A copy of the entry.
    pub fn duplicate(&self) -> (r: DirEntry)
        ensures
            r == *self,
    {
        DirEntry { name: self.name.clone(), path: self.path.clone(), is_dir: self.is_dir }
    }
}

/// Text order: character by character, by code point; a proper prefix
/// comes first.
pub open spec fn text_lt(a: Seq<char>, b: Seq<char>) -> bool
    decreases a.len(),
{
    if b.len() == 0 {
        false
    } else if a.len() == 0 {
        true
    } else if a[0] != b[0] {
        (a[0] as u32) < (b[0] as u32)
    } else {
        text_lt(a.subrange(1, a.len() as int), b.subrange(1, b.len() as int))
    }
}

pub proof fn lemma_text_lt_irreflexive(a: Seq<char>)
    ensures
        !text_lt(a, a),
    decreases a.len(),
{
    if a.len() > 0 {
        lemma_text_lt_irreflexive(a.subrange(1, a.len() as int));
    }
}

pub proof fn lemma_text_lt_transitive(a: Seq<char>, b: Seq<char>, c: Seq<char>)
    requires
        text_lt(a, b),
        text_lt(b, c),
    ensures
        text_lt(a, c),
    decreases a.len(),
{
    if a.len() > 0 && a[0] == b[0] && b[0] == c[0] {
        lemma_text_lt_transitive(
            a.subrange(1, a.len() as int),
            b.subrange(1, b.len() as int),
            c.subrange(1, c.len() as int),
        );
    }
}

/// Listing order: directories first, then by name.
pub open spec fn listed_before(a: DirEntry, b: DirEntry) -> bool {
    (a.is_dir && !b.is_dir) || (a.is_dir == b.is_dir && text_lt(a.name@, b.name@))
}

/// No entry comes after one that it should precede.
pub open spec fn listing_sorted(s: Seq<DirEntry>) -> bool {
    forall|i: int, j: int| 0 <= i < j < s.len() ==> !listed_before(#[trigger] s[j], #[trigger] s[i])
}

/// Whether an entry is listed: hidden ones only when asked for.
pub open spec fn listed(e: DirEntry, show_hidden: bool) -> bool {
    show_hidden || !is_hidden(e.name@)
}

proof fn lemma_listed_before_order(a: DirEntry, b: DirEntry, c: DirEntry)
    ensures
        !listed_before(a, a),
        listed_before(a, b) && listed_before(b, c) ==> listed_before(a, c),
{
    lemma_text_lt_irreflexive(a.name@);
    if listed_before(a, b) && listed_before(b, c) && a.is_dir == c.is_dir {
        lemma_text_lt_transitive(a.name@, b.name@, c.name@);
    }
}

/// Whether `a` comes before `b` in text order.
pub fn text_less(a: &str, b: &str) -> (r: bool)
    ensures
        r == text_lt(a@, b@),
{
    let na = a.unicode_len();
    let nb = b.unicode_len();
    let mut i: usize = 0;
    proof {
        assert(a@.subrange(0, na as int) =~= a@);
        assert(b@.subrange(0, nb as int) =~= b@);
    }
    loop
        invariant
            na == a@.len(),
            nb == b@.len(),
            i <= na,
            i <= nb,
            text_lt(a@, b@) == text_lt(
                a@.subrange(i as int, na as int),
                b@.subrange(i as int, nb as int),
            ),
        decreases na - i,
    {
        if i == nb {
            return false;
        }
        if i == na {
            return true;
        }
        let ca = a.get_char(i);
        let cb = b.get_char(i);
        if ca != cb {
            return (ca as u32) < (cb as u32);
        }
        proof {
            assert(a@.subrange(i as int, na as int).subrange(1, na - i) =~= a@.subrange(
                i + 1,
                na as int,
            ));
            assert(b@.subrange(i as int, nb as int).subrange(1, nb - i) =~= b@.subrange(
                i + 1,
                nb as int,
            ));
        }
        i = i + 1;
    }
}

/// Whether entry `a` is listed before entry `b`.
pub fn entry_before(a: &DirEntry, b: &DirEntry) -> (r: bool)
    ensures
        r == listed_before(*a, *b),
{
    (a.is_dir && !b.is_dir) || (a.is_dir == b.is_dir && text_less(a.name.as_str(), b.name.as_str()))
}

/// Inserts `e` into a sorted listing, after the entries it does not precede.
fn insert_sorted(v: &mut Vec<DirEntry>, e: DirEntry)
    requires
        listing_sorted(old(v)@),
    ensures
        listing_sorted(final(v)@),
        final(v)@.to_multiset() == old(v)@.to_multiset().insert(e),
{
    let mut j: usize = 0;
    while j < v.len() && !entry_before(&e, &v[j])
        invariant
            j <= v@.len(),
            forall|k: int| 0 <= k < j ==> !listed_before(e, #[trigger] v@[k]),
        decreases v@.len() - j,
    {
        j = j + 1;
    }
    let ghost before = v@;
    proof {
        vstd::seq_lib::to_multiset_insert(before, j as int, e);
    }
    v.insert(j, e);
    proof {
        let after = v@;
        assert forall|a: int, b: int| 0 <= a < b < after.len() implies !listed_before(
            #[trigger] after[b],
            #[trigger] after[a],
        ) by {
            if b == j {
                assert(after[a] == before[a]);
            } else if a == j {
                assert(after[b] == before[b - 1]);
                lemma_listed_before_order(before[b - 1], e, before[j as int]);
                if b - 1 > j {
                    assert(!listed_before(before[b - 1], before[j as int]));
                }
            } else {
                let oa = if a < j { a } else { a - 1 };
                let ob = if b < j { b } else { b - 1 };
                assert(after[a] == before[oa]);
                assert(after[b] == before[ob]);
            }
        }
    }
}

/// Whether a name is hidden: it starts with a dot.
pub open spec fn is_hidden(name: Seq<char>) -> bool {
    name.len() > 0 && name[0] == '.'
}

pub fn name_is_hidden(name: &String) -> (r: bool)
    ensures
        r == is_hidden(name@),
{
    let s = name.as_str();
    s.unicode_len() > 0 && s.get_char(0) == '.'
}

/// A newly minted preview identifier differs from the one followed before,
/// so events of the earlier request are told apart.
pub open spec fn fresh_id(id: Option<TaskId>, before: Option<TaskId>) -> bool {
    id matches Some(i) ==> before != Some(i)
}

/// The largest cursor position in a listing of `len` entries.
pub open spec fn last_position(len: nat) -> nat {
    if len == 0 {
        0
    } else {
        (len - 1) as nat
    }
}

/// One tab: its directory, the listing shown, the cursor and the preview of
/// the selected entry.
#[derive(Debug, Clone)]
pub struct TabState {
    pub id: usize,
    pub current_dir: String,
    pub entries: Vec<DirEntry>,
    pub cursor: usize,
    pub preview: PreviewSlot,
}

impl TabState {
    /// The entry under the cursor, if the cursor is on one.
    pub open spec fn selected(self) -> Option<DirEntry> {
        if self.cursor < self.entries@.len() {
            Some(self.entries@[self.cursor as int])
        } else {
            None
        }
    }

    /// What the preview shows once the selection has changed: `Loading`,
    /// whatever is selected; only a selected file gets a request, whose
    /// identifier `id` the slot follows.
    pub open spec fn preview_follows(self, id: Option<TaskId>) -> bool {
        match self.selected() {
            None => id is None && self.preview.current is None && self.preview.state is Loading,
            Some(entry) => {
                &&& self.preview.state is Loading
                &&& self.preview.current == id
                &&& entry.is_dir <==> id is None
            },
        }
    }

    /// This tab is `before` moved to the directory `path`, with its listing
    /// and preview emptied until the new directory is read.
    pub open spec fn moved_to(self, before: TabState, path: Seq<char>) -> bool {
        &&& self.id == before.id
        &&& self.current_dir@ == path
        &&& self.entries@.len() == 0
        &&& self.cursor == 0
        &&& self.preview.current is None
        &&& self.preview.state is Empty
    }

    /// A tab on `current_dir` with an empty listing and an empty preview.
    pub fn new(id: usize, current_dir: String) -> (r: TabState)
        ensures
            r.id == id,
            r.current_dir == current_dir,
            r.entries@.len() == 0,
            r.cursor == 0,
            r.preview.current is None,
            r.preview.state is Empty,
    {
        TabState { id, current_dir, entries: Vec::new(), cursor: 0, preview: PreviewSlot::new() }
    }

    /// Follows a change of selection: the preview shows `Loading` and, for a
    /// selected file, a fresh preview identifier is minted and returned so
    /// that the caller requests the preview under it. Events of earlier
    /// requests no longer apply.
    pub fn update_preview(&mut self, _show_hidden: bool) -> (r: Option<TaskId>)
        ensures
            final(self).preview_follows(r),
            fresh_id(r, old(self).preview.current),
            final(self).id == old(self).id,
            final(self).current_dir == old(self).current_dir,
            final(self).entries == old(self).entries,
            final(self).cursor == old(self).cursor,
    {
        if self.cursor < self.entries.len() && !self.entries[self.cursor].is_dir {
            let drawn = new_task_id();
            let id = match self.preview.current {
                Some(previous) => if previous == drawn {
                    TaskId(
                        if drawn.0 == u128::MAX {
                            0
                        } else {
                            drawn.0 + 1
                        },
                    )
                } else {
                    drawn
                },
                None => drawn,
            };
            self.preview.begin(Some(id));
            Some(id)
        } else {
            self.preview.begin(None);
            None
        }
    }

    /// Moves the cursor one entry down, unless it is on the last one; on a
    /// move the preview follows (see `update_preview`).
    pub fn move_cursor_down(&mut self, show_hidden: bool) -> (r: Option<TaskId>)
        ensures
            ({
                let moved = (old(self).cursor as nat) < last_position(old(self).entries@.len());
                &&& final(self).cursor == if moved {
                    old(self).cursor + 1
                } else {
                    old(self).cursor as int
                }
                &&& final(self).entries == old(self).entries
                &&& final(self).current_dir == old(self).current_dir
                &&& moved ==> final(self).preview_follows(r) && fresh_id(r, old(self).preview.current)
                &&& !moved ==> r is None && final(self).preview == old(self).preview
            }),
    {
        let max = if self.entries.len() == 0 {
            0
        } else {
            self.entries.len() - 1
        };
        if self.cursor < max {
            self.cursor = self.cursor + 1;
            self.update_preview(show_hidden)
        } else {
            None
        }
    }

    /// Moves the cursor one entry up, unless it is on the first; on a move
    /// the preview follows (see `update_preview`).
    pub fn move_cursor_up(&mut self, show_hidden: bool) -> (r: Option<TaskId>)
        ensures
            ({
                let moved = old(self).cursor > 0;
                &&& final(self).cursor == if moved {
                    old(self).cursor - 1
                } else {
                    old(self).cursor as int
                }
                &&& final(self).entries == old(self).entries
                &&& final(self).current_dir == old(self).current_dir
                &&& moved ==> final(self).preview_follows(r) && fresh_id(r, old(self).preview.current)
                &&& !moved ==> r is None && final(self).preview == old(self).preview
            }),
    {
        if self.cursor > 0 {
            self.cursor = self.cursor - 1;
            self.update_preview(show_hidden)
        } else {
            None
        }
    }

    /// The path of the entry under the cursor.
    pub fn get_selected_entry_path(&self) -> (r: Option<String>)
        ensures
            r == (match self.selected() {
                Some(entry) => Some(entry.path),
                None => None::<String>,
            }),
    {
        if self.cursor < self.entries.len() {
            Some(self.entries[self.cursor].path.clone())
        } else {
            None
        }
    }

    /// Replaces the listing with the entries of `listing` that are shown
    /// (hidden ones only with `show_hidden`), directories first and then by
    /// name; puts the cursor on the first entry and lets the preview follow
    /// (see `update_preview`). The caller reads `listing` from `current_dir`.
    pub fn update_entries(&mut self, show_hidden: bool, listing: Vec<DirEntry>) -> (r: Option<
        TaskId,
    >)
        ensures
            listing_sorted(final(self).entries@),
            final(self).entries@.to_multiset() == listing@.filter(
                |e: DirEntry| listed(e, show_hidden),
            ).to_multiset(),
            final(self).cursor == 0,
            final(self).preview_follows(r),
            fresh_id(r, old(self).preview.current),
            final(self).id == old(self).id,
            final(self).current_dir == old(self).current_dir,
    {
        let ghost keep = |e: DirEntry| listed(e, show_hidden);
        let mut sorted: Vec<DirEntry> = Vec::new();
        let mut i: usize = 0;
        proof {
            let none = Seq::<DirEntry>::empty();
            assert(listing@.subrange(0, 0) =~= none);
            none.lemma_filter_len(keep);
            assert(none.filter(keep) =~= none);
            assert(sorted@ =~= none);
        }
        while i < listing.len()
            invariant
                i <= listing@.len(),
                forall|x: DirEntry| #[trigger] keep(x) == listed(x, show_hidden),
                listing_sorted(sorted@),
                sorted@.to_multiset() == listing@.subrange(0, i as int).filter(keep).to_multiset(),
            decreases listing@.len() - i,
        {
            let e = listing[i].duplicate();
            proof {
                let head = listing@.subrange(0, i as int);
                assert(listing@.subrange(0, i + 1) =~= head.push(listing@[i as int]));
                head.lemma_filter_push(listing@[i as int], keep);
                vstd::seq_lib::to_multiset_build(head.filter(keep), listing@[i as int]);
            }
            if show_hidden || !name_is_hidden(&e.name) {
                insert_sorted(&mut sorted, e);
            }
            i = i + 1;
        }
        proof {
            assert(listing@.subrange(0, listing@.len() as int) =~= listing@);
        }
        self.entries = sorted;
        self.cursor = 0;
        self.update_preview(show_hidden)
    }

    /// Moves to `new_path`. The listing is emptied until the caller reads the
    /// new directory and hands it to `update_entries`.
    pub fn set_current_dir(&mut self, new_path: String, _show_hidden: bool)
        ensures
            final(self).moved_to(*old(self), new_path@),
    {
        self.current_dir = new_path;
        self.entries = Vec::new();
        self.cursor = 0;
        self.preview.reset();
    }

    /// Opens the selected entry if it is a directory (see `set_current_dir`);
    /// returns whether it did.
    pub fn enter_directory(&mut self, show_hidden: bool) -> (r: bool)
        ensures
            r <==> (old(self).selected() matches Some(entry) && entry.is_dir),
            r ==> final(self).moved_to(*old(self), old(self).selected()->Some_0.path@),
            !r ==> *final(self) == *old(self),
            final(self).id == old(self).id,
    {
        if self.cursor < self.entries.len() && self.entries[self.cursor].is_dir {
            let path = self.entries[self.cursor].path.clone();
            self.set_current_dir(path, show_hidden);
            true
        } else {
            false
        }
    }

    /// Moves to the parent directory if there is one (see
    /// `set_current_dir`); returns whether it did.
    pub fn leave_directory(&mut self, show_hidden: bool) -> (r: bool)
        ensures
            r <==> parent_of(old(self).current_dir@) is Some,
            r ==> final(self).moved_to(*old(self), parent_of(old(self).current_dir@)->Some_0),
            !r ==> *final(self) == *old(self),
            final(self).id == old(self).id,
    {
        match parent_dir(self.current_dir.as_str()) {
            Some(parent) => {
                self.set_current_dir(parent, show_hidden);
                true
            },
            None => false,
        }
    }
}

/// Which block of the panes has the keyboard.
#[derive(Debug, PartialEq, Eq, Clone, Copy, Structural)]
pub enum FocusBlock {
    Xdg,
    Bookmarks,
    Disks,
    Middle,
}

/// Whether keys drive the panes or fill the input dialog.
#[derive(Debug, PartialEq, Eq, Clone, Copy, Structural)]
pub enum InputMode {
    Normal,
    Create,
}

/// What the input dialog creates.
#[derive(Debug, PartialEq, Eq, Clone, Copy, Structural)]
pub enum CreateFileType {
    File,
    Directory,
}

/// At most this many tabs are open.
pub const MAX_TABS: usize = 10;

/// The block that takes the focus after `f`.
pub open spec fn next_focus(f: FocusBlock) -> FocusBlock {
    match f {
        FocusBlock::Xdg => FocusBlock::Bookmarks,
        FocusBlock::Bookmarks => FocusBlock::Disks,
        FocusBlock::Disks => FocusBlock::Middle,
        FocusBlock::Middle => FocusBlock::Xdg,
    }
}

/// The cursor in a list of `len` entries after one step down.
pub open spec fn cursor_down(cursor: usize, len: nat) -> usize {
    if (cursor as nat) < last_position(len) {
        (cursor + 1) as usize
    } else {
        cursor
    }
}

/// The cursor after one step up.
pub open spec fn cursor_up(cursor: usize) -> usize {
    if cursor > 0 {
        (cursor - 1) as usize
    } else {
        cursor
    }
}

/// Whether `src` has a last component to paste under.
pub open spec fn has_file_name(src: String) -> bool {
    file_name_of(src@) is Some
}

/// The label of a paste: the mode, the name and the destination directory.
pub open spec fn paste_description(mode: ClipboardMode, name: Seq<char>, dir: Seq<char>) -> Seq<char> {
    match mode {
        ClipboardMode::Copy => "Copy "@ + name + " -> "@ + dir,
        ClipboardMode::Move => "Move "@ + name + " -> "@ + dir,
    }
}

/// `t` is the pending task that pastes `src` into `dir` under its own name.
pub open spec fn is_paste_task(t: Task, src: String, mode: ClipboardMode, dir: Seq<char>) -> bool {
    let name = file_name_of(src@)->Some_0;
    let dest = joined_path(dir, name);
    &&& t.status == TaskStatus::Pending
    &&& t.description@ == paste_description(mode, name, dir)
    &&& match t.kind {
        TaskKind::Copy { src: s, dest: d } => mode == ClipboardMode::Copy && s == src && d@ == dest,
        TaskKind::Move { src: s, dest: d } => mode == ClipboardMode::Move && s == src && d@ == dest,
        _ => false,
    }
}

/// The name under which an entry is shown in messages: its last
/// component, or the whole path where it has none.
pub open spec fn display_name(path: Seq<char>) -> Seq<char> {
    match file_name_of(path) {
        Some(name) => name,
        None => path,
    }
}

fn name_for_display(path: &String) -> (r: String)
    ensures
        r@ == display_name(path@),
{
    match file_name(path.as_str()) {
        Some(name) => name,
        None => path.clone(),
    }
}

/// Relies on `String::push`: appends the character.
#[verifier::external_body]
fn push_char(s: &mut String, c: char)
    ensures
        final(s)@ == old(s)@.push(c),
{
    s.push(c)
}

/// Relies on `String::pop`: removes and returns the last character, if any.
#[verifier::external_body]
fn pop_char(s: &mut String) -> (r: Option<char>)
    ensures
        old(s)@.len() == 0 ==> r is None && final(s)@ == old(s)@,
        old(s)@.len() > 0 ==> r == Some(old(s)@.last()) && final(s)@ == old(s)@.drop_last(),
{
    s.pop()
}

/// The whole browser: tabs, the left pane's lists, the clipboard, the tasks
/// and the dialogs.
#[derive(Debug)]
pub struct AppState {
    pub tabs: Vec<TabState>,
    pub active_tab_index: usize,
    pub show_tabs: bool,
    pub task_manager: TaskManager,
    pub clipboard: Clipboard,
    pub show_terminal: bool,
    pub show_hidden_files: bool,
    pub focus: FocusBlock,
    pub xdg_dirs: Vec<(String, String)>,
    pub xdg_cursor: usize,
    pub bookmarks: Vec<(String, String)>,
    pub bookmarks_cursor: usize,
    pub info_panel_content: Option<String>,
    pub show_confirmation: bool,
    pub confirmation_message: String,
    pub path_to_delete: Option<String>,
    pub input_mode: InputMode,
    pub input_buffer: String,
    pub show_input_dialog: bool,
    pub create_file_type: Option<CreateFileType>,
}

impl AppState {
    /// At least one tab and at most `MAX_TABS`, one of them active; every
    /// path on the clipboard has a mode.
    pub open spec fn wf(self) -> bool {
        &&& 1 <= self.tabs@.len() <= MAX_TABS
        &&& self.active_tab_index < self.tabs@.len()
        &&& self.clipboard.wf()
    }

    pub open spec fn active_tab(self) -> TabState {
        self.tabs@[self.active_tab_index as int]
    }

    /// The two states differ at most in their tabs, the active one, the
    /// tab bar and the task list.
    pub open spec fn same_settings(self, other: AppState) -> bool {
        &&& self.clipboard == other.clipboard
        &&& self.show_terminal == other.show_terminal
        &&& self.show_hidden_files == other.show_hidden_files
        &&& self.focus == other.focus
        &&& self.xdg_dirs == other.xdg_dirs
        &&& self.xdg_cursor == other.xdg_cursor
        &&& self.bookmarks == other.bookmarks
        &&& self.bookmarks_cursor == other.bookmarks_cursor
        &&& self.info_panel_content == other.info_panel_content
        &&& self.show_confirmation == other.show_confirmation
        &&& self.confirmation_message == other.confirmation_message
        &&& self.path_to_delete == other.path_to_delete
        &&& self.input_mode == other.input_mode
        &&& self.input_buffer == other.input_buffer
        &&& self.show_input_dialog == other.show_input_dialog
        &&& self.create_file_type == other.create_file_type
    }

    /// A browser with one tab on `current_dir` and the given left-pane lists;
    /// the caller reads the tab's listing and hands it to `update_entries`.
    pub fn new(
        current_dir: String,
        xdg_dirs: Vec<(String, String)>,
        bookmarks: Vec<(String, String)>,
    ) -> (r: AppState)
        ensures
            r.wf(),
            r.tabs@.len() == 1,
            r.active_tab_index == 0,
            r.active_tab().id == 0,
            r.active_tab().current_dir == current_dir,
            r.active_tab().entries@.len() == 0,
            r.focus == FocusBlock::Middle,
            !r.show_tabs && !r.show_terminal && !r.show_hidden_files,
            r.xdg_dirs == xdg_dirs,
            r.bookmarks == bookmarks,
            r.xdg_cursor == 0 && r.bookmarks_cursor == 0,
            r.task_manager.task_list().len() == 0,
            r.clipboard.paths@.len() == 0,
            r.input_mode == InputMode::Normal,
            !r.show_confirmation && !r.show_input_dialog,
            r.path_to_delete is None && r.create_file_type is None,
    {
        let mut tabs: Vec<TabState> = Vec::new();
        tabs.push(TabState::new(0, current_dir));
        AppState {
            tabs,
            active_tab_index: 0,
            show_tabs: false,
            task_manager: TaskManager::new(),
            clipboard: Clipboard::new(),
            show_terminal: false,
            show_hidden_files: false,
            focus: FocusBlock::Middle,
            xdg_dirs,
            xdg_cursor: 0,
            bookmarks,
            bookmarks_cursor: 0,
            info_panel_content: None,
            show_confirmation: false,
            confirmation_message: String::new(),
            path_to_delete: None,
            input_mode: InputMode::Normal,
            input_buffer: String::new(),
            show_input_dialog: false,
            create_file_type: None,
        }
    }

    pub fn toggle_tabs(&mut self)
        ensures
            final(self).show_tabs == !old(self).show_tabs,
            final(self).tabs == old(self).tabs,
            final(self).active_tab_index == old(self).active_tab_index,
            final(self).task_manager == old(self).task_manager,
            final(self).same_settings(*old(self)),
    {
        self.show_tabs = !self.show_tabs;
    }

    pub fn toggle_terminal(&mut self)
        ensures
            final(self).show_terminal == !old(self).show_terminal,
            final(self).tabs == old(self).tabs,
            final(self).active_tab_index == old(self).active_tab_index,
            final(self).show_tabs == old(self).show_tabs,
            final(self).task_manager == old(self).task_manager,
    {
        self.show_terminal = !self.show_terminal;
    }

    pub fn get_active_tab(&self) -> (r: &TabState)
        requires
            self.wf(),
        ensures
            *r == self.active_tab(),
    {
        &self.tabs[self.active_tab_index]
    }

    pub fn get_active_tab_mut(&mut self) -> (r: &mut TabState)
        requires
            old(self).wf(),
        ensures
            *r == old(self).active_tab(),
            final(self).tabs@ == old(self).tabs@.update(old(self).active_tab_index as int, *final(r)),
            final(self).active_tab_index == old(self).active_tab_index,
            final(self).show_tabs == old(self).show_tabs,
            final(self).task_manager == old(self).task_manager,
            final(self).same_settings(*old(self)),
    {
        let i = self.active_tab_index;
        &mut self.tabs[i]
    }

    pub fn cycle_focus(&mut self)
        ensures
            final(self).focus == next_focus(old(self).focus),
            final(self).tabs == old(self).tabs,
            final(self).xdg_cursor == old(self).xdg_cursor,
            final(self).bookmarks_cursor == old(self).bookmarks_cursor,
    {
        self.focus = match self.focus {
            FocusBlock::Xdg => FocusBlock::Bookmarks,
            FocusBlock::Bookmarks => FocusBlock::Disks,
            FocusBlock::Disks => FocusBlock::Middle,
            FocusBlock::Middle => FocusBlock::Xdg,
        };
    }

    /// The directory picked in the focused list of the left pane.
    pub open spec fn left_selection(self) -> Option<String> {
        match self.focus {
            FocusBlock::Xdg => if self.xdg_cursor < self.xdg_dirs@.len() {
                Some(self.xdg_dirs@[self.xdg_cursor as int].1)
            } else {
                None
            },
            FocusBlock::Bookmarks => if self.bookmarks_cursor < self.bookmarks@.len() {
                Some(self.bookmarks@[self.bookmarks_cursor as int].1)
            } else {
                None
            },
            _ => None,
        }
    }

    /// Only the active tab differs between `self` and `before`, and it is
    /// `before`'s moved to the directory `path`.
    pub open spec fn active_moved(self, before: AppState, path: Seq<char>) -> bool {
        &&& self.tabs@.len() == before.tabs@.len()
        &&& self.active_tab_index == before.active_tab_index
        &&& self.active_tab().moved_to(before.active_tab(), path)
        &&& forall|j: int|
            0 <= j < self.tabs@.len() && j != self.active_tab_index ==> #[trigger] self.tabs@[j]
                == before.tabs@[j]
    }

    /// Opens the directory picked in the left pane in the active tab, if one
    /// is picked; returns whether it did, and the caller then reads the
    /// active tab's listing.
    pub fn update_middle_pane_from_left_pane_selection(&mut self) -> (moved: bool)
        requires
            old(self).wf(),
        ensures
            final(self).wf(),
            moved == old(self).left_selection() is Some,
            moved ==> final(self).active_moved(*old(self), old(self).left_selection()->Some_0@),
            !moved ==> final(self).tabs == old(self).tabs,
            final(self).active_tab_index == old(self).active_tab_index,
            final(self).show_tabs == old(self).show_tabs,
            final(self).task_manager == old(self).task_manager,
            final(self).same_settings(*old(self)),
    {
        let path = match self.focus {
            FocusBlock::Xdg => if self.xdg_cursor < self.xdg_dirs.len() {
                Some(self.xdg_dirs[self.xdg_cursor].1.clone())
            } else {
                None
            },
            FocusBlock::Bookmarks => if self.bookmarks_cursor < self.bookmarks.len() {
                Some(self.bookmarks[self.bookmarks_cursor].1.clone())
            } else {
                None
            },
            _ => None,
        };
        match path {
            Some(path) => {
                let show_hidden = self.show_hidden_files;
                self.get_active_tab_mut().set_current_dir(path, show_hidden);
                true
            },
            None => false,
        }
    }

    /// Moves the cursor of the focused left-pane list one entry down, then
    /// opens what it picks (see `update_middle_pane_from_left_pane_selection`).
    pub fn move_left_pane_cursor_down(&mut self) -> (moved: bool)
        requires
            old(self).wf(),
        ensures
            final(self).wf(),
            final(self).xdg_cursor == if old(self).focus == FocusBlock::Xdg {
                cursor_down(old(self).xdg_cursor, old(self).xdg_dirs@.len())
            } else {
                old(self).xdg_cursor
            },
            final(self).bookmarks_cursor == if old(self).focus == FocusBlock::Bookmarks {
                cursor_down(old(self).bookmarks_cursor, old(self).bookmarks@.len())
            } else {
                old(self).bookmarks_cursor
            },
            final(self).focus == old(self).focus,
            moved == final(self).left_selection() is Some,
            moved ==> final(self).active_moved(*old(self), final(self).left_selection()->Some_0@),
            !moved ==> final(self).tabs == old(self).tabs,
            final(self).active_tab_index == old(self).active_tab_index,
            final(self).task_manager == old(self).task_manager,
    {
        match self.focus {
            FocusBlock::Xdg => {
                if self.xdg_dirs.len() > 0 && self.xdg_cursor < self.xdg_dirs.len() - 1 {
                    self.xdg_cursor = self.xdg_cursor + 1;
                }
            },
            FocusBlock::Bookmarks => {
                if self.bookmarks.len() > 0 && self.bookmarks_cursor < self.bookmarks.len() - 1 {
                    self.bookmarks_cursor = self.bookmarks_cursor + 1;
                }
            },
            _ => {},
        }
        self.update_middle_pane_from_left_pane_selection()
    }

    /// Moves the cursor of the focused left-pane list one entry up, then
    /// opens what it picks (see `update_middle_pane_from_left_pane_selection`).
    pub fn move_left_pane_cursor_up(&mut self) -> (moved: bool)
        requires
            old(self).wf(),
        ensures
            final(self).wf(),
            final(self).xdg_cursor == if old(self).focus == FocusBlock::Xdg {
                cursor_up(old(self).xdg_cursor)
            } else {
                old(self).xdg_cursor
            },
            final(self).bookmarks_cursor == if old(self).focus == FocusBlock::Bookmarks {
                cursor_up(old(self).bookmarks_cursor)
            } else {
                old(self).bookmarks_cursor
            },
            final(self).focus == old(self).focus,
            moved == final(self).left_selection() is Some,
            moved ==> final(self).active_moved(*old(self), final(self).left_selection()->Some_0@),
            !moved ==> final(self).tabs == old(self).tabs,
            final(self).active_tab_index == old(self).active_tab_index,
            final(self).task_manager == old(self).task_manager,
    {
        match self.focus {
            FocusBlock::Xdg => {
                if self.xdg_cursor > 0 {
                    self.xdg_cursor = self.xdg_cursor - 1;
                }
            },
            FocusBlock::Bookmarks => {
                if self.bookmarks_cursor > 0 {
                    self.bookmarks_cursor = self.bookmarks_cursor - 1;
                }
            },
            _ => {},
        }
        self.update_middle_pane_from_left_pane_selection()
    }

    /// Shows or hides hidden files; the caller then reads every tab's
    /// listing again and hands it to `update_entries`.
    pub fn toggle_hidden_files(&mut self)
        ensures
            final(self).show_hidden_files == !old(self).show_hidden_files,
            final(self).tabs == old(self).tabs,
            final(self).active_tab_index == old(self).active_tab_index,
            final(self).task_manager == old(self).task_manager,
    {
        self.show_hidden_files = !self.show_hidden_files;
    }

    /// Activates the next tab, wrapping around.
    pub fn next_tab(&mut self)
        requires
            old(self).wf(),
        ensures
            final(self).wf(),
            final(self).active_tab_index == (old(self).active_tab_index + 1) % (old(self).tabs@.len() as int),
            final(self).tabs == old(self).tabs,
            final(self).show_tabs == old(self).show_tabs,
            final(self).task_manager == old(self).task_manager,
            final(self).same_settings(*old(self)),
    {
        self.active_tab_index = (self.active_tab_index + 1) % self.tabs.len();
    }

    /// Activates the previous tab, wrapping around.
    pub fn previous_tab(&mut self)
        requires
            old(self).wf(),
        ensures
            final(self).wf(),
            final(self).active_tab_index == if old(self).active_tab_index > 0 {
                old(self).active_tab_index - 1
            } else {
                old(self).tabs@.len() - 1
            },
            final(self).tabs == old(self).tabs,
            final(self).show_tabs == old(self).show_tabs,
            final(self).task_manager == old(self).task_manager,
            final(self).same_settings(*old(self)),
    {
        if self.active_tab_index > 0 {
            self.active_tab_index = self.active_tab_index - 1;
        } else {
            self.active_tab_index = self.tabs.len() - 1;
        }
    }

    /// Opens a tab on `current_dir` and activates it, unless `MAX_TABS` are
    /// open; returns whether it did, and the caller then reads its listing.
    pub fn new_tab(&mut self, current_dir: String) -> (opened: bool)
        requires
            old(self).wf(),
        ensures
            final(self).wf(),
            opened == (old(self).tabs@.len() < MAX_TABS),
            opened ==> {
                &&& final(self).tabs@.len() == old(self).tabs@.len() + 1
                &&& final(self).tabs@.subrange(0, old(self).tabs@.len() as int) == old(self).tabs@
                &&& final(self).active_tab_index == old(self).tabs@.len()
                &&& final(self).active_tab().id == old(self).tabs@.len()
                &&& final(self).active_tab().current_dir == current_dir
                &&& final(self).active_tab().entries@.len() == 0
                &&& final(self).active_tab().cursor == 0
                &&& final(self).show_tabs
            },
            !opened ==> final(self).tabs == old(self).tabs && final(self).active_tab_index == old(self).active_tab_index && final(self).show_tabs == old(self).show_tabs,
            final(self).task_manager == old(self).task_manager,
            final(self).same_settings(*old(self)),
    {
        if self.tabs.len() >= MAX_TABS {
            return false;
        }
        let new_id = self.tabs.len();
        self.tabs.push(TabState::new(new_id, current_dir));
        self.active_tab_index = new_id;
        self.show_tabs = true;
        proof {
            assert(self.tabs@.subrange(0, new_id as int) =~= old(self).tabs@);
        }
        true
    }

    /// Closes the active tab unless it is the last one; the next tab, or the
    /// last one, becomes active, and the tab bar hides when one tab is left.
    pub fn close_tab(&mut self)
        requires
            old(self).wf(),
        ensures
            final(self).wf(),
            old(self).tabs@.len() > 1 ==> {
                &&& final(self).tabs@ == old(self).tabs@.remove(old(self).active_tab_index as int)
                &&& final(self).active_tab_index == if old(self).active_tab_index
                    < final(self).tabs@.len() {
                    old(self).active_tab_index as int
                } else {
                    final(self).tabs@.len() - 1
                }
                &&& final(self).show_tabs == if final(self).tabs@.len() == 1 {
                    false
                } else {
                    old(self).show_tabs
                }
            },
            old(self).tabs@.len() <= 1 ==> final(self).tabs == old(self).tabs
                && final(self).active_tab_index == old(self).active_tab_index && final(self).show_tabs == old(self).show_tabs,
            final(self).task_manager == old(self).task_manager,
            final(self).same_settings(*old(self)),
    {
        if self.tabs.len() > 1 {
            self.tabs.remove(self.active_tab_index);
            if self.active_tab_index >= self.tabs.len() {
                self.active_tab_index = self.tabs.len() - 1;
            }
            if self.tabs.len() == 1 {
                self.show_tabs = false;
            }
        }
    }

    /// Puts the selected entry of the active tab on the clipboard for a copy.
    pub fn yank_selection(&mut self)
        requires
            old(self).wf(),
        ensures
            final(self).wf(),
            old(self).active_tab().selected() matches Some(e) ==> final(self).clipboard.paths@
                == seq![e.path] && final(self).clipboard.mode == Some(ClipboardMode::Copy),
            old(self).active_tab().selected() is None ==> final(self).clipboard == old(self).clipboard,
            final(self).tabs == old(self).tabs,
            final(self).active_tab_index == old(self).active_tab_index,
            final(self).task_manager == old(self).task_manager,
    {
        match self.get_active_tab().get_selected_entry_path() {
            Some(path) => {
                let mut paths: Vec<String> = Vec::new();
                paths.push(path);
                self.clipboard.yank(paths);
            },
            None => {},
        }
    }

    /// Puts the selected entry of the active tab on the clipboard for a move.
    pub fn cut_selection(&mut self)
        requires
            old(self).wf(),
        ensures
            final(self).wf(),
            old(self).active_tab().selected() matches Some(e) ==> final(self).clipboard.paths@
                == seq![e.path] && final(self).clipboard.mode == Some(ClipboardMode::Move),
            old(self).active_tab().selected() is None ==> final(self).clipboard == old(self).clipboard,
            final(self).tabs == old(self).tabs,
            final(self).active_tab_index == old(self).active_tab_index,
            final(self).task_manager == old(self).task_manager,
    {
        match self.get_active_tab().get_selected_entry_path() {
            Some(path) => {
                let mut paths: Vec<String> = Vec::new();
                paths.push(path);
                self.clipboard.cut(paths);
            },
            None => {},
        }
    }

    /// Adds one pending copy or move task per clipboard path that has a
    /// name, into the active tab's directory, in clipboard order; a move
    /// empties the clipboard. An empty clipboard does nothing.
    pub fn paste(&mut self)
        requires
            old(self).wf(),
        ensures
            final(self).wf(),
            old(self).clipboard.paths@.len() == 0 ==> final(self).task_manager.task_list()
                == old(self).task_manager.task_list() && final(self).clipboard == old(self).clipboard,
            old(self).clipboard.paths@.len() > 0 ==> ({
                let mode = old(self).clipboard.mode->Some_0;
                let dir = old(self).active_tab().current_dir@;
                let srcs = old(self).clipboard.paths@.filter(|p: String| has_file_name(p));
                let before = old(self).task_manager.task_list();
                let after = final(self).task_manager.task_list();
                &&& after.len() == before.len() + srcs.len()
                &&& after.subrange(0, before.len() as int) == before
                &&& forall|k: int|
                    0 <= k < srcs.len() ==> is_paste_task(
                        #[trigger] after[before.len() + k],
                        srcs[k],
                        mode,
                        dir,
                    )
                &&& mode == ClipboardMode::Move ==> final(self).clipboard.paths@.len() == 0
                    && final(self).clipboard.mode is None
                &&& mode == ClipboardMode::Copy ==> final(self).clipboard == old(self).clipboard
            }),
            final(self).task_manager.refresh_list() == old(self).task_manager.refresh_list(),
            final(self).tabs == old(self).tabs,
            final(self).active_tab_index == old(self).active_tab_index,
    {
        if self.clipboard.paths.len() == 0 {
            return;
        }
        let mode = match self.clipboard.mode {
            Some(mode) => mode,
            None => return ,
        };
        let destination = self.get_active_tab().current_dir.clone();
        let ghost keep = |p: String| has_file_name(p);
        let ghost before = self.task_manager.task_list();
        let ghost paths = self.clipboard.paths@;
        let mut i: usize = 0;
        proof {
            let none = Seq::<String>::empty();
            assert(paths.subrange(0, 0) =~= none);
            none.lemma_filter_len(keep);
            assert(none.filter(keep) =~= none);
            assert(self.task_manager.task_list().subrange(0, before.len() as int) =~= before);
        }
        while i < self.clipboard.paths.len()
            invariant
                self.wf(),
                self.clipboard == old(self).clipboard,
                self.tabs == old(self).tabs,
                self.active_tab_index == old(self).active_tab_index,
                paths == self.clipboard.paths@,
                mode == old(self).clipboard.mode->Some_0,
                destination == old(self).active_tab().current_dir,
                before == old(self).task_manager.task_list(),
                self.task_manager.refresh_list() == old(self).task_manager.refresh_list(),
                forall|x: String| #[trigger] keep(x) == has_file_name(x),
                i <= paths.len(),
                ({
                    let done = paths.subrange(0, i as int).filter(keep);
                    let after = self.task_manager.task_list();
                    &&& after.len() == before.len() + done.len()
                    &&& after.subrange(0, before.len() as int) == before
                    &&& forall|k: int|
                        0 <= k < done.len() ==> is_paste_task(
                            #[trigger] after[before.len() + k],
                            done[k],
                            mode,
                            destination@,
                        )
                }),
            decreases paths.len() - i,
        {
            let src = self.clipboard.paths[i].clone();
            let ghost head = paths.subrange(0, i as int);
            let ghost done = head.filter(keep);
            let ghost tasks = self.task_manager.task_list();
            proof {
                assert(paths.subrange(0, i + 1) =~= head.push(src));
                head.lemma_filter_push(src, keep);
            }
            match file_name(src.as_str()) {
                Some(name) => {
                    let dest = join_path(destination.as_str(), name.as_str());
                    let mut description = match mode {
                        ClipboardMode::Copy => String::from_str("Copy "),
                        ClipboardMode::Move => String::from_str("Move "),
                    };
                    description.append(name.as_str());
                    description.append(" -> ");
                    description.append(destination.as_str());
                    let kind = match mode {
                        ClipboardMode::Copy => TaskKind::Copy { src, dest },
                        ClipboardMode::Move => TaskKind::Move { src, dest },
                    };
                    self.task_manager.add_task(kind, description);
                    proof {
                        let after = self.task_manager.task_list();
                        assert(after.subrange(0, before.len() as int) =~= before) by {
                            assert(after.subrange(0, before.len() as int) =~= tasks.subrange(
                                0,
                                before.len() as int,
                            ));
                        }
                        assert forall|k: int|
                            0 <= k < done.len() + 1 implies is_paste_task(
                            #[trigger] after[before.len() + k],
                            done.push(paths[i as int])[k],
                            mode,
                            destination@,
                        ) by {
                            if k < done.len() {
                                assert(after[before.len() + k] == tasks[before.len() + k]);
                            }
                        }
                    }
                },
                None => {},
            }
            i = i + 1;
        }
        proof {
            assert(paths.subrange(0, paths.len() as int) =~= paths);
        }
        if mode == ClipboardMode::Move {
            self.clipboard.clear();
        }
    }

    /// Asks to confirm the deletion of the selected entry of the active tab.
    pub fn delete_selection(&mut self)
        requires
            old(self).wf(),
        ensures
            final(self).wf(),
            old(self).active_tab().selected() matches Some(e) ==> {
                &&& final(self).path_to_delete == Some(e.path)
                &&& final(self).confirmation_message@ == "Are you sure you want to delete "@
                    + display_name(e.path@) + "? (y/n)"@
                &&& final(self).show_confirmation
            },
            old(self).active_tab().selected() is None ==> final(self).path_to_delete == old(
                self).path_to_delete && final(self).show_confirmation == old(self).show_confirmation
                && final(self).confirmation_message == old(self).confirmation_message,
            final(self).tabs == old(self).tabs,
            final(self).active_tab_index == old(self).active_tab_index,
            final(self).task_manager == old(self).task_manager,
            final(self).clipboard == old(self).clipboard,
    {
        match self.get_active_tab().get_selected_entry_path() {
            Some(path) => {
                let mut message = String::from_str("Are you sure you want to delete ");
                let name = name_for_display(&path);
                message.append(name.as_str());
                message.append("? (y/n)");
                self.path_to_delete = Some(path);
                self.confirmation_message = message;
                self.show_confirmation = true;
            },
            None => {},
        }
    }

    /// Adds the deletion asked for, if any, as a pending task, and closes
    /// the confirmation.
    pub fn confirm_delete(&mut self)
        requires
            old(self).wf(),
        ensures
            final(self).wf(),
            old(self).path_to_delete matches Some(p) ==> {
                let before = old(self).task_manager.task_list();
                let after = final(self).task_manager.task_list();
                &&& after.len() == before.len() + 1
                &&& after.subrange(0, before.len() as int) == before
                &&& after.last().kind == TaskKind::Delete { path: p }
                &&& after.last().status == TaskStatus::Pending
                &&& after.last().description@ == "Delete "@ + display_name(p@)
            },
            old(self).path_to_delete is None ==> final(self).task_manager == old(self).task_manager,
            final(self).task_manager.refresh_list() == old(self).task_manager.refresh_list(),
            !final(self).show_confirmation,
            final(self).path_to_delete is None,
            final(self).tabs == old(self).tabs,
            final(self).active_tab_index == old(self).active_tab_index,
            final(self).clipboard == old(self).clipboard,
    {
        match self.path_to_delete.take() {
            Some(path) => {
                let mut description = String::from_str("Delete ");
                let name = name_for_display(&path);
                description.append(name.as_str());
                self.task_manager.add_task(TaskKind::Delete { path }, description);
                proof {
                    let before = old(self).task_manager.task_list();
                    assert(self.task_manager.task_list().subrange(0, before.len() as int)
                        =~= before);
                }
            },
            None => {},
        }
        self.show_confirmation = false;
        self.path_to_delete = None;
    }

    /// Closes the confirmation without deleting.
    pub fn cancel_delete(&mut self)
        ensures
            !final(self).show_confirmation,
            final(self).path_to_delete is None,
            final(self).tabs == old(self).tabs,
            final(self).active_tab_index == old(self).active_tab_index,
            final(self).task_manager == old(self).task_manager,
            final(self).clipboard == old(self).clipboard,
    {
        self.show_confirmation = false;
        self.path_to_delete = None;
    }

    /// Adds a pending task creating the file or directory named in the
    /// input buffer inside the active tab's directory, and empties the
    /// buffer. Nothing happens for an empty buffer or when no kind was
    /// chosen.
    pub fn create_item(&mut self)
        requires
            old(self).wf(),
        ensures
            final(self).wf(),
            old(self).input_buffer@.len() > 0 && old(self).create_file_type is Some ==> {
                let before = old(self).task_manager.task_list();
                let after = final(self).task_manager.task_list();
                let path = joined_path(old(self).active_tab().current_dir@, old(self).input_buffer@);
                &&& after.len() == before.len() + 1
                &&& after.subrange(0, before.len() as int) == before
                &&& after.last().status == TaskStatus::Pending
                &&& match after.last().kind {
                    TaskKind::CreateFile { path: p } => old(self).create_file_type == Some(
                        CreateFileType::File,
                    ) && p@ == path,
                    TaskKind::CreateDirectory { path: p } => old(self).create_file_type == Some(
                        CreateFileType::Directory,
                    ) && p@ == path,
                    _ => false,
                }
                &&& after.last().description@ == "Create "@ + path
                &&& final(self).input_buffer@.len() == 0
                &&& final(self).create_file_type is None
            },
            !(old(self).input_buffer@.len() > 0 && old(self).create_file_type is Some) ==> final(
                self).task_manager == old(self).task_manager && final(self).input_buffer == old(
                self).input_buffer && final(self).create_file_type == old(self).create_file_type,
            final(self).task_manager.refresh_list() == old(self).task_manager.refresh_list(),
            final(self).tabs == old(self).tabs,
            final(self).active_tab_index == old(self).active_tab_index,
    {
        if self.input_buffer.as_str().unicode_len() == 0 {
            return;
        }
        let file_type = match self.create_file_type {
            Some(t) => t,
            None => return ,
        };
        let path = join_path(self.get_active_tab().current_dir.as_str(), self.input_buffer.as_str());
        self.input_buffer = String::new();
        let mut description = String::from_str("Create ");
        description.append(path.as_str());
        let kind = match file_type {
            CreateFileType::File => TaskKind::CreateFile { path },
            CreateFileType::Directory => TaskKind::CreateDirectory { path },
        };
        self.task_manager.add_task(kind, description);
        proof {
            let before = old(self).task_manager.task_list();
            assert(self.task_manager.task_list().subrange(0, before.len() as int) =~= before);
        }
        self.create_file_type = None;
    }

    /// Bookmarks the active tab's directory under its last component, if it
    /// has a non-empty one, and returns the new bookmark so that the caller
    /// can store it with the configuration.
    pub fn add_bookmark(&mut self) -> (r: Option<(String, String)>)
        requires
            old(self).wf(),
        ensures
            final(self).wf(),
            ({
                let dir = old(self).active_tab().current_dir;
                match file_name_of(dir@) {
                    Some(name) if name.len() > 0 => (r matches Some(b) && b.0@ == name && b.1
                        == dir && final(self).bookmarks@ == old(self).bookmarks@.push(b)),
                    _ => r is None && final(self).bookmarks == old(self).bookmarks,
                }
            }),
            final(self).tabs == old(self).tabs,
            final(self).active_tab_index == old(self).active_tab_index,
            final(self).task_manager == old(self).task_manager,
    {
        let path = self.get_active_tab().current_dir.clone();
        match file_name(path.as_str()) {
            Some(name) => {
                if name.as_str().unicode_len() > 0 {
                    self.bookmarks.push((name.clone(), path.clone()));
                    Some((name, path))
                } else {
                    None
                }
            },
            None => None,
        }
    }

    pub fn clear_info_panel(&mut self)
        ensures
            final(self).info_panel_content is None,
            final(self).tabs == old(self).tabs,
            final(self).task_manager == old(self).task_manager,
    {
        self.info_panel_content = None;
    }

    /// Starts the info panel for the selected entry of the active tab: it
    /// reads "Calculating..." and the path is returned for the caller to
    /// inspect and report through `set_info_panel`.
    pub fn update_info_panel(&mut self) -> (r: Option<String>)
        requires
            old(self).wf(),
        ensures
            final(self).wf(),
            r == (match old(self).active_tab().selected() {
                Some(e) => Some(e.path),
                None => None::<String>,
            }),
            r is Some ==> (final(self).info_panel_content matches Some(text) && text@
                == "Calculating..."@),
            r is None ==> final(self).info_panel_content == old(self).info_panel_content,
            final(self).tabs == old(self).tabs,
            final(self).task_manager == old(self).task_manager,
    {
        let selected = self.get_active_tab().get_selected_entry_path();
        match selected {
            Some(path) => {
                self.info_panel_content = Some(String::from_str("Calculating..."));
                Some(path)
            },
            None => None,
        }
    }

    /// Shows `text` in the info panel.
    pub fn set_info_panel(&mut self, text: String)
        ensures
            final(self).info_panel_content == Some(text),
            final(self).tabs == old(self).tabs,
            final(self).task_manager == old(self).task_manager,
    {
        self.info_panel_content = Some(text);
    }

    /// Activates the tab at `index`, if there is one.
    pub fn select_tab(&mut self, index: usize)
        requires
            old(self).wf(),
        ensures
            final(self).wf(),
            final(self).active_tab_index == if index < old(self).tabs@.len() {
                index
            } else {
                old(self).active_tab_index
            },
            final(self).tabs == old(self).tabs,
            final(self).show_tabs == old(self).show_tabs,
            final(self).task_manager == old(self).task_manager,
            final(self).same_settings(*old(self)),
    {
        if index < self.tabs.len() {
            self.active_tab_index = index;
        }
    }

    /// Types `c` into the input dialog.
    pub fn input_char(&mut self, c: char)
        ensures
            final(self).input_buffer@ == old(self).input_buffer@.push(c),
            final(self).show_input_dialog == old(self).show_input_dialog,
            final(self).tabs == old(self).tabs,
            final(self).active_tab_index == old(self).active_tab_index,
            final(self).task_manager == old(self).task_manager,
            final(self).clipboard == old(self).clipboard,
    {
        push_char(&mut self.input_buffer, c);
    }

    /// Erases the last character of the input dialog, if any.
    pub fn input_backspace(&mut self)
        ensures
            final(self).input_buffer@ == if old(self).input_buffer@.len() > 0 {
                old(self).input_buffer@.drop_last()
            } else {
                old(self).input_buffer@
            },
            final(self).show_input_dialog == old(self).show_input_dialog,
            final(self).tabs == old(self).tabs,
            final(self).active_tab_index == old(self).active_tab_index,
            final(self).task_manager == old(self).task_manager,
            final(self).clipboard == old(self).clipboard,
    {
        let _ = pop_char(&mut self.input_buffer);
    }

    /// Creates the item typed in the input dialog (see `create_item`) and
    /// closes the dialog.
    pub fn submit_input(&mut self)
        requires
            old(self).wf(),
        ensures
            final(self).wf(),
            !final(self).show_input_dialog,
            old(self).input_buffer@.len() > 0 && old(self).create_file_type is Some ==> {
                let before = old(self).task_manager.task_list();
                let after = final(self).task_manager.task_list();
                let path = joined_path(old(self).active_tab().current_dir@, old(self).input_buffer@);
                &&& after.len() == before.len() + 1
                &&& after.subrange(0, before.len() as int) == before
                &&& after.last().status == TaskStatus::Pending
                &&& match after.last().kind {
                    TaskKind::CreateFile { path: p } => old(self).create_file_type == Some(
                        CreateFileType::File,
                    ) && p@ == path,
                    TaskKind::CreateDirectory { path: p } => old(self).create_file_type == Some(
                        CreateFileType::Directory,
                    ) && p@ == path,
                    _ => false,
                }
                &&& final(self).input_buffer@.len() == 0
            },
            !(old(self).input_buffer@.len() > 0 && old(self).create_file_type is Some)
                ==> final(self).task_manager == old(self).task_manager,
            final(self).tabs == old(self).tabs,
            final(self).active_tab_index == old(self).active_tab_index,
    {
        self.create_item();
        self.show_input_dialog = false;
    }

    /// Closes the input dialog and forgets what was typed.
    pub fn cancel_input(&mut self)
        ensures
            !final(self).show_input_dialog,
            final(self).input_buffer@.len() == 0,
            final(self).tabs == old(self).tabs,
            final(self).active_tab_index == old(self).active_tab_index,
            final(self).task_manager == old(self).task_manager,
    {
        self.show_input_dialog = false;
        self.input_buffer = String::new();
    }

    /// Waits for the kind of item to create.
    pub fn enter_create_mode(&mut self)
        ensures
            final(self).input_mode == InputMode::Create,
            final(self).tabs == old(self).tabs,
            final(self).active_tab_index == old(self).active_tab_index,
            final(self).task_manager == old(self).task_manager,
    {
        self.input_mode = InputMode::Create;
    }

    /// Chooses the kind of item to create and opens the input dialog for
    /// its name.
    pub fn choose_create_type(&mut self, kind: CreateFileType)
        ensures
            final(self).create_file_type == Some(kind),
            final(self).show_input_dialog,
            final(self).input_mode == InputMode::Normal,
            final(self).tabs == old(self).tabs,
            final(self).active_tab_index == old(self).active_tab_index,
            final(self).task_manager == old(self).task_manager,
    {
        self.create_file_type = Some(kind);
        self.show_input_dialog = true;
        self.input_mode = InputMode::Normal;
    }

    /// Goes back to normal bindings without creating anything.
    pub fn leave_create_mode(&mut self)
        ensures
            final(self).input_mode == InputMode::Normal,
            final(self).tabs == old(self).tabs,
            final(self).active_tab_index == old(self).active_tab_index,
            final(self).task_manager == old(self).task_manager,
    {
        self.input_mode = InputMode::Normal;
    }
}

} // verus!
