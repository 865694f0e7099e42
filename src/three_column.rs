//! The three-column browser: home directories, pinned directories and
//! drives on the left, the current directory in the middle.

use crate::paths::{join_path, joined_path};
use vstd::prelude::*;
use vstd::string::{StrSliceExecFns, StringExecFns};

verus! {

/// A pending clipboard action on a path.
#[derive(Debug, Clone, PartialEq, Eq)]
pub enum Action {
    Copy(String),
    Move(String),
}

/// What the keys drive.
#[derive(Debug, Clone, PartialEq, Eq)]
pub enum AppMode {
    Normal,
    Settings,
    ImagePreview(String),
    ConfirmingDelete,
}

/// Which column has the keyboard.
#[derive(Debug, Clone, Copy, PartialEq, Eq, Structural)]
pub enum Focus {
    Left,
    Middle,
    Right,
}

/// The sections of the left column, top to bottom.
#[derive(Debug, Clone, Copy, PartialEq, Eq, Structural)]
pub enum LeftColumnSection {
    Home,
    Pinned,
    Drives,
}

/// The colors of the interface, as `#rrggbb` text.
#[derive(Debug, Clone, PartialEq, Eq)]
pub struct Colors {
    pub bg: String,
    pub fg: String,
    pub highlight_bg: String,
    pub highlight_fg: String,
}

/// The saved settings.
#[derive(Debug, Clone, PartialEq, Eq)]
pub struct Config {
    pub colors: Colors,
    pub pinned_dirs: Vec<String>,
}

impl Default for Config {
    /// Black background, white text, a blue highlight with yellow text, no
    /// pinned directories.
    fn default() -> (r: Config)
        ensures
            r.colors.bg@ == "#000000"@,
            r.colors.fg@ == "#ffffff"@,
            r.colors.highlight_bg@ == "#0000ff"@,
            r.colors.highlight_fg@ == "#ffff00"@,
            r.pinned_dirs@.len() == 0,
    {
        Config {
            colors: Colors {
                bg: String::from_str("#000000"),
                fg: String::from_str("#ffffff"),
                highlight_bg: String::from_str("#0000ff"),
                highlight_fg: String::from_str("#ffff00"),
            },
            pinned_dirs: Vec::new(),
        }
    }
}

/// A color scheme held as text constants.
#[derive(Debug, Clone, Copy)]
pub struct StaticColors {
    pub bg: &'static str,
    pub fg: &'static str,
    pub highlight_bg: &'static str,
    pub highlight_fg: &'static str,
}

impl StaticColors {
    pub fn to_colors(&self) -> (r: Colors)
        ensures
            r.bg@ == self.bg@,
            r.fg@ == self.fg@,
            r.highlight_bg@ == self.highlight_bg@,
            r.highlight_fg@ == self.highlight_fg@,
    {
        Colors {
            bg: String::from_str(self.bg),
            fg: String::from_str(self.fg),
            highlight_bg: String::from_str(self.highlight_bg),
            highlight_fg: String::from_str(self.highlight_fg),
        }
    }
}

/// The pieces of `text` between its `\n` characters (one more than there
/// are newlines).
pub open spec fn split_at_newlines(text: Seq<char>) -> Seq<Seq<char>>
    decreases text.len(),
{
    if text.len() == 0 {
        seq![seq![]]
    } else {
        let p = split_at_newlines(text.drop_last());
        if text.last() == '\n' {
            p.push(seq![])
        } else {
            p.update(p.len() - 1, p.last().push(text.last()))
        }
    }
}

/// A line without the `\r` of a `\r\n` ending.
pub open spec fn without_cr(line: Seq<char>) -> Seq<char> {
    if line.len() > 0 && line.last() == '\r' {
        line.drop_last()
    } else {
        line
    }
}

/// The lines of `text`: split at `\n`, a final newline ending no extra
/// line, and a `\r` dropped where it stands before a `\n`.
pub open spec fn lines_of(text: Seq<char>) -> Seq<Seq<char>> {
    let p = split_at_newlines(text);
    let body = if p.last().len() == 0 {
        p.drop_last()
    } else {
        p
    };
    Seq::new(
        body.len(),
        |i: int|
            if i < p.len() - 1 {
                without_cr(body[i])
            } else {
                body[i]
            },
    )
}

/// Relies on `str::lines`: the lines of the text, split at `\n` or `\r\n`,
/// without their endings; a final line ending adds no empty line.
#[verifier::external_body]
fn text_lines(text: &str) -> (r: Vec<String>)
    ensures
        r@.len() == lines_of(text@).len(),
        forall|i: int| 0 <= i < r@.len() ==> #[trigger] r@[i]@ == lines_of(text@)[i],
{
    text.lines().map(|l| l.to_string()).collect()
}

/// The third whitespace-separated word of `line`, if it has three.
pub uninterp spec fn third_word_of(line: Seq<char>) -> Option<Seq<char>>;

/// Relies on `str::split_whitespace`: its third item, if there is one.
#[verifier::external_body]
fn third_word(line: &str) -> (r: Option<String>)
    ensures
        r is None <==> third_word_of(line@) is None,
        r matches Some(w) ==> third_word_of(line@) == Some(w@),
{
    line.split_whitespace().nth(2).map(|w| w.to_string())
}

/// Whether a line of `mount` output names a mount point: its third word
/// starts with `/`.
pub open spec fn names_drive(line: Seq<char>) -> bool {
    third_word_of(line) matches Some(w) && w.len() > 0 && w[0] == '/'
}

/// The mount points that `mount` lists, in its order.
pub open spec fn drives_of(lines: Seq<Seq<char>>) -> Seq<Seq<char>>
    decreases lines.len(),
{
    if lines.len() == 0 {
        seq![]
    } else {
        let before = drives_of(lines.drop_last());
        if names_drive(lines.last()) {
            before.push(third_word_of(lines.last())->Some_0)
        } else {
            before
        }
    }
}

/// The three-column browser.
#[derive(Debug)]
pub struct App {
    pub items: Vec<String>,
    pub middle_col_selected: usize,
    pub current_dir: String,
    pub home_dirs: Vec<String>,
    pub pinned_dirs: Vec<String>,
    pub drives: Vec<String>,
    pub left_col_selected_section: LeftColumnSection,
    pub left_col_selected_item: usize,
    pub action: Option<Action>,
    pub config: Config,
    pub focus: Focus,
    pub mode: AppMode,
    pub running: bool,
    pub settings_selected: usize,
}

impl App {
    /// The home directory followed by its usual subdirectories, when the
    /// home directory is known; the browser opens on it (else on `.`). The
    /// caller then reads the listing and the drives.
    pub fn new(config: Config, home: Option<String>) -> (r: App)
        ensures
            home is None ==> r.home_dirs@.len() == 0 && r.current_dir@ == "."@,
            home matches Some(h) ==> {
                &&& r.home_dirs@.len() == 6
                &&& r.home_dirs@[0] == h
                &&& r.home_dirs@[1]@ == joined_path(h@, "Downloads"@)
                &&& r.home_dirs@[2]@ == joined_path(h@, "Documents"@)
                &&& r.home_dirs@[3]@ == joined_path(h@, "Pictures"@)
                &&& r.home_dirs@[4]@ == joined_path(h@, "Videos"@)
                &&& r.home_dirs@[5]@ == joined_path(h@, "Music"@)
                &&& r.current_dir == h
            },
            r.pinned_dirs@ == config.pinned_dirs@,
            r.config == config,
            r.items@.len() == 0 && r.drives@.len() == 0,
            r.left_col_selected_section == LeftColumnSection::Home,
            r.left_col_selected_item == 0 && r.middle_col_selected == 0,
            r.action is None,
            r.focus == Focus::Middle,
            r.mode == AppMode::Normal,
            r.running,
    {
        let mut home_dirs: Vec<String> = Vec::new();
        let current_dir = match &home {
            Some(h) => {
                home_dirs.push(h.clone());
                home_dirs.push(join_path(h.as_str(), "Downloads"));
                home_dirs.push(join_path(h.as_str(), "Documents"));
                home_dirs.push(join_path(h.as_str(), "Pictures"));
                home_dirs.push(join_path(h.as_str(), "Videos"));
                home_dirs.push(join_path(h.as_str(), "Music"));
                h.clone()
            },
            None => String::from_str("."),
        };
        let mut pinned_dirs: Vec<String> = Vec::new();
        let mut i: usize = 0;
        while i < config.pinned_dirs.len()
            invariant
                i <= config.pinned_dirs@.len(),
                pinned_dirs@ == config.pinned_dirs@.subrange(0, i as int),
            decreases config.pinned_dirs@.len() - i,
        {
            pinned_dirs.push(config.pinned_dirs[i].clone());
            i = i + 1;
            proof {
                assert(pinned_dirs@ =~= config.pinned_dirs@.subrange(0, i as int));
            }
        }
        proof {
            assert(pinned_dirs@ =~= config.pinned_dirs@);
        }
        App {
            items: Vec::new(),
            middle_col_selected: 0,
            current_dir,
            home_dirs,
            pinned_dirs,
            drives: Vec::new(),
            left_col_selected_section: LeftColumnSection::Home,
            left_col_selected_item: 0,
            action: None,
            config,
            focus: Focus::Middle,
            mode: AppMode::Normal,
            running: true,
            settings_selected: 0,
        }
    }

    /// Shows `items`, the entries the caller read from `current_dir`, with
    /// the first one selected.
    pub fn load_dir(&mut self, items: Vec<String>)
        ensures
            final(self).items == items,
            final(self).middle_col_selected == 0,
            final(self).current_dir == old(self).current_dir,
    {
        self.items = items;
        self.middle_col_selected = 0;
    }

    /// Takes the drives from the output of `mount`: the mount point of each
    /// line whose third word is an absolute path.
    pub fn load_drives(&mut self, mount_output: &str)
        ensures
            final(self).drives@.len() == drives_of(lines_of(mount_output@)).len(),
            forall|i: int|
                0 <= i < final(self).drives@.len() ==> #[trigger] final(self).drives@[i]@
                    == drives_of(lines_of(mount_output@))[i],
            final(self).items == old(self).items,
            final(self).current_dir == old(self).current_dir,
    {
        let lines = text_lines(mount_output);
        let ghost all = lines_of(mount_output@);
        let mut drives: Vec<String> = Vec::new();
        let mut i: usize = 0;
        while i < lines.len()
            invariant
                i <= lines@.len(),
                lines@.len() == all.len(),
                forall|k: int| 0 <= k < lines@.len() ==> #[trigger] lines@[k]@ == all[k],
                drives@.len() == drives_of(all.subrange(0, i as int)).len(),
                forall|k: int|
                    0 <= k < drives@.len() ==> #[trigger] drives@[k]@ == drives_of(
                        all.subrange(0, i as int),
                    )[k],
            decreases lines@.len() - i,
        {
            proof {
                assert(all.subrange(0, i + 1).drop_last() =~= all.subrange(0, i as int));
                assert(all.subrange(0, i + 1).last() == all[i as int]);
            }
            match third_word(lines[i].as_str()) {
                Some(word) => {
                    let s = word.as_str();
                    if s.unicode_len() > 0 && s.get_char(0) == '/' {
                        drives.push(word);
                    }
                },
                None => {},
            }
            i = i + 1;
        }
        proof {
            assert(all.subrange(0, lines@.len() as int) =~= all);
        }
        self.drives = drives;
    }

    pub fn quit(&mut self)
        ensures
            !final(self).running,
            final(self).items == old(self).items,
            final(self).current_dir == old(self).current_dir,
    {
        self.running = false;
    }

    /// Moves the left-column selection one entry down, into the next
    /// non-empty section after the last entry of a section; at the last
    /// drive it stays.
    pub fn left_col_down(&mut self)
        ensures
            ({
                let o = *old(self);
                let item = o.left_col_selected_item as int;
                let (section, next) = match o.left_col_selected_section {
                    LeftColumnSection::Home => if item + 1 < o.home_dirs@.len() {
                        (LeftColumnSection::Home, item + 1)
                    } else if o.pinned_dirs@.len() > 0 {
                        (LeftColumnSection::Pinned, 0)
                    } else if o.drives@.len() > 0 {
                        (LeftColumnSection::Drives, 0)
                    } else {
                        (LeftColumnSection::Home, item)
                    },
                    LeftColumnSection::Pinned => if item + 1 < o.pinned_dirs@.len() {
                        (LeftColumnSection::Pinned, item + 1)
                    } else if o.drives@.len() > 0 {
                        (LeftColumnSection::Drives, 0)
                    } else {
                        (LeftColumnSection::Pinned, item)
                    },
                    LeftColumnSection::Drives => if item + 1 < o.drives@.len() {
                        (LeftColumnSection::Drives, item + 1)
                    } else {
                        (LeftColumnSection::Drives, item)
                    },
                };
                &&& final(self).left_col_selected_section == section
                &&& final(self).left_col_selected_item == next
            }),
            final(self).home_dirs == old(self).home_dirs,
            final(self).pinned_dirs == old(self).pinned_dirs,
            final(self).drives == old(self).drives,
            final(self).items == old(self).items,
    {
        let item = self.left_col_selected_item;
        match self.left_col_selected_section {
            LeftColumnSection::Home => {
                if item < self.home_dirs.len() && item + 1 < self.home_dirs.len() {
                    self.left_col_selected_item = item + 1;
                } else if self.pinned_dirs.len() > 0 {
                    self.left_col_selected_section = LeftColumnSection::Pinned;
                    self.left_col_selected_item = 0;
                } else if self.drives.len() > 0 {
                    self.left_col_selected_section = LeftColumnSection::Drives;
                    self.left_col_selected_item = 0;
                }
            },
            LeftColumnSection::Pinned => {
                if item < self.pinned_dirs.len() && item + 1 < self.pinned_dirs.len() {
                    self.left_col_selected_item = item + 1;
                } else if self.drives.len() > 0 {
                    self.left_col_selected_section = LeftColumnSection::Drives;
                    self.left_col_selected_item = 0;
                }
            },
            LeftColumnSection::Drives => {
                if item < self.drives.len() && item + 1 < self.drives.len() {
                    self.left_col_selected_item = item + 1;
                }
            },
        }
    }

    /// Moves the left-column selection one entry up, onto the last entry of
    /// the previous non-empty section from the first entry of a section; at
    /// the first home entry it stays.
    pub fn left_col_up(&mut self)
        ensures
            ({
                let o = *old(self);
                let item = o.left_col_selected_item as int;
                let last_home = if o.home_dirs@.len() > 0 {
                    o.home_dirs@.len() - 1
                } else {
                    0
                };
                let (section, next) = match o.left_col_selected_section {
                    LeftColumnSection::Home => if item > 0 {
                        (LeftColumnSection::Home, item - 1)
                    } else {
                        (LeftColumnSection::Home, item)
                    },
                    LeftColumnSection::Pinned => if item > 0 {
                        (LeftColumnSection::Pinned, item - 1)
                    } else {
                        (LeftColumnSection::Home, last_home)
                    },
                    LeftColumnSection::Drives => if item > 0 {
                        (LeftColumnSection::Drives, item - 1)
                    } else if o.pinned_dirs@.len() > 0 {
                        (LeftColumnSection::Pinned, o.pinned_dirs@.len() - 1)
                    } else {
                        (LeftColumnSection::Home, last_home)
                    },
                };
                &&& final(self).left_col_selected_section == section
                &&& final(self).left_col_selected_item == next
            }),
            final(self).home_dirs == old(self).home_dirs,
            final(self).pinned_dirs == old(self).pinned_dirs,
            final(self).drives == old(self).drives,
            final(self).items == old(self).items,
    {
        let item = self.left_col_selected_item;
        let last_home = if self.home_dirs.len() > 0 {
            self.home_dirs.len() - 1
        } else {
            0
        };
        match self.left_col_selected_section {
            LeftColumnSection::Home => {
                if item > 0 {
                    self.left_col_selected_item = item - 1;
                }
            },
            LeftColumnSection::Pinned => {
                if item > 0 {
                    self.left_col_selected_item = item - 1;
                } else {
                    self.left_col_selected_section = LeftColumnSection::Home;
                    self.left_col_selected_item = last_home;
                }
            },
            LeftColumnSection::Drives => {
                if item > 0 {
                    self.left_col_selected_item = item - 1;
                } else if self.pinned_dirs.len() > 0 {
                    self.left_col_selected_section = LeftColumnSection::Pinned;
                    self.left_col_selected_item = self.pinned_dirs.len() - 1;
                } else {
                    self.left_col_selected_section = LeftColumnSection::Home;
                    self.left_col_selected_item = last_home;
                }
            },
        }
    }
}

} // verus!
