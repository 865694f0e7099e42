//! The clipboard: paths yanked for copying or cut for moving.

use vstd::prelude::*;

verus! {

/// Whether a paste copies or moves.
#[derive(Debug, Clone, Copy, PartialEq, Eq, Structural)]
pub enum ClipboardMode {
    Copy,
    Move,
}

/// Paths waiting to be pasted, and how.
#[derive(Debug, Clone)]
pub struct Clipboard {
    pub paths: Vec<String>,
    pub mode: Option<ClipboardMode>,
}

impl Clipboard {
    /// Every path on the clipboard has a mode to be pasted with.
    pub open spec fn wf(self) -> bool {
        self.paths@.len() > 0 ==> self.mode is Some
    }

    pub fn new() -> (r: Clipboard)
        ensures
            r.paths@.len() == 0,
            r.mode is None,
    {
        Clipboard { paths: Vec::new(), mode: None }
    }

    /// Holds `paths` for a copy.
    pub fn yank(&mut self, paths: Vec<String>)
        ensures
            final(self).paths == paths,
            final(self).mode == Some(ClipboardMode::Copy),
    {
        self.paths = paths;
        self.mode = Some(ClipboardMode::Copy);
    }

    /// Holds `paths` for a move.
    pub fn cut(&mut self, paths: Vec<String>)
        ensures
            final(self).paths == paths,
            final(self).mode == Some(ClipboardMode::Move),
    {
        self.paths = paths;
        self.mode = Some(ClipboardMode::Move);
    }

    /// Empties the clipboard.
    pub fn clear(&mut self)
        ensures
            final(self).paths@.len() == 0,
            final(self).mode is None,
    {
        self.paths = Vec::new();
        self.mode = None;
    }
}

} // verus!
