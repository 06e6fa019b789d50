//! The state behind the terminal color preview: a run flag and a wrapping
//! cursor over a fixed ring of palette lines. The host draws the colors; the
//! decisions about which line is selected and when to quit live here.

use vstd::prelude::*;

use crate::ui::{State, UiKey};

verus! {

/// The color preview's state: whether it keeps running, how many palette
/// lines there are, and which one is selected.
pub struct ColorPreview {
    /// Whether the preview keeps running.
    pub state: State,
    /// How many palette lines the ring holds; fixed and at least one.
    pub count: usize,
    /// The selected palette line.
    pub line_sel: usize,
}

impl ColorPreview {
    /// The selection stays inside the ring.
    pub open spec fn wf(self) -> bool {
        1 <= self.count && self.line_sel < self.count
    }

    /// A fresh preview over a ring of `count` palette lines, running, with
    /// the first line selected.
    pub fn new(count: usize) -> (r: Self)
        requires
            count >= 1,
        ensures
            r.wf(),
            r.state == State::Running,
            r.count == count,
            r.line_sel == 0,
    {
        ColorPreview { state: State::Running, count, line_sel: 0 }
    }

    /// The line after the selected one, wrapping around the ring.
    pub fn next_palette(&self) -> (r: usize)
        requires
            self.wf(),
        ensures
            r == (self.line_sel + 1) % (self.count as int),
            r < self.count,
    {
        (self.line_sel + 1) % self.count
    }

    /// The selected line.
    pub fn cur_palette(&self) -> (r: usize)
        ensures
            r == self.line_sel,
    {
        self.line_sel
    }

    /// The line before the selected one, wrapping around the ring.
    pub fn prev_palette(&self) -> (r: usize)
        requires
            self.wf(),
        ensures
            r == (if self.line_sel == 0 {
                self.count - 1
            } else {
                self.line_sel - 1
            }),
            r < self.count,
    {
        if self.line_sel == 0 {
            self.count - 1
        } else {
            self.line_sel - 1
        }
    }

    /// Move the selection one line forward, wrapping around the ring.
    pub fn select_next_palette(&mut self)
        requires
            old(self).wf(),
        ensures
            final(self).wf(),
            final(self).line_sel == (old(self).line_sel + 1) % (old(self).count as int),
            final(self).state == old(self).state,
            final(self).count == old(self).count,
    {
        self.line_sel = (self.line_sel + 1) % self.count;
    }

    /// Move the selection one line back, wrapping around the ring.
    pub fn select_prev_palette(&mut self)
        requires
            old(self).wf(),
        ensures
            final(self).wf(),
            final(self).line_sel == (if old(self).line_sel == 0 {
                old(self).count - 1
            } else {
                old(self).line_sel - 1
            }),
            final(self).state == old(self).state,
            final(self).count == old(self).count,
    {
        self.line_sel = if self.line_sel == 0 {
            self.count - 1
        } else {
            self.line_sel - 1
        };
    }

    /// Apply one reduced key event: `q`, escape or control-c stop the
    /// preview; the arrow keys move the selection; everything else is
    /// ignored.
    pub fn handle_key(&mut self, key: UiKey)
        requires
            old(self).wf(),
        ensures
            final(self).wf(),
            final(self).count == old(self).count,
            key == UiKey::Char('q') || key == UiKey::Esc || key == UiKey::Ctrl('c')
                ==> final(self).state == State::Stopped && final(self).line_sel == old(self).line_sel,
            key == UiKey::Left ==> final(self).state == old(self).state && final(self).line_sel == (
                if old(self).line_sel == 0 {
                    old(self).count - 1
                } else {
                    old(self).line_sel - 1
                }),
            key == UiKey::Right ==> final(self).state == old(self).state && final(self).line_sel
                == (old(self).line_sel + 1) % (old(self).count as int),
            !(key == UiKey::Char('q') || key == UiKey::Esc || key == UiKey::Ctrl('c') || key
                == UiKey::Left || key == UiKey::Right) ==> *final(self) == *old(self),
    {
        match key {
            UiKey::Char(c) => {
                if c == 'q' {
                    self.state = State::Stopped;
                }
            }
            UiKey::Esc => {
                self.state = State::Stopped;
            }
            UiKey::Ctrl(c) => {
                if c == 'c' {
                    self.state = State::Stopped;
                }
            }
            UiKey::Left => {
                self.select_prev_palette();
            }
            UiKey::Right => {
                self.select_next_palette();
            }
            _ => {}
        }
    }
}

} // verus!
