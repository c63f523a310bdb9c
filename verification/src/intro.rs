//! The intro: lines of story shown one after the other.
//!
//! A line gives way to the next when its time is up or when the player asks
//! for it; the intro is over when the last line has given way.

use vstd::prelude::*;
use crate::input::Key;

verus! {

/// How long a line is shown before the next one comes by itself, in
/// microseconds.
pub const AUTO_ADVANCE_MICROS: u64 = 4_000_000;

/// The lines of the intro and the place in them.
pub struct Intro {
    pub lines: Vec<String>,
    /// Index of the line that is shown.
    pub index: usize,
    /// How long the line has been shown, in microseconds.
    pub timer: u64,
    /// How long a line is shown, in microseconds.
    pub auto_advance_micros: u64,
}

impl Intro {
    /// Whether a line that has been shown for `timer` microseconds gives
    /// way after `dt_micros` more.
    pub open spec fn times_out(self, dt_micros: int) -> bool {
        self.timer + dt_micros >= self.auto_advance_micros
    }

    /// The timer after `dt_micros` more microseconds: it starts again when
    /// the line gives way.
    pub open spec fn timer_after(self, dt_micros: int) -> int {
        if self.times_out(dt_micros) {
            0
        } else {
            self.timer + dt_micros
        }
    }

    /// The index of the line after `dt_micros` more microseconds.
    pub open spec fn index_after(self, dt_micros: int) -> int {
        if self.times_out(dt_micros) {
            self.index + 1
        } else {
            self.index as int
        }
    }

    /// Whether the intro is over once the line at `index` has given way.
    pub open spec fn ends_after(self, index: int) -> bool {
        index + 1 >= self.lines@.len()
    }

    /// The index of the line to draw: the current one, or the last one when
    /// the intro is over.
    pub open spec fn shown_index(self) -> int {
        if self.index < self.lines@.len() {
            self.index as int
        } else {
            self.lines@.len() - 1
        }
    }

    /// An intro on its first line, with lines shown for
    /// [`AUTO_ADVANCE_MICROS`].
    pub fn new(lines: Vec<String>) -> (intro: Intro)
        ensures
            intro.lines == lines,
            intro.index == 0,
            intro.timer == 0,
            intro.auto_advance_micros == AUTO_ADVANCE_MICROS,
    {
        Intro { lines, index: 0, timer: 0, auto_advance_micros: AUTO_ADVANCE_MICROS }
    }

    /// Lets `dt_micros` microseconds pass and says whether the intro is
    /// over. When the time of the line is up the next line comes and the
    /// timer starts again.
    pub fn update(&mut self, dt_micros: u64) -> (done: bool)
        requires
            old(self).index < usize::MAX,
        ensures
            final(self).lines == old(self).lines,
            final(self).auto_advance_micros == old(self).auto_advance_micros,
            final(self).timer == old(self).timer_after(dt_micros as int),
            final(self).index == old(self).index_after(dt_micros as int),
            done == (old(self).times_out(dt_micros as int) && old(self).ends_after(
                old(self).index as int,
            )),
    {
        let total: u128 = self.timer as u128 + dt_micros as u128;
        if total >= self.auto_advance_micros as u128 {
            self.timer = 0;
            self.index += 1;
            if self.index >= self.lines.len() {
                return true;
            }
        } else {
            self.timer = total as u64;
        }
        false
    }

    /// Goes to the next line when `key` is Z and says whether the intro is
    /// over. Any other key is ignored.
    pub fn handle_input(&mut self, key: Key) -> (done: bool)
        requires
            old(self).index < usize::MAX,
        ensures
            final(self).lines == old(self).lines,
            final(self).auto_advance_micros == old(self).auto_advance_micros,
            key == Key::Z ==> final(self).timer == 0 && final(self).index == old(self).index + 1,
            key != Key::Z ==> final(self).timer == old(self).timer,
            key != Key::Z ==> final(self).index == old(self).index,
            done == (key == Key::Z && old(self).ends_after(old(self).index as int)),
    {
        if key == Key::Z {
            self.index += 1;
            self.timer = 0;
            if self.index >= self.lines.len() {
                return true;
            }
        }
        false
    }

    /// Starts the intro again from its first line.
    pub fn restart(&mut self)
        ensures
            final(self).lines == old(self).lines,
            final(self).auto_advance_micros == old(self).auto_advance_micros,
            final(self).index == 0,
            final(self).timer == 0,
    {
        self.index = 0;
        self.timer = 0;
    }

    /// Computes [`Intro::shown_index`].
    pub fn shown_line(&self) -> (i: usize)
        requires
            self.lines@.len() > 0,
        ensures
            i == self.shown_index(),
            i < self.lines@.len(),
    {
        if self.index < self.lines.len() {
            self.index
        } else {
            self.lines.len() - 1
        }
    }
}

} // verus!
