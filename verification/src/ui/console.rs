//! One console session's state and its scrollback viewport window.
//!
//! A [`Console`] owns an append-only transcript buffer, the current edit
//! line, a prompt and the history of submitted lines. A
//! [`ConsoleBufferView`] is the window of buffer lines currently rendered:
//! `start` is the index of the first visible line and `range` the number of
//! visible lines. After any recompute the window is clamped so that it
//! never scrolls past the content and pins to the bottom by default.

use vstd::prelude::*;
use vstd::string::StringExecFns;

verus! {

/// Render metrics the host supplies, in whole pixels.
#[derive(Clone, Copy, Debug, PartialEq, Eq, Structural)]
pub struct ConsoleUiSettings {
    pub font_size: usize,
    /// Height of one rendered text line in pixels; must be at least 1.
    pub line_height: usize,
}

impl Default for ConsoleUiSettings {
    /// Defaults mirror a 12 px font with a line height a fifth taller.
    fn default() -> (s: Self)
        ensures
            s.font_size == 12,
            s.line_height == 14,
    {
        ConsoleUiSettings { font_size: 12, line_height: 14 }
    }
}

/// One independent console instance: transcript, edit line, prompt, history.
#[derive(Clone, Debug)]
pub struct Console {
    /// Transcript lines, append-only except for a full clear.
    pub buffer: Vec<String>,
    /// The line currently being edited.
    pub input: String,
    /// Prepended to every echoed command line.
    pub prompt: String,
    /// Every submitted line, oldest first.
    pub history: Vec<String>,
}

impl Default for Console {
    fn default() -> (c: Self)
        ensures
            c.buffer@.len() == 0,
            c.input@.len() == 0,
            c.history@.len() == 0,
            c.prompt@ == "> "@,
    {
        Console {
            buffer: Vec::new(),
            input: String::new(),
            prompt: "> ".to_owned(),
            history: Vec::new(),
        }
    }
}

/// Number of buffer lines a container can show: the full rows that fit,
/// minus the rows the prompt occupies, never negative.
pub open spec fn spec_visible_count(container_height: int, line_height: int, prompt_lines: int) -> int
    recommends
        line_height >= 1,
{
    if container_height / line_height >= prompt_lines {
        container_height / line_height - prompt_lines
    } else {
        0
    }
}

/// The start index that pins the window to the bottom of the content.
pub open spec fn spec_bottom_start(total_lines: int, visible_count: int) -> int {
    if total_lines >= visible_count {
        total_lines - visible_count
    } else {
        0
    }
}

/// The start index after applying a scroll delta: a positive delta moves
/// the window up (away from the newest line), and the result is clamped
/// between the top and the bottom-pinned start.
pub open spec fn spec_scrolled_start(start: int, delta: int, total_lines: int, visible_count: int) -> int {
    let max_start = spec_bottom_start(total_lines, visible_count);
    let moved = start - delta;
    if moved < 0 {
        0
    } else if moved > max_start {
        max_start
    } else {
        moved
    }
}

/// The slice of buffer lines a window selects, with both bounds clamped
/// to the buffer length.
pub open spec fn spec_visible_lines(lines: Seq<Seq<char>>, start: int, range: int) -> Seq<Seq<char>>
    recommends
        start >= 0,
        range >= 0,
{
    let lo = if start <= lines.len() { start } else { lines.len() as int };
    let hi = if start + range <= lines.len() { start + range } else { lines.len() as int };
    lines.subrange(lo, hi)
}

/// Lines joined by a single newline, with no trailing newline.
pub open spec fn spec_join_lines(lines: Seq<Seq<char>>) -> Seq<char>
    decreases lines.len(),
{
    if lines.len() == 0 {
        Seq::empty()
    } else if lines.len() == 1 {
        lines[0]
    } else {
        spec_join_lines(lines.drop_last()) + seq!['\n'] + lines.last()
    }
}

/// The window of buffer lines currently rendered for one console.
#[derive(Clone, Copy, Debug, PartialEq, Eq, Structural)]
pub struct ConsoleBufferView {
    pub console_id: u64,
    /// Index into the buffer of the first visible line.
    pub start: usize,
    /// How many buffer lines are shown.
    pub range: usize,
}

impl ConsoleBufferView {
    /// An empty window; its size is determined by the first resize.
    pub fn new(console_id: u64) -> (v: Self)
        ensures
            v.console_id == console_id,
            v.start == 0,
            v.range == 0,
    {
        ConsoleBufferView { console_id, start: 0, range: 0 }
    }

    /// Recomputes the window for a container of `container_height` pixels
    /// and pins it to the bottom of the content. Idempotent: identical
    /// inputs give an identical window.
    pub fn resize(self, container_height: usize, line_height: usize, total_lines: usize, prompt_lines: usize) -> (v: Self)
        requires
            line_height >= 1,
        ensures
            v.console_id == self.console_id,
            v.range as int == spec_visible_count(container_height as int, line_height as int, prompt_lines as int),
            v.start as int == spec_bottom_start(total_lines as int, v.range as int),
    {
        let rows = container_height / line_height;
        let range = if rows >= prompt_lines { rows - prompt_lines } else { 0 };
        let start = if total_lines >= range { total_lines - range } else { 0 };
        ConsoleBufferView { console_id: self.console_id, start, range }
    }

    /// Recomputes the window after a layout change, taking the line metric
    /// from the host-supplied settings.
    pub fn on_resize(&self, settings: &ConsoleUiSettings, container_height: usize, total_lines: usize, prompt_lines: usize) -> (v: Self)
        requires
            settings.line_height >= 1,
        ensures
            v.console_id == self.console_id,
            v.range as int == spec_visible_count(container_height as int, settings.line_height as int, prompt_lines as int),
            v.start as int == spec_bottom_start(total_lines as int, v.range as int),
    {
        self.resize(container_height, settings.line_height, total_lines, prompt_lines)
    }

    /// Pins the window to the bottom of a buffer of `total_lines` lines,
    /// keeping the window size.
    pub fn jump_to_bottom(self, total_lines: usize) -> (v: Self)
        ensures
            v.console_id == self.console_id,
            v.range == self.range,
            v.start as int == spec_bottom_start(total_lines as int, self.range as int),
    {
        let start = if total_lines >= self.range { total_lines - self.range } else { 0 };
        ConsoleBufferView { console_id: self.console_id, start, range: self.range }
    }

    /// The text a host renders for this window: the visible buffer lines
    /// joined by newlines, then a newline, the prompt and the edit line.
    pub fn text(&self, console: &Console) -> (r: String)
        ensures
            r@ == spec_join_lines(
                spec_visible_lines(console.buffer.deep_view(), self.start as int, self.range as int),
            ) + seq!['\n'] + console.prompt@ + console.input@,
    {
        let ghost lines = console.buffer.deep_view();
        let ghost visible = spec_visible_lines(lines, self.start as int, self.range as int);
        let len = console.buffer.len();
        let lo = if self.start <= len { self.start } else { len };
        let hi = if len - lo <= self.range { len } else { lo + self.range };
        proof {
            assert(visible =~= lines.subrange(lo as int, hi as int));
        }
        let mut s = String::new();
        let mut i: usize = lo;
        while i < hi
            invariant
                lo <= i <= hi <= len,
                len == console.buffer@.len(),
                lines == console.buffer.deep_view(),
                visible == lines.subrange(lo as int, hi as int),
                s@ == spec_join_lines(visible.subrange(0, i - lo)),
            decreases hi - i,
        {
            if i > lo {
                s.append("\n");
                proof {
                    reveal_strlit("\n");
                    assert("\n"@ =~= seq!['\n']);
                }
            }
            s.append(console.buffer[i].as_str());
            proof {
                assert(lines[i as int] == console.buffer@[i as int]@);
                let k = i + 1 - lo;
                assert(visible.subrange(0, k as int).drop_last() =~= visible.subrange(0, k - 1));
                assert(visible.subrange(0, k as int).last() == lines[i as int]);
                if k == 1 {
                    assert(Seq::<char>::empty() + lines[i as int] =~= lines[i as int]);
                }
            }
            i += 1;
        }
        proof {
            assert(visible.subrange(0, hi - lo) =~= visible);
            reveal_strlit("\n");
            assert("\n"@ =~= seq!['\n']);
        }
        s.append("\n");
        s.append(console.prompt.as_str());
        s.append(console.input.as_str());
        s
    }
}

impl Console {
    /// Applies a scroll delta to this console's window: the new start is
    /// the old one moved by `delta_lines` and clamped between the top and
    /// the bottom-pinned start. When the content fits in one page the
    /// window stays pinned at the top.
    pub fn on_scroll(&self, view: &ConsoleBufferView, delta_lines: i64) -> (v: ConsoleBufferView)
        ensures
            v.console_id == view.console_id,
            v.range == view.range,
            v.start as int == spec_scrolled_start(
                view.start as int,
                delta_lines as int,
                self.buffer@.len() as int,
                view.range as int,
            ),
    {
        let total_lines = self.buffer.len();
        let max_start = if total_lines >= view.range { total_lines - view.range } else { 0 };
        let start: usize = if delta_lines >= 0 {
            let d = delta_lines as u64;
            if d >= view.start as u64 {
                0
            } else {
                let moved = view.start - d as usize;
                if moved > max_start {
                    max_start
                } else {
                    moved
                }
            }
        } else {
            let d: u64 = if delta_lines == i64::MIN {
                9223372036854775808u64
            } else {
                (-delta_lines) as u64
            };
            if view.start >= max_start {
                max_start
            } else {
                let room = (max_start - view.start) as u64;
                if d >= room {
                    max_start
                } else {
                    view.start + d as usize
                }
            }
        };
        ConsoleBufferView { console_id: view.console_id, start, range: view.range }
    }
}

/// After a bottom-pinning recompute the window never starts before the
/// first line nor after the content, and whenever the content is at least
/// one page long the window shows the tail of the buffer.
pub proof fn law_viewport_clamp(total_lines: int, visible_count: int)
    requires
        total_lines >= 0,
        visible_count >= 0,
    ensures
        0 <= spec_bottom_start(total_lines, visible_count) <= total_lines,
        total_lines >= visible_count ==> spec_bottom_start(total_lines, visible_count) + visible_count >= total_lines,
{
}

/// A scroll delta of zero leaves an in-range window start unchanged.
pub proof fn law_scroll_zero_delta(start: int, total_lines: int, visible_count: int)
    requires
        0 <= start <= spec_bottom_start(total_lines, visible_count),
    ensures
        spec_scrolled_start(start, 0, total_lines, visible_count) == start,
{
}

/// Any scroll lands between the top and the bottom-pinned start: scrolling
/// past the top clamps to 0 and past the bottom clamps to the pinned value.
pub proof fn law_scroll_clamp(start: int, delta: int, total_lines: int, visible_count: int)
    ensures
        0 <= spec_scrolled_start(start, delta, total_lines, visible_count),
        spec_scrolled_start(start, delta, total_lines, visible_count) <= spec_bottom_start(total_lines, visible_count),
        start - delta < 0 ==> spec_scrolled_start(start, delta, total_lines, visible_count) == 0,
        start - delta > spec_bottom_start(total_lines, visible_count) ==> spec_scrolled_start(
            start,
            delta,
            total_lines,
            visible_count,
        ) == spec_bottom_start(total_lines, visible_count),
{
}

/// Opposite deltas of equal magnitude cancel, provided the first scroll
/// did not hit either clamp.
pub proof fn law_scroll_round_trip(start: int, delta: int, total_lines: int, visible_count: int)
    requires
        0 <= start <= spec_bottom_start(total_lines, visible_count),
        0 <= start - delta <= spec_bottom_start(total_lines, visible_count),
    ensures
        spec_scrolled_start(
            spec_scrolled_start(start, delta, total_lines, visible_count),
            -delta,
            total_lines,
            visible_count,
        ) == start,
{
}

} // verus!
