//! The progress line: what it shows and when it is drawn.
//!
//! The line is redrawn on a fixed cadence by whoever owns the terminal. That
//! owner wakes up often, asks [`DisplayThread::poll`] what to do at each
//! wake-up, and writes what it is handed.

use crate::audio::player::{AudioPlayer, Progress};
use crate::audio::utils::{time_text, TimeFormat, TimeUtils};
use crate::text::{push_char, push_str};
use terminal_size::{terminal_size, Height, Width};
use vstd::arithmetic::div_mod::{lemma_fundamental_div_mod, lemma_fundamental_div_mod_converse};
use vstd::prelude::*;

verus! {

/// Milliseconds between two redraws: sixty redraws a second.
pub const POLL_INTERVAL_MS: u64 = 16;

/// Columns that the line needs beside the bar: two times, the brackets, the
/// status and the gaps between them.
pub const RESERVED_COLUMNS: usize = 35;

/// Width of the bar where the terminal leaves no room to size it.
pub const MIN_BAR_WIDTH: usize = 20;

/// Columns assumed where the terminal's size cannot be had.
pub const FALLBACK_COLUMNS: usize = 80;

/// How many of `width` cells are filled at `position` of `total`:
/// `position / total * width` rounded to the nearest cell, a half rounding
/// up, and never more than `width`.
pub open spec fn filled_cells(position: nat, total: nat, width: nat) -> nat
    recommends
        total > 0,
{
    let rounded = (2 * position * width + total) / (2 * total);
    if rounded > width {
        width
    } else {
        rounded
    }
}

/// `n` times the character `c`.
pub open spec fn repeated(c: char, n: nat) -> Seq<char> {
    Seq::new(n, |i: int| c)
}

/// The bar for `position` of `total` in `width` cells between two brackets.
/// A track of unknown length (`total` zero) has no bar.
pub open spec fn progress_bar(position: nat, total: nat, width: nat) -> Seq<char> {
    if total == 0 {
        Seq::empty()
    } else {
        let filled = filled_cells(position, total, width);
        seq!['['] + repeated('=', filled) + repeated('-', (width - filled) as nat) + seq![']']
    }
}

/// The width of the bar in a terminal of `columns` columns.
pub open spec fn bar_width(columns: nat) -> nat {
    if columns > RESERVED_COLUMNS {
        (columns - RESERVED_COLUMNS) as nat
    } else {
        MIN_BAR_WIDTH as nat
    }
}

/// The columns that the line is laid out for, given what the terminal
/// reported: its own columns, or the fallback where it reported none.
pub open spec fn terminal_width(reported: Option<u16>) -> nat {
    match reported {
        Some(columns) => columns as nat,
        None => FALLBACK_COLUMNS as nat,
    }
}

/// The status word at the end of the line.
pub open spec fn status_text(paused: bool) -> Seq<char> {
    if paused {
        "(Paused)"@
    } else {
        "(Playing)"@
    }
}

/// The progress line: position, length, bar and status.
pub open spec fn progress_line(reading: Progress, width: nat) -> Seq<char> {
    time_text(reading.position_ms as nat) + " / "@ + time_text(reading.total_ms as nat) + " "@
        + progress_bar(reading.position_ms as nat, reading.total_ms as nat, width) + " "@
        + status_text(reading.paused)
}

proof fn lemma_rounded_quotient(x: int, t: int)
    requires
        0 <= x,
        0 < t,
    ensures
        (2 * x + t) / (2 * t) == x / t + if 2 * (x % t) >= t {
            1int
        } else {
            0int
        },
{
    let q = x / t;
    let r = x % t;
    lemma_fundamental_div_mod(x, t);
    assert(x == t * q + r);
    assert(2 * x + t == 2 * (t * q) + 2 * r + t);
    assert(2 * (t * q) == q * (2 * t)) by (nonlinear_arith);
    if 2 * r >= t {
        assert(2 * x + t == (q + 1) * (2 * t) + (2 * r - t)) by (nonlinear_arith)
            requires
                2 * x + t == q * (2 * t) + 2 * r + t,
        ;
        lemma_fundamental_div_mod_converse(2 * x + t, 2 * t, q + 1, 2 * r - t);
    } else {
        lemma_fundamental_div_mod_converse(2 * x + t, 2 * t, q, 2 * r + t);
    }
}

proof fn lemma_full_bar(position: nat, total: nat, width: nat)
    requires
        0 < total <= position,
    ensures
        filled_cells(position, total, width) == width,
{
    let x = 2 * position * width + total;
    assert(x >= width * (2 * total)) by (nonlinear_arith)
        requires
            x == 2 * position * width + total,
            0 < total <= position,
    ;
    assert(width * (2 * total) == (2 * total) * width) by (nonlinear_arith);
    vstd::arithmetic::div_mod::lemma_div_is_ordered(
        ((2 * total) * width) as int,
        x as int,
        (2 * total) as int,
    );
    vstd::arithmetic::div_mod::lemma_div_multiples_vanish(width as int, (2 * total) as int);
}

/// A bar of a track of known length is always `width` cells between two
/// brackets, the filled cells first; and once the position has reached the
/// length every cell is filled.
pub proof fn lemma_bar_shape(position: nat, total: nat, width: nat)
    requires
        total > 0,
    ensures
        filled_cells(position, total, width) <= width,
        progress_bar(position, total, width).len() == width + 2,
        progress_bar(position, total, width)[0] == '[',
        progress_bar(position, total, width)[width as int + 1] == ']',
        forall|i: int|
            1 <= i <= width ==> progress_bar(position, total, width)[i] == if i <= filled_cells(
                position,
                total,
                width,
            ) {
                '='
            } else {
                '-'
            },
        position >= total ==> filled_cells(position, total, width) == width,
        position == 0 ==> filled_cells(position, total, width) == 0,
{
    if position >= total {
        lemma_full_bar(position, total, width);
    }
    if position == 0 {
        assert(2 * position * width + total == total) by (nonlinear_arith)
            requires
                position == 0,
        ;
        lemma_fundamental_div_mod_converse(total as int, (2 * total) as int, 0, total as int);
    }
}

/// `terminal_size::terminal_size`: the columns of the terminal behind the
/// standard streams, `None` where none of them is a terminal. Nothing is
/// claimed of the number: it is whatever the terminal reports.
#[verifier::external_body]
fn terminal_columns() -> (columns: Option<u16>) {
    match terminal_size() {
        Some((Width(w), Height(_))) => Some(w),
        None => None,
    }
}

/// What the owner of the terminal does at one wake-up.
#[derive(Debug, PartialEq, Eq)]
pub enum DisplayStep {
    /// Nothing to draw yet: sleep and ask again.
    Wait,
    /// Draw the line and go on.
    Draw(String),
    /// Draw the line a last time: the track has ended, and so has the display.
    Finish(String),
    /// The display was stopped: leave.
    Exit,
}

/// The renderer of the progress line.
pub struct DisplayThread {
    should_stop: bool,
    last_update: u64,
}

/// The renderer as contracts see it.
pub struct DisplayState {
    /// Set by `stop`, and when the track has ended.
    pub should_stop: bool,
    /// The clock reading of the last redraw.
    pub last_update: nat,
}

impl View for DisplayThread {
    type V = DisplayState;

    closed spec fn view(&self) -> DisplayState {
        DisplayState { should_stop: self.should_stop, last_update: self.last_update as nat }
    }
}

impl DisplayState {
    /// Whether a redraw is due at clock reading `now`.
    pub open spec fn due(self, now: nat) -> bool {
        !self.should_stop && now >= self.last_update + POLL_INTERVAL_MS
    }
}

impl DisplayThread {
    /// A renderer that starts its cadence at clock reading `now`.
    pub fn new(now: u64) -> (display: DisplayThread)
        ensures
            display@ == (DisplayState { should_stop: false, last_update: now as nat }),
    {
        DisplayThread { should_stop: false, last_update: now }
    }

    /// Asks the renderer to leave at its next wake-up.
    pub fn stop(&mut self)
        ensures
            final(self)@ == (DisplayState { should_stop: true, ..old(self)@ }),
    {
        self.should_stop = true;
    }

    /// Formats the bar for `position` of `total` in `width` cells.
    pub fn format_progress_bar(position: u64, total: u64, width: usize) -> (bar: String)
        ensures
            bar@ == progress_bar(position as nat, total as nat, width as nat),
    {
        if total == 0 {
            return String::new();
        }
        let progress: usize = if position >= total {
            proof {
                lemma_full_bar(position as nat, total as nat, width as nat);
            }
            width
        } else {
            assert(position as u128 * width as u128 <= 0xffff_ffff_ffff_ffff
                * 0xffff_ffff_ffff_ffff) by (nonlinear_arith)
                requires
                    position <= 0xffff_ffff_ffff_ffff,
                    width <= 0xffff_ffff_ffff_ffff,
            ;
            let scaled: u128 = position as u128 * width as u128;
            let quotient: u128 = scaled / total as u128;
            let remainder: u128 = scaled % total as u128;
            proof {
                lemma_rounded_quotient(scaled as int, total as int);
                assert(2 * position * width == 2 * scaled) by (nonlinear_arith)
                    requires
                        scaled == position * width,
                ;
                lemma_fundamental_div_mod(scaled as int, total as int);
                if width == 0 {
                    assert(scaled == 0) by (nonlinear_arith)
                        requires
                            scaled == position * width,
                            width == 0,
                    ;
                } else {
                    assert(scaled < total * width) by (nonlinear_arith)
                        requires
                            scaled == position * width,
                            position < total,
                            0 < width,
                    ;
                    assert(quotient < width) by (nonlinear_arith)
                        requires
                            scaled == total * quotient + remainder,
                            scaled < total * width,
                            0 <= remainder,
                            0 < total,
                    ;
                }
            }
            if 2 * remainder >= total as u128 {
                (quotient + 1) as usize
            } else {
                quotient as usize
            }
        };
        assert(progress == filled_cells(position as nat, total as nat, width as nat));
        let mut bar = String::new();
        push_char(&mut bar, '[');
        let mut i: usize = 0;
        while i < progress
            invariant
                i <= progress <= width,
                bar@ == seq!['['] + repeated('=', i as nat),
            decreases progress - i,
        {
            push_char(&mut bar, '=');
            i = i + 1;
            assert(bar@ =~= seq!['['] + repeated('=', i as nat));
        }
        let mut j: usize = 0;
        while j < width - progress
            invariant
                j <= width - progress,
                progress <= width,
                bar@ == seq!['['] + repeated('=', progress as nat) + repeated('-', j as nat),
            decreases width - progress - j,
        {
            push_char(&mut bar, '-');
            j = j + 1;
            assert(bar@ =~= seq!['['] + repeated('=', progress as nat) + repeated(
                '-',
                j as nat,
            ));
        }
        push_char(&mut bar, ']');
        assert(bar@ =~= progress_bar(position as nat, total as nat, width as nat));
        bar
    }

    /// The columns that the line is laid out for, given what the terminal
    /// reported.
    pub fn terminal_width_for(reported: Option<u16>) -> (columns: usize)
        ensures
            columns == terminal_width(reported),
    {
        match reported {
            Some(w) => w as usize,
            None => FALLBACK_COLUMNS,
        }
    }

    /// The columns of the terminal, or the fallback where they cannot be had:
    /// the width for whatever the terminal reports at this moment.
    fn get_terminal_width() -> (columns: usize)
        ensures
            exists|reported: Option<u16>| columns == terminal_width(reported),
    {
        let reported = terminal_columns();
        Self::terminal_width_for(reported)
    }

    /// The width of the bar in a terminal of `columns` columns: what the
    /// rest of the line leaves free, or the minimum where it leaves nothing.
    pub fn bar_width_for(columns: usize) -> (width: usize)
        ensures
            width == bar_width(columns as nat),
    {
        if columns > RESERVED_COLUMNS {
            columns - RESERVED_COLUMNS
        } else {
            MIN_BAR_WIDTH
        }
    }

    /// The width of the bar in the terminal that the process runs in.
    pub fn calculate_progress_bar_width() -> (width: usize)
        ensures
            exists|columns: nat| columns <= u16::MAX && width == bar_width(columns),
    {
        let columns = Self::get_terminal_width();
        let width = Self::bar_width_for(columns);
        proof {
            let reported = choose|reported: Option<u16>| columns == terminal_width(reported);
            assert(columns == terminal_width(reported));
        }
        assert(columns <= u16::MAX && width == bar_width(columns as nat));
        width
    }

    /// Formats the progress line for one reading of the transport.
    pub fn format_line(reading: &Progress, width: usize) -> (line: String)
        ensures
            line@ == progress_line(*reading, width as nat),
    {
        let mut line = TimeUtils::format_time(reading.position_ms);
        push_str(&mut line, " / ");
        let total = TimeUtils::format_time(reading.total_ms);
        push_str(&mut line, total.as_str());
        push_str(&mut line, " ");
        let bar = Self::format_progress_bar(reading.position_ms, reading.total_ms, width);
        push_str(&mut line, bar.as_str());
        push_str(&mut line, " ");
        if reading.paused {
            push_str(&mut line, "(Paused)");
        } else {
            push_str(&mut line, "(Playing)");
        }
        line
    }

    /// One wake-up of the renderer at clock reading `now`.
    ///
    /// A stopped renderer leaves. Before the cadence interval has passed
    /// since the last redraw, nothing happens. Otherwise the redraw is
    /// recorded; if a session is running, the transport takes a reading and
    /// the line for it is drawn, and if that reading ends the track the
    /// renderer stops itself.
    pub fn poll(&mut self, player: &mut AudioPlayer, now: u64, width: usize) -> (step:
        DisplayStep)
        ensures
            final(player).track() == old(player).track(),
            old(self)@.should_stop ==> {
                &&& step == DisplayStep::Exit
                &&& final(self)@ == old(self)@
                &&& final(player)@ == old(player)@
            },
            !old(self)@.should_stop && !old(self)@.due(now as nat) ==> {
                &&& step == DisplayStep::Wait
                &&& final(self)@ == old(self)@
                &&& final(player)@ == old(player)@
            },
            old(self)@.due(now as nat) ==> {
                &&& final(player)@ == old(player)@.advanced(now as nat)
                &&& final(self)@.last_update == now
                &&& final(self)@.should_stop == (old(player)@.showing() && old(player)@.progress(
                    now as nat,
                ).finished)
                &&& match step {
                    DisplayStep::Wait => !old(player)@.showing(),
                    DisplayStep::Draw(line) => {
                        &&& old(player)@.showing()
                        &&& !old(player)@.progress(now as nat).finished
                        &&& line@ == progress_line(old(player)@.progress(now as nat), width as nat)
                    },
                    DisplayStep::Finish(line) => {
                        &&& old(player)@.showing()
                        &&& old(player)@.progress(now as nat).finished
                        &&& line@ == progress_line(old(player)@.progress(now as nat), width as nat)
                    },
                    DisplayStep::Exit => false,
                }
            },
    {
        if self.should_stop {
            return DisplayStep::Exit;
        }
        if now < self.last_update || now - self.last_update < POLL_INTERVAL_MS {
            return DisplayStep::Wait;
        }
        self.last_update = now;
        match player.advance(now) {
            Some(reading) => {
                let line = Self::format_line(&reading, width);
                if reading.finished {
                    self.should_stop = true;
                    DisplayStep::Finish(line)
                } else {
                    DisplayStep::Draw(line)
                }
            },
            None => DisplayStep::Wait,
        }
    }
}

} // verus!
