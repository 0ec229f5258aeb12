use vstd::prelude::*;
use std::time::Duration;
use std::time::Instant;

use crate::font::FontFamily;

verus! {

/// Slowest scrolling speed, in milli-pixels per second (10 px/s).
pub const MIN_SPEED: u32 = 10_000;

/// Fastest scrolling speed, in milli-pixels per second (200 px/s).
pub const MAX_SPEED: u32 = 200_000;

/// Change of speed made by one press of a speed key, in milli-pixels per second.
pub const SPEED_STEP: u32 = 10_000;

/// Speed of a fresh teleprompter, in milli-pixels per second (50 px/s).
pub const DEFAULT_SPEED: u32 = 50_000;

/// Largest background transparency, in thousandths (fully see-through).
pub const MAX_TRANSPARENCY: u32 = 1000;

/// Transparency of a fresh teleprompter, in thousandths (0.95).
pub const DEFAULT_TRANSPARENCY: u32 = 950;

/// Transparency that the toggle switches a see-through background to (0.3).
pub const REDUCED_TRANSPARENCY: u32 = 300;

/// A transparency above this many thousandths counts as see-through (0.5).
pub const TRANSPARENCY_THRESHOLD: u32 = 500;

/// Longest stretch of time that one frame may scroll for, in microseconds
/// (0.1 s), so that a stalled window does not jump ahead.
pub const MAX_FRAME_MICROS: u64 = 100_000;

#[verifier::external_type_specification]
#[verifier::external_body]
pub struct ExInstant(Instant);

/// Calls `std::time::Instant::now`. The reading depends on the clock, so
/// nothing is claimed of it.
#[verifier::external_body]
fn instant_now() -> (r: Instant) {
    Instant::now()
}

/// Calls `std::time::Instant::saturating_duration_since`. It depends on two
/// clock readings whose contents are hidden, so nothing is claimed of it.
#[verifier::external_body]
fn instant_saturating_duration_since(later: &Instant, earlier: &Instant) -> (r: Duration) {
    later.saturating_duration_since(*earlier)
}

/// Calls `std::time::Duration::as_micros`. The duration's contents are
/// hidden, so nothing is claimed of the count it gives.
#[verifier::external_body]
fn duration_as_micros(d: &Duration) -> (r: u128) {
    d.as_micros()
}

/// What a teleprompter is, apart from the clock reading that it keeps.
pub struct TeleprompterView {
    /// The script.
    pub text: Seq<char>,
    /// How far the script has scrolled, in nanopixels.
    pub scroll_position: u64,
    /// Scrolling speed, in milli-pixels per second.
    pub speed: u32,
    /// Whether scrolling is stopped.
    pub paused: bool,
    /// Background transparency, in thousandths.
    pub transparency: u32,
    /// The typeface family of the script.
    pub font_family: FontFamily,
    /// How many frames have scrolled the script.
    pub frame_count: u32,
    /// When the clock was last read for scrolling, in microseconds since the
    /// teleprompter was made.
    pub last_update: u128,
}

/// The smaller of two integers.
pub open spec fn min_int(a: int, b: int) -> int {
    if a <= b { a } else { b }
}

/// The larger of two integers.
pub open spec fn max_int(a: int, b: int) -> int {
    if a >= b { a } else { b }
}

impl TeleprompterView {
    /// Speed within its range and transparency at most full.
    pub open spec fn valid(self) -> bool {
        &&& MIN_SPEED <= self.speed <= MAX_SPEED
        &&& self.transparency <= MAX_TRANSPARENCY
    }

    /// A fresh teleprompter showing `text` from its start.
    pub open spec fn initial(text: Seq<char>) -> TeleprompterView {
        TeleprompterView {
            text,
            scroll_position: 0,
            speed: DEFAULT_SPEED,
            paused: false,
            transparency: DEFAULT_TRANSPARENCY,
            font_family: FontFamily::SansSerif,
            frame_count: 0,
            last_update: 0,
        }
    }

    /// One step faster, but no faster than the fastest speed.
    pub open spec fn sped_up(self) -> TeleprompterView {
        TeleprompterView {
            speed: min_int(self.speed + SPEED_STEP, MAX_SPEED as int) as u32,
            ..self
        }
    }

    /// One step slower, but no slower than the slowest speed.
    pub open spec fn slowed_down(self) -> TeleprompterView {
        TeleprompterView {
            speed: max_int(self.speed - SPEED_STEP, MIN_SPEED as int) as u32,
            ..self
        }
    }

    /// Scrolling stopped if it ran, and running if it was stopped, with the
    /// clock restarted at `now`, so that the next frame counts only the time
    /// since.
    pub open spec fn pause_toggled_at(self, now: u128) -> TeleprompterView {
        TeleprompterView { paused: !self.paused, last_update: now, ..self }
    }

    /// A see-through background made less so, and any other made see-through.
    pub open spec fn transparency_toggled(self) -> TeleprompterView {
        TeleprompterView {
            transparency: if self.transparency > TRANSPARENCY_THRESHOLD {
                REDUCED_TRANSPARENCY
            } else {
                DEFAULT_TRANSPARENCY
            },
            ..self
        }
    }

    /// Back at the start of the script, and scrolling.
    pub open spec fn rewound(self) -> TeleprompterView {
        TeleprompterView { scroll_position: 0, paused: false, ..self }
    }

    /// The time that one frame scrolls for, when `elapsed` microseconds
    /// passed since the last one.
    pub open spec fn frame_micros(elapsed: int) -> int {
        min_int(elapsed, MAX_FRAME_MICROS as int)
    }

    /// Microseconds from the last clock reading to `now`, or none if `now`
    /// is not later.
    pub open spec fn elapsed_until(self, now: u128) -> int {
        if now > self.last_update { now - self.last_update } else { 0 }
    }

    /// The state after a frame drawn when the clock reads `now`: a running
    /// teleprompter moves on by its speed times the time since the last
    /// reading (at most 0.1 s of it), holding at the largest position it can
    /// record, and counts the frame; a paused one does not move. Either way
    /// the reading is kept for the next frame.
    pub open spec fn updated_at(self, now: u128) -> TeleprompterView {
        if self.paused {
            TeleprompterView { last_update: now, ..self }
        } else {
            let moved = self.scroll_position + self.speed * Self::frame_micros(
                self.elapsed_until(now),
            );
            TeleprompterView {
                scroll_position: min_int(moved, u64::MAX as int) as u64,
                frame_count: (self.frame_count + 1) as u32,
                last_update: now,
                ..self
            }
        }
    }

    /// A frame can be counted: the state is paused, or its frame count can grow.
    pub open spec fn can_advance(self) -> bool {
        self.paused || self.frame_count < u32::MAX
    }
}

/// The state of a teleprompter: its script, how far it has scrolled, how fast
/// it scrolls, whether it is paused, and how it looks.
pub struct TeleprompterState {
    text: String,
    scroll_position: u64,
    speed: u32,
    paused: bool,
    transparency: u32,
    font_family: FontFamily,
    clock_origin: Instant,
    last_update: u128,
    frame_count: u32,
}

impl View for TeleprompterState {
    type V = TeleprompterView;

    closed spec fn view(&self) -> TeleprompterView {
        TeleprompterView {
            text: self.text@,
            scroll_position: self.scroll_position,
            speed: self.speed,
            paused: self.paused,
            transparency: self.transparency,
            font_family: self.font_family,
            frame_count: self.frame_count,
            last_update: self.last_update,
        }
    }
}

impl TeleprompterState {
    /// Speed within its range and transparency at most full.
    #[verifier::type_invariant]
    pub(crate) open spec fn well_formed(self) -> bool {
        self@.valid()
    }
}

impl TeleprompterState {
    /// A teleprompter at the start of `text`, scrolling at 50 px/s over a
    /// 0.95 transparent background in a sans-serif face.
    pub fn new(text: String) -> (s: Self)
        ensures
            s@ == TeleprompterView::initial(text@),
            s@.valid(),
    {
        TeleprompterState {
            text,
            scroll_position: 0,
            speed: DEFAULT_SPEED,
            paused: false,
            transparency: DEFAULT_TRANSPARENCY,
            font_family: FontFamily::SansSerif,
            clock_origin: instant_now(),
            last_update: 0,
            frame_count: 0,
        }
    }

    /// Microseconds on the clock since this teleprompter was made. The
    /// reading depends on the clock, so nothing is promised of it.
    pub fn clock_micros(&self) -> (r: u128) {
        let now = instant_now();
        let since = instant_saturating_duration_since(&now, &self.clock_origin);
        duration_as_micros(&since)
    }

    /// Draws a frame at clock reading `now` (microseconds since the
    /// teleprompter was made): unless paused, scrolls on by the time since
    /// the last reading, at most 0.1 s of it.
    pub fn update_at(&mut self, now: u128)
        requires
            old(self)@.can_advance(),
        ensures
            final(self)@ == old(self)@.updated_at(now),
            final(self)@.valid(),
    {
        proof {
            use_type_invariant(&*self);
        }
        if !self.paused {
            let elapsed: u128 = if now > self.last_update { now - self.last_update } else { 0 };
            let frame: u64 = if elapsed < MAX_FRAME_MICROS as u128 {
                elapsed as u64
            } else {
                MAX_FRAME_MICROS
            };
            let speed: u64 = self.speed as u64;
            assert(speed * frame <= 200_000 * 100_000) by (nonlinear_arith)
                requires
                    speed <= 200_000,
                    frame <= 100_000,
            ;
            let step: u64 = speed * frame;
            self.scroll_position = self.scroll_position.saturating_add(step);
            self.frame_count = self.frame_count + 1;
        }
        self.last_update = now;
    }

    /// Reads the clock and draws a frame at that reading (see `update_at`).
    pub fn update(&mut self)
        requires
            old(self)@.can_advance(),
        ensures
            exists|now: u128| final(self)@ == #[trigger] old(self)@.updated_at(now),
            final(self)@.valid(),
    {
        let now = self.clock_micros();
        self.update_at(now);
    }

    /// Stops scrolling if it runs, starts it if it is stopped, and restarts
    /// the clock at reading `now` (microseconds since the teleprompter was
    /// made).
    pub fn toggle_pause_at(&mut self, now: u128)
        ensures
            final(self)@ == old(self)@.pause_toggled_at(now),
            final(self)@.valid(),
    {
        proof {
            use_type_invariant(&*self);
        }
        self.paused = !self.paused;
        self.last_update = now;
    }

    /// Reads the clock and toggles the pause at that reading (see
    /// `toggle_pause_at`).
    pub fn toggle_pause(&mut self)
        ensures
            exists|now: u128| final(self)@ == #[trigger] old(self)@.pause_toggled_at(now),
            final(self)@.valid(),
    {
        let now = self.clock_micros();
        self.toggle_pause_at(now);
    }

    /// Scrolls one step (10 px/s) faster, up to 200 px/s.
    pub fn increase_speed(&mut self)
        ensures
            final(self)@ == old(self)@.sped_up(),
            final(self)@.valid(),
    {
        proof {
            use_type_invariant(&*self);
        }
        let faster = self.speed + SPEED_STEP;
        self.speed = if faster < MAX_SPEED { faster } else { MAX_SPEED };
    }

    /// Scrolls one step (10 px/s) slower, down to 10 px/s.
    pub fn decrease_speed(&mut self)
        ensures
            final(self)@ == old(self)@.slowed_down(),
            final(self)@.valid(),
    {
        proof {
            use_type_invariant(&*self);
        }
        let slower = self.speed - SPEED_STEP;
        self.speed = if slower > MIN_SPEED { slower } else { MIN_SPEED };
    }

    /// Switches a see-through background (above 0.5) to 0.3, and any other
    /// to 0.95.
    pub fn toggle_transparency(&mut self)
        ensures
            final(self)@ == old(self)@.transparency_toggled(),
            final(self)@.valid(),
    {
        proof {
            use_type_invariant(&*self);
        }
        self.transparency = if self.transparency > TRANSPARENCY_THRESHOLD {
            REDUCED_TRANSPARENCY
        } else {
            DEFAULT_TRANSPARENCY
        };
    }

    /// Goes back to the start of the script and resumes scrolling.
    pub fn reset(&mut self)
        ensures
            final(self)@ == old(self)@.rewound(),
            final(self)@.valid(),
    {
        proof {
            use_type_invariant(&*self);
        }
        self.scroll_position = 0;
        self.paused = false;
    }
    /// Opacity of the background that the script is drawn over, in
    /// thousandths: full opacity less the transparency.
    pub fn background_opacity(&self) -> (r: u32)
        ensures
            r == MAX_TRANSPARENCY - self@.transparency,
    {
        proof {
            use_type_invariant(self);
        }
        MAX_TRANSPARENCY - self.transparency
    }

    /// The script.
    pub fn text(&self) -> (r: &str)
        ensures
            r@ == self@.text,
    {
        self.text.as_str()
    }

    /// How far the script has scrolled, in nanopixels.
    pub fn scroll_position(&self) -> (r: u64)
        ensures
            r == self@.scroll_position,
    {
        self.scroll_position
    }

    /// Scrolling speed, in milli-pixels per second.
    pub fn speed(&self) -> (r: u32)
        ensures
            r == self@.speed,
    {
        self.speed
    }

    /// Whether scrolling is stopped.
    pub fn paused(&self) -> (r: bool)
        ensures
            r == self@.paused,
    {
        self.paused
    }

    /// Background transparency, in thousandths.
    pub fn transparency(&self) -> (r: u32)
        ensures
            r == self@.transparency,
    {
        self.transparency
    }

    /// The typeface family of the script.
    pub fn font_family(&self) -> (r: FontFamily)
        ensures
            r == self@.font_family,
    {
        self.font_family
    }

    /// How many frames have scrolled the script.
    pub fn frame_count(&self) -> (r: u32)
        ensures
            r == self@.frame_count,
    {
        self.frame_count
    }

    /// Sets the scrolling speed, in milli-pixels per second, to a value in
    /// the range that the speed control offers.
    pub fn set_speed(&mut self, speed: u32)
        requires
            MIN_SPEED <= speed <= MAX_SPEED,
        ensures
            final(self)@ == (TeleprompterView { speed, ..old(self)@ }),
            final(self)@.valid(),
    {
        proof {
            use_type_invariant(&*self);
        }
        self.speed = speed;
    }

    /// Sets the background transparency, in thousandths.
    pub fn set_transparency(&mut self, transparency: u32)
        requires
            transparency <= MAX_TRANSPARENCY,
        ensures
            final(self)@ == (TeleprompterView { transparency, ..old(self)@ }),
            final(self)@.valid(),
    {
        proof {
            use_type_invariant(&*self);
        }
        self.transparency = transparency;
    }

    /// Sets the typeface family of the script.
    pub fn set_font_family(&mut self, font_family: FontFamily)
        ensures
            final(self)@ == (TeleprompterView { font_family, ..old(self)@ }),
            final(self)@.valid(),
    {
        proof {
            use_type_invariant(&*self);
        }
        self.font_family = font_family;
    }
}

} // verus!
