use vstd::prelude::*;
use web_time::{SystemTime, UNIX_EPOCH};

verus! {

/// One sixtieth of a second, counted in thirds of a millisecond.
pub open spec fn tick_period() -> nat {
    50
}

/// A timer value one step further down, with its floor at zero.
pub open spec fn count_down(value: u8) -> u8 {
    if value > 0 {
        (value - 1) as u8
    } else {
        0
    }
}

/// The mathematical content of a [`Clock`].
pub struct ClockState {
    pub delay_timer: u8,
    pub sound_timer: u8,
    /// The wall-clock time that the timers have accounted for, in thirds of
    /// a millisecond since the epoch.
    pub consumed: nat,
}

impl ClockState {
    /// A clock created at `now` milliseconds, both timers at rest.
    pub open spec fn starting_at(now: nat) -> ClockState {
        ClockState { delay_timer: 0, sound_timer: 0, consumed: 3 * now }
    }

    /// The time not yet accounted for at `now` milliseconds, in thirds of a
    /// millisecond. It is negative where the wall clock ran backwards.
    pub open spec fn remainder(self, now: nat) -> int {
        3 * now - self.consumed
    }

    /// Whether at least one sixtieth of a second is unaccounted for at `now`.
    pub open spec fn due(self, now: nat) -> bool {
        self.remainder(now) >= tick_period()
    }

    /// The clock after a tick at `now` milliseconds: where a sixtieth of a
    /// second is due, both timers count down once and that much time is
    /// accounted for; otherwise nothing changes.
    pub open spec fn tick_at(self, now: nat) -> ClockState {
        if self.due(now) {
            ClockState {
                delay_timer: count_down(self.delay_timer),
                sound_timer: count_down(self.sound_timer),
                consumed: self.consumed + tick_period(),
            }
        } else {
            self
        }
    }

    /// The clock after a tick at what a reading of the wall clock gave:
    /// where there was no reading, nothing changes.
    pub open spec fn tick_on(self, reading: Option<nat>) -> ClockState {
        match reading {
            Some(now) => self.tick_at(now),
            None => self,
        }
    }

    /// The clock after one tick at each of `times`, in order.
    pub open spec fn run_ticks(self, times: Seq<nat>) -> ClockState
        decreases times.len(),
    {
        if times.len() == 0 {
            self
        } else {
            self.run_ticks(times.drop_last()).tick_at(times.last())
        }
    }

    pub open spec fn set_delay_timer(self, value: u8) -> ClockState {
        ClockState { delay_timer: value, ..self }
    }

    pub open spec fn set_sound_timer(self, value: u8) -> ClockState {
        ClockState { sound_timer: value, ..self }
    }
}

/// The two countdown timers and the wall-clock time they have accounted for.
#[derive(Debug)]
pub struct Clock {
    delay_timer: u8,
    sound_timer: u8,
    /// Whole milliseconds accounted for.
    last_tick: u128,
    /// Thirds of a millisecond accounted for beyond `last_tick`.
    last_tick_thirds: u8,
}

impl View for Clock {
    type V = ClockState;

    closed spec fn view(&self) -> ClockState {
        ClockState {
            delay_timer: self.delay_timer,
            sound_timer: self.sound_timer,
            consumed: (3 * self.last_tick + self.last_tick_thirds) as nat,
        }
    }
}

/// Reads the wall clock through `SystemTime::now`, `duration_since` the
/// epoch and `Duration::as_millis`: milliseconds since the epoch, or nothing
/// where the wall clock is set before it. Nothing is claimed of the value.
/// In a browser `SystemTime::now` stops the program where the page reports
/// a time before the epoch.
#[verifier::external_body]
fn current_millis() -> (now: Option<u128>) {
    match SystemTime::now().duration_since(UNIX_EPOCH) {
        Ok(elapsed) => Some(elapsed.as_millis()),
        Err(_) => None,
    }
}

impl Default for Clock {
    /// A clock with both timers at rest that accounts for time from the
    /// moment of the call.
    fn default() -> (clock: Clock)
        ensures
            clock@.delay_timer == 0,
            clock@.sound_timer == 0,
    {
        match current_millis() {
            Some(now) => Clock::starting_at(now),
            None => Clock::starting_at(0),
        }
    }
}

impl Clock {
    /// A clock with both timers at rest that accounts for time from `now`
    /// milliseconds on.
    pub fn starting_at(now: u128) -> (clock: Clock)
        ensures
            clock@ == ClockState::starting_at(now as nat),
    {
        Clock { delay_timer: 0, sound_timer: 0, last_tick: now, last_tick_thirds: 0 }
    }

    /// Ticks at `now` milliseconds of wall-clock time.
    pub fn tick_at(&mut self, now: u128)
        ensures
            final(self)@ == old(self)@.tick_at(now as nat),
    {
        let thirds: u128 = self.last_tick_thirds as u128;
        if now >= self.last_tick && now - self.last_tick >= (thirds + 52) / 3 {
            self.last_tick = self.last_tick + (thirds + 50) / 3;
            self.last_tick_thirds = ((thirds + 50) % 3) as u8;
            if self.delay_timer > 0 {
                self.delay_timer = self.delay_timer - 1;
            }
            if self.sound_timer > 0 {
                self.sound_timer = self.sound_timer - 1;
            }
        }
    }

    /// Ticks at the present wall-clock time. Where the wall clock cannot be
    /// read, nothing changes.
    pub fn tick(&mut self)
        ensures
            exists|reading: Option<nat>| final(self)@ == #[trigger] old(self)@.tick_on(reading),
    {
        match current_millis() {
            Some(now) => {
                self.tick_at(now);
                assert(self@ == old(self)@.tick_on(Some(now as nat)));
            },
            None => {
                assert(self@ == old(self)@.tick_on(None));
            },
        }
    }

    pub fn delay_timer(&self) -> (value: u8)
        ensures
            value == self@.delay_timer,
    {
        self.delay_timer
    }

    pub fn sound_timer(&self) -> (value: u8)
        ensures
            value == self@.sound_timer,
    {
        self.sound_timer
    }

    /// Sets the delay timer at once, whatever time is unaccounted for.
    pub fn set_delay_timer(&mut self, value: u8)
        ensures
            final(self)@ == old(self)@.set_delay_timer(value),
    {
        self.delay_timer = value;
    }

    /// Sets the sound timer at once, whatever time is unaccounted for.
    pub fn set_sound_timer(&mut self, value: u8)
        ensures
            final(self)@ == old(self)@.set_sound_timer(value),
    {
        self.sound_timer = value;
    }
}

/// Ticks that come at least a sixtieth of a second apart count down once
/// each: after `n` of them a timer that stood at `v` stands at `v - n`, or
/// at zero where `n` exceeds `v`. A timer set to `n` reads zero after
/// exactly `n` such ticks.
pub proof fn law_spaced_ticks_count_down(clock: ClockState, times: Seq<nat>)
    requires
        times.len() > 0 ==> clock.due(times[0]),
        forall|i: int|
            0 <= i && i + 1 < times.len() ==> 3 * (#[trigger] times[i + 1] - times[i])
                >= tick_period(),
    ensures
        clock.run_ticks(times).consumed == clock.consumed + times.len() * tick_period(),
        clock.run_ticks(times).delay_timer as int == if clock.delay_timer >= times.len() {
            clock.delay_timer - times.len()
        } else {
            0
        },
        clock.run_ticks(times).sound_timer as int == if clock.sound_timer >= times.len() {
            clock.sound_timer - times.len()
        } else {
            0
        },
        clock.delay_timer == times.len() ==> clock.run_ticks(times).delay_timer == 0,
        times.len() > 0 ==> clock.run_ticks(times).consumed <= 3 * times.last(),
    decreases times.len(),
{
    if times.len() > 0 {
        let earlier = times.drop_last();
        law_spaced_ticks_count_down(clock, earlier);
        let before = clock.run_ticks(earlier);
        if earlier.len() > 0 {
            assert(earlier.last() == times[times.len() - 2]);
            assert(times.last() == times[(times.len() - 2) + 1]);
            assert(before.due(times.last()));
        } else {
            assert(times.last() == times[0]);
        }
        assert(times.len() * tick_period() == earlier.len() * tick_period() + tick_period())
            by (nonlinear_arith)
            requires
                times.len() == earlier.len() + 1,
        ;
    }
}

/// Ticks that come before a sixtieth of a second is unaccounted for count
/// nothing down and account for no time, so the remainder keeps growing;
/// the first tick at which a sixtieth of a second is due counts down once
/// and carries the rest of the remainder forward.
pub proof fn law_close_ticks_accumulate(clock: ClockState, times: Seq<nat>, later: nat)
    requires
        forall|i: int| 0 <= i < times.len() ==> !clock.due(#[trigger] times[i]),
        clock.due(later),
    ensures
        clock.run_ticks(times) == clock,
        clock.run_ticks(times.push(later)).delay_timer == count_down(clock.delay_timer),
        clock.run_ticks(times.push(later)).sound_timer == count_down(clock.sound_timer),
        clock.run_ticks(times.push(later)).remainder(later) == clock.remainder(later)
            - tick_period(),
    decreases times.len(),
{
    if times.len() > 0 {
        law_close_ticks_accumulate(clock, times.drop_last(), later);
        assert(!clock.due(times.last()));
    }
    assert(times.push(later).drop_last() =~= times);
    assert(times.push(later).last() == later);
}

} // verus!
