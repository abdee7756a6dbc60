use crate::hinge::HingeState;
use crate::level::Level;
use crate::lock::LockState;
use vstd::prelude::*;

verus! {

/// Number of loop iterations the blink pattern shows each color.
pub const BLINK_HALF: u64 = 5;

/// Number of loop iterations of one whole blink cycle.
pub const BLINK_PERIOD: u64 = 10;

/// The color the status LEDs show.
#[derive(Clone, Copy, Debug, PartialEq, Eq, Structural)]
pub enum Color {
    Red,
    Green,
}

/// The decision table of the control loop: the color to show and the next
/// tick, from the lock state, the hinge state and the current tick.
pub open spec fn decide(lock: LockState, hinge: HingeState, tick: u64) -> (Color, u64) {
    match (lock, hinge) {
        (LockState::Locked, HingeState::Closed) => (Color::Red, 0),
        (LockState::Locked, HingeState::Open) => (
            if tick < BLINK_HALF {
                Color::Red
            } else {
                Color::Green
            },
            ((tick + 1) % (BLINK_PERIOD as int)) as u64,
        ),
        (LockState::Unlocked, _) => (Color::Green, 0),
    }
}

/// The tick after `n` iterations in the Locked and Open combination,
/// starting from `tick`.
pub open spec fn blink_tick(tick: u64, n: nat) -> u64
    decreases n,
{
    if n == 0 {
        tick
    } else {
        decide(LockState::Locked, HingeState::Open, blink_tick(tick, (n - 1) as nat)).1
    }
}

/// The color shown at iteration `n` (counted from 0) of a run of
/// iterations in the Locked and Open combination that starts at `tick`.
pub open spec fn blink_color(tick: u64, n: nat) -> Color {
    decide(LockState::Locked, HingeState::Open, blink_tick(tick, n)).0
}

/// The tick and the color of iteration `n` of a run in the Locked and Open
/// combination that starts at `tick` within a cycle.
proof fn lemma_blink_from(tick: u64, n: nat)
    requires
        tick < BLINK_PERIOD,
    ensures
        blink_tick(tick, n) == (tick + n) % (BLINK_PERIOD as int),
        blink_color(tick, n) == (if (tick + n) % (BLINK_PERIOD as int) < BLINK_HALF {
            Color::Red
        } else {
            Color::Green
        }),
    decreases n,
{
    if n > 0 {
        lemma_blink_from(tick, (n - 1) as nat);
        assert(((tick + n - 1) % 10 + 1) % 10 == (tick + n) % 10) by (nonlinear_arith);
    }
}

/// While the lock is Locked and the door Open, the LEDs blink in blocks of
/// exactly `BLINK_HALF` red iterations followed by `BLINK_HALF` green ones:
/// from a reset tick, iteration `n` is red exactly when `n` modulo
/// `BLINK_PERIOD` is below `BLINK_HALF`, and from any tick within a cycle
/// the run goes on from that point of the cycle.
pub proof fn lemma_blink(tick: u64, n: nat)
    requires
        tick < BLINK_PERIOD,
    ensures
        blink_tick(tick, n) == (tick + n) % (BLINK_PERIOD as int),
        blink_color(tick, n) == (if (tick + n) % (BLINK_PERIOD as int) < BLINK_HALF {
            Color::Red
        } else {
            Color::Green
        }),
        blink_color(0, n) == (if (n as int) % (BLINK_PERIOD as int) < BLINK_HALF {
            Color::Red
        } else {
            Color::Green
        }),
{
    lemma_blink_from(tick, n);
    lemma_blink_from(0, n);
}

/// The decision table outside the blink: Locked and Closed shows red and
/// resets the tick, and Unlocked shows green and resets the tick, whatever
/// the tick was; so a door that closes ends any blink at the next
/// iteration.
pub proof fn lemma_steady_colors(hinge: HingeState, tick: u64)
    ensures
        decide(LockState::Locked, HingeState::Closed, tick) == (Color::Red, 0u64),
        decide(LockState::Unlocked, hinge, tick) == (Color::Green, 0u64),
{
}

/// The level written to every green LED to show `color`: Low lights it.
pub open spec fn green_level(color: Color) -> Level {
    match color {
        Color::Red => Level::High,
        Color::Green => Level::Low,
    }
}

/// The level written to every red LED to show `color`: Low lights it.
pub open spec fn red_level(color: Color) -> Level {
    match color {
        Color::Red => Level::Low,
        Color::Green => Level::High,
    }
}

impl Color {
    /// The level for the green LEDs.
    pub fn green_level(self) -> (r: Level)
        ensures
            r == green_level(self),
    {
        match self {
            Color::Red => Level::High,
            Color::Green => Level::Low,
        }
    }

    /// The level for the red LEDs.
    pub fn red_level(self) -> (r: Level)
        ensures
            r == red_level(self),
    {
        match self {
            Color::Red => Level::Low,
            Color::Green => Level::High,
        }
    }
}

/// The decision half of the control loop: it keeps the blink tick and maps
/// each sample of the lock and the hinge to the color to show.
pub struct LedController {
    tick: u64,
}

impl LedController {
    /// The current blink tick.
    pub closed spec fn tick_spec(&self) -> u64 {
        self.tick
    }

    /// The tick stays within one blink cycle.
    pub open spec fn wf(&self) -> bool {
        self.tick_spec() < BLINK_PERIOD
    }

    pub fn new() -> (r: LedController)
        ensures
            r.wf(),
            r.tick_spec() == 0,
    {
        LedController { tick: 0 }
    }

    /// The current blink tick.
    pub fn tick(&self) -> (r: u64)
        ensures
            r == self.tick_spec(),
    {
        self.tick
    }

    /// The color and next tick for this sample, without changing anything.
    pub fn plan(&self, lock: LockState, hinge: HingeState) -> (r: (Color, u64))
        requires
            self.wf(),
        ensures
            r == decide(lock, hinge, self.tick_spec()),
            r.1 < BLINK_PERIOD,
    {
        match (lock, hinge) {
            (LockState::Locked, HingeState::Closed) => (Color::Red, 0),
            (LockState::Locked, HingeState::Open) => {
                let color = if self.tick < BLINK_HALF {
                    Color::Red
                } else {
                    Color::Green
                };
                (color, (self.tick + 1) % BLINK_PERIOD)
            },
            (LockState::Unlocked, _) => (Color::Green, 0),
        }
    }

    /// One iteration of the control loop on a sample of the lock and the
    /// hinge: shows the decided color through `show` and moves to the next
    /// tick when that succeeds. When `show` fails the tick stays as it was.
    pub fn step<E, F: FnOnce(Color) -> Result<(), E>>(
        &mut self,
        lock: LockState,
        hinge: HingeState,
        show: F,
    ) -> (r: Result<Color, E>)
        requires
            old(self).wf(),
            show.requires((decide(lock, hinge, old(self).tick_spec()).0,)),
        ensures
            final(self).wf(),
            exists|w: Result<(), E>|
                {
                    &&& #[trigger] show.ensures((decide(lock, hinge, old(self).tick_spec()).0,), w)
                    &&& (w is Ok <==> r is Ok)
                    &&& (forall|e: E| w == Err::<(), E>(e) ==> r == Err::<Color, E>(e))
                },
            r is Ok ==> r->Ok_0 == decide(lock, hinge, old(self).tick_spec()).0
                && final(self).tick_spec() == decide(lock, hinge, old(self).tick_spec()).1,
            r is Err ==> final(self).tick_spec() == old(self).tick_spec(),
    {
        let (color, next) = self.plan(lock, hinge);
        match show(color) {
            Ok(()) => {
                self.tick = next;
                Ok(color)
            },
            Err(e) => Err(e),
        }
    }
}

/// `write` succeeded on each of the first `n` pins of `pins` with `level`.
pub open spec fn wrote_prefix<P, E, F: Fn(&P, Level) -> Result<(), E>>(
    write: F,
    pins: Seq<P>,
    n: int,
    level: Level,
) -> bool {
    forall|i: int| 0 <= i < n ==> #[trigger] write.ensures((&pins[i], level), Ok::<(), E>(()))
}

/// `write` succeeded on every pin of `pins` with `level`.
pub open spec fn wrote_all<P, E, F: Fn(&P, Level) -> Result<(), E>>(
    write: F,
    pins: Seq<P>,
    level: Level,
) -> bool {
    wrote_prefix(write, pins, pins.len() as int, level)
}

/// `write` succeeded on the pins of `pins` before index `k` and returned
/// `r` on the pin at `k`.
pub open spec fn failed_at<P, E, F: Fn(&P, Level) -> Result<(), E>>(
    write: F,
    pins: Seq<P>,
    k: int,
    level: Level,
    r: Result<(), E>,
) -> bool {
    &&& 0 <= k < pins.len()
    &&& wrote_prefix(write, pins, k, level)
    &&& write.ensures((&pins[k], level), r)
}

/// The status LEDs: a group of green ones and a group of red ones, always
/// set together to show one color.
pub struct LedIndicator<P> {
    pub green_leds: Vec<P>,
    pub red_leds: Vec<P>,
}

impl<P> LedIndicator<P> {
    pub fn new(green_leds: Vec<P>, red_leds: Vec<P>) -> (r: LedIndicator<P>)
        ensures
            r.green_leds == green_leds,
            r.red_leds == red_leds,
    {
        LedIndicator { green_leds, red_leds }
    }

    /// Shows `color`: writes the green group first, then the red group, and
    /// stops at the first write that fails.
    pub fn show<E, F: Fn(&P, Level) -> Result<(), E>>(&self, color: Color, write: &F) -> (r: Result<
        (),
        E,
    >)
        requires
            forall|i: int|
                0 <= i < self.green_leds.len() ==> write.requires(
                    (&self.green_leds[i], green_level(color)),
                ),
            forall|i: int|
                0 <= i < self.red_leds.len() ==> write.requires((&self.red_leds[i], red_level(color))),
        ensures
            r is Ok ==> wrote_all(*write, self.green_leds@, green_level(color)) && wrote_all(
                *write,
                self.red_leds@,
                red_level(color),
            ),
            r is Err ==> (exists|k: int| failed_at(*write, self.green_leds@, k, green_level(color), r))
                || (wrote_all(*write, self.green_leds@, green_level(color)) && exists|k: int|
                failed_at(*write, self.red_leds@, k, red_level(color), r)),
    {
        match set_values(&self.green_leds, color.green_level(), write) {
            Ok(()) => {},
            Err(e) => {
                return Err(e);
            },
        }
        set_values(&self.red_leds, color.red_level(), write)
    }

    /// Lights the red group and darkens the green one.
    pub fn show_red<E, F: Fn(&P, Level) -> Result<(), E>>(&self, write: &F) -> (r: Result<(), E>)
        requires
            forall|i: int|
                0 <= i < self.green_leds.len() ==> write.requires((&self.green_leds[i], Level::High)),
            forall|i: int|
                0 <= i < self.red_leds.len() ==> write.requires((&self.red_leds[i], Level::Low)),
        ensures
            r is Ok ==> wrote_all(*write, self.green_leds@, Level::High) && wrote_all(
                *write,
                self.red_leds@,
                Level::Low,
            ),
            r is Err ==> (exists|k: int| failed_at(*write, self.green_leds@, k, Level::High, r)) || (
            wrote_all(*write, self.green_leds@, Level::High) && exists|k: int|
                failed_at(*write, self.red_leds@, k, Level::Low, r)),
    {
        self.show(Color::Red, write)
    }

    /// Lights the green group and darkens the red one.
    pub fn show_green<E, F: Fn(&P, Level) -> Result<(), E>>(&self, write: &F) -> (r: Result<(), E>)
        requires
            forall|i: int|
                0 <= i < self.green_leds.len() ==> write.requires((&self.green_leds[i], Level::Low)),
            forall|i: int|
                0 <= i < self.red_leds.len() ==> write.requires((&self.red_leds[i], Level::High)),
        ensures
            r is Ok ==> wrote_all(*write, self.green_leds@, Level::Low) && wrote_all(
                *write,
                self.red_leds@,
                Level::High,
            ),
            r is Err ==> (exists|k: int| failed_at(*write, self.green_leds@, k, Level::Low, r)) || (
            wrote_all(*write, self.green_leds@, Level::Low) && exists|k: int|
                failed_at(*write, self.red_leds@, k, Level::High, r)),
    {
        self.show(Color::Green, write)
    }
}

/// Writes `level` to every pin of `pins` in order through `write`, and
/// stops at the first write that fails.
pub fn set_values<P, E, F: Fn(&P, Level) -> Result<(), E>>(pins: &Vec<P>, level: Level, write: &F) -> (r:
    Result<(), E>)
    requires
        forall|i: int| 0 <= i < pins.len() ==> write.requires((&pins[i], level)),
    ensures
        r is Ok ==> wrote_all(*write, pins@, level),
        r is Err ==> exists|k: int| failed_at(*write, pins@, k, level, r),
{
    let mut i: usize = 0;
    while i < pins.len()
        invariant
            0 <= i <= pins.len(),
            forall|j: int| 0 <= j < pins.len() ==> write.requires((&pins[j], level)),
            wrote_prefix(*write, pins@, i as int, level),
        decreases pins.len() - i,
    {
        let pin = &pins[i];
        let w = write(pin, level);
        match w {
            Ok(u) => {
                assert(w == Ok::<(), E>(u));
            },
            Err(e) => {
                assert(failed_at(*write, pins@, i as int, level, Err::<(), E>(e)));
                return Err(e);
            },
        }
        i = i + 1;
    }
    Ok(())
}

} // verus!
