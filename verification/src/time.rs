//! Time kept in milliseconds since boot: instants, sleeps, and the list of sleepers that the
//! timer wakes once their tick has come.
use vstd::prelude::*;

pub mod rtc;

verus! {

/// How many sleepers may wait at once.
pub const MAX_SLEEPERS: usize = 64;

/// A point in time, as the tick count (milliseconds since boot) when it was taken.
#[derive(Clone, Copy, Debug, PartialEq, Eq, Structural)]
pub struct Instant {
    pub start_tick_ms: u64,
}

impl Instant {
    /// The instant whose tick count is `ticks`, the current one.
    pub fn now(ticks: u64) -> (r: Instant)
        ensures
            r.start_tick_ms == ticks,
    {
        Instant { start_tick_ms: ticks }
    }

    /// Milliseconds from this instant to the tick count `ticks`, the current one.
    pub fn elapsed(&self, ticks: u64) -> (r: u64)
        requires
            self.start_tick_ms <= ticks,
        ensures
            r == ticks - self.start_tick_ms,
    {
        ticks - self.start_tick_ms
    }
}

/// A sleeper: the tick at which to wake it, and how to wake it.
pub struct TimeWaker<W> {
    pub target_tick: u64,
    pub waker: W,
}

/// Whether the sleeper in `slot` is due at tick `now`.
pub open spec fn is_due<W>(slot: Option<TimeWaker<W>>, now: u64) -> bool {
    slot matches Some(tw) && now >= tw.target_tick
}

/// The wakers of the sleepers in `slots` that are due at `now`, in slot order.
pub open spec fn due_wakers<W>(slots: Seq<Option<TimeWaker<W>>>, now: u64) -> Seq<W>
    decreases slots.len(),
{
    if slots.len() == 0 {
        Seq::empty()
    } else {
        let rest = due_wakers(slots.drop_last(), now);
        match slots.last() {
            Some(tw) => if now >= tw.target_tick {
                rest.push(tw.waker)
            } else {
                rest
            },
            None => rest,
        }
    }
}

/// The sleepers, each in a slot of a fixed table.
pub struct TimerWakerList<W> {
    pub slots: Vec<Option<TimeWaker<W>>>,
}

impl<W> TimerWakerList<W> {
    /// The invariant: the table has its fixed number of slots.
    pub open spec fn wf(&self) -> bool {
        self.slots@.len() == MAX_SLEEPERS
    }

    /// A table with no sleepers.
    pub fn new() -> (r: TimerWakerList<W>)
        ensures
            r.wf(),
            forall|i: int| 0 <= i < MAX_SLEEPERS ==> r.slots@[i] is None,
    {
        let mut slots: Vec<Option<TimeWaker<W>>> = Vec::new();
        let mut i: usize = 0;
        while i < MAX_SLEEPERS
            invariant
                i <= MAX_SLEEPERS,
                slots@.len() == i,
                forall|j: int| 0 <= j < i ==> slots@[j] is None,
            decreases MAX_SLEEPERS - i,
        {
            slots.push(None);
            i = i + 1;
        }
        TimerWakerList { slots }
    }

    /// Puts `waker` in the first free slot.
    pub fn push(&mut self, waker: TimeWaker<W>)
        requires
            old(self).wf(),
            exists|i: int| 0 <= i < MAX_SLEEPERS && (#[trigger] old(self).slots@[i]) is None,
        ensures
            final(self).wf(),
            exists|i: int|
                {
                    &&& 0 <= i < MAX_SLEEPERS
                    &&& old(self).slots@[i] is None
                    &&& forall|j: int| 0 <= j < i ==> (#[trigger] old(self).slots@[j]) is Some
                    &&& final(self).slots@ == old(self).slots@.update(i, Some(waker))
                },
    {
        let mut idx: usize = 0;
        while idx < MAX_SLEEPERS
            invariant
                self.wf(),
                self.slots@ == old(self).slots@,
                idx <= MAX_SLEEPERS,
                forall|j: int| 0 <= j < idx ==> (#[trigger] self.slots@[j]) is Some,
                exists|i: int| 0 <= i < MAX_SLEEPERS && (#[trigger] self.slots@[i]) is None,
            ensures
                self.slots@ == old(self).slots@,
                idx < MAX_SLEEPERS,
                self.slots@[idx as int] is None,
                forall|j: int| 0 <= j < idx ==> (#[trigger] self.slots@[j]) is Some,
            decreases MAX_SLEEPERS - idx,
        {
            if self.slots[idx].is_none() {
                break;
            }
            idx = idx + 1;
        }
        self.slots.set(idx, Some(waker));
        assert(old(self).slots@[idx as int] is None);
    }

    /// Takes out every sleeper due at tick `now` and returns their wakers, in slot order; the
    /// others stay.
    pub fn wake_expired(&mut self, now: u64) -> (r: Vec<W>)
        requires
            old(self).wf(),
        ensures
            final(self).wf(),
            forall|i: int|
                0 <= i < MAX_SLEEPERS ==> #[trigger] final(self).slots@[i] == (if is_due(old(self).slots@[i], now) {
                    None
                } else {
                    old(self).slots@[i]
                }),
            r@ == due_wakers(old(self).slots@, now),
    {
        let mut woken: Vec<W> = Vec::new();
        let mut i: usize = 0;
        while i < MAX_SLEEPERS
            invariant
                self.wf(),
                old(self).slots@.len() == MAX_SLEEPERS,
                i <= MAX_SLEEPERS,
                forall|j: int|
                    0 <= j < i ==> #[trigger] self.slots@[j] == (if is_due(old(self).slots@[j], now) {
                        None
                    } else {
                        old(self).slots@[j]
                    }),
                forall|j: int| i <= j < MAX_SLEEPERS ==> #[trigger] self.slots@[j] == old(self).slots@[j],
                woken@ == due_wakers(old(self).slots@.subrange(0, i as int), now),
            decreases MAX_SLEEPERS - i,
        {
            let due = match &self.slots[i] {
                Some(tw) => now >= tw.target_tick,
                None => false,
            };
            proof {
                assert(old(self).slots@.subrange(0, i + 1).drop_last() =~= old(self).slots@.subrange(0, i as int));
            }
            if due {
                let ghost before = self.slots@;
                let slot = self.slots.remove(i);
                self.slots.insert(i, None);
                assert(self.slots@ =~= before.update(i as int, None));
                match slot {
                    Some(tw) => {
                        woken.push(tw.waker);
                    },
                    None => {},
                }
            }
            i = i + 1;
        }
        assert(old(self).slots@.subrange(0, MAX_SLEEPERS as int) =~= old(self).slots@);
        woken
    }
}

/// Registers `waker` to be woken `sleep_ms` milliseconds after the tick count `now`.
pub fn register_waker<W>(wakers: &mut TimerWakerList<W>, now: u64, sleep_ms: u64, waker: W)
    requires
        old(wakers).wf(),
        now + sleep_ms <= u64::MAX,
        exists|i: int| 0 <= i < MAX_SLEEPERS && (#[trigger] old(wakers).slots@[i]) is None,
    ensures
        final(wakers).wf(),
        exists|i: int|
            {
                &&& 0 <= i < MAX_SLEEPERS
                &&& old(wakers).slots@[i] is None
                &&& forall|j: int| 0 <= j < i ==> (#[trigger] old(wakers).slots@[j]) is Some
                &&& final(wakers).slots@[i] matches Some(tw) && tw.target_tick == now + sleep_ms
                    && tw.waker == waker
                &&& forall|j: int| 0 <= j < MAX_SLEEPERS && j != i ==> #[trigger] final(wakers).slots@[j] == old(wakers).slots@[j]
            },
{
    wakers.push(TimeWaker { target_tick: now + sleep_ms, waker });
}

/// A sleep: the tick it lasts until, and whether its task is registered to be woken then.
#[derive(Clone, Copy, Debug, PartialEq, Eq, Structural)]
pub struct SleepFuture {
    pub target_tick: u64,
    pub registered: bool,
}

/// What polling a sleep gives.
#[derive(Clone, Copy, Debug, PartialEq, Eq, Structural)]
pub enum SleepPoll {
    /// The sleep is over.
    Ready,
    /// Not yet; when `register` holds a tick, the task must be registered to be woken at it.
    Pending { register: Option<u64> },
}

/// A sleep of at least `duration_ms` milliseconds from the tick count `now`.
pub fn sleep_duration(now: u64, duration_ms: u64) -> (r: SleepFuture)
    requires
        now + duration_ms <= u64::MAX,
    ensures
        r.target_tick == now + duration_ms,
        !r.registered,
{
    SleepFuture { target_tick: now + duration_ms, registered: false }
}

impl SleepFuture {
    /// Polls the sleep at tick count `now`: over once its tick has come; otherwise asks, the
    /// first time only, for the task to be registered to be woken at its tick.
    pub fn poll(&mut self, now: u64) -> (r: SleepPoll)
        ensures
            final(self).target_tick == old(self).target_tick,
            now >= old(self).target_tick ==> r == SleepPoll::Ready && final(self).registered == old(
                self,
            ).registered,
            now < old(self).target_tick ==> final(self).registered && r == (SleepPoll::Pending {
                register: if old(self).registered {
                    None
                } else {
                    Some(old(self).target_tick)
                },
            }),
    {
        if now >= self.target_tick {
            return SleepPoll::Ready;
        }
        if !self.registered {
            self.registered = true;
            return SleepPoll::Pending { register: Some(self.target_tick) };
        }
        SleepPoll::Pending { register: None }
    }
}

} // verus!
