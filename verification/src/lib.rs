//! A one-shot countdown latch.
//!
//! A latch is created with a count `n` and is released once `n` completion
//! signals have been delivered through [`CountDownLatch::count_down`].
//! Delivered signals are first *pending*; a drain — performed by
//! [`CountDownLatch::get_count`] and [`CountDownLatch::wait`] — applies them
//! to the remaining count. Once the count reaches zero the latch stays
//! released forever, and any further delivery is refused as an overshoot.

use vstd::prelude::*;

verus! {

/// The mathematical state of a latch.
pub ghost struct LatchView {
    /// The count the latch was constructed with.
    pub initial: nat,
    /// Signals still required before release, counting only applied ones.
    pub remaining: nat,
    /// Signals delivered but not yet applied by a drain.
    pub pending: nat,
}

impl LatchView {
    /// Every reachable latch state satisfies this: no more signals are
    /// outstanding or pending than the construction-time count allows.
    pub open spec fn wf(self) -> bool {
        self.remaining <= self.initial && self.pending <= self.remaining
    }

    /// The count a drain reports: what remains once every pending signal
    /// has been applied.
    pub open spec fn count(self) -> nat
        recommends
            self.pending <= self.remaining,
    {
        (self.remaining - self.pending) as nat
    }

    /// Released means a drain reports zero: every required signal has been
    /// delivered, applied or not.
    pub open spec fn released(self) -> bool {
        self.count() == 0
    }

    /// One more delivery fits exactly when fewer than `initial` signals
    /// have been delivered so far.
    pub open spec fn can_count_down(self) -> bool {
        self.pending < self.remaining
    }

    /// The state after one `count_down` call: a delivery that fits becomes
    /// pending, an overshoot changes nothing.
    pub open spec fn count_down(self) -> LatchView {
        if self.can_count_down() {
            LatchView { initial: self.initial, remaining: self.remaining, pending: self.pending + 1 }
        } else {
            self
        }
    }

    /// The state after a drain: all pending signals applied.
    pub open spec fn drain(self) -> LatchView {
        LatchView { initial: self.initial, remaining: self.count(), pending: 0 }
    }
}

/// The state of a fresh latch: `count` signals required, none delivered.
pub open spec fn new_view(count: nat) -> LatchView {
    LatchView { initial: count, remaining: count, pending: 0 }
}

/// The state after `times` further `count_down` calls from `state`.
pub open spec fn count_down_times(state: LatchView, times: nat) -> LatchView
    decreases times,
{
    if times == 0 {
        state
    } else {
        count_down_times(state, (times - 1) as nat).count_down()
    }
}

/// Delivering one more signal than the latch was constructed for is a
/// caller error, reported rather than absorbed.
#[derive(Clone, Copy, Debug, PartialEq, Eq)]
pub enum LatchError {
    Overshoot,
}

/// A one-shot countdown latch, released after a fixed number of
/// `count_down` calls.
pub struct CountDownLatch {
    initial: usize,
    remaining: usize,
    pending: usize,
}

impl View for CountDownLatch {
    type V = LatchView;

    closed spec fn view(&self) -> LatchView {
        LatchView {
            initial: self.initial as nat,
            remaining: self.remaining as nat,
            pending: self.pending as nat,
        }
    }
}

impl CountDownLatch {
    /// Construct a latch that requires `count` deliveries before release.
    /// A count of zero gives an already released latch.
    pub fn new(count: usize) -> (latch: Self)
        ensures
            latch@ == new_view(count as nat),
    {
        CountDownLatch { initial: count, remaining: count, pending: 0 }
    }

    /// Deliver one completion signal. The signal becomes pending until the
    /// next drain; a delivery beyond the construction-time count is refused
    /// as an overshoot and leaves the latch unchanged.
    pub fn count_down(&mut self) -> (result: Result<(), LatchError>)
        requires
            old(self)@.wf(),
        ensures
            final(self)@ == old(self)@.count_down(),
            final(self)@.wf(),
            result is Ok <==> old(self)@.can_count_down(),
            result is Err ==> result == Err::<(), LatchError>(LatchError::Overshoot),
    {
        if self.pending < self.remaining {
            self.pending = self.pending + 1;
            Ok(())
        } else {
            Err(LatchError::Overshoot)
        }
    }

    /// Drain all pending signals, then report the remaining count. The
    /// result is zero exactly when every required signal has been
    /// delivered.
    pub fn get_count(&mut self) -> (count: usize)
        requires
            old(self)@.wf(),
        ensures
            final(self)@ == old(self)@.drain(),
            final(self)@.wf(),
            count as nat == old(self)@.count(),
    {
        while self.remaining > 0 && self.pending > 0
            invariant
                self@.wf(),
                self@.initial == old(self)@.initial,
                self@.count() == old(self)@.count(),
            decreases self.pending,
        {
            self.remaining = self.remaining - 1;
            self.pending = self.pending - 1;
        }
        self.remaining
    }

    /// Return once the latch is released, applying every pending signal on
    /// the way. A latch is released when all required signals have been
    /// delivered, so that is what this call asks of its caller: with no
    /// other thread in this model, a wait on an unreleased latch would
    /// never return.
    pub fn wait(&mut self)
        requires
            old(self)@.wf(),
            old(self)@.released(),
        ensures
            final(self)@ == old(self)@.drain(),
            final(self)@.wf(),
            final(self)@.remaining == 0,
            final(self)@.released(),
    {
        while self.remaining > 0
            invariant
                self@.wf(),
                self@.released(),
                self@.initial == old(self)@.initial,
            decreases self.remaining,
        {
            self.pending = self.pending - 1;
            self.remaining = self.remaining - 1;
        }
    }
}

/// Each of the first `delivered` deliveries into a fresh latch with count
/// `count` is accepted and simply accumulates as pending.
proof fn lemma_deliveries_accumulate(count: nat, delivered: nat)
    requires
        delivered <= count,
    ensures
        count_down_times(new_view(count), delivered) == (LatchView {
            initial: count,
            remaining: count,
            pending: delivered,
        }),
    decreases delivered,
{
    if delivered > 0 {
        lemma_deliveries_accumulate(count, (delivered - 1) as nat);
    }
}

/// A latch constructed with any count `count` accepts exactly `count`
/// deliveries — each of them succeeds — and after the last one it is
/// released: a drain reports zero and a wait returns at once.
pub proof fn lemma_full_delivery_releases(count: nat)
    ensures
        forall|delivered: nat|
            delivered < count ==> (#[trigger] count_down_times(
                new_view(count),
                delivered,
            )).can_count_down(),
        count_down_times(new_view(count), count).wf(),
        count_down_times(new_view(count), count).released(),
        count_down_times(new_view(count), count).drain().remaining == 0,
{
    assert forall|delivered: nat|
        delivered < count implies (#[trigger] count_down_times(
        new_view(count),
        delivered,
    )).can_count_down() by {
        lemma_deliveries_accumulate(count, delivered);
    };
    lemma_deliveries_accumulate(count, count);
}

/// Release is permanent: once a drain would report zero, it reports zero
/// after any number of further (refused) deliveries and after any further
/// drain; no delivery is accepted any more.
pub proof fn lemma_release_is_permanent(state: LatchView, deliveries: nat)
    requires
        state.wf(),
        state.released(),
    ensures
        !state.can_count_down(),
        count_down_times(state, deliveries) == state,
        state.drain().wf(),
        state.drain().released(),
        state.drain().remaining == 0,
    decreases deliveries,
{
    if deliveries > 0 {
        lemma_release_is_permanent(state, (deliveries - 1) as nat);
    }
}

/// The reported count never grows: a delivery can only lower the count a
/// drain would report, and draining leaves it unchanged. Since the count is
/// a natural number it is never negative, so the counts read by successive
/// `get_count` calls form a non-increasing, non-negative sequence.
pub proof fn lemma_count_never_increases(state: LatchView)
    requires
        state.wf(),
    ensures
        state.count_down().wf(),
        state.count_down().count() <= state.count(),
        state.drain().wf(),
        state.drain().count() == state.count(),
{
}

} // verus!
