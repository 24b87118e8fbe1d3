//! Frames-per-second sampling over a one-second window.
use std::time::{Duration, Instant};
use vstd::prelude::*;

verus! {

#[verifier::external_type_specification]
#[verifier::external_body]
pub struct ExInstant(Instant);

/// Relies on `Instant::now`: a reading of the monotonic clock. Nothing is
/// promised of its value.
pub assume_specification[ Instant::now ]() -> Instant;

/// Relies on `Instant::elapsed`: the time since the reading was taken
/// (saturating at zero). Nothing is promised of its value.
pub assume_specification[ Instant::elapsed ](i: &Instant) -> Duration;

/// Relies on `Duration::as_secs`: the whole seconds of a duration.
pub assume_specification[ Duration::as_secs ](d: &Duration) -> u64;

/// Counts rendered frames and, once a second, publishes the count as `fps`.
pub struct FpsCounter {
    /// Frames rendered since the current window opened.
    pub frame_count: u64,
    /// When the current window opened.
    pub last_tick: Instant,
    /// Frames counted in the last window that closed.
    pub fps: u64,
}

/// `(frame_count, fps)` after one more frame, rendered `elapsed_secs` whole
/// seconds after the window opened: the frame is counted, and a window that
/// has lasted a second closes, publishing the count and starting again at 0.
pub open spec fn frame_after(frame_count: nat, fps: nat, elapsed_secs: nat) -> (nat, nat) {
    if elapsed_secs >= 1 {
        (0, frame_count + 1)
    } else {
        (frame_count + 1, fps)
    }
}

/// One frame moved the counter from `before` to `after`, however much time
/// had passed.
pub open spec fn frame_counted(before: FpsCounter, after: FpsCounter) -> bool {
    ||| (after.frame_count as nat, after.fps as nat) == frame_after(
        before.frame_count as nat,
        before.fps as nat,
        0,
    )
    ||| (after.frame_count as nat, after.fps as nat) == frame_after(
        before.frame_count as nat,
        before.fps as nat,
        1,
    )
}

/// `counts[i + 1]` is `(frame_count, fps)` after the frame rendered
/// `elapsed[i]` whole seconds into its window, from `counts[i]`: a run of
/// `record_frame` calls.
pub open spec fn frame_run(counts: Seq<(nat, nat)>, elapsed: Seq<nat>) -> bool {
    &&& counts.len() == elapsed.len() + 1
    &&& forall|i: int|
        0 <= i < elapsed.len() ==> #[trigger] counts[i + 1] == frame_after(
            counts[i].0,
            counts[i].1,
            elapsed[i],
        )
}

/// A window that opened with the counter at zero, in which N frames were
/// rendered, only the last of them once a second had passed, reports
/// `fps == N` and leaves the counter at zero.
pub proof fn lemma_window_reports_frames(counts: Seq<(nat, nat)>, elapsed: Seq<nat>)
    requires
        frame_run(counts, elapsed),
        counts[0].0 == 0,
        elapsed.len() >= 1,
        forall|k: int| 0 <= k < elapsed.len() - 1 ==> #[trigger] elapsed[k] < 1,
        elapsed.last() >= 1,
    ensures
        counts.last() == (0nat, elapsed.len()),
{
    let n = elapsed.len() as int;
    assert forall|i: int| 0 <= i < n implies (#[trigger] counts[i]).0 == i by {
        lemma_counts_before_boundary(counts, elapsed, i);
    }
    assert(counts[n] == counts[n - 1 + 1]);
}

proof fn lemma_counts_before_boundary(counts: Seq<(nat, nat)>, elapsed: Seq<nat>, i: int)
    requires
        frame_run(counts, elapsed),
        counts[0].0 == 0,
        0 <= i < elapsed.len(),
        forall|k: int| 0 <= k < elapsed.len() - 1 ==> #[trigger] elapsed[k] < 1,
    ensures
        counts[i].0 == i,
    decreases i,
{
    if i > 0 {
        lemma_counts_before_boundary(counts, elapsed, i - 1);
        assert(counts[(i - 1) + 1] == frame_after(
            counts[i - 1].0,
            counts[i - 1].1,
            elapsed[i - 1],
        ));
    }
}

impl FpsCounter {
    /// A counter with an empty window opened now.
    pub fn new() -> (r: Self)
        ensures
            r.frame_count == 0,
            r.fps == 0,
    {
        FpsCounter { frame_count: 0, last_tick: Instant::now(), fps: 0 }
    }

    /// Counts one frame rendered `elapsed_secs` whole seconds after the window
    /// opened; returns whether that closed the window.
    pub fn record_frame(&mut self, elapsed_secs: u64) -> (closed: bool)
        requires
            old(self).frame_count < u64::MAX,
        ensures
            closed == (elapsed_secs >= 1),
            (final(self).frame_count as nat, final(self).fps as nat) == frame_after(
                old(self).frame_count as nat,
                old(self).fps as nat,
                elapsed_secs as nat,
            ),
            final(self).last_tick == old(self).last_tick,
    {
        self.frame_count = self.frame_count + 1;
        if elapsed_secs >= 1 {
            self.fps = self.frame_count;
            self.frame_count = 0;
            true
        } else {
            false
        }
    }

    /// Counts one frame rendered now, and opens a new window when the current
    /// one has lasted a second.
    pub fn tick(&mut self)
        requires
            old(self).frame_count < u64::MAX,
        ensures
            frame_counted(*old(self), *final(self)),
            final(self).frame_count != 0 ==> final(self).last_tick == old(self).last_tick,
    {
        let elapsed = self.last_tick.elapsed().as_secs();
        if self.record_frame(elapsed) {
            self.last_tick = Instant::now();
        }
    }
}

} // verus!
