//! The playback countdown: when it runs out, a random record starts looping
//! and the countdown restarts with a random length.

use vstd::prelude::*;

verus! {

/// Shortest wait between two triggers, in nanoseconds.
pub const MIN_DELAY_NS: u64 = 500_000_000;

/// Longest wait between two triggers, in nanoseconds.
pub const MAX_DELAY_NS: u64 = 1_750_000_000;

/// Exit status requested when a trigger finds nothing to play.
pub const EXIT_NO_AUDIO: u8 = 1;

/// A one-shot countdown measured in nanoseconds. Once `finished` it stays so
/// until it is restarted.
#[derive(Clone, Copy, Debug, PartialEq, Eq, Structural)]
pub struct PlaybackTimer {
    pub elapsed_ns: u64,
    pub duration_ns: u64,
    pub finished: bool,
}

/// What the host should do after a frame.
#[derive(Clone, Copy, Debug, PartialEq, Eq, Structural)]
pub enum Action {
    /// Nothing this frame.
    Wait,
    /// Start playing the record at `index`, looping it when `looping` holds.
    Play { index: usize, looping: bool },
    /// Stop the process with this status.
    Exit { status: u8 },
}

/// The countdown before the first frame: zero length, so the first tick ends it.
pub open spec fn fresh_timer() -> PlaybackTimer {
    PlaybackTimer { elapsed_ns: 0, duration_ns: 0, finished: false }
}

/// Sum of a sequence of frame times.
pub open spec fn total(ds: Seq<u64>) -> int
    decreases ds.len(),
{
    if ds.len() == 0 {
        0
    } else {
        ds[0] + total(ds.drop_first())
    }
}

impl PlaybackTimer {
    /// Elapsed time never passes the length, and a finished countdown has
    /// used all of it.
    pub open spec fn wf(self) -> bool {
        self.elapsed_ns <= self.duration_ns && (self.finished ==> self.elapsed_ns
            == self.duration_ns)
    }

    /// The countdown after `delta` more nanoseconds.
    pub open spec fn ticked(self, delta: u64) -> PlaybackTimer {
        if self.finished {
            self
        } else if self.elapsed_ns + delta >= self.duration_ns {
            PlaybackTimer { elapsed_ns: self.duration_ns, duration_ns: self.duration_ns, finished: true }
        } else {
            PlaybackTimer { elapsed_ns: (self.elapsed_ns + delta) as u64, ..self }
        }
    }

    /// The countdown after one tick per element of `ds`, in order.
    pub open spec fn ticked_all(self, ds: Seq<u64>) -> PlaybackTimer
        decreases ds.len(),
    {
        if ds.len() == 0 {
            self
        } else {
            self.ticked(ds[0]).ticked_all(ds.drop_first())
        }
    }

    /// The countdown and action after a trigger over `n` records, given the
    /// record `pick` and the next length `next_ns` that were drawn.
    pub open spec fn fire_outcome(self, n: nat, pick: nat, next_ns: u64) -> (PlaybackTimer, Action) {
        if n == 0 {
            (self, Action::Exit { status: EXIT_NO_AUDIO })
        } else {
            (
                PlaybackTimer { elapsed_ns: 0, duration_ns: next_ns, finished: false },
                Action::Play { index: pick as usize, looping: true },
            )
        }
    }

    /// The countdown before the first frame.
    pub fn new() -> (r: PlaybackTimer)
        ensures
            r == fresh_timer(),
            r.wf(),
    {
        PlaybackTimer { elapsed_ns: 0, duration_ns: 0, finished: false }
    }

    /// Whether the countdown is in a state that `tick` and `update` accept.
    pub fn is_well_formed(&self) -> (r: bool)
        ensures
            r == self.wf(),
    {
        self.elapsed_ns <= self.duration_ns && (!self.finished || self.elapsed_ns
            == self.duration_ns)
    }

    /// Whether the countdown has run out.
    pub fn is_finished(&self) -> (r: bool)
        ensures
            r == self.finished,
    {
        self.finished
    }

    /// Advances the countdown by `delta_ns` nanoseconds.
    pub fn tick(&mut self, delta_ns: u64)
        requires
            old(self).wf(),
        ensures
            *final(self) == old(self).ticked(delta_ns),
            final(self).wf(),
    {
        if self.finished {
            return;
        }
        if delta_ns >= self.duration_ns - self.elapsed_ns {
            self.elapsed_ns = self.duration_ns;
            self.finished = true;
        } else {
            self.elapsed_ns = self.elapsed_ns + delta_ns;
        }
    }

    /// Restarts the countdown with length `duration_ns`.
    pub fn restart(&mut self, duration_ns: u64)
        ensures
            *final(self) == (PlaybackTimer { elapsed_ns: 0, duration_ns, finished: false }),
    {
        self.elapsed_ns = 0;
        self.finished = false;
        self.duration_ns = duration_ns;
    }

    /// Acts on a trigger over `n_records` records with the drawn record `pick`
    /// and next length `next_ns`: with no record it asks to exit with
    /// `EXIT_NO_AUDIO`; otherwise it asks to loop record `pick` and restarts
    /// the countdown with length `next_ns`.
    pub fn fire(&mut self, n_records: usize, pick: usize, next_ns: u64) -> (r: Action)
        requires
            n_records > 0 ==> pick < n_records,
        ensures
            (*final(self), r) == old(self).fire_outcome(n_records as nat, pick as nat, next_ns),
    {
        if n_records == 0 {
            return Action::Exit { status: EXIT_NO_AUDIO };
        }
        self.restart(next_ns);
        Action::Play { index: pick, looping: true }
    }

    /// One frame over `n_records` loaded records: advances the countdown by
    /// `delta_ns`, and when it runs out draws a record and the next length
    /// (uniformly, from `MIN_DELAY_NS..=MAX_DELAY_NS`) and fires.
    pub fn update(&mut self, delta_ns: u64, n_records: usize) -> (r: Action)
        requires
            old(self).wf(),
        ensures
            final(self).wf(),
            !old(self).ticked(delta_ns).finished ==> r == Action::Wait && *final(self) == old(
                self,
            ).ticked(delta_ns),
            old(self).ticked(delta_ns).finished && n_records == 0 ==> r == (Action::Exit {
                status: EXIT_NO_AUDIO,
            }) && *final(self) == old(self).ticked(delta_ns),
            old(self).ticked(delta_ns).finished && n_records > 0 ==> exists|pick: usize, next: u64|
                pick < n_records && MIN_DELAY_NS <= next <= MAX_DELAY_NS && (*final(self), r)
                    == old(self).ticked(delta_ns).fire_outcome(n_records as nat, pick as nat, next),
    {
        self.tick(delta_ns);
        if !self.is_finished() {
            return Action::Wait;
        }
        if n_records == 0 {
            return self.fire(0, 0, 0);
        }
        let pick = draw_index(n_records);
        let next = draw_between(MIN_DELAY_NS, MAX_DELAY_NS);
        self.fire(n_records, pick, next)
    }
}

/// Ticking a well-formed countdown frame by frame: it has run out exactly when
/// it had already, or when there was at least one frame and the frames add up
/// to what was left of it.
pub proof fn lemma_ticks_accumulate(t: PlaybackTimer, ds: Seq<u64>)
    requires
        t.wf(),
    ensures
        t.ticked_all(ds).wf(),
        t.ticked_all(ds).finished == (t.finished || (ds.len() > 0 && t.elapsed_ns + total(ds)
            >= t.duration_ns)),
    decreases ds.len(),
{
    if ds.len() > 0 {
        let rest = ds.drop_first();
        lemma_total_nonneg(rest);
        lemma_ticks_accumulate(t.ticked(ds[0]), rest);
        assert(total(ds) == ds[0] + total(rest));
        assert(t.ticked_all(ds) == t.ticked(ds[0]).ticked_all(rest));
    }
}

proof fn lemma_total_nonneg(ds: Seq<u64>)
    ensures
        total(ds) >= 0,
    decreases ds.len(),
{
    if ds.len() > 0 {
        lemma_total_nonneg(ds.drop_first());
    }
}

/// With no record loaded, the first frame already triggers, and that trigger
/// asks to exit with status 1, whatever was drawn.
pub proof fn lemma_no_records_exits_at_first_trigger(delta_ns: u64, pick: nat, next_ns: u64)
    ensures
        fresh_timer().ticked(delta_ns).finished,
        fresh_timer().ticked(delta_ns).fire_outcome(0, pick, next_ns).1 == (Action::Exit {
            status: 1,
        }),
{
}

/// With `n >= 1` records, each of them is the one played for some draw, and it
/// is played in a loop.
pub proof fn lemma_every_record_can_play(t: PlaybackTimer, n: nat, i: nat, next_ns: u64)
    requires
        i < n,
    ensures
        t.fire_outcome(n, i, next_ns).1 == (Action::Play { index: i as usize, looping: true }),
{
}

/// After a trigger that plays, the new length lies in
/// `MIN_DELAY_NS..=MAX_DELAY_NS`, and the next trigger comes exactly once the
/// frame times since then add up to that length, not before.
pub proof fn lemma_next_trigger_waits(
    t: PlaybackTimer,
    n: nat,
    pick: nat,
    next_ns: u64,
    ds: Seq<u64>,
)
    requires
        n > 0,
        MIN_DELAY_NS <= next_ns <= MAX_DELAY_NS,
    ensures
        MIN_DELAY_NS <= t.fire_outcome(n, pick, next_ns).0.duration_ns <= MAX_DELAY_NS,
        t.fire_outcome(n, pick, next_ns).0.ticked_all(ds).finished == (total(ds) >= next_ns),
{
    lemma_ticks_accumulate(t.fire_outcome(n, pick, next_ns).0, ds);
}

/// Relies on fastrand::usize over `0..n`: the value lies in that range. It
/// panics on an empty range, hence `n > 0`.
#[verifier::external_body]
fn draw_index(n: usize) -> (r: usize)
    requires
        n > 0,
    ensures
        r < n,
{
    fastrand::usize(0..n)
}

/// Relies on fastrand::u64 over `lo..=hi`: the value lies in that range. It
/// panics on an empty range, hence `lo <= hi`.
#[verifier::external_body]
fn draw_between(lo: u64, hi: u64) -> (r: u64)
    requires
        lo <= hi,
    ensures
        lo <= r <= hi,
{
    fastrand::u64(lo..=hi)
}

} // verus!
