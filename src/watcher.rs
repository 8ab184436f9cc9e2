use vstd::prelude::*;

verus! {

/// The warning shown while the host's output volume sits near its maximum.
#[derive(Clone, Copy, Debug, PartialEq, Eq, Structural)]
pub struct VolumeWarning {
    pub is_full: bool,
}

/// Debounces threshold crossings of the output level: an event is emitted
/// only when a reading lands on the other side of the threshold than the
/// previous one did.
#[derive(Clone, Copy, Debug, PartialEq, Eq, Structural)]
pub struct VolumeWatcher {
    pub last_is_full: bool,
}

/// The state a watcher starting in state `last` is in after `readings`,
/// each reading given as whether it is at or above the threshold.
pub open spec fn settled(last: bool, readings: Seq<bool>) -> bool {
    if readings.len() == 0 {
        last
    } else {
        readings.last()
    }
}

/// The events a watcher starting in state `last` emits for `readings`.
pub open spec fn edges(last: bool, readings: Seq<bool>) -> Seq<VolumeWarning>
    decreases readings.len(),
{
    if readings.len() == 0 {
        Seq::empty()
    } else {
        let before = readings.drop_last();
        let x = readings.last();
        if x != settled(last, before) {
            edges(last, before).push(VolumeWarning { is_full: x })
        } else {
            edges(last, before)
        }
    }
}

/// Whatever the readings, the emitted events alternate: the first differs
/// from the state the watcher started in, each differs from the one before,
/// and the last is the state the watcher ends in.
pub proof fn lemma_events_alternate(last: bool, readings: Seq<bool>)
    ensures
        edges(last, readings).len() > 0 ==> edges(last, readings)[0].is_full != last,
        edges(last, readings).len() > 0 ==> edges(last, readings).last().is_full == settled(
            last,
            readings,
        ),
        forall|i: int|
            0 <= i < edges(last, readings).len() - 1 ==> (#[trigger] edges(last, readings)[i]).is_full
                != edges(last, readings)[i + 1].is_full,
    decreases readings.len(),
{
    if readings.len() > 0 {
        let before = readings.drop_last();
        lemma_events_alternate(last, before);
        if before.len() > 0 && edges(last, before).len() == 0 {
            lemma_no_events_means_unchanged(last, before);
        }
    }
}

/// A reading sequence that emits no event leaves the watcher where it started.
pub proof fn lemma_no_events_means_unchanged(last: bool, readings: Seq<bool>)
    requires
        edges(last, readings).len() == 0,
    ensures
        settled(last, readings) == last,
    decreases readings.len(),
{
    if readings.len() > 0 {
        let before = readings.drop_last();
        if readings.last() != settled(last, before) {
            assert(edges(last, readings).len() == edges(last, before).len() + 1);
        } else {
            lemma_no_events_means_unchanged(last, before);
        }
    }
}

impl VolumeWatcher {
    /// A watcher that has not seen the level full yet.
    pub fn new() -> (r: Self)
        ensures
            !r.last_is_full,
    {
        VolumeWatcher { last_is_full: false }
    }

    /// Takes one reading; returns the event to emit, if the reading crossed
    /// the threshold.
    pub fn observe(&mut self, is_full: bool) -> (r: Option<VolumeWarning>)
        ensures
            final(self).last_is_full == is_full,
            r == (if is_full != old(self).last_is_full {
                Some(VolumeWarning { is_full })
            } else {
                None::<VolumeWarning>
            }),
    {
        if is_full != self.last_is_full {
            self.last_is_full = is_full;
            Some(VolumeWarning { is_full })
        } else {
            None
        }
    }

    /// Takes the readings in order; returns the events emitted, in order.
    pub fn observe_all(&mut self, readings: &Vec<bool>) -> (r: Vec<VolumeWarning>)
        ensures
            r@ == edges(old(self).last_is_full, readings@),
            final(self).last_is_full == settled(old(self).last_is_full, readings@),
    {
        let ghost l0 = self.last_is_full;
        let mut out: Vec<VolumeWarning> = Vec::new();
        let mut k: usize = 0;
        while k < readings.len()
            invariant
                k <= readings@.len(),
                l0 == old(self).last_is_full,
                self.last_is_full == settled(l0, readings@.take(k as int)),
                out@ == edges(l0, readings@.take(k as int)),
            decreases readings.len() - k,
        {
            assert(readings@.take(k + 1).drop_last() =~= readings@.take(k as int));
            match self.observe(readings[k]) {
                Some(w) => out.push(w),
                None => {},
            }
            k = k + 1;
        }
        assert(readings@.take(k as int) =~= readings@);
        out
    }

    /// The answer to a point query: the reading's own state, or the
    /// fail-safe `is_full: true` when no reading could be taken.
    pub fn current_warning(reading: Option<bool>) -> (r: VolumeWarning)
        ensures
            r.is_full == match reading {
                Some(f) => f,
                None => true,
            },
    {
        match reading {
            Some(f) => VolumeWarning { is_full: f },
            None => VolumeWarning { is_full: true },
        }
    }
}

} // verus!
