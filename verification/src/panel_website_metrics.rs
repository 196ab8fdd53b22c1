//! The window of host CPU/memory samples behind the Manage Overview charts: when a new
//! sample is taken and which samples are kept.

use vstd::prelude::*;

verus! {

/// At most this many samples are kept.
pub const MAX_SAMPLES: usize = 90;

/// A new sample is taken only this many seconds after the last one.
pub const SAMPLE_MIN_GAP_SECS: u64 = 8;

/// Samples older than this many seconds are dropped.
pub const WINDOW_SECS: u64 = 900;

/// One host sample. The CPU and memory percentages are carried as the bit patterns of
/// their `f32` values; the window logic reads only the time.
#[derive(Clone, Copy, Debug, PartialEq, Eq, Structural)]
pub struct MetricSample {
    pub t: u64,
    pub cpu_bits: u32,
    pub mem_bits: u32,
}

/// The oldest time kept at `now` (`now - WINDOW_SECS`, at least 0).
pub open spec fn window_cutoff(now: u64) -> u64 {
    if now >= WINDOW_SECS {
        (now - WINDOW_SECS) as u64
    } else {
        0
    }
}

pub open spec fn at_or_after(cutoff: u64) -> spec_fn(MetricSample) -> bool {
    |s: MetricSample| s.t >= cutoff
}

/// The samples kept at `now`: those inside the window, in order, then only the newest
/// `MAX_SAMPLES` of them.
pub open spec fn prune_spec(samples: Seq<MetricSample>, now: u64) -> Seq<MetricSample> {
    let recent = samples.filter(at_or_after(window_cutoff(now)));
    if recent.len() > MAX_SAMPLES {
        recent.skip(recent.len() - MAX_SAMPLES)
    } else {
        recent
    }
}

pub fn prune(samples: &mut Vec<MetricSample>, now: u64)
    ensures
        final(samples)@ == prune_spec(old(samples)@, now),
{
    let cutoff = if now >= WINDOW_SECS { now - WINDOW_SECS } else { 0 };
    let ghost pred = at_or_after(cutoff);
    let mut recent: Vec<MetricSample> = Vec::new();
    let mut i: usize = 0;
    proof {
        crate::text::lemma_filter_empty(pred);
        assert(samples@.take(0) =~= Seq::<MetricSample>::empty());
    }
    while i < samples.len()
        invariant
            i <= samples.len(),
            pred == at_or_after(cutoff),
            recent@ == samples@.take(i as int).filter(pred),
        decreases samples.len() - i,
    {
        let s = samples[i];
        proof {
            crate::text::lemma_filter_push(samples@.take(i as int), pred, s);
            assert(samples@.take(i + 1) =~= samples@.take(i as int).push(s));
        }
        if s.t >= cutoff {
            recent.push(s);
        }
        i += 1;
    }
    assert(samples@.take(samples.len() as int) =~= samples@);
    if recent.len() > MAX_SAMPLES {
        let drop = recent.len() - MAX_SAMPLES;
        let mut kept: Vec<MetricSample> = Vec::new();
        let mut j: usize = drop;
        while j < recent.len()
            invariant
                drop <= j <= recent.len(),
                kept@ == recent@.subrange(drop as int, j as int),
            decreases recent.len() - j,
        {
            kept.push(recent[j]);
            assert(recent@.subrange(drop as int, j + 1) =~= recent@.subrange(drop as int, j as int).push(recent@[j as int]));
            j += 1;
        }
        assert(kept@ =~= recent@.skip(drop as int));
        *samples = kept;
    } else {
        *samples = recent;
    }
}

/// Whether a sample is due at `now`: none yet, or the last is at least
/// `SAMPLE_MIN_GAP_SECS` old (a last sample from the future counts as just taken).
pub open spec fn sample_due_spec(samples: Seq<MetricSample>, now: u64) -> bool {
    samples.len() == 0 || (now >= samples.last().t && now - samples.last().t >= SAMPLE_MIN_GAP_SECS)
}

pub fn sample_due(samples: &Vec<MetricSample>, now: u64) -> (r: bool)
    ensures
        r == sample_due_spec(samples@, now),
{
    if samples.len() == 0 {
        return true;
    }
    let last = samples[samples.len() - 1].t;
    let gap = if now >= last { now - last } else { 0 };
    gap >= SAMPLE_MIN_GAP_SECS
}

/// Records `sample` (taken at `now`) when one is due, then prunes the window.
pub fn record_sample(samples: &mut Vec<MetricSample>, sample: MetricSample, now: u64)
    requires
        sample.t == now,
    ensures
        final(samples)@ == prune_spec(
            if sample_due_spec(old(samples)@, now) {
                old(samples)@.push(sample)
            } else {
                old(samples)@
            },
            now,
        ),
{
    if sample_due(samples, now) {
        samples.push(sample);
    }
    prune(samples, now);
}

proof fn lemma_filter_all<A>(s: Seq<A>, p: spec_fn(A) -> bool)
    requires
        forall|i: int| 0 <= i < s.len() ==> p(#[trigger] s[i]),
    ensures
        s.filter(p) == s,
    decreases s.len(),
{
    if s.len() == 0 {
        crate::text::lemma_filter_empty(p);
        assert(s =~= Seq::<A>::empty());
    } else {
        let d = s.drop_last();
        assert forall|i: int| 0 <= i < d.len() implies p(#[trigger] d[i]) by {
            assert(d[i] == s[i]);
        }
        lemma_filter_all(d, p);
        crate::text::lemma_filter_push(d, p, s.last());
        assert(d.push(s.last()) =~= s);
    }
}

proof fn lemma_filter_members<A>(s: Seq<A>, p: spec_fn(A) -> bool)
    ensures
        forall|i: int| 0 <= i < s.filter(p).len() ==> p(#[trigger] s.filter(p)[i]),
        s.filter(p).len() <= s.len(),
    decreases s.len(),
{
    if s.len() == 0 {
        crate::text::lemma_filter_empty(p);
    } else {
        let d = s.drop_last();
        lemma_filter_members(d, p);
        crate::text::lemma_filter_push(d, p, s.last());
        assert(d.push(s.last()) =~= s);
    }
}

/// Law: after pruning, every sample lies inside the window, at most `MAX_SAMPLES` remain,
/// and pruning again at the same time changes nothing.
pub proof fn lemma_prune_window(samples: Seq<MetricSample>, now: u64)
    ensures
        prune_spec(samples, now).len() <= MAX_SAMPLES,
        forall|i: int| 0 <= i < prune_spec(samples, now).len() ==> #[trigger] prune_spec(samples, now)[i].t
            >= window_cutoff(now),
        prune_spec(prune_spec(samples, now), now) == prune_spec(samples, now),
{
    let p = at_or_after(window_cutoff(now));
    let recent = samples.filter(p);
    lemma_filter_members(samples, p);
    let kept = prune_spec(samples, now);
    assert forall|i: int| 0 <= i < kept.len() implies #[trigger] kept[i].t >= window_cutoff(now) by {
        if recent.len() > MAX_SAMPLES {
            assert(kept[i] == recent[i + recent.len() - MAX_SAMPLES]);
            assert(p(recent[i + recent.len() - MAX_SAMPLES]));
        } else {
            assert(p(recent[i]));
        }
    }
    assert forall|i: int| 0 <= i < kept.len() implies p(#[trigger] kept[i]) by {
        assert(kept[i].t >= window_cutoff(now));
    }
    lemma_filter_all(kept, p);
}

} // verus!
