//! The write-activity monitor: reading the kernel's write counter, and
//! deciding from a sliding window of samples when the host went idle or active.

use vstd::prelude::*;
use crate::command::Error;
use crate::text::{parse_u64, parse_u64_spec, trim, trim_str, words, words_of};

verus! {

/// Reads the sectors-written counter, the seventh whitespace-separated field
/// of a block device's statistics.
pub fn stat_find_writes(stat_output: &str) -> (r: Result<u64, Error>)
    ensures
        words_of(stat_output@).len() < 7 ==> (r matches Err(Error::StatWritesNotFound(o))
            && o@ == stat_output@),
        words_of(stat_output@).len() >= 7 ==> match parse_u64_spec(words_of(stat_output@)[6]) {
            Some(n) => r == Ok::<u64, Error>(n),
            None => r matches Err(Error::StatWritesParse(f)) && f@ == words_of(stat_output@)[6],
        },
{
    let ws = words(stat_output);
    if ws.len() < 7 {
        return Err(Error::StatWritesNotFound(String::from_str(stat_output)));
    }
    assert(ws@[6]@ == words_of(stat_output@)[6]);
    match parse_u64(ws[6].as_str()) {
        Some(n) => Ok(n),
        None => Err(Error::StatWritesParse(ws[6].clone())),
    }
}

/// Reads the kernel minor number that the volume manager reports for a volume.
pub fn parse_lvs_minor(lvs_output: &str) -> (r: Result<u64, Error>)
    ensures
        match parse_u64_spec(trim(lvs_output@)) {
            Some(n) => r == Ok::<u64, Error>(n),
            None => r matches Err(Error::LvsMinorParse(f)) && f@ == trim(lvs_output@),
        },
{
    let t = trim_str(lvs_output);
    match parse_u64(t.as_str()) {
        Some(n) => Ok(n),
        None => Err(Error::LvsMinorParse(t)),
    }
}

/// What a full window of samples must show for the wait to end.
#[derive(Debug, Clone, Copy, PartialEq, Eq, Structural)]
pub enum WriteCondition {
    /// Every sample in the window is the same: nothing was written.
    Unchanged,
    /// Some sample differs from another: something was written.
    Changed,
}

/// Every sample of `v` equals its first.
pub open spec fn all_same(v: Seq<u64>) -> bool {
    forall|i: int| 0 <= i < v.len() ==> #[trigger] v[i] == v[0]
}

pub open spec fn condition_holds(c: WriteCondition, v: Seq<u64>) -> bool {
    match c {
        WriteCondition::Unchanged => all_same(v),
        WriteCondition::Changed => !all_same(v),
    }
}

/// The window after a new sample: the sample is appended and, once the window
/// holds more than `size` samples, the oldest leaves.
pub open spec fn slide(v: Seq<u64>, w: u64, size: nat) -> Seq<u64> {
    if v.len() + 1 > size {
        v.push(w).subrange(v.len() + 1 - size, v.len() + 1 as int)
    } else {
        v.push(w)
    }
}

/// The window after the samples `s`, one after another, from an empty window.
pub open spec fn fed(s: Seq<u64>, size: nat) -> Seq<u64>
    decreases s.len(),
{
    if s.len() == 0 {
        Seq::empty()
    } else {
        slide(fed(s.drop_last(), size), s.last(), size)
    }
}

/// The latest `size` samples of `s`, or all of them where there are fewer.
pub open spec fn latest(s: Seq<u64>, size: nat) -> Seq<u64> {
    if s.len() > size {
        s.subrange(s.len() - size, s.len() as int)
    } else {
        s
    }
}

/// A sliding window over the write counter, sampled once per second, that
/// tells when the counter has shown a condition across a span of seconds.
pub struct WriteWindow {
    samples: Vec<u64>,
    size: usize,
    condition: WriteCondition,
}

impl WriteWindow {
    pub closed spec fn samples(&self) -> Seq<u64> {
        self.samples@
    }

    /// The number of samples that a full window holds: one more than the seconds it spans.
    pub closed spec fn size(&self) -> nat {
        self.size as nat
    }

    pub closed spec fn condition(&self) -> WriteCondition {
        self.condition
    }

    pub open spec fn wf(&self) -> bool {
        self.samples().len() <= self.size() && self.size() >= 1
    }

    /// An empty window that waits for `condition` across `seconds` seconds.
    pub fn new(seconds: usize, condition: WriteCondition) -> (r: WriteWindow)
        requires
            seconds < usize::MAX,
        ensures
            r.wf(),
            r.samples() == Seq::<u64>::empty(),
            r.size() == seconds + 1,
            r.condition() == condition,
    {
        WriteWindow { samples: Vec::new(), size: seconds + 1, condition }
    }

    /// A window that waits until nothing has been written for `seconds` seconds.
    pub fn idle(seconds: usize) -> (r: WriteWindow)
        requires
            seconds < usize::MAX,
        ensures
            r.wf(),
            r.samples() == Seq::<u64>::empty(),
            r.size() == seconds + 1,
            r.condition() == WriteCondition::Unchanged,
    {
        WriteWindow::new(seconds, WriteCondition::Unchanged)
    }

    /// A window that waits until something is written within `seconds` seconds.
    pub fn active(seconds: usize) -> (r: WriteWindow)
        requires
            seconds < usize::MAX,
        ensures
            r.wf(),
            r.samples() == Seq::<u64>::empty(),
            r.size() == seconds + 1,
            r.condition() == WriteCondition::Changed,
    {
        WriteWindow::new(seconds, WriteCondition::Changed)
    }

    /// Takes a new sample of the counter, and tells whether the window is full
    /// and shows the condition, so that the wait is over.
    pub fn observe(&mut self, writes: u64) -> (done: bool)
        requires
            old(self).wf(),
        ensures
            final(self).wf(),
            final(self).size() == old(self).size(),
            final(self).condition() == old(self).condition(),
            final(self).samples() == slide(old(self).samples(), writes, old(self).size()),
            done == (final(self).samples().len() == final(self).size() && condition_holds(
                final(self).condition(),
                final(self).samples(),
            )),
    {
        let ghost pushed = self.samples@.push(writes);
        self.samples.push(writes);
        if self.samples.len() > self.size {
            self.samples.remove(0);
            assert(self.samples@ =~= pushed.subrange(pushed.len() - self.size, pushed.len() as int));
        }
        if self.samples.len() < self.size {
            return false;
        }
        let first = self.samples[0];
        let mut same = true;
        let mut i: usize = 1;
        while i < self.samples.len()
            invariant
                1 <= i <= self.samples@.len(),
                first == self.samples@[0],
                same == (forall|j: int| 0 <= j < i ==> #[trigger] self.samples@[j] == first),
            decreases self.samples@.len() - i,
        {
            if self.samples[i] != first {
                same = false;
            }
            i = i + 1;
        }
        match self.condition {
            WriteCondition::Unchanged => same,
            WriteCondition::Changed => !same,
        }
    }
}

/// After any run of samples, the window holds exactly the latest `size` of
/// them: whether a wait ends at a sample depends on those samples alone.
pub proof fn lemma_window_holds_latest(s: Seq<u64>, size: nat)
    requires
        size >= 1,
    ensures
        fed(s, size) == latest(s, size),
    decreases s.len(),
{
    if s.len() > 0 {
        lemma_window_holds_latest(s.drop_last(), size);
        let p = s.drop_last();
        if s.len() > size {
            if p.len() > size {
                assert(latest(p, size).push(s.last()).subrange(1, size + 1 as int) =~= latest(s, size));
            } else {
                assert(p.push(s.last()).subrange(1, size + 1 as int) =~= latest(s, size));
            }
        } else {
            assert(p.push(s.last()) =~= s);
        }
    }
}

/// A counter that never decreases has written nothing across a window exactly
/// when the window's first and last samples agree.
pub proof fn lemma_unchanged_iff_ends_agree(v: Seq<u64>)
    requires
        v.len() > 0,
        forall|i: int, j: int| 0 <= i <= j < v.len() ==> v[i] <= v[j],
    ensures
        all_same(v) <==> v[0] == v.last(),
{
    if v[0] == v.last() {
        assert forall|i: int| 0 <= i < v.len() implies #[trigger] v[i] == v[0] by {
            assert(v[0] <= v[i] && v[i] <= v[v.len() - 1]);
        }
    }
}

/// A wait fed the samples `s` one by one ends at the last of them exactly when
/// there are at least `size` samples and the latest `size` show the condition.
pub proof fn lemma_wait_ends_on_latest(s: Seq<u64>, size: nat, c: WriteCondition)
    requires
        size >= 1,
    ensures
        (fed(s, size).len() == size && condition_holds(c, fed(s, size))) == (s.len() >= size
            && condition_holds(c, s.subrange(s.len() - size, s.len() as int))),
{
    lemma_window_holds_latest(s, size);
    if s.len() == size {
        assert(s.subrange(0, s.len() as int) =~= s);
    }
}

} // verus!
