//! Speech segments: the maximal runs of speech windows, as sample ranges.

use vstd::prelude::*;
use vstd::arithmetic::mul::{
    lemma_mul_inequality, lemma_mul_is_distributive_add_other_way, lemma_mul_strict_inequality,
};
use vstd::slice::slice_subrange;

verus! {

/// A segment of speech in a buffer: the samples from `start` up to, not
/// including, `end`.
#[derive(Debug, Clone, Copy, PartialEq, Eq, Structural)]
pub struct SpeechSegment {
    pub start: usize,
    pub end: usize,
}

impl SpeechSegment {
    /// Number of samples in the segment.
    pub fn duration_samples(&self) -> (samples: usize)
        requires
            self.start <= self.end,
        ensures
            samples == self.end - self.start,
    {
        self.end - self.start
    }

    /// The part of `audio` that the segment covers. Indices beyond the end
    /// of the buffer are clamped to it, so a segment may be applied to a
    /// buffer that was shortened after the segment was made.
    pub fn extract<'a, T>(&self, audio: &'a [T]) -> (part: &'a [T])
        requires
            self.start <= self.end,
        ensures
            self.end <= audio@.len() ==> part@ == audio@.subrange(
                self.start as int,
                self.end as int,
            ),
            self.start <= audio@.len() < self.end ==> part@ == audio@.subrange(
                self.start as int,
                audio@.len() as int,
            ),
            audio@.len() < self.start ==> part@ == Seq::<T>::empty(),
    {
        let len = audio.len();
        let start = if self.start < len {
            self.start
        } else {
            len
        };
        let end = if self.end < len {
            self.end
        } else {
            len
        };
        let part = slice_subrange(audio, start, end);
        assert(audio@.len() < self.start ==> part@ =~= Seq::<T>::empty());
        part
    }
}

/// Windows `a` up to, not including, `b` form a run of flagged windows that
/// cannot be extended on either side.
pub open spec fn is_maximal_run(flags: Seq<bool>, a: int, b: int) -> bool {
    &&& 0 <= a < b <= flags.len()
    &&& forall|w: int| a <= w < b ==> flags[w]
    &&& a > 0 ==> !flags[a - 1]
    &&& b < flags.len() ==> !flags[b]
}

/// The segment covers exactly the windows `a` up to `b`.
pub open spec fn spans(segment: SpeechSegment, a: int, b: int, size: int) -> bool {
    segment.start == a * size && segment.end == b * size
}

/// The segment spans some maximal run of flagged windows.
pub open spec fn spans_maximal_run(segment: SpeechSegment, flags: Seq<bool>, size: int) -> bool {
    exists|a: int, b: int| #[trigger] is_maximal_run(flags, a, b) && spans(segment, a, b, size)
}

/// Some segment of the list spans the windows `a` up to `b`.
pub open spec fn has_segment(segments: Seq<SpeechSegment>, a: int, b: int, size: int) -> bool {
    exists|i: int| 0 <= i < segments.len() && spans(#[trigger] segments[i], a, b, size)
}

/// `segments` lists the maximal runs of flagged windows: each segment spans
/// one, in the order of the buffer and apart from the next, and every
/// maximal run has its segment.
pub open spec fn is_segmentation(segments: Seq<SpeechSegment>, flags: Seq<bool>, size: int) -> bool {
    &&& forall|i: int|
        0 <= i < segments.len() ==> spans_maximal_run(#[trigger] segments[i], flags, size)
    &&& forall|i: int, j: int|
        0 <= i < j < segments.len() ==> (#[trigger] segments[i]).end < (#[trigger] segments[j]).start
    &&& forall|a: int, b: int| #[trigger]
        is_maximal_run(flags, a, b) ==> has_segment(segments, a, b, size)
}

/// The pair `(a, b)` is among `runs`.
spec fn has_run(runs: Seq<(int, int)>, a: int, b: int) -> bool {
    exists|i: int| 0 <= i < runs.len() && #[trigger] runs[i] == (a, b)
}

/// Merges consecutive flagged windows into segments.
pub fn merge_segments(flags: &[bool], size: usize) -> (segments: Vec<SpeechSegment>)
    requires
        size > 0,
        flags@.len() * size <= usize::MAX,
    ensures
        is_segmentation(segments@, flags@, size as int),
        forall|i: int|
            0 <= i < segments.len() ==> (#[trigger] segments[i]).start < segments[i].end
                <= flags@.len() * size,
{
    let n = flags.len();
    let mut segments: Vec<SpeechSegment> = Vec::new();
    let mut open: Option<usize> = None;
    let ghost mut runs: Seq<(int, int)> = Seq::empty();
    let ghost mut first: int = 0;
    let mut k: usize = 0;
    let mut pos: usize = 0;
    assert(0 * size == 0) by (nonlinear_arith);
    while k < n
        invariant
            size > 0,
            n == flags@.len(),
            n * size <= usize::MAX,
            k <= n,
            pos == k * size,
            closed_runs(segments@, runs, flags@, size as int, k as int),
            open is Some <==> k > 0 && flags@[k - 1],
            open matches Some(s) ==> open_run(runs, flags@, size as int, k as int, s as int, first),
        decreases n - k,
    {
        proof {
            lemma_mul_is_distributive_add_other_way(size as int, k as int, 1);
            lemma_mul_inequality(k + 1, n as int, size as int);
        }
        if flags[k] {
            if open.is_none() {
                open = Some(pos);
                proof {
                    first = k as int;
                }
            }
            proof {
                lemma_extend(segments@, runs, flags@, size as int, k as int);
            }
        } else {
            match open {
                Some(s) => {
                    proof {
                        lemma_close(segments@, runs, flags@, size as int, k as int, s as int, first);
                        runs = runs.push((first, k as int));
                    }
                    segments.push(SpeechSegment { start: s, end: pos });
                    open = None;
                },
                None => {
                    proof {
                        lemma_skip(segments@, runs, flags@, size as int, k as int);
                    }
                },
            }
        }
        pos += size;
        k += 1;
    }
    match open {
        Some(s) => {
            proof {
                lemma_close(segments@, runs, flags@, size as int, n as int, s as int, first);
                runs = runs.push((first, n as int));
            }
            segments.push(SpeechSegment { start: s, end: pos });
        },
        None => {
            proof {
                lemma_skip(segments@, runs, flags@, size as int, n as int);
            }
        },
    }
    proof {
        lemma_runs_are_segmentation(segments@, flags@, size as int, runs);
    }
    segments
}

/// `runs` holds, in order, every maximal run that ends before window
/// `limit`, and the segments span them one by one.
spec fn closed_runs(
    segments: Seq<SpeechSegment>,
    runs: Seq<(int, int)>,
    flags: Seq<bool>,
    size: int,
    limit: int,
) -> bool {
    &&& runs.len() == segments.len()
    &&& forall|i: int|
        0 <= i < runs.len() ==> spans(segments[i], (#[trigger] runs[i]).0, runs[i].1, size)
    &&& forall|i: int|
        0 <= i < runs.len() ==> is_maximal_run(flags, (#[trigger] runs[i]).0, runs[i].1)
    &&& forall|i: int| 0 <= i < runs.len() ==> (#[trigger] runs[i]).1 < limit
    &&& forall|i: int, j: int|
        0 <= i < j < runs.len() ==> (#[trigger] runs[i]).1 < (#[trigger] runs[j]).0
    &&& forall|a: int, b: int| #[trigger]
        is_maximal_run(flags, a, b) && b < limit ==> has_run(runs, a, b)
}

/// Windows `first` up to `k` are flagged, none before them is, the segment
/// under way starts at sample `s`, and every closed run ends before it.
spec fn open_run(
    runs: Seq<(int, int)>,
    flags: Seq<bool>,
    size: int,
    k: int,
    s: int,
    first: int,
) -> bool {
    &&& s == first * size
    &&& 0 <= first < k
    &&& forall|w: int| first <= w < k ==> flags[w]
    &&& first > 0 ==> !flags[first - 1]
    &&& forall|i: int| 0 <= i < runs.len() ==> (#[trigger] runs[i]).1 < first
}

/// A flagged window closes no run.
proof fn lemma_extend(
    segments: Seq<SpeechSegment>,
    runs: Seq<(int, int)>,
    flags: Seq<bool>,
    size: int,
    k: int,
)
    requires
        0 <= k < flags.len(),
        flags[k],
        closed_runs(segments, runs, flags, size, k),
    ensures
        closed_runs(segments, runs, flags, size, k + 1),
{
    assert forall|a: int, b: int| #[trigger]
        is_maximal_run(flags, a, b) && b < k + 1 implies has_run(runs, a, b) by {
        if b == k {
            assert(!flags[b]);
        }
    }
}

/// Where the window before `k` is not flagged, or there is none, no maximal
/// run ends at `k`.
proof fn lemma_skip(
    segments: Seq<SpeechSegment>,
    runs: Seq<(int, int)>,
    flags: Seq<bool>,
    size: int,
    k: int,
)
    requires
        0 <= k <= flags.len(),
        k > 0 ==> !flags[k - 1],
        closed_runs(segments, runs, flags, size, k),
    ensures
        closed_runs(segments, runs, flags, size, k + 1),
{
    assert forall|a: int, b: int| #[trigger]
        is_maximal_run(flags, a, b) && b < k + 1 implies has_run(runs, a, b) by {
        if b == k {
            assert(flags[b - 1]);
        }
    }
}

/// The run under way, ended by an unflagged window or by the end of the
/// flags, is the one maximal run that ends at `k`.
proof fn lemma_close(
    segments: Seq<SpeechSegment>,
    runs: Seq<(int, int)>,
    flags: Seq<bool>,
    size: int,
    k: int,
    s: int,
    first: int,
)
    requires
        0 < k <= flags.len(),
        k < flags.len() ==> !flags[k],
        0 < size,
        0 <= s <= usize::MAX,
        0 <= k * size <= usize::MAX,
        closed_runs(segments, runs, flags, size, k),
        open_run(runs, flags, size, k, s, first),
    ensures
        closed_runs(
            segments.push(SpeechSegment { start: s as usize, end: (k * size) as usize }),
            runs.push((first, k)),
            flags,
            size,
            k + 1,
        ),
{
    let segments2 = segments.push(SpeechSegment { start: s as usize, end: (k * size) as usize });
    let runs2 = runs.push((first, k));
    let last = runs.len() as int;
    assert(is_maximal_run(flags, first, k));
    assert forall|i: int| 0 <= i < runs2.len() implies spans(
        segments2[i],
        (#[trigger] runs2[i]).0,
        runs2[i].1,
        size,
    ) by {
        if i < last {
            assert(runs2[i] == runs[i]);
        }
    }
    assert forall|i: int| 0 <= i < runs2.len() implies is_maximal_run(
        flags,
        (#[trigger] runs2[i]).0,
        runs2[i].1,
    ) by {
        if i < last {
            assert(runs2[i] == runs[i]);
        }
    }
    assert forall|i: int| 0 <= i < runs2.len() implies (#[trigger] runs2[i]).1 < k + 1 by {
        if i < last {
            assert(runs2[i] == runs[i]);
        }
    }
    assert forall|i: int, j: int| 0 <= i < j < runs2.len() implies (#[trigger] runs2[i]).1 < (
    #[trigger] runs2[j]).0 by {
        assert(runs2[i] == runs[i]);
        if j < last {
            assert(runs2[j] == runs[j]);
        }
    }
    assert forall|a: int, b: int| #[trigger]
        is_maximal_run(flags, a, b) && b < k + 1 implies has_run(runs2, a, b) by {
        if b < k {
            assert(has_run(runs, a, b));
            let i = choose|i: int| 0 <= i < runs.len() && #[trigger] runs[i] == (a, b);
            assert(runs2[i] == (a, b));
        } else {
            assert(flags[k - 1]);
            if a < first {
                assert(flags[first - 1]);
            }
            if first < a {
                assert(flags[a - 1]);
            }
            assert(runs2[last] == (a, b));
        }
    }
}

/// A list of segments that spans, run by run, an ordered and complete list
/// of the maximal runs is the segmentation.
proof fn lemma_runs_are_segmentation(
    segments: Seq<SpeechSegment>,
    flags: Seq<bool>,
    size: int,
    runs: Seq<(int, int)>,
)
    requires
        size > 0,
        closed_runs(segments, runs, flags, size, flags.len() as int + 1),
    ensures
        is_segmentation(segments, flags, size),
        forall|i: int|
            0 <= i < segments.len() ==> (#[trigger] segments[i]).start < segments[i].end
                <= flags.len() * size,
{
    assert forall|i: int| 0 <= i < segments.len() implies (#[trigger] segments[i]).start
        < segments[i].end <= flags.len() * size by {
        assert(spans(segments[i], runs[i].0, runs[i].1, size));
        lemma_mul_strict_inequality(runs[i].0, runs[i].1, size);
        lemma_mul_inequality(runs[i].1, flags.len() as int, size);
    }
    assert forall|i: int, j: int| 0 <= i < j < segments.len() implies (#[trigger] segments[i]).end
        < (#[trigger] segments[j]).start by {
        assert(spans(segments[i], runs[i].0, runs[i].1, size));
        assert(spans(segments[j], runs[j].0, runs[j].1, size));
        assert(runs[i].1 < runs[j].0);
        lemma_mul_strict_inequality(runs[i].1, runs[j].0, size);
    }
    assert forall|i: int| 0 <= i < segments.len() implies spans_maximal_run(
        #[trigger] segments[i],
        flags,
        size,
    ) by {
        assert(spans(segments[i], runs[i].0, runs[i].1, size));
        assert(is_maximal_run(flags, runs[i].0, runs[i].1));
    }
    assert forall|a: int, b: int| #[trigger] is_maximal_run(flags, a, b) implies has_segment(
        segments,
        a,
        b,
        size,
    ) by {
        assert(has_run(runs, a, b));
        let i = choose|i: int| 0 <= i < runs.len() && #[trigger] runs[i] == (a, b);
        assert(spans(segments[i], runs[i].0, runs[i].1, size));
    }
}

/// Every segment of a segmentation occurs in every other segmentation of
/// the same flags.
proof fn lemma_segment_shared(
    s1: Seq<SpeechSegment>,
    s2: Seq<SpeechSegment>,
    flags: Seq<bool>,
    size: int,
    i: int,
) -> (j: int)
    requires
        is_segmentation(s1, flags, size),
        is_segmentation(s2, flags, size),
        0 <= i < s1.len(),
    ensures
        0 <= j < s2.len(),
        s2[j] == s1[i],
{
    assert(spans_maximal_run(s1[i], flags, size));
    let (a, b) = choose|a: int, b: int| #[trigger]
        is_maximal_run(flags, a, b) && spans(s1[i], a, b, size);
    assert(has_segment(s2, a, b, size));
    let j = choose|j: int| 0 <= j < s2.len() && spans(#[trigger] s2[j], a, b, size);
    j
}

/// Two segmentations of the same flags agree on their first `m` segments.
proof fn lemma_same_prefix(
    s1: Seq<SpeechSegment>,
    s2: Seq<SpeechSegment>,
    flags: Seq<bool>,
    size: int,
    m: nat,
)
    requires
        0 < size,
        is_segmentation(s1, flags, size),
        is_segmentation(s2, flags, size),
        m <= s1.len(),
    ensures
        m <= s2.len(),
        forall|i: int| 0 <= i < m ==> s1[i] == s2[i],
    decreases m,
{
    if m > 0 {
        let k = (m - 1) as int;
        lemma_same_prefix(s1, s2, flags, size, (m - 1) as nat);
        lemma_starts_increase(s1, flags, size);
        lemma_starts_increase(s2, flags, size);
        let j = lemma_segment_shared(s1, s2, flags, size, k);
        if j < k {
            assert(s1[j] == s2[j]);
            assert(s1[j].start < s1[k].start);
        }
        let i = lemma_segment_shared(s2, s1, flags, size, k);
        if i < k {
            assert(s1[i] == s2[i]);
            assert(s2[i].start < s2[k].start);
        }
        if k < i {
            assert(s1[k].start < s1[i].start);
        }
        if k < j {
            assert(s2[k].start < s2[j].start);
        }
    }
}

/// In a segmentation every segment is non-empty and starts after the one
/// before it.
proof fn lemma_starts_increase(s: Seq<SpeechSegment>, flags: Seq<bool>, size: int)
    requires
        0 < size,
        is_segmentation(s, flags, size),
    ensures
        forall|i: int| 0 <= i < s.len() ==> (#[trigger] s[i]).start < s[i].end,
        forall|i: int, j: int|
            0 <= i < j < s.len() ==> (#[trigger] s[i]).start < (#[trigger] s[j]).start,
{
    assert forall|i: int| 0 <= i < s.len() implies (#[trigger] s[i]).start < s[i].end by {
        assert(spans_maximal_run(s[i], flags, size));
        let (a, b) = choose|a: int, b: int| #[trigger]
            is_maximal_run(flags, a, b) && spans(s[i], a, b, size);
        lemma_mul_strict_inequality(a, b, size);
    }
}

/// The flags determine their segmentation: two lists of segments that both
/// are segmentations of the same flags are equal.
pub proof fn law_segmentation_is_unique(
    s1: Seq<SpeechSegment>,
    s2: Seq<SpeechSegment>,
    flags: Seq<bool>,
    size: int,
)
    requires
        0 < size,
        is_segmentation(s1, flags, size),
        is_segmentation(s2, flags, size),
    ensures
        s1 == s2,
{
    lemma_same_prefix(s1, s2, flags, size, s1.len());
    lemma_same_prefix(s2, s1, flags, size, s2.len());
    assert(s1 =~= s2);
}

} // verus!
