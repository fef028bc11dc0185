//! Voice-activity filtering: reducing a recording to its speech-bearing
//! windows with a recurrent classifier.
//!
//! The classifier itself is handed in as a function from a window and the
//! recurrent state to a speech probability and the next state. The detector
//! owns that state, threads it from window to window and resets it at the
//! start of every recording.

use vstd::prelude::*;
use crate::audio::segments::{
    is_segmentation, law_segmentation_is_unique, merge_segments, spans_maximal_run,
    SpeechSegment,
};
use crate::audio::window::{
    complete_windows, filtered, keep_windows, lemma_window_bounds, padded_at, padded_window,
    window_count,
};

verus! {

/// Number of values in the classifier's recurrent state (2 x 1 x 128).
pub const STATE_LEN: usize = 256;

/// Why the detector refused or failed.
#[derive(Debug, Clone, Copy, PartialEq, Eq, Structural)]
pub enum VadError {
    /// The threshold is not a number between 0 and 1.
    InvalidThreshold,
    /// The window does not hold 512, 1024 or 1536 samples.
    InvalidWindowSize,
    /// The classifier failed on the window.
    InferenceFailed,
    /// The classifier returned a state of the wrong shape.
    InvalidState,
}

/// A speech probability as the classifier reports it: an IEEE 754
/// single-precision number, held by its bit pattern.
#[derive(Debug, Clone, Copy, PartialEq, Eq, Structural)]
pub struct Probability {
    pub bits: u32,
}

impl Probability {
    /// The bit pattern of 0.3, the default threshold.
    pub const DEFAULT_THRESHOLD_BITS: u32 = 0x3e99_999a;

    /// The bit pattern of 1.0.
    pub const ONE_BITS: u32 = 0x3f80_0000;

    /// The bits without the sign.
    pub open spec fn magnitude(self) -> int {
        if self.bits >= 0x8000_0000 {
            self.bits - 0x8000_0000
        } else {
            self.bits as int
        }
    }

    /// The pattern encodes no number.
    pub open spec fn is_nan(self) -> bool {
        self.magnitude() > 0x7f80_0000
    }

    /// An integer that orders patterns as the numbers they encode are
    /// ordered: the magnitude, negated under the sign bit. Both zeros map to 0.
    pub open spec fn order_key(self) -> int {
        if self.bits >= 0x8000_0000 {
            -self.magnitude()
        } else {
            self.magnitude()
        }
    }

    /// `self > other` as numbers: false whenever either is not a number.
    pub open spec fn exceeds(self, other: Probability) -> bool {
        !self.is_nan() && !other.is_nan() && self.order_key() > other.order_key()
    }

    /// `0 <= self <= 1` as numbers.
    pub open spec fn in_unit_interval(self) -> bool {
        !self.is_nan() && 0 <= self.order_key() <= Self::ONE_BITS
    }

    /// The probability with the given bit pattern.
    pub fn from_bits(bits: u32) -> (p: Self)
        ensures
            p.bits == bits,
    {
        Probability { bits }
    }

    /// The bit pattern.
    pub fn to_bits(self) -> (bits: u32)
        ensures
            bits == self.bits,
    {
        self.bits
    }

    fn key(self) -> (k: i64)
        ensures
            k == self.order_key(),
    {
        if self.bits >= 0x8000_0000 {
            -((self.bits - 0x8000_0000) as i64)
        } else {
            self.bits as i64
        }
    }

    fn nan(self) -> (n: bool)
        ensures
            n == self.is_nan(),
    {
        if self.bits >= 0x8000_0000 {
            self.bits - 0x8000_0000 > 0x7f80_0000
        } else {
            self.bits > 0x7f80_0000
        }
    }

    /// Whether this probability is greater than `other`.
    pub fn is_above(self, other: Probability) -> (above: bool)
        ensures
            above == self.exceeds(other),
    {
        !self.nan() && !other.nan() && self.key() > other.key()
    }

    /// Whether this is a number between 0 and 1, both included.
    pub fn is_valid(self) -> (valid: bool)
        ensures
            valid == self.in_unit_interval(),
    {
        !self.nan() && 0 <= self.key() && self.key() <= 0x3f80_0000
    }
}

/// What the classifier returns for one window.
#[derive(Debug)]
pub struct Inference<T> {
    /// Probability that the window holds speech.
    pub probability: Probability,
    /// The recurrent state to hand in with the next window.
    pub state: Vec<T>,
}

/// The window sizes the classifier accepts: 32, 64 or 96 ms at 16 kHz.
pub open spec fn valid_window_size(n: int) -> bool {
    n == 512 || n == 1024 || n == 1536
}

/// The classifier answered, with a state of the right shape.
pub open spec fn accepted<T>(out: Option<Inference<T>>) -> bool {
    out matches Some(inf) && inf.state@.len() == STATE_LEN
}

/// The recurrent state after an answer: the returned state where the answer
/// is accepted, the old state otherwise.
pub open spec fn next_state<T>(state: Seq<T>, out: Option<Inference<T>>) -> Seq<T> {
    if accepted(out) {
        out->Some_0.state@
    } else {
        state
    }
}

/// What detection reports for an answer.
pub open spec fn detection<T>(out: Option<Inference<T>>) -> Result<Probability, VadError> {
    match out {
        None => Err(VadError::InferenceFailed),
        Some(inf) => if inf.state@.len() == STATE_LEN {
            Ok(inf.probability)
        } else {
            Err(VadError::InvalidState)
        },
    }
}

/// Whether an answer makes its window speech: it is accepted and its
/// probability is above the threshold. A failure counts as silence.
pub open spec fn is_speech_answer<T>(threshold: Probability, out: Option<Inference<T>>) -> bool {
    accepted(out) && out->Some_0.probability.exceeds(threshold)
}

/// `out` is a possible answer of `classify` for the given window and state.
pub open spec fn answers<T, F: Fn(Vec<T>, Vec<T>) -> Option<Inference<T>>>(
    classify: F,
    window: Seq<T>,
    state: Seq<T>,
    out: Option<Inference<T>>,
) -> bool {
    exists|w: Vec<T>, s: Vec<T>| w@ == window && s@ == state && call_ensures(classify, (w, s), out)
}

/// `classify` can be called on every window of `size` samples with every
/// state of the right shape.
pub open spec fn callable<T, F: Fn(Vec<T>, Vec<T>) -> Option<Inference<T>>>(
    classify: F,
    size: int,
) -> bool {
    forall|w: Vec<T>, s: Vec<T>|
        w@.len() == size && s@.len() == STATE_LEN ==> call_requires(classify, (w, s))
}

/// The recurrent state after the answers of `trace`, starting from `init`.
pub open spec fn state_after<T>(init: Seq<T>, trace: Seq<Option<Inference<T>>>) -> Seq<T>
    decreases trace.len(),
{
    if trace.len() == 0 {
        init
    } else {
        next_state(state_after(init, trace.drop_last()), trace.last())
    }
}

/// For each answer of `trace`, whether it makes its window speech.
pub open spec fn verdicts<T>(threshold: Probability, trace: Seq<Option<Inference<T>>>) -> Seq<
    bool,
> {
    Seq::new(trace.len(), |k: int| is_speech_answer(threshold, trace[k]))
}

/// `trace` is a possible sequence of answers of `classify` for the first
/// windows of `audio`, taken in order from the state `init`: each window is
/// padded with `silence` to `size` samples and classified under the state
/// that the answers before it left.
pub open spec fn is_run<T, F: Fn(Vec<T>, Vec<T>) -> Option<Inference<T>>>(
    classify: F,
    audio: Seq<T>,
    size: int,
    silence: T,
    init: Seq<T>,
    trace: Seq<Option<Inference<T>>>,
) -> bool {
    forall|k: int|
        0 <= k < trace.len() ==> answers(
            classify,
            padded_at(audio, k * size, size, silence),
            state_after(init, trace.take(k)),
            #[trigger] trace[k],
        )
}

/// `output` and `end_state` are what filtering `audio` gives when the
/// classifier answers with `trace`: every window, the partial last one
/// included, is classified from the initial state on, and the windows judged
/// speech are kept.
pub open spec fn is_filter_run<T, F: Fn(Vec<T>, Vec<T>) -> Option<Inference<T>>>(
    classify: F,
    audio: Seq<T>,
    size: int,
    silence: T,
    threshold: Probability,
    trace: Seq<Option<Inference<T>>>,
    output: Seq<T>,
    end_state: Seq<T>,
) -> bool {
    &&& trace.len() == window_count(audio.len() as int, size)
    &&& is_run(classify, audio, size, silence, zero_state(silence), trace)
    &&& output == filtered(audio, size, verdicts(threshold, trace))
    &&& end_state == state_after(zero_state(silence), trace)
}

/// `segments` and `end_state` are what segmenting `audio` gives when the
/// classifier answers with `trace`: only the complete windows are
/// classified, from the initial state on, and the runs of windows judged
/// speech become the segments.
pub open spec fn is_segment_run<T, F: Fn(Vec<T>, Vec<T>) -> Option<Inference<T>>>(
    classify: F,
    audio: Seq<T>,
    size: int,
    silence: T,
    threshold: Probability,
    trace: Seq<Option<Inference<T>>>,
    segments: Seq<SpeechSegment>,
    end_state: Seq<T>,
) -> bool {
    &&& trace.len() == complete_windows(audio.len() as int, size)
    &&& is_run(classify, audio, size, silence, zero_state(silence), trace)
    &&& is_segmentation(segments, verdicts(threshold, trace), size)
    &&& end_state == state_after(zero_state(silence), trace)
}

/// The state every recording starts from.
pub open spec fn zero_state<T>(silence: T) -> Seq<T> {
    Seq::new(STATE_LEN as nat, |i: int| silence)
}

/// A vector of `n` copies of `value`.
pub fn filled<T: Copy>(value: T, n: usize) -> (v: Vec<T>)
    ensures
        v@ == Seq::new(n as nat, |i: int| value),
{
    let mut v: Vec<T> = Vec::new();
    let mut i: usize = 0;
    while i < n
        invariant
            i <= n,
            v@ == Seq::new(i as nat, |j: int| value),
        decreases n - i,
    {
        v.push(value);
        assert(v@ =~= Seq::new((i + 1) as nat, |j: int| value));
        i += 1;
    }
    v
}

/// A copy of a slice.
pub fn copy_of<T: Copy>(samples: &[T]) -> (v: Vec<T>)
    ensures
        v@ == samples@,
{
    let mut v: Vec<T> = Vec::new();
    let mut i: usize = 0;
    while i < samples.len()
        invariant
            i <= samples.len(),
            v@ == samples@.take(i as int),
        decreases samples.len() - i,
    {
        v.push(samples[i]);
        assert(v@ =~= samples@.take(i + 1));
        i += 1;
    }
    assert(samples@.take(samples.len() as int) =~= samples@);
    v
}

/// A voice-activity detector: a threshold and the classifier's recurrent
/// state.
pub struct VoiceActivityDetector<T> {
    threshold: Probability,
    silence: T,
    state: Vec<T>,
}

impl<T> VoiceActivityDetector<T> {
    #[verifier::type_invariant]
    spec fn well_formed(self) -> bool {
        self.state@.len() == STATE_LEN && self.threshold.in_unit_interval()
    }
}

impl<T: Copy> VoiceActivityDetector<T> {
    /// The threshold above which a window counts as speech.
    pub closed spec fn spec_threshold(self) -> Probability {
        self.threshold
    }

    /// The sample value that stands for silence.
    pub closed spec fn spec_silence(self) -> T {
        self.silence
    }

    /// The recurrent state.
    pub closed spec fn spec_state(self) -> Seq<T> {
        self.state@
    }

    /// Creates a detector. `threshold` must be a number from 0 to 1;
    /// `silence` is the sample value of silence, which pads short windows
    /// and fills the initial state.
    pub fn new(threshold: Probability, silence: T) -> (result: Result<Self, VadError>)
        ensures
            threshold.in_unit_interval() <==> result is Ok,
            result matches Ok(vad) ==> vad.spec_threshold() == threshold && vad.spec_silence()
                == silence && vad.spec_state() == zero_state(silence),
            result matches Err(e) ==> e == VadError::InvalidThreshold,
    {
        if !threshold.is_valid() {
            return Err(VadError::InvalidThreshold);
        }
        Ok(VoiceActivityDetector { threshold, silence, state: filled(silence, STATE_LEN) })
    }

    /// Creates a detector with the default threshold of 0.3.
    pub fn new_default(silence: T) -> (result: Result<Self, VadError>)
        ensures
            result matches Ok(vad) && vad.spec_threshold().bits
                == Probability::DEFAULT_THRESHOLD_BITS && vad.spec_silence() == silence
                && vad.spec_state() == zero_state(silence),
    {
        Self::new(Probability { bits: Probability::DEFAULT_THRESHOLD_BITS }, silence)
    }

    /// The current threshold.
    pub fn threshold(&self) -> (threshold: Probability)
        ensures
            threshold == self.spec_threshold(),
    {
        self.threshold
    }

    /// A copy of the recurrent state.
    pub fn state(&self) -> (state: Vec<T>)
        ensures
            state@ == self.spec_state(),
            state@.len() == STATE_LEN,
    {
        proof {
            use_type_invariant(self);
        }
        copy_of(self.state.as_slice())
    }

    /// Sets a new threshold; one that is not a number from 0 to 1 is refused
    /// and changes nothing.
    pub fn set_threshold(&mut self, threshold: Probability) -> (result: Result<(), VadError>)
        ensures
            final(self).spec_silence() == old(self).spec_silence(),
            final(self).spec_state() == old(self).spec_state(),
            threshold.in_unit_interval() ==> result is Ok && final(self).spec_threshold()
                == threshold,
            !threshold.in_unit_interval() ==> result == Err::<(), VadError>(
                VadError::InvalidThreshold,
            ) && final(self).spec_threshold() == old(self).spec_threshold(),
    {
        proof {
            use_type_invariant(&*self);
        }
        if !threshold.is_valid() {
            return Err(VadError::InvalidThreshold);
        }
        self.threshold = threshold;
        Ok(())
    }

    /// Puts the recurrent state back to its initial value.
    pub fn reset(&mut self)
        ensures
            final(self).spec_threshold() == old(self).spec_threshold(),
            final(self).spec_silence() == old(self).spec_silence(),
            final(self).spec_state() == zero_state(final(self).spec_silence()),
    {
        proof {
            use_type_invariant(&*self);
        }
        self.state = filled(self.silence, STATE_LEN);
    }

    /// Takes in the classifier's answer for a window: an answer with a state
    /// of the right shape replaces the recurrent state and yields its
    /// probability; a failure, or a state of the wrong shape, is an error
    /// and leaves the state as it was.
    pub fn accept(&mut self, answer: Option<Inference<T>>) -> (result: Result<Probability, VadError>)
        ensures
            final(self).spec_threshold() == old(self).spec_threshold(),
            final(self).spec_silence() == old(self).spec_silence(),
            result == detection(answer),
            final(self).spec_state() == next_state(old(self).spec_state(), answer),
    {
        proof {
            use_type_invariant(&*self);
        }
        match answer {
            None => Err(VadError::InferenceFailed),
            Some(inference) => {
                if inference.state.len() != STATE_LEN {
                    Err(VadError::InvalidState)
                } else {
                    let probability = inference.probability;
                    self.state = inference.state;
                    Ok(probability)
                }
            },
        }
    }

    /// Runs the classifier on one window and advances the recurrent state.
    ///
    /// A window of any other size than 512, 1024 or 1536 samples is refused
    /// before the classifier is called. A failure of the classifier, or a
    /// returned state of the wrong shape, leaves the state as it was.
    pub fn detect<F: Fn(Vec<T>, Vec<T>) -> Option<Inference<T>>>(
        &mut self,
        window: &[T],
        classify: &F,
    ) -> (result: Result<Probability, VadError>)
        requires
            callable(*classify, window@.len() as int),
        ensures
            final(self).spec_threshold() == old(self).spec_threshold(),
            final(self).spec_silence() == old(self).spec_silence(),
            !valid_window_size(window@.len() as int) ==> result == Err::<Probability, VadError>(
                VadError::InvalidWindowSize,
            ) && final(self).spec_state() == old(self).spec_state(),
            valid_window_size(window@.len() as int) ==> exists|out: Option<Inference<T>>|
                answers(*classify, window@, old(self).spec_state(), out) && result == detection(
                    out,
                ) && final(self).spec_state() == next_state(old(self).spec_state(), out),
    {
        proof {
            use_type_invariant(&*self);
        }
        let n = window.len();
        if n != 512 && n != 1024 && n != 1536 {
            return Err(VadError::InvalidWindowSize);
        }
        let w = copy_of(window);
        let s = copy_of(self.state.as_slice());
        let out = classify(w, s);
        assert(answers(*classify, window@, old(self).spec_state(), out));
        self.accept(out)
    }

    /// Whether a window holds speech: detection succeeds with a probability
    /// above the threshold. A window that detection refuses or fails on
    /// counts as silence.
    pub fn is_speech<F: Fn(Vec<T>, Vec<T>) -> Option<Inference<T>>>(
        &mut self,
        window: &[T],
        classify: &F,
    ) -> (speech: bool)
        requires
            callable(*classify, window@.len() as int),
        ensures
            final(self).spec_threshold() == old(self).spec_threshold(),
            final(self).spec_silence() == old(self).spec_silence(),
            !valid_window_size(window@.len() as int) ==> !speech && final(self).spec_state() == old(self).spec_state(),
            valid_window_size(window@.len() as int) ==> exists|out: Option<Inference<T>>|
                answers(*classify, window@, old(self).spec_state(), out) && speech
                    == is_speech_answer(old(self).spec_threshold(), out) && final(self).spec_state() == next_state(old(self).spec_state(), out),
    {
        let threshold = self.threshold;
        match self.detect(window, classify) {
            Ok(p) => p.is_above(threshold),
            Err(_) => false,
        }
    }

    /// Classifies the first `count` windows of `audio` in order, from the
    /// current state on.
    fn classify_windows<F: Fn(Vec<T>, Vec<T>) -> Option<Inference<T>>>(
        &mut self,
        audio: &[T],
        size: usize,
        count: usize,
        classify: &F,
    ) -> (flags: Vec<bool>)
        requires
            valid_window_size(size as int),
            callable(*classify, size as int),
            count <= window_count(audio@.len() as int, size as int),
        ensures
            final(self).spec_threshold() == old(self).spec_threshold(),
            final(self).spec_silence() == old(self).spec_silence(),
            exists|trace: Seq<Option<Inference<T>>>|
                trace.len() == count && is_run(
                    *classify,
                    audio@,
                    size as int,
                    old(self).spec_silence(),
                    old(self).spec_state(),
                    trace,
                ) && flags@ == verdicts(old(self).spec_threshold(), trace) && final(self).spec_state() == state_after(old(self).spec_state(), trace),
    {
        let ghost init = self.spec_state();
        let ghost threshold = self.spec_threshold();
        let ghost mut trace: Seq<Option<Inference<T>>> = Seq::empty();
        let silence = self.silence;
        let len = audio.len();
        let mut flags: Vec<bool> = Vec::new();
        let mut k: usize = 0;
        assert(flags@ =~= verdicts(threshold, trace));
        while k < count
            invariant
                len == audio@.len(),
                valid_window_size(size as int),
                callable(*classify, size as int),
                count <= window_count(audio@.len() as int, size as int),
                k <= count,
                silence == self.spec_silence(),
                self.spec_silence() == old(self).spec_silence(),
                self.spec_threshold() == threshold,
                threshold == old(self).spec_threshold(),
                init == old(self).spec_state(),
                trace.len() == k,
                is_run(*classify, audio@, size as int, silence, init, trace),
                flags@ == verdicts(threshold, trace),
                self.spec_state() == state_after(init, trace),
            decreases count - k,
        {
            proof {
                lemma_window_bounds(audio@.len() as int, size as int, k as int);
            }
            let window = padded_window(audio, k * size, size, silence);
            let ghost before = self.spec_state();
            let speech = self.is_speech(window.as_slice(), classify);
            proof {
                let out = choose|out: Option<Inference<T>>|
                    answers(*classify, window@, before, out) && speech == is_speech_answer(
                        threshold,
                        out,
                    ) && self.spec_state() == next_state(before, out);
                let longer = trace.push(out);
                assert(longer.drop_last() =~= trace);
                assert forall|j: int| 0 <= j < longer.len() implies answers(
                    *classify,
                    padded_at(audio@, j * size, size as int, silence),
                    state_after(init, longer.take(j)),
                    #[trigger] longer[j],
                ) by {
                    if j < k {
                        assert(longer.take(j) =~= trace.take(j));
                        assert(longer[j] == trace[j]);
                    } else {
                        assert(longer.take(j) =~= trace);
                    }
                }
                trace = longer;
            }
            flags.push(speech);
            assert(flags@ =~= verdicts(threshold, trace));
            k += 1;
        }
        flags
    }

    /// Reduces a recording to its speech: cuts it into windows of
    /// `window_size` samples, classifies each from a fresh state on, and
    /// concatenates the windows judged speech.
    ///
    /// A last window that is short is padded with silence for
    /// classification only; where it is judged speech its real samples are
    /// kept. Under a window size that the classifier does not take, no
    /// window is speech and nothing is kept.
    pub fn filter_silence<F: Fn(Vec<T>, Vec<T>) -> Option<Inference<T>>>(
        &mut self,
        audio: &[T],
        window_size: usize,
        classify: &F,
    ) -> (speech: Vec<T>)
        requires
            valid_window_size(window_size as int) ==> callable(*classify, window_size as int),
        ensures
            final(self).spec_threshold() == old(self).spec_threshold(),
            final(self).spec_silence() == old(self).spec_silence(),
            speech@.len() <= audio@.len(),
            !valid_window_size(window_size as int) ==> speech@ == Seq::<T>::empty() && final(self).spec_state() == zero_state(old(self).spec_silence()),
            valid_window_size(window_size as int) ==> exists|trace: Seq<Option<Inference<T>>>|
                is_filter_run(
                    *classify,
                    audio@,
                    window_size as int,
                    old(self).spec_silence(),
                    old(self).spec_threshold(),
                    trace,
                    speech@,
                    final(self).spec_state(),
                ),
    {
        self.reset();
        if window_size != 512 && window_size != 1024 && window_size != 1536 {
            return Vec::new();
        }
        let len = audio.len();
        let full = len / window_size;
        proof {
            lemma_window_bounds(len as int, window_size as int, full as int);
        }
        let count = if len % window_size > 0 {
            full + 1
        } else {
            full
        };
        let ghost silence = self.spec_silence();
        let ghost threshold = self.spec_threshold();
        let flags = self.classify_windows(audio, window_size, count, classify);
        let speech = keep_windows(audio, window_size, flags.as_slice());
        proof {
            let trace = choose|trace: Seq<Option<Inference<T>>>|
                trace.len() == count && is_run(
                    *classify,
                    audio@,
                    window_size as int,
                    silence,
                    zero_state(silence),
                    trace,
                ) && flags@ == verdicts(threshold, trace) && self.spec_state() == state_after(
                    zero_state(silence),
                    trace,
                );
            assert(is_filter_run(
                *classify,
                audio@,
                window_size as int,
                silence,
                threshold,
                trace,
                speech@,
                self.spec_state(),
            ));
        }
        speech
    }

    /// Finds the speech in a recording: classifies its complete windows of
    /// `window_size` samples from a fresh state on and merges consecutive
    /// windows judged speech into segments.
    ///
    /// Samples after the last complete window are left out altogether, so no
    /// segment reaches beyond the complete windows. Under a window size that
    /// the classifier does not take there are no segments.
    pub fn get_speech_segments<F: Fn(Vec<T>, Vec<T>) -> Option<Inference<T>>>(
        &mut self,
        audio: &[T],
        window_size: usize,
        classify: &F,
    ) -> (segments: Vec<SpeechSegment>)
        requires
            valid_window_size(window_size as int) ==> callable(*classify, window_size as int),
        ensures
            final(self).spec_threshold() == old(self).spec_threshold(),
            final(self).spec_silence() == old(self).spec_silence(),
            forall|i: int|
                0 <= i < segments@.len() ==> (#[trigger] segments@[i]).start < segments@[i].end
                    <= complete_windows(audio@.len() as int, window_size as int) * window_size
                    <= audio@.len(),
            !valid_window_size(window_size as int) ==> segments@ == Seq::<SpeechSegment>::empty()
                && final(self).spec_state() == zero_state(old(self).spec_silence()),
            valid_window_size(window_size as int) ==> exists|trace: Seq<Option<Inference<T>>>|
                is_segment_run(
                    *classify,
                    audio@,
                    window_size as int,
                    old(self).spec_silence(),
                    old(self).spec_threshold(),
                    trace,
                    segments@,
                    final(self).spec_state(),
                ),
    {
        self.reset();
        if window_size != 512 && window_size != 1024 && window_size != 1536 {
            return Vec::new();
        }
        let len = audio.len();
        let count = len / window_size;
        proof {
            lemma_window_bounds(len as int, window_size as int, count as int);
        }
        let ghost silence = self.spec_silence();
        let ghost threshold = self.spec_threshold();
        let flags = self.classify_windows(audio, window_size, count, classify);
        let segments = merge_segments(flags.as_slice(), window_size);
        proof {
            let trace = choose|trace: Seq<Option<Inference<T>>>|
                trace.len() == count && is_run(
                    *classify,
                    audio@,
                    window_size as int,
                    silence,
                    zero_state(silence),
                    trace,
                ) && flags@ == verdicts(threshold, trace) && self.spec_state() == state_after(
                    zero_state(silence),
                    trace,
                );
            assert(is_segment_run(
                *classify,
                audio@,
                window_size as int,
                silence,
                threshold,
                trace,
                segments@,
                self.spec_state(),
            ));
        }
        segments
    }
}

/// Two answers agree: both are failures, or both carry the same probability
/// and the same state.
pub open spec fn same_answer<T>(a: Option<Inference<T>>, b: Option<Inference<T>>) -> bool {
    match (a, b) {
        (None, None) => true,
        (Some(x), Some(y)) => x.probability == y.probability && x.state@ == y.state@,
        _ => false,
    }
}

/// `classify` is a function of its arguments: called twice on the same
/// window and state it gives answers that agree.
pub open spec fn deterministic<T, F: Fn(Vec<T>, Vec<T>) -> Option<Inference<T>>>(
    classify: F,
) -> bool {
    forall|w1: Vec<T>, s1: Vec<T>, o1: Option<Inference<T>>, w2: Vec<T>, s2: Vec<T>, o2: Option<Inference<T>>|
        w1@ == w2@ && s1@ == s2@ && #[trigger] call_ensures(classify, (w1, s1), o1)
            && #[trigger] call_ensures(classify, (w2, s2), o2) ==> same_answer(o1, o2)
}

/// Two runs of a deterministic classifier over the same windows from the
/// same state agree on their first `k` answers and on the state after them.
pub proof fn lemma_runs_agree<T, F: Fn(Vec<T>, Vec<T>) -> Option<Inference<T>>>(
    classify: F,
    audio: Seq<T>,
    size: int,
    silence: T,
    init: Seq<T>,
    t1: Seq<Option<Inference<T>>>,
    t2: Seq<Option<Inference<T>>>,
    k: nat,
)
    requires
        deterministic(classify),
        is_run(classify, audio, size, silence, init, t1),
        is_run(classify, audio, size, silence, init, t2),
        k <= t1.len(),
        k <= t2.len(),
    ensures
        state_after(init, t1.take(k as int)) == state_after(init, t2.take(k as int)),
        forall|j: int| 0 <= j < k ==> same_answer(#[trigger] t1[j], t2[j]),
    decreases k,
{
    if k > 0 {
        let j = (k - 1) as int;
        lemma_runs_agree(classify, audio, size, silence, init, t1, t2, (k - 1) as nat);
        let window = padded_at(audio, j * size, size, silence);
        let state = state_after(init, t1.take(j));
        assert(answers(classify, window, state, t1[j]));
        assert(answers(classify, window, state, t2[j]));
        assert(same_answer(t1[j], t2[j]));
        assert(t1.take(k as int).drop_last() =~= t1.take(j));
        assert(t2.take(k as int).drop_last() =~= t2.take(j));
        assert(t1.take(k as int).last() == t1[j]);
        assert(t2.take(k as int).last() == t2[j]);
    }
}

/// Two runs of a deterministic classifier over the same windows from the
/// same state give the same verdicts and end in the same state.
pub proof fn lemma_runs_give_same_verdicts<T, F: Fn(Vec<T>, Vec<T>) -> Option<Inference<T>>>(
    classify: F,
    audio: Seq<T>,
    size: int,
    silence: T,
    init: Seq<T>,
    threshold: Probability,
    t1: Seq<Option<Inference<T>>>,
    t2: Seq<Option<Inference<T>>>,
)
    requires
        deterministic(classify),
        is_run(classify, audio, size, silence, init, t1),
        is_run(classify, audio, size, silence, init, t2),
        t1.len() == t2.len(),
    ensures
        verdicts(threshold, t1) == verdicts(threshold, t2),
        state_after(init, t1) == state_after(init, t2),
{
    lemma_runs_agree(classify, audio, size, silence, init, t1, t2, t1.len());
    assert(t1.take(t1.len() as int) =~= t1);
    assert(t2.take(t2.len() as int) =~= t2);
    assert(verdicts(threshold, t1) =~= verdicts(threshold, t2));
}

/// Filtering is repeatable: with a deterministic classifier, filtering the
/// same buffer again gives the same audio and leaves the same state,
/// whatever state the detector was in before either call.
pub proof fn law_filtering_is_repeatable<T, F: Fn(Vec<T>, Vec<T>) -> Option<Inference<T>>>(
    classify: F,
    audio: Seq<T>,
    size: int,
    silence: T,
    threshold: Probability,
    t1: Seq<Option<Inference<T>>>,
    out1: Seq<T>,
    end1: Seq<T>,
    t2: Seq<Option<Inference<T>>>,
    out2: Seq<T>,
    end2: Seq<T>,
)
    requires
        deterministic(classify),
        is_filter_run(classify, audio, size, silence, threshold, t1, out1, end1),
        is_filter_run(classify, audio, size, silence, threshold, t2, out2, end2),
    ensures
        out1 == out2,
        end1 == end2,
{
    lemma_runs_give_same_verdicts(
        classify,
        audio,
        size,
        silence,
        zero_state(silence),
        threshold,
        t1,
        t2,
    );
}

/// Segmenting is repeatable: with a deterministic classifier, segmenting
/// the same buffer again gives the same segments and leaves the same state,
/// whatever state the detector was in before either call.
pub proof fn law_segmenting_is_repeatable<T, F: Fn(Vec<T>, Vec<T>) -> Option<Inference<T>>>(
    classify: F,
    audio: Seq<T>,
    size: int,
    silence: T,
    threshold: Probability,
    t1: Seq<Option<Inference<T>>>,
    segments1: Seq<SpeechSegment>,
    end1: Seq<T>,
    t2: Seq<Option<Inference<T>>>,
    segments2: Seq<SpeechSegment>,
    end2: Seq<T>,
)
    requires
        deterministic(classify),
        is_segment_run(classify, audio, size, silence, threshold, t1, segments1, end1),
        is_segment_run(classify, audio, size, silence, threshold, t2, segments2, end2),
    ensures
        segments1 == segments2,
        end1 == end2,
{
    lemma_runs_give_same_verdicts(
        classify,
        audio,
        size,
        silence,
        zero_state(silence),
        threshold,
        t1,
        t2,
    );
    if size > 0 {
        law_segmentation_is_unique(segments1, segments2, verdicts(threshold, t1), size);
    } else {
        let flags = verdicts(threshold, t1);
        assert(flags.len() == 0);
        if segments1.len() > 0 {
            assert(spans_maximal_run(segments1[0], flags, size));
        }
        if segments2.len() > 0 {
            assert(spans_maximal_run(segments2[0], flags, size));
        }
        assert(segments1 =~= segments2);
    }
}

} // verus!
