//! Cutting a buffer into consecutive analysis windows.
//!
//! Window `k` of a buffer cut at `size` samples starts at sample `k * size`.
//! The last window may hold fewer than `size` samples.

use vstd::prelude::*;
use vstd::arithmetic::div_mod::{lemma_fundamental_div_mod, lemma_mod_bound};
use vstd::arithmetic::mul::{lemma_mul_inequality, lemma_mul_is_distributive_add_other_way};

verus! {

/// Number of windows that a buffer of `len` samples is cut into: the
/// complete ones and, where samples are left over, one partial window.
pub open spec fn window_count(len: int, size: int) -> int {
    if size <= 0 {
        0
    } else if len % size > 0 {
        len / size + 1
    } else {
        len / size
    }
}

/// Number of complete windows in a buffer of `len` samples.
pub open spec fn complete_windows(len: int, size: int) -> int {
    if size <= 0 {
        0
    } else {
        len / size
    }
}

/// The samples of the window that starts at `start`: `size` of them, or as
/// many as the buffer still holds.
pub open spec fn slice_at<T>(audio: Seq<T>, start: int, size: int) -> Seq<T> {
    if start + size <= audio.len() {
        audio.subrange(start, start + size)
    } else {
        audio.subrange(start, audio.len() as int)
    }
}

/// The window that starts at `start`, filled up to `size` samples with
/// `silence` where the buffer ends early.
pub open spec fn padded_at<T>(audio: Seq<T>, start: int, size: int, silence: T) -> Seq<T> {
    Seq::new(
        size as nat,
        |i: int|
            if start + i < audio.len() {
                audio[start + i]
            } else {
                silence
            },
    )
}

/// The windows among the first `n` that are flagged, concatenated in order.
/// A window without a flag counts as not flagged.
pub open spec fn kept<T>(audio: Seq<T>, size: int, flags: Seq<bool>, n: nat) -> Seq<T>
    decreases n,
{
    if n == 0 {
        Seq::empty()
    } else if n - 1 < flags.len() && flags[n - 1] {
        kept(audio, size, flags, (n - 1) as nat) + slice_at(audio, (n - 1) * size, size)
    } else {
        kept(audio, size, flags, (n - 1) as nat)
    }
}

/// What is left of a buffer when only its flagged windows are kept.
pub open spec fn filtered<T>(audio: Seq<T>, size: int, flags: Seq<bool>) -> Seq<T> {
    kept(audio, size, flags, window_count(audio.len() as int, size) as nat)
}

/// Where window `k` lies in a buffer, for `k` up to the number of complete
/// windows.
pub proof fn lemma_window_bounds(len: int, size: int, k: int)
    requires
        0 <= len,
        0 < size,
        0 <= k <= len / size,
    ensures
        0 <= k * size <= len,
        (k + 1) * size == k * size + size,
        k < len / size ==> k * size + size <= len,
        k == len / size ==> len - k * size == len % size && len % size < size,
        0 <= len / size <= len,
        len % size > 0 ==> len / size < len,
{
    lemma_fundamental_div_mod(len, size);
    lemma_mod_bound(len, size);
    lemma_mul_inequality(k, len / size, size);
    lemma_mul_is_distributive_add_other_way(size, k, 1);
    assert(size * (len / size) == (len / size) * size) by (nonlinear_arith);
    assert(0 <= k * size) by (nonlinear_arith)
        requires
            0 <= k,
            0 < size,
    ;
    if k < len / size {
        lemma_mul_inequality(k + 1, len / size, size);
    }
    assert(0 <= len / size <= len) by (nonlinear_arith)
        requires
            0 <= len,
            0 < size,
            len == (len / size) * size + len % size,
            0 <= len % size,
    ;
    if len % size > 0 {
        assert(len / size < len) by (nonlinear_arith)
            requires
                0 <= len,
                0 < size,
                len == (len / size) * size + len % size,
                0 < len % size,
                0 <= len / size,
        ;
    }
}

/// Keeping windows never adds samples: what is kept of the first `n`
/// windows is no longer than the part of the buffer that they span.
pub proof fn lemma_kept_len<T>(audio: Seq<T>, size: int, flags: Seq<bool>, n: nat)
    requires
        0 < size,
        n <= window_count(audio.len() as int, size),
    ensures
        kept(audio, size, flags, n).len() <= audio.len(),
        n <= (audio.len() as int) / size ==> kept(audio, size, flags, n).len() <= n * size,
    decreases n,
{
    let len = audio.len() as int;
    if n > 0 {
        let k = (n - 1) as int;
        lemma_kept_len(audio, size, flags, (n - 1) as nat);
        lemma_window_bounds(len, size, k);
    }
}

/// Filtering never adds samples: whatever the flags, what is kept is no
/// longer than the buffer.
pub proof fn law_filtered_never_longer<T>(audio: Seq<T>, size: int, flags: Seq<bool>)
    ensures
        filtered(audio, size, flags).len() <= audio.len(),
{
    if size > 0 {
        lemma_kept_len(audio, size, flags, window_count(audio.len() as int, size) as nat);
    }
}

/// What is kept grows window by window, each time by one contiguous range
/// of the buffer that is no longer than a window.
pub proof fn law_kept_is_concatenation<T>(audio: Seq<T>, size: int, flags: Seq<bool>, k: nat)
    requires
        0 < size,
        k < window_count(audio.len() as int, size),
    ensures
        0 <= k * size <= audio.len(),
        slice_at(audio, k * size, size).len() <= size,
        slice_at(audio, k * size, size) == audio.subrange(
            k * size,
            k * size + slice_at(audio, k * size, size).len(),
        ),
        kept(audio, size, flags, k + 1) == kept(audio, size, flags, k) + if k < flags.len()
            && flags[k as int] {
            slice_at(audio, k * size, size)
        } else {
            Seq::empty()
        },
{
    lemma_window_bounds(audio.len() as int, size, k as int);
    assert(kept(audio, size, flags, k) + Seq::<T>::empty() =~= kept(audio, size, flags, k));
}

/// Puts `padding` samples of `silence` before a recording, to give a
/// recurrent classifier time to settle before the recording begins.
pub fn pad_front<T: Copy>(audio: &[T], padding: usize, silence: T) -> (padded: Vec<T>)
    ensures
        padded@ == Seq::new(padding as nat, |i: int| silence) + audio@,
{
    let mut padded: Vec<T> = Vec::new();
    let mut i: usize = 0;
    while i < padding
        invariant
            i <= padding,
            padded@ == Seq::new(i as nat, |j: int| silence),
        decreases padding - i,
    {
        padded.push(silence);
        assert(padded@ =~= Seq::new((i + 1) as nat, |j: int| silence));
        i += 1;
    }
    let ghost front = padded@;
    let mut k: usize = 0;
    while k < audio.len()
        invariant
            k <= audio.len(),
            padded@ == front + audio@.take(k as int),
        decreases audio.len() - k,
    {
        padded.push(audio[k]);
        assert(padded@ =~= front + audio@.take(k + 1));
        k += 1;
    }
    assert(audio@.take(audio.len() as int) =~= audio@);
    padded
}

/// Copies the window that starts at `start`, padding it with `silence` to
/// `size` samples.
pub fn padded_window<T: Copy>(audio: &[T], start: usize, size: usize, silence: T) -> (window: Vec<T>)
    ensures
        window@ == padded_at(audio@, start as int, size as int, silence),
{
    let mut window: Vec<T> = Vec::new();
    let mut i: usize = 0;
    while i < size
        invariant
            i <= size,
            window@ == padded_at(audio@, start as int, i as int, silence),
        decreases size - i,
    {
        let sample = if start < audio.len() && i < audio.len() - start {
            audio[start + i]
        } else {
            silence
        };
        window.push(sample);
        assert(window@ =~= padded_at(audio@, start as int, i + 1, silence));
        i += 1;
    }
    window
}

/// Keeps the flagged windows of a buffer, in order; a window without a flag
/// is dropped. A window size of zero keeps nothing.
pub fn keep_windows<T: Copy>(audio: &[T], size: usize, flags: &[bool]) -> (out: Vec<T>)
    ensures
        out@ == filtered(audio@, size as int, flags@),
        out@.len() <= audio@.len(),
{
    let mut out: Vec<T> = Vec::new();
    if size == 0 {
        return out;
    }
    let len = audio.len();
    let full = len / size;
    let count = if len % size > 0 {
        proof {
            lemma_window_bounds(len as int, size as int, full as int);
        }
        full + 1
    } else {
        full
    };
    let mut k: usize = 0;
    while k < count
        invariant
            0 < size,
            len == audio@.len(),
            full == len / size,
            count == window_count(len as int, size as int),
            k <= count,
            out@ == kept(audio@, size as int, flags@, k as nat),
        decreases count - k,
    {
        proof {
            lemma_window_bounds(len as int, size as int, k as int);
        }
        let start = k * size;
        let end = if k < full {
            start + size
        } else {
            len
        };
        if k < flags.len() && flags[k] {
            let ghost before = out@;
            let mut j = start;
            while j < end
                invariant
                    start <= j <= end <= len,
                    len == audio@.len(),
                    out@ == before + audio@.subrange(start as int, j as int),
                decreases end - j,
            {
                out.push(audio[j]);
                assert(out@ =~= before + audio@.subrange(start as int, j + 1));
                j += 1;
            }
            assert(audio@.subrange(start as int, end as int) == slice_at(
                audio@,
                start as int,
                size as int,
            ));
        }
        k += 1;
    }
    proof {
        lemma_kept_len(audio@, size as int, flags@, count as nat);
    }
    out
}

} // verus!
