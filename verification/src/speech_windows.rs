//! The window bookkeeping of the noise filter that runs before recognition.
//!
//! The audio is cut into windows of 320 samples (20 ms at 16 kHz); the application
//! measures each window's loudness and marks it active when it is above the
//! threshold. From those marks come the counts the noise filter judges by, and the span of
//! samples kept for the recogniser (the active part with a margin on both sides).

use vstd::prelude::*;

verus! {

/// Samples per window.
pub const WINDOW: usize = 320;

/// Windows of margin kept before the first and after the last active window.
pub const MARGIN_WINDOWS: usize = 5;

/// The number of active windows.
pub open spec fn count_active(active: Seq<bool>) -> nat
    decreases active.len(),
{
    if active.len() == 0 {
        0
    } else {
        count_active(active.drop_last()) + if active.last() { 1nat } else { 0 }
    }
}

/// The length of the run of active windows that ends the sequence.
pub open spec fn trailing_run(active: Seq<bool>) -> nat
    decreases active.len(),
{
    if active.len() == 0 || !active.last() {
        0
    } else {
        trailing_run(active.drop_last()) + 1
    }
}

/// The longest run of consecutive active windows.
pub open spec fn longest_run(active: Seq<bool>) -> nat
    decreases active.len(),
{
    if active.len() == 0 {
        0
    } else {
        let before = longest_run(active.drop_last());
        let t = trailing_run(active);
        if t > before { t } else { before }
    }
}

/// Counts the active windows and the longest run of them.
pub fn active_stats(active: &Vec<bool>) -> (r: (usize, usize))
    ensures
        r.0 == count_active(active@),
        r.1 == longest_run(active@),
{
    let mut count: usize = 0;
    let mut run: usize = 0;
    let mut best: usize = 0;
    let mut i: usize = 0;
    while i < active.len()
        invariant
            i <= active.len(),
            count == count_active(active@.take(i as int)),
            run == trailing_run(active@.take(i as int)),
            best == longest_run(active@.take(i as int)),
            count <= i,
            run <= i,
            best <= i,
        decreases active.len() - i,
    {
        proof {
            assert(active@.take(i + 1).drop_last() =~= active@.take(i as int));
            assert(active@.take(i + 1).last() == active@[i as int]);
        }
        if active[i] {
            count = count + 1;
            run = run + 1;
            if run > best {
                best = run;
            }
        } else {
            run = 0;
        }
        i = i + 1;
    }
    assert(active@.take(active.len() as int) =~= active@);
    (count, best)
}

/// Whether `i` is the first active window.
pub open spec fn is_first_active(active: Seq<bool>, i: int) -> bool {
    0 <= i < active.len() && active[i] && forall|j: int| 0 <= j < i ==> !active[j]
}

/// Whether `i` is the last active window.
pub open spec fn is_last_active(active: Seq<bool>, i: int) -> bool {
    0 <= i < active.len() && active[i] && forall|j: int| i < j < active.len() ==> !active[j]
}

/// The span of samples `[start, end)` kept for the recogniser out of `n_samples`:
/// from five windows before the first active window (or the start) to five windows
/// after the last (or the end of the audio); `None` when that is empty. With no
/// active window the span runs from the first window to five windows past the last.
pub open spec fn speech_span_spec(active: Seq<bool>, n_samples: nat, first: int, last: int) -> Option<(nat, nat)> {
    let f = if first >= MARGIN_WINDOWS { first - MARGIN_WINDOWS } else { 0 };
    let start = f * WINDOW;
    let end_raw = (last + 1 + MARGIN_WINDOWS) * WINDOW;
    let end = if end_raw < n_samples { end_raw } else { n_samples as int };
    if start >= end { None } else { Some((start as nat, end as nat)) }
}

/// The sample span the noise filter keeps. `active[i]` tells whether window `i` is active.
pub fn speech_span(active: &Vec<bool>, n_samples: usize) -> (r: Option<(usize, usize)>)
    requires
        (active@.len() + 1 + MARGIN_WINDOWS) * WINDOW <= usize::MAX,
    ensures
        active@.len() == 0 ==> r is None,
        active@.len() > 0 ==> {
            let first = if exists|i: int| is_first_active(active@, i) {
                choose|i: int| is_first_active(active@, i)
            } else {
                0
            };
            let last = if exists|i: int| is_last_active(active@, i) {
                choose|i: int| is_last_active(active@, i)
            } else {
                active@.len() - 1
            };
            r == match speech_span_spec(active@, n_samples as nat, first, last) {
                Some((s, e)) => Some((s as usize, e as usize)),
                None => None,
            }
        },
{
    if active.len() == 0 {
        return None;
    }
    let mut i: usize = 0;
    while i < active.len() && !active[i]
        invariant
            i <= active.len(),
            forall|j: int| 0 <= j < i ==> !active@[j],
        decreases active.len() - i,
    {
        i = i + 1;
    }
    let first: usize = if i < active.len() { i } else { 0 };
    proof {
        if i < active.len() {
            assert(is_first_active(active@, i as int));
            lemma_first_unique(active@, i as int);
        } else {
            assert(!exists|k: int| is_first_active(active@, k));
        }
    }
    let mut k: usize = active.len();
    while k > 0 && !active[k - 1]
        invariant
            k <= active.len(),
            forall|j: int| k <= j < active.len() ==> !active@[j],
        decreases k,
    {
        k = k - 1;
    }
    let last: usize = if k > 0 { k - 1 } else { active.len() - 1 };
    proof {
        if k > 0 {
            assert(is_last_active(active@, k - 1));
            lemma_last_unique(active@, k - 1);
        } else {
            assert(!exists|m: int| is_last_active(active@, m));
        }
    }
    assert(first < active.len());
    assert(last < active.len());
    let f = if first >= MARGIN_WINDOWS { first - MARGIN_WINDOWS } else { 0 };
    assert(f * WINDOW <= (active@.len() + 1 + MARGIN_WINDOWS) * WINDOW) by (nonlinear_arith)
        requires f <= active@.len();
    let start = f * WINDOW;
    assert((last + 1 + MARGIN_WINDOWS) * WINDOW <= (active@.len() + 1 + MARGIN_WINDOWS) * WINDOW) by (nonlinear_arith)
        requires last < active@.len();
    let end_raw = (last + 1 + MARGIN_WINDOWS) * WINDOW;
    let end = if end_raw < n_samples { end_raw } else { n_samples };
    if start >= end {
        None
    } else {
        Some((start, end))
    }
}


proof fn lemma_first_unique(active: Seq<bool>, i: int)
    requires
        is_first_active(active, i),
    ensures
        (choose|k: int| is_first_active(active, k)) == i,
{
    let k = choose|k: int| is_first_active(active, k);
    if k < i {
        assert(!active[k]);
    } else if k > i {
        assert(!active[i]);
    }
}

proof fn lemma_last_unique(active: Seq<bool>, i: int)
    requires
        is_last_active(active, i),
    ensures
        (choose|k: int| is_last_active(active, k)) == i,
{
    let k = choose|k: int| is_last_active(active, k);
    if k < i {
        assert(!active[i]);
    } else if k > i {
        assert(!active[k]);
    }
}

/// How much of a window's level the noise filter keeps: quiet windows are strongly
/// attenuated, those just above the threshold halved roughly, the rest kept.
#[derive(Clone, Copy, Debug, PartialEq, Eq, Structural)]
pub enum WindowGain {
    /// Below the threshold: scaled by 0.08.
    Quiet,
    /// Below 1.35 times the threshold: scaled by 0.45.
    Weak,
    /// Kept as is.
    Full,
}

/// The gain class of a window from its two comparisons with the threshold.
pub fn window_gain(above_threshold: bool, above_strong: bool) -> (r: WindowGain)
    ensures
        r == (if !above_threshold { WindowGain::Quiet } else if !above_strong { WindowGain::Weak } else { WindowGain::Full }),
{
    if !above_threshold {
        WindowGain::Quiet
    } else if !above_strong {
        WindowGain::Weak
    } else {
        WindowGain::Full
    }
}

// ---------------------------------------------------------------- laws

/// The kept span lies within the audio and starts on a window boundary.
pub proof fn law_span_within_audio(active: Seq<bool>, n_samples: nat, first: int, last: int)
    requires
        0 <= first,
        0 <= last,
        speech_span_spec(active, n_samples, first, last) is Some,
    ensures
        ({
            let (s, e) = speech_span_spec(active, n_samples, first, last)->0;
            s < e && e <= n_samples && s % (WINDOW as nat) == 0
        }),
{
    let f = if first >= MARGIN_WINDOWS { first - MARGIN_WINDOWS } else { 0 };
    assert((f * WINDOW) % (WINDOW as int) == 0) by (nonlinear_arith)
        requires f >= 0;
}

/// The longest run never exceeds the number of active windows.
pub proof fn law_longest_run_bounded(active: Seq<bool>)
    ensures
        trailing_run(active) <= count_active(active),
        longest_run(active) <= count_active(active),
    decreases active.len(),
{
    if active.len() > 0 {
        law_longest_run_bounded(active.drop_last());
    }
}

/// Every window in `[i, j)` is active.
pub open spec fn all_active(active: Seq<bool>, i: int, j: int) -> bool {
    forall|k: int| i <= k < j ==> #[trigger] active[k]
}

proof fn lemma_trailing_run_shape(active: Seq<bool>)
    ensures
        trailing_run(active) <= active.len(),
        all_active(active, active.len() - trailing_run(active), active.len() as int),
        trailing_run(active) < active.len() ==> !active[active.len() - trailing_run(active) - 1],
    decreases active.len(),
{
    if active.len() > 0 && active.last() {
        let b = active.drop_last();
        lemma_trailing_run_shape(b);
        assert forall|k: int| active.len() - trailing_run(active) <= k < active.len() implies #[trigger] active[k] by {
            if k < active.len() - 1 {
                assert(active[k] == b[k]);
            }
        }
        if trailing_run(active) < active.len() {
            assert(active[active.len() - trailing_run(active) - 1] == b[b.len() - trailing_run(b) - 1]);
        }
    }
}

/// The longest run is the length of the longest stretch of consecutive active
/// windows: no stretch of active windows is longer, and one stretch of exactly that
/// length exists when it is not zero.
pub proof fn law_longest_run_is_maximal(active: Seq<bool>)
    ensures
        forall|i: int, j: int| 0 <= i <= j <= active.len() && #[trigger] all_active(active, i, j)
            ==> j - i <= longest_run(active),
        longest_run(active) > 0 ==> exists|i: int| 0 <= i && i + longest_run(active) <= active.len()
            && #[trigger] all_active(active, i, i + longest_run(active)),
    decreases active.len(),
{
    if active.len() > 0 {
        let b = active.drop_last();
        let n = active.len() as int;
        law_longest_run_is_maximal(b);
        lemma_trailing_run_shape(active);
        let t = trailing_run(active);
        assert forall|i: int, j: int| 0 <= i <= j <= n && #[trigger] all_active(active, i, j)
            implies j - i <= longest_run(active) by {
            if j < n {
                assert forall|k: int| i <= k < j implies #[trigger] b[k] by {
                    assert(active[k]);
                }
                assert(all_active(b, i, j));
            } else if j - i > t {
                assert(active[n - t - 1]);
            }
        }
        if longest_run(active) > 0 {
            if t > longest_run(b) {
                let i = n - t;
                assert(longest_run(active) == t);
                assert(all_active(active, i, i + longest_run(active)));
            } else {
                let i = choose|i: int| 0 <= i && i + longest_run(b) <= b.len()
                    && #[trigger] all_active(b, i, i + longest_run(b));
                assert forall|k: int| i <= k < i + longest_run(b) implies #[trigger] active[k] by {
                    assert(b[k]);
                }
                assert(all_active(active, i, i + longest_run(active)));
            }
        }
    }
}

} // verus!
