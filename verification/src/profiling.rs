//! Frame time history windows and the bookkeeping of the post-processing
//! profiler: which effects count as active and how often statistics are
//! reported.
use vstd::prelude::*;

verus! {

/// The history after recording `value` in a window of `size` entries: when
/// the window is full its oldest entry makes room first.
pub open spec fn spec_record<T>(history: Seq<T>, value: T, size: nat) -> Seq<T> {
    if history.len() >= size {
        history.drop_first().push(value)
    } else {
        history.push(value)
    }
}

/// Records a frame time in the history: when the history already holds
/// `history_size` entries or more, the oldest one is dropped first.
pub fn update_frame_time<T>(history: &mut Vec<T>, value: T, history_size: usize)
    requires
        old(history)@.len() > 0 || history_size > 0,
    ensures
        final(history)@ == spec_record(old(history)@, value, history_size as nat),
{
    if history.len() >= history_size {
        let _oldest = history.remove(0);
    }
    history.push(value);
}

/// The samples after appending `value` to a window that keeps at most `max`
/// of them.
pub open spec fn spec_push_sample<T>(samples: Seq<T>, value: T, max: nat) -> Seq<T> {
    if samples.len() + 1 > max {
        samples.push(value).drop_first()
    } else {
        samples.push(value)
    }
}

/// Appends a frame sample and, when that makes the window longer than
/// `max_samples`, drops the oldest sample.
pub fn push_frame_sample<T>(samples: &mut Vec<T>, value: T, max_samples: usize)
    ensures
        final(samples)@ == spec_push_sample(old(samples)@, value, max_samples as nat),
{
    samples.push(value);
    if samples.len() > max_samples {
        let _oldest = samples.remove(0);
    }
}

/// A window that is not over its size stays within it, and the newest entry
/// is the one just recorded.
pub proof fn lemma_record_bounded<T>(history: Seq<T>, value: T, size: nat)
    requires
        history.len() <= size,
        size > 0,
    ensures
        spec_record(history, value, size).len() <= size,
        spec_record(history, value, size).last() == value,
        forall|i: int|
            0 <= i < spec_record(history, value, size).len() - 1 ==> #[trigger] spec_record(
                history,
                value,
                size,
            )[i] == history[history.len() - (spec_record(history, value, size).len() - 1) + i],
{
}

/// The sample window never holds more than `max` samples once it is within
/// that bound.
pub proof fn lemma_push_sample_bounded<T>(samples: Seq<T>, value: T, max: nat)
    requires
        samples.len() <= max,
    ensures
        spec_push_sample(samples, value, max).len() <= max,
        max > 0 ==> spec_push_sample(samples, value, max).last() == value,
{
}

/// The names of the active effects, in a fixed order, from which effects are
/// switched on.
pub open spec fn spec_active_effects(
    bloom: bool,
    chromatic_aberration: bool,
    vignette: bool,
    film_grain: bool,
    lens_distortion: bool,
) -> Seq<Seq<char>> {
    let s0 = if bloom { seq!["Bloom"@] } else { seq![] };
    let s1 = if chromatic_aberration { s0.push("Chromatic Aberration"@) } else { s0 };
    let s2 = if vignette { s1.push("Vignette"@) } else { s1 };
    let s3 = if film_grain { s2.push("Film Grain"@) } else { s2 };
    if lens_distortion { s3.push("Lens Distortion"@) } else { s3 }
}

/// Each effect is listed exactly when its own switch is on, and the list
/// holds one name per switched-on effect, bloom first and lens distortion
/// last.
pub proof fn lemma_active_effects_follow_switches(
    bloom: bool,
    chromatic_aberration: bool,
    vignette: bool,
    film_grain: bool,
    lens_distortion: bool,
)
    ensures
        ({
            let names = spec_active_effects(
                bloom,
                chromatic_aberration,
                vignette,
                film_grain,
                lens_distortion,
            );
            &&& names.contains("Bloom"@) <==> bloom
            &&& names.contains("Chromatic Aberration"@) <==> chromatic_aberration
            &&& names.contains("Vignette"@) <==> vignette
            &&& names.contains("Film Grain"@) <==> film_grain
            &&& names.contains("Lens Distortion"@) <==> lens_distortion
            &&& names.len() == (if bloom { 1int } else { 0 }) + (if chromatic_aberration {
                1int
            } else {
                0
            }) + (if vignette { 1int } else { 0 }) + (if film_grain { 1int } else { 0 }) + (
            if lens_distortion {
                1int
            } else {
                0
            })
            &&& bloom ==> names[0] == "Bloom"@
            &&& lens_distortion ==> names[names.len() - 1] == "Lens Distortion"@
        }),
{
    reveal_strlit("Bloom");
    reveal_strlit("Chromatic Aberration");
    reveal_strlit("Vignette");
    reveal_strlit("Film Grain");
    reveal_strlit("Lens Distortion");
    let b = "Bloom"@;
    let c = "Chromatic Aberration"@;
    let v = "Vignette"@;
    let f = "Film Grain"@;
    let l = "Lens Distortion"@;
    assert(b.len() != c.len() && b.len() != v.len() && b.len() != f.len() && b.len() != l.len());
    assert(c.len() != v.len() && c.len() != f.len() && c.len() != l.len());
    assert(v.len() != f.len() && v.len() != l.len());
    assert(f.len() != l.len());
    let s0 = if bloom { seq![b] } else { Seq::<Seq<char>>::empty() };
    let s1 = if chromatic_aberration { s0.push(c) } else { s0 };
    let s2 = if vignette { s1.push(v) } else { s1 };
    let s3 = if film_grain { s2.push(f) } else { s2 };
    let s4 = if lens_distortion { s3.push(l) } else { s3 };
    assert(s4 == spec_active_effects(bloom, chromatic_aberration, vignette, film_grain, lens_distortion));
    assert(s0.contains(b) <==> bloom) by {
        if bloom {
            assert(s0[0] == b);
        }
    }
    assert forall|x: Seq<char>| #[trigger] s4.contains(x) <==> (s3.contains(x) || (lens_distortion
        && x == l)) by {
        if lens_distortion && x == l {
            assert(s4[s3.len() as int] == x);
        }
        if s3.contains(x) && lens_distortion {
            let k = choose|k: int| 0 <= k < s3.len() && s3[k] == x;
            assert(s4[k] == x);
        }
    }
    assert forall|x: Seq<char>| #[trigger] s3.contains(x) <==> (s2.contains(x) || (film_grain
        && x == f)) by {
        if film_grain && x == f {
            assert(s3[s2.len() as int] == x);
        }
        if s2.contains(x) && film_grain {
            let k = choose|k: int| 0 <= k < s2.len() && s2[k] == x;
            assert(s3[k] == x);
        }
    }
    assert forall|x: Seq<char>| #[trigger] s2.contains(x) <==> (s1.contains(x) || (vignette
        && x == v)) by {
        if vignette && x == v {
            assert(s2[s1.len() as int] == x);
        }
        if s1.contains(x) && vignette {
            let k = choose|k: int| 0 <= k < s1.len() && s1[k] == x;
            assert(s2[k] == x);
        }
    }
    assert forall|x: Seq<char>| #[trigger] s1.contains(x) <==> (s0.contains(x) || (
    chromatic_aberration && x == c)) by {
        if chromatic_aberration && x == c {
            assert(s1[s0.len() as int] == x);
        }
        if s0.contains(x) && chromatic_aberration {
            let k = choose|k: int| 0 <= k < s0.len() && s0[k] == x;
            assert(s1[k] == x);
        }
    }
    assert forall|x: Seq<char>| #[trigger] s0.contains(x) implies x == b by {
        let k = choose|k: int| 0 <= k < s0.len() && s0[k] == x;
    }
}

/// Lists the effects that are switched on: bloom, chromatic aberration,
/// vignette, film grain and lens distortion, in that order.
pub fn active_effect_names(
    bloom: bool,
    chromatic_aberration: bool,
    vignette: bool,
    film_grain: bool,
    lens_distortion: bool,
) -> (names: Vec<String>)
    ensures
        names@.len() == spec_active_effects(
            bloom,
            chromatic_aberration,
            vignette,
            film_grain,
            lens_distortion,
        ).len(),
        forall|i: int|
            0 <= i < names@.len() ==> (#[trigger] names@[i])@ == spec_active_effects(
                bloom,
                chromatic_aberration,
                vignette,
                film_grain,
                lens_distortion,
            )[i],
{
    let mut names: Vec<String> = Vec::new();
    if bloom {
        names.push(String::from_str("Bloom"));
    }
    if chromatic_aberration {
        names.push(String::from_str("Chromatic Aberration"));
    }
    if vignette {
        names.push(String::from_str("Vignette"));
    }
    if film_grain {
        names.push(String::from_str("Film Grain"));
    }
    if lens_distortion {
        names.push(String::from_str("Lens Distortion"));
    }
    names
}

/// The number of effects a measured overhead is shared between: the number
/// of active effects, and at least one.
pub fn overhead_share_count(active_effects: usize) -> (n: usize)
    ensures
        n == if active_effects == 0 { 1 } else { active_effects },
        n >= 1,
{
    if active_effects == 0 {
        1
    } else {
        active_effects
    }
}

/// Statistics are reported every sixtieth frame of history.
pub fn should_report_stats(history_len: usize) -> (b: bool)
    ensures
        b == (history_len % 60 == 0),
{
    history_len % 60 == 0
}

} // verus!
