//! The audio program of an export: which clips are heard, where their samples go, and how
//! the finished program is cut into encoder frames.
use crate::arith::{ceil_div, lemma_ceil_div};
use crate::timeline::SourceId;
use vstd::prelude::*;

verus! {

/// Sample rate of the program.
pub const SAMPLE_RATE: i64 = 48_000;

/// A packet without a time.
pub const NO_PTS: i64 = i64::MIN;

/// A clip of the timeline, as far as the choice of clips depends on it.
#[derive(Debug, Clone, Copy, PartialEq, Eq, Structural)]
pub struct AudioClip {
    /// Place in the timeline's clip list.
    pub position: usize,
    pub source_id: SourceId,
    pub t_in: i64,
    pub t_out: i64,
    /// Where in its source the clip starts, in ticks of the project's clock.
    pub source_in: i64,
    /// The source has an audio stream.
    pub has_audio: bool,
    /// The clip's track is heard: not muted, and soloed if any track is.
    pub track_active: bool,
    pub muted: bool,
}

impl AudioClip {
    /// The clip is part of the export's program.
    pub open spec fn chosen(self, pts_in: i64, pts_out: i64) -> bool {
        self.t_out > pts_in && self.t_in < pts_out && self.has_audio && self.track_active
    }

    /// `self` comes before `other`: it starts earlier, or at the same time and earlier in the
    /// clip list.
    pub open spec fn before(self, other: AudioClip) -> bool {
        self.t_in < other.t_in || (self.t_in == other.t_in && self.position < other.position)
    }
}

/// `r` holds exactly the chosen ones of `clips`, in order of their start, clips that start
/// together in the order of the clip list.
pub open spec fn is_program(r: Seq<AudioClip>, clips: Seq<AudioClip>, pts_in: i64, pts_out: i64) -> bool {
    &&& forall|c: AudioClip| #[trigger] r.contains(c) <==> clips.contains(c) && c.chosen(pts_in, pts_out)
    &&& forall|i: int, j: int| 0 <= i < j < r.len() ==> (#[trigger] r[i]).before(#[trigger] r[j])
}

/// Positions tell the clips of a list apart and follow its order.
pub open spec fn numbered(clips: Seq<AudioClip>) -> bool {
    forall|i: int| 0 <= i < clips.len() ==> (#[trigger] clips[i]).position == i
}

/// The clips whose sound is in the export, in the order they are mixed.
pub fn select_clips(clips: &Vec<AudioClip>, pts_in: i64, pts_out: i64) -> (r: Vec<AudioClip>)
    requires
        numbered(clips@),
    ensures
        is_program(r@, clips@, pts_in, pts_out),
{
    let mut r: Vec<AudioClip> = Vec::new();
    let mut i: usize = 0;
    while i < clips.len()
        invariant
            i <= clips@.len(),
            numbered(clips@),
            is_program(r@, clips@.take(i as int), pts_in, pts_out),
            forall|k: int| 0 <= k < r@.len() ==> (#[trigger] r@[k]).position < i,
        decreases clips@.len() - i,
    {
        let c = clips[i];
        let ghost prior = r@;
        proof {
            assert(clips@.take(i + 1) =~= clips@.take(i as int).push(c));
            lemma_push_has(clips@.take(i as int), c);
        }
        if c.t_out > pts_in && c.t_in < pts_out && c.has_audio && c.track_active {
            let mut at: usize = r.len();
            while at > 0 && r[at - 1].t_in > c.t_in
                invariant
                    at <= r@.len(),
                    r@ == prior,
                    forall|k: int| at <= k < r@.len() ==> (#[trigger] r@[k]).t_in > c.t_in,
                decreases at,
            {
                at -= 1;
            }
            r.insert(at, c);
            proof {
                lemma_insert_has(prior, at as int, c);
                assert(r@ =~= prior.insert(at as int, c));
                assert forall|a: int, b: int| 0 <= a < b < r@.len() implies (
                #[trigger] r@[a]).before(#[trigger] r@[b]) by {
                    let pa = if a < at { a } else { a - 1 };
                    let pb = if b < at { b } else { b - 1 };
                    if a != at && b != at {
                        assert(prior[pa].before(prior[pb]));
                    } else if b == at {
                        assert(prior[pa].position < i);
                        if at > 0 {
                            let last = at - 1;
                            assert(prior[last].t_in <= c.t_in);
                            if pa < last {
                                assert(prior[pa].before(prior[last as int]));
                            }
                        }
                    } else {
                        assert(prior[pb].t_in > c.t_in);
                    }
                }
                assert forall|k: int| 0 <= k < r@.len() implies (#[trigger] r@[k]).position < i
                    + 1 by {
                    if k != at {
                        let pk = if k < at { k } else { k - 1 };
                        assert(prior[pk].position < i);
                    }
                }
            }
        }
        i += 1;
    }
    assert(clips@.take(i as int) =~= clips@);
    r
}

proof fn lemma_push_has(s: Seq<AudioClip>, c: AudioClip)
    ensures
        forall|x: AudioClip| #[trigger] s.push(c).contains(x) <==> s.contains(x) || x == c,
{
    assert forall|x: AudioClip| #[trigger] s.push(c).contains(x) <==> s.contains(x) || x == c by {
        if s.contains(x) {
            let i = choose|i: int| 0 <= i < s.len() && s[i] == x;
            assert(s.push(c)[i] == x);
        }
        assert(s.push(c)[s.len() as int] == c);
    }
}

proof fn lemma_insert_has(s: Seq<AudioClip>, at: int, c: AudioClip)
    requires
        0 <= at <= s.len(),
    ensures
        forall|x: AudioClip| #[trigger] s.insert(at, c).contains(x) <==> s.contains(x) || x == c,
{
    let t = s.insert(at, c);
    assert forall|x: AudioClip| #[trigger] t.contains(x) <==> s.contains(x) || x == c by {
        if s.contains(x) {
            let i = choose|i: int| 0 <= i < s.len() && s[i] == x;
            if i < at {
                assert(t[i] == x);
            } else {
                assert(t[i + 1] == x);
            }
        }
        assert(t[at] == c);
        if t.contains(x) {
            let i = choose|i: int| 0 <= i < t.len() && t[i] == x;
            if i < at {
                assert(s[i] == x);
            } else if i > at {
                assert(s[i - 1] == x);
            }
        }
    }
}

/// Whole samples in `ticks` of a clock of `den` ticks per second.
pub open spec fn samples_floor(ticks: int, den: int) -> int {
    ticks * SAMPLE_RATE / den
}

/// Samples in `ticks`, a started one counting whole.
pub open spec fn samples_ceil(ticks: int, den: int) -> int {
    ceil_div(ticks * SAMPLE_RATE, den)
}

/// Length of the program in samples.
pub fn total_samples(ticks: i64, den: i64) -> (r: usize)
    requires
        ticks >= 0,
        den > 0,
        samples_ceil(ticks as int, den as int) <= usize::MAX,
    ensures
        r == samples_ceil(ticks as int, den as int),
{
    let numer: i128 = ticks as i128 * SAMPLE_RATE as i128;
    let denom: i128 = den as i128;
    proof {
        lemma_ceil_div(numer as int, denom as int);
        assert(samples_ceil(ticks as int, den as int) >= 0) by (nonlinear_arith)
            requires
                samples_ceil(ticks as int, den as int) * den >= numer,
                numer >= 0,
                den > 0,
        ;
    }
    ((numer + denom - 1) / denom) as usize
}

/// Where in the program a clip that starts `ticks` into it starts.
pub fn offset_samples(ticks: i64, den: i64) -> (r: usize)
    requires
        ticks >= 0,
        den > 0,
        samples_floor(ticks as int, den as int) <= usize::MAX,
    ensures
        r == samples_floor(ticks as int, den as int),
{
    let numer: i128 = ticks as i128 * SAMPLE_RATE as i128;
    proof {
        assert(numer as int / den as int >= 0) by (nonlinear_arith)
            requires
                numer >= 0,
                den > 0,
        ;
    }
    (numer / den as i128) as usize
}

/// A window that starts inside the program and ends with it or before ends, in samples, with
/// it or before: rounding never lets a clip's sound extend the export.
pub proof fn law_windows_stay_in_the_program(start: int, len: int, total: int, den: int)
    requires
        0 <= start,
        0 <= len,
        start + len <= total,
        den > 0,
    ensures
        samples_floor(start, den) + samples_ceil(len, den) <= samples_ceil(total, den),
        samples_floor(start, den) >= 0,
        samples_ceil(len, den) >= 0,
{
    let (a, b, t) = (start * SAMPLE_RATE, len * SAMPLE_RATE, total * SAMPLE_RATE);
    let f = samples_floor(start, den);
    let c = samples_ceil(len, den);
    vstd::arithmetic::div_mod::lemma_fundamental_div_mod(a, den);
    lemma_ceil_div(b, den);
    lemma_ceil_div(t, den);
    let q = samples_ceil(total, den);
    assert(f * den <= a) by (nonlinear_arith)
        requires
            a == den * f + a % den,
            a % den >= 0,
    ;
    assert(b <= (q - f) * den) by (nonlinear_arith)
        requires
            a + b <= t,
            t <= q * den,
            f * den <= a,
    ;
    assert(f >= 0) by (nonlinear_arith)
        requires
            a == den * f + a % den,
            a % den < den,
            a >= 0,
            den > 0,
    ;
    assert(c >= 0) by (nonlinear_arith)
        requires
            b <= c * den,
            b >= 0,
            den > 0,
    ;
}

/// The channel layout of a source that declares `declared`, where zero is nothing: mono for
/// one channel, otherwise stereo.
pub open spec fn layout_or_default(declared: u64, channels: i32) -> u64 {
    if declared != 0 {
        declared
    } else if channels == 1 {
        4
    } else {
        3
    }
}

/// The channel layout a source is taken to have.
pub fn channel_layout(declared: u64, channels: i32) -> (r: u64)
    ensures
        r == layout_or_default(declared, channels),
{
    if declared == 0 {
        if channels == 1 {
            4
        } else {
            3
        }
    } else {
        declared
    }
}

/// At 48000 samples a second, a start is rounded down to a sample and a length up to one.
pub proof fn law_samples_are_rounded_apart(ticks: int, den: int)
    requires
        ticks >= 0,
        den > 0,
    ensures
        samples_floor(ticks, den) * den <= ticks * 48_000,
        ticks * 48_000 < (samples_floor(ticks, den) + 1) * den,
        ticks * 48_000 <= samples_ceil(ticks, den) * den,
        (samples_ceil(ticks, den) - 1) * den < ticks * 48_000,
{
    let f = samples_floor(ticks, den);
    let c = samples_ceil(ticks, den);
    vstd::arithmetic::div_mod::lemma_fundamental_div_mod(ticks * 48_000, den);
    vstd::arithmetic::div_mod::lemma_mod_bound(ticks * 48_000, den);
    lemma_ceil_div(ticks * 48_000, den);
    assert((f + 1) * den == f * den + den && (c - 1) * den == c * den - den && f * den == den * f)
        by (nonlinear_arith);
}

/// A clip is part of the program exactly if it lies in the range at least in part, its source
/// has sound and its track is heard; the parts are in the order in which they start, and those
/// that start together in the order of the clip list.
pub proof fn law_program_holds_the_heard_clips(
    r: Seq<AudioClip>,
    clips: Seq<AudioClip>,
    pts_in: i64,
    pts_out: i64,
)
    requires
        is_program(r, clips, pts_in, pts_out),
    ensures
        forall|i: int|
            0 <= i < clips.len() ==> (r.contains(#[trigger] clips[i]) <==> clips[i].t_in < pts_out
                && pts_in < clips[i].t_out && clips[i].has_audio && clips[i].track_active),
        forall|i: int|
            0 <= i < r.len() ==> #[trigger] clips.contains(r[i]),
        forall|i: int, j: int|
            0 <= i < j < r.len() ==> (#[trigger] r[i]).t_in <= (#[trigger] r[j]).t_in && (r[i].t_in
                == r[j].t_in ==> r[i].position < r[j].position),
{
    assert forall|i: int| 0 <= i < clips.len() implies (r.contains(#[trigger] clips[i])
        <==> clips[i].t_in < pts_out && pts_in < clips[i].t_out && clips[i].has_audio
        && clips[i].track_active) by {
        assert(clips.contains(clips[i]));
    }
    assert forall|i: int| 0 <= i < r.len() implies #[trigger] clips.contains(r[i]) by {
        assert(r.contains(r[i]));
    }
    assert forall|i: int, j: int| 0 <= i < j < r.len() implies (#[trigger] r[i]).t_in <= (
    #[trigger] r[j]).t_in && (r[i].t_in == r[j].t_in ==> r[i].position < r[j].position) by {
        assert(r[i].before(r[j]));
    }
}

/// A layout that a source declares is taken as it is; without one, mono is front centre and
/// anything else front left and right.
pub proof fn law_declared_layouts_are_kept(declared: u64, channels: i32)
    ensures
        declared != 0 ==> layout_or_default(declared, channels) == declared,
        declared == 0 ==> (layout_or_default(declared, channels) == 0x4 <==> channels == 1),
        declared == 0 ==> (layout_or_default(declared, channels) == 0x3 <==> channels != 1),
{
}

} // verus!
