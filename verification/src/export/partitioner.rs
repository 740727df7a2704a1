//! Splitting a job into contiguous runs of frames, one per render thread.
use crate::arith::{ceil_div, lemma_ceil_div};
use crate::export::job::ExportJob;
use vstd::prelude::*;

verus! {

/// A run of frames `frame_start..frame_end` and the stretch of time it covers.
#[derive(Debug, Clone, Copy, PartialEq, Eq, Structural)]
pub struct ExportSegment {
    pub index: usize,
    pub frame_start: usize,
    pub frame_end: usize,
    pub pts_start: i64,
    pub pts_end: i64,
}

impl ExportSegment {
    /// Frames in the segment.
    pub fn frame_count(&self) -> (r: usize)
        requires
            self.frame_start <= self.frame_end,
        ensures
            r == self.frame_end - self.frame_start,
    {
        self.frame_end - self.frame_start
    }
}

/// `b` starts where `a` ends, in frames and in time.
pub open spec fn contiguous(a: ExportSegment, b: ExportSegment) -> bool {
    a.frame_end == b.frame_start && a.pts_end == b.pts_start
}

/// Frames per segment: the job spread as evenly as whole frames allow over its
/// threads, with no more segments than frames.
pub open spec fn segment_len(total: int, threads: int) -> int {
    ceil_div(total, if threads < total { threads } else { total })
}

/// How many segments of `segment_len` frames it takes to hold `total` frames.
pub open spec fn segment_count(total: int, threads: int) -> int {
    if total == 0 { 0 } else { ceil_div(total, segment_len(total, threads)) }
}

/// Where segment `i` ends: a full run of frames later, or with the job.
pub open spec fn segment_end(total: int, threads: int, i: int) -> int {
    let end = (i + 1) * segment_len(total, threads);
    if end < total { end } else { total }
}

/// Segment `i` of the job.
pub open spec fn is_segment(job: ExportJob, i: int, s: ExportSegment) -> bool {
    let total = job.frame_total();
    let threads = job.render_threads as int;
    &&& s.index == i
    &&& s.frame_start == i * segment_len(total, threads)
    &&& s.frame_end == segment_end(total, threads, i)
    &&& s.pts_start == job.pts_of(s.frame_start as int)
    &&& s.pts_end == if s.frame_end < total {
        job.pts_of(s.frame_end as int)
    } else {
        job.pts_out as int
    }
}

/// The frame and time arithmetic of the partition stays within the machine's integers.
pub open spec fn partitionable(job: ExportJob) -> bool {
    let total = job.frame_total();
    let threads = job.render_threads as int;
    &&& job.frames_countable()
    &&& total > 0 ==> {
        &&& threads > 0
        &&& total + (if threads < total { threads } else { total }) <= usize::MAX
        &&& forall|i: int|
            0 <= i < segment_count(total, threads) ==> job.pts_countable(
                #[trigger] (i * segment_len(total, threads)),
            )
    }
}

/// Bounds on the segment arithmetic for a job with at least one frame.
proof fn lemma_segments(total: int, threads: int)
    requires
        total > 0,
        threads > 0,
    ensures
        ({
            let n = if threads < total { threads } else { total };
            let len = segment_len(total, threads);
            let count = segment_count(total, threads);
            &&& len >= 1
            &&& len <= total
            &&& 1 <= count <= n
            &&& n * len < total + n
            &&& (count - 1) * len < total <= count * len
        }),
{
    let n = if threads < total { threads } else { total };
    let len = segment_len(total, threads);
    let count = segment_count(total, threads);
    lemma_ceil_div(total, n);
    assert(len >= 1) by (nonlinear_arith)
        requires
            total <= len * n,
            total > 0,
            n > 0,
    ;
    assert(total <= total * n) by (nonlinear_arith)
        requires
            total > 0,
            n >= 1,
    ;
    lemma_ceil_div(total, len);
    assert(n * len == len * n) by (nonlinear_arith);
    assert(count <= n);
    assert(count >= 1) by (nonlinear_arith)
        requires
            total <= count * len,
            total > 0,
            len >= 1,
    ;
    assert((count - 1) * len == count * len - len) by (nonlinear_arith);
}

/// Splits jobs into segments.
pub struct SegmentPartitioner;

impl SegmentPartitioner {
    /// The segments of the job, in order.
    pub fn partition(job: &ExportJob) -> (segments: Vec<ExportSegment>)
        requires
            partitionable(*job),
        ensures
            segments@.len() == segment_count(job.frame_total(), job.render_threads as int),
            forall|i: int|
                0 <= i < segments@.len() ==> is_segment(*job, i, #[trigger] segments@[i]),
    {
        let total: usize = job.total_frames();
        if total == 0 {
            return Vec::new();
        }
        let n_segments: usize = if job.render_threads < total {
            job.render_threads
        } else {
            total
        };
        let fps: usize = (total + n_segments - 1) / n_segments;
        let ghost threads = job.render_threads as int;
        let ghost count = segment_count(total as int, threads);
        proof {
            lemma_segments(total as int, threads);
        }
        assert(fps == segment_len(total as int, threads));
        let mut segments: Vec<ExportSegment> = Vec::with_capacity(n_segments);
        let mut i: usize = 0;
        while i < n_segments
            invariant
                partitionable(*job),
                0 < total == job.frame_total(),
                threads == job.render_threads,
                n_segments == if threads < total { threads } else { total as int },
                fps == segment_len(total as int, threads),
                count == segment_count(total as int, threads),
                1 <= count <= n_segments,
                fps >= 1,
                n_segments * fps < total + n_segments,
                (count - 1) * fps < total <= count * fps,
                i <= n_segments,
                segments@.len() == if i < count { i as int } else { count },
                forall|k: int|
                    0 <= k < segments@.len() ==> is_segment(*job, k, #[trigger] segments@[k]),
            decreases n_segments - i,
        {
            proof {
                assert(i * fps + fps <= n_segments * fps) by (nonlinear_arith)
                    requires
                        i + 1 <= n_segments,
                        fps >= 1,
                ;
                assert((i + 1) * fps == i * fps + fps) by (nonlinear_arith);
                if i < count {
                    assert(i * fps <= (count - 1) * fps) by (nonlinear_arith)
                        requires
                            i <= count - 1,
                            fps >= 1,
                    ;
                } else {
                    assert(count * fps <= i * fps) by (nonlinear_arith)
                        requires
                            count <= i,
                            fps >= 1,
                    ;
                }
                if i + 1 < count {
                    assert((i + 1) * fps <= (count - 1) * fps) by (nonlinear_arith)
                        requires
                            i + 1 <= count - 1,
                            fps >= 1,
                    ;
                } else {
                    assert(count * fps <= (i + 1) * fps) by (nonlinear_arith)
                        requires
                            count <= i + 1,
                            fps >= 1,
                    ;
                }
            }
            let frame_start: usize = i * fps;
            let frame_end: usize = if frame_start + fps < total {
                frame_start + fps
            } else {
                total
            };
            if frame_start < total {
                assert(i < count);
                assert(job.pts_countable(i as int * segment_len(total as int, threads)));
                let pts_start: i64 = job.frame_pts(frame_start);
                let pts_end: i64 = if frame_end < total {
                    assert(job.pts_countable((i + 1) * segment_len(total as int, threads)));
                    job.frame_pts(frame_end)
                } else {
                    job.pts_out
                };
                segments.push(ExportSegment { index: i, frame_start, frame_end, pts_start, pts_end });
            }
            i += 1;
        }
        segments
    }

    /// Whether `b` continues `a`.
    pub fn are_contiguous(a: &ExportSegment, b: &ExportSegment) -> (r: bool)
        ensures
            r == contiguous(*a, *b),
    {
        a.frame_end == b.frame_start && a.pts_end == b.pts_start
    }
}

/// The segments of a job cover its frames exactly: the first starts at frame zero,
/// each continues the one before it, none is empty, and the last ends with the job.
pub proof fn law_partition_covers_the_job(job: ExportJob, segments: Seq<ExportSegment>)
    requires
        partitionable(job),
        segments.len() == segment_count(job.frame_total(), job.render_threads as int),
        forall|i: int| 0 <= i < segments.len() ==> is_segment(job, i, #[trigger] segments[i]),
    ensures
        segments.len() == 0 <==> job.frame_total() == 0,
        segments.len() <= job.render_threads || job.frame_total() == 0,
        forall|i: int|
            0 <= i < segments.len() ==> (#[trigger] segments[i]).frame_start
                < segments[i].frame_end,
        forall|i: int, j: int|
            0 <= i && j == i + 1 && j < segments.len() ==> contiguous(
                #[trigger] segments[i],
                #[trigger] segments[j],
            ),
        segments.len() > 0 ==> {
            &&& segments[0].frame_start == 0
            &&& segments[0].pts_start == job.pts_in
            &&& segments.last().frame_end == job.frame_total()
            &&& segments.last().pts_end == job.pts_out
        },
{
    let total = job.frame_total();
    let threads = job.render_threads as int;
    assert(total >= 0) by {
        crate::arith::lemma_ceil_div(job.frames_numer(), job.frames_denom());
        assert(job.frames_numer() >= 0) by (nonlinear_arith)
            requires
                job.frames_numer() == ((job.pts_out - job.pts_in) as i64 as u64) * (
                job.frame_rate.num as u64),
        ;
        assert(total > -1) by (nonlinear_arith)
            requires
                job.frames_numer() <= total * job.frames_denom(),
                job.frames_numer() >= 0,
                job.frames_denom() > 0,
        ;
    }
    if total > 0 {
        lemma_segments(total, threads);
        let len = segment_len(total, threads);
        let count = segment_count(total, threads);
        assert forall|i: int| 0 <= i < segments.len() implies (#[trigger] segments[i]).frame_start
            < segments[i].frame_end by {
            assert(is_segment(job, i, segments[i]));
            assert(i * len <= (count - 1) * len) by (nonlinear_arith)
                requires
                    i <= count - 1,
                    len >= 1,
            ;
            assert((i + 1) * len == i * len + len) by (nonlinear_arith);
        }
        assert forall|i: int, j: int|
            0 <= i && j == i + 1 && j < segments.len() implies contiguous(
            #[trigger] segments[i],
            #[trigger] segments[j],
        ) by {
            assert(is_segment(job, i, segments[i]));
            assert(is_segment(job, j, segments[j]));
            assert(j * len <= (count - 1) * len) by (nonlinear_arith)
                requires
                    j <= count - 1,
                    len >= 1,
            ;
        }
        assert(is_segment(job, 0, segments[0]));
        assert(is_segment(job, count - 1, segments[count - 1]));
        assert(0 * len == 0);
        assert(0 * job.frame_step() == 0);
        assert((count - 1 + 1) * len == count * len);
    }
}

/// The frames are spread as evenly as whole frames allow: every segment but the last has the
/// same number of them, the last has no more, and one frame less in each would not do for the
/// threads there are.  Segments are numbered in order, and a segment's times are those of its
/// first frame and of the first frame behind it, or of the end of the range.
pub proof fn law_partition_is_even(job: ExportJob, segments: Seq<ExportSegment>, i: int)
    requires
        partitionable(job),
        job.frame_total() > 0,
        segments.len() == segment_count(job.frame_total(), job.render_threads as int),
        forall|k: int| 0 <= k < segments.len() ==> is_segment(job, k, #[trigger] segments[k]),
        0 <= i < segments.len(),
    ensures
        ({
            let frames = |k: int| segments[k].frame_end - segments[k].frame_start;
            let total = job.frame_total();
            let workers = if job.render_threads < total { job.render_threads as int } else { total };
            &&& segments[i].index == i
            &&& i < segments.len() - 1 ==> frames(i) == frames(0)
            &&& 0 < frames(i) <= frames(0)
            &&& segments.len() <= workers
            &&& segments.len() > 1 ==> frames(0) * workers >= total && (frames(0) - 1) * workers
                < total
            &&& workers == 1 ==> segments.len() == 1
            &&& segments[i].pts_start == job.pts_of(segments[i].frame_start as int)
            &&& i < segments.len() - 1 ==> segments[i].pts_end == job.pts_of(
                segments[i].frame_end as int,
            ) && segments[i].frame_end == segments[i + 1].frame_start && segments[i].pts_end
                == segments[i + 1].pts_start
            &&& i == segments.len() - 1 ==> segments[i].pts_end == job.pts_out
                && segments[i].frame_end == total
            &&& i == 0 ==> segments[i].frame_start == 0
        }),
{
    let total = job.frame_total();
    let threads = job.render_threads as int;
    lemma_segments(total, threads);
    let len = segment_len(total, threads);
    let count = segment_count(total, threads);
    let workers = if threads < total { threads } else { total };
    lemma_ceil_div(total, workers);
    assert(is_segment(job, i, segments[i]));
    assert(is_segment(job, 0, segments[0]));
    assert((i + 1) * len == i * len + len && 0 * len == 0 && 1 * len == len && (len - 1) * workers
        == len * workers - workers) by (nonlinear_arith);
    assert(i * len <= (count - 1) * len) by (nonlinear_arith)
        requires
            i <= count - 1,
            len >= 1,
    ;
    assert((count - 1) * len == count * len - len) by (nonlinear_arith);
    if i < count - 1 {
        assert((i + 1) * len <= (count - 1) * len) by (nonlinear_arith)
            requires
                i + 1 <= count - 1,
                len >= 1,
        ;
        assert(is_segment(job, i + 1, segments[i + 1]));
    }
    if count > 1 {
        assert(1 * len <= (count - 1) * len) by (nonlinear_arith)
            requires
                1 <= count - 1,
                len >= 1,
        ;
    }
}

} // verus!
