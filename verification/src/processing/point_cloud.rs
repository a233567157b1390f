//! Point clouds captured by the iPhone LiDAR.

use crate::error::Error;
use crate::wire::{
    law_u32_from_le_value, le_bytes_u32, lemma_u32_le_roundtrip, push_le_u32, read_le_u32, u32_from_le,
};
use rayon::iter::{IntoParallelRefIterator, ParallelIterator};
use std::sync::Arc;
use vstd::prelude::*;

verus! {

/// A point of a cloud. Each coordinate is the bit pattern of its `f32` value
/// (`f32::to_bits`), so that points are carried through the bridge unchanged.
#[derive(Clone, Copy, Debug, PartialEq, Eq, Structural)]
pub struct PointXYZ {
    pub x: u32,
    pub y: u32,
    pub z: u32,
}

/// The number of bytes of a point on the wire: three little-endian `f32`.
pub const POINT_SIZE: usize = 12;

/// The point stored at byte offset `at` of `data`.
pub open spec fn point_at(data: Seq<u8>, at: int) -> PointXYZ {
    PointXYZ {
        x: u32_from_le(data[at], data[at + 1], data[at + 2], data[at + 3]),
        y: u32_from_le(data[at + 4], data[at + 5], data[at + 6], data[at + 7]),
        z: u32_from_le(data[at + 8], data[at + 9], data[at + 10], data[at + 11]),
    }
}

/// The points packed in `data`, one per complete group of twelve bytes; bytes
/// after the last complete group are ignored.
pub open spec fn points_of_bytes(data: Seq<u8>) -> Seq<PointXYZ> {
    Seq::new(data.len() / 12, |i: int| point_at(data, 12 * i))
}

/// The wire bytes of one point.
pub open spec fn point_bytes(p: PointXYZ) -> Seq<u8> {
    le_bytes_u32(p.x) + le_bytes_u32(p.y) + le_bytes_u32(p.z)
}

/// The wire bytes of a sequence of points, in order.
pub open spec fn bytes_of_points(points: Seq<PointXYZ>) -> Seq<u8>
    decreases points.len(),
{
    if points.len() == 0 {
        Seq::empty()
    } else {
        bytes_of_points(points.drop_last()) + point_bytes(points.last())
    }
}

/// The layout of the bytes of a sequence of points: twelve bytes per point, in order.
proof fn lemma_bytes_of_points(points: Seq<PointXYZ>)
    ensures
        bytes_of_points(points).len() == 12 * points.len(),
        forall|j: int|
            0 <= j < bytes_of_points(points).len() ==> #[trigger] bytes_of_points(points)[j]
                == point_bytes(points[j / 12])[j % 12],
    decreases points.len(),
{
    if points.len() > 0 {
        let init = points.drop_last();
        lemma_bytes_of_points(init);
        let b = bytes_of_points(points);
        assert forall|j: int| 0 <= j < b.len() implies #[trigger] b[j] == point_bytes(points[j / 12])[j
            % 12] by {
            if j < 12 * init.len() {
                assert(bytes_of_points(init)[j] == point_bytes(init[j / 12])[j % 12]);
                assert(init[j / 12] == points[j / 12]);
            }
        }
    }
}

/// Coordinate `c` of `p`: `x` for 0, `y` for 1, `z` for 2.
pub open spec fn coordinate(p: PointXYZ, c: int) -> u32 {
    if c == 0 {
        p.x
    } else if c == 1 {
        p.y
    } else {
        p.z
    }
}

/// The wire layout of points: twelve bytes per point in order, and within a
/// point the little-endian bytes of `x`, then of `y`, then of `z`.
pub proof fn law_points_wire_layout(points: Seq<PointXYZ>)
    ensures
        bytes_of_points(points).len() == 12 * points.len(),
        forall|j: int|
            0 <= j < bytes_of_points(points).len() ==> #[trigger] bytes_of_points(points)[j]
                == le_bytes_u32(coordinate(points[j / 12], (j % 12) / 4))[j % 4],
{
    lemma_bytes_of_points(points);
    let b = bytes_of_points(points);
    assert forall|j: int| 0 <= j < b.len() implies #[trigger] b[j] == le_bytes_u32(
        coordinate(points[j / 12], (j % 12) / 4),
    )[j % 4] by {
        let p = points[j / 12];
        let m = j % 12;
        assert(j % 4 == m % 4);
        assert(b[j] == point_bytes(p)[m]);
        if m < 4 {
            assert(point_bytes(p)[m] == le_bytes_u32(p.x)[m]);
        } else if m < 8 {
            assert(point_bytes(p)[m] == le_bytes_u32(p.y)[m - 4]);
        } else {
            assert(point_bytes(p)[m] == le_bytes_u32(p.z)[m - 8]);
        }
    }
}

/// Reading points from bytes: one point per complete group of twelve bytes, its
/// `x`, `y` and `z` read little-endian from bytes 0-3, 4-7 and 8-11 of the group.
pub proof fn law_points_read_little_endian(data: Seq<u8>)
    ensures
        points_of_bytes(data).len() == data.len() / 12,
        forall|i: int|
            0 <= i < data.len() / 12 ==> {
                &&& (#[trigger] points_of_bytes(data)[i]).x == data[12 * i] + 256 * data[12 * i + 1]
                    + 65536 * data[12 * i + 2] + 16777216 * data[12 * i + 3]
                &&& points_of_bytes(data)[i].y == data[12 * i + 4] + 256 * data[12 * i + 5] + 65536
                    * data[12 * i + 6] + 16777216 * data[12 * i + 7]
                &&& points_of_bytes(data)[i].z == data[12 * i + 8] + 256 * data[12 * i + 9] + 65536
                    * data[12 * i + 10] + 16777216 * data[12 * i + 11]
            },
{
    assert forall|i: int| 0 <= i < data.len() / 12 implies {
        &&& (#[trigger] points_of_bytes(data)[i]).x == data[12 * i] + 256 * data[12 * i + 1] + 65536
            * data[12 * i + 2] + 16777216 * data[12 * i + 3]
        &&& points_of_bytes(data)[i].y == data[12 * i + 4] + 256 * data[12 * i + 5] + 65536 * data[12
            * i + 6] + 16777216 * data[12 * i + 7]
        &&& points_of_bytes(data)[i].z == data[12 * i + 8] + 256 * data[12 * i + 9] + 65536 * data[12
            * i + 10] + 16777216 * data[12 * i + 11]
    } by {
        law_u32_from_le_value(data[12 * i], data[12 * i + 1], data[12 * i + 2], data[12 * i + 3]);
        law_u32_from_le_value(data[12 * i + 4], data[12 * i + 5], data[12 * i + 6], data[12 * i + 7]);
        law_u32_from_le_value(data[12 * i + 8], data[12 * i + 9], data[12 * i + 10], data[12 * i + 11]);
    }
}

/// Reading the bytes of a sequence of points gives the points back.
pub proof fn law_points_bytes_roundtrip(points: Seq<PointXYZ>)
    ensures
        points_of_bytes(bytes_of_points(points)) == points,
{
    let b = bytes_of_points(points);
    lemma_bytes_of_points(points);
    assert(b.len() / 12 == points.len());
    assert forall|i: int| 0 <= i < points.len() implies point_at(b, 12 * i) == points[i] by {
        let p = points[i];
        let pb = point_bytes(p);
        assert forall|k: int| 0 <= k < 12 implies b[12 * i + k] == pb[k] by {
            assert((12 * i + k) / 12 == i);
            assert((12 * i + k) % 12 == k);
        }
        lemma_u32_le_roundtrip(p.x);
        lemma_u32_le_roundtrip(p.y);
        lemma_u32_le_roundtrip(p.z);
        assert(pb[0] == le_bytes_u32(p.x)[0] && pb[1] == le_bytes_u32(p.x)[1] && pb[2] == le_bytes_u32(p.x)[2] && pb[3] == le_bytes_u32(p.x)[3]);
        assert(pb[4] == le_bytes_u32(p.y)[0] && pb[5] == le_bytes_u32(p.y)[1] && pb[6] == le_bytes_u32(p.y)[2] && pb[7] == le_bytes_u32(p.y)[3]);
        assert(pb[8] == le_bytes_u32(p.z)[0] && pb[9] == le_bytes_u32(p.z)[1] && pb[10] == le_bytes_u32(p.z)[2] && pb[11] == le_bytes_u32(p.z)[3]);
        assert(b[12 * i] == pb[0] && b[12 * i + 1] == pb[1] && b[12 * i + 2] == pb[2] && b[12 * i + 3] == pb[3]);
        assert(b[12 * i + 4] == pb[4] && b[12 * i + 5] == pb[5] && b[12 * i + 6] == pb[6] && b[12 * i + 7] == pb[7]);
        assert(b[12 * i + 8] == pb[8] && b[12 * i + 9] == pb[9] && b[12 * i + 10] == pb[10] && b[12 * i + 11] == pb[11]);
    }
    assert(points_of_bytes(b) =~= points);
}

/// A point unchanged; the step applied to each point by the parallel pass.
fn keep_point(p: &PointXYZ) -> (r: Option<PointXYZ>)
    ensures
        r == Some(*p),
{
    Some(*p)
}

/// Runs `keep_point` over the points in parallel with rayon
/// (`par_iter().filter_map(..).collect()`). Claimed: the collected vector holds
/// what `keep_point` kept, in the order of the input, as rayon's collection into
/// a `Vec` keeps the order of the items.
#[verifier::external_body]
fn par_filter_map_points(points: &Vec<PointXYZ>) -> (r: Vec<PointXYZ>)
    ensures
        r@ == points@,
{
    points.par_iter().filter_map(|p| keep_point(p)).collect()
}

/// Calls `Arc::clone`: the clone shares the same value.
#[verifier::external_body]
fn share_points(points: &Arc<Vec<PointXYZ>>) -> (r: Arc<Vec<PointXYZ>>)
    ensures
        r == *points,
{
    Arc::clone(points)
}

/// A point cloud with the time it was captured; the points are shared, not
/// copied, between clones.
pub struct ProcessedCloud {
    points: Arc<Vec<PointXYZ>>,
    timestamp: u64,
}

impl ProcessedCloud {
    /// The points of the cloud, in capture order.
    pub closed spec fn points_view(&self) -> Seq<PointXYZ> {
        self.points@
    }

    /// The capture time.
    pub closed spec fn time(&self) -> u64 {
        self.timestamp
    }

    /// A cloud of `points` captured at `timestamp`.
    pub fn new(points: Vec<PointXYZ>, timestamp: u64) -> (r: Self)
        ensures
            r.points_view() == points@,
            r.time() == timestamp,
    {
        ProcessedCloud { points: Arc::new(points), timestamp }
    }

    /// The points of the cloud.
    pub fn points(&self) -> (r: &Vec<PointXYZ>)
        ensures
            r@ == self.points_view(),
    {
        &*self.points
    }

    /// The capture time.
    pub fn timestamp(&self) -> (r: u64)
        ensures
            r == self.time(),
    {
        self.timestamp
    }

    /// Passes every point through the parallel point pipeline; the result holds
    /// the same points in the same order and the same capture time.
    pub fn process_parallel(&self) -> (r: Result<Self, Error>)
        ensures
            r matches Ok(c) && c.points_view() == self.points_view() && c.time() == self.time(),
    {
        let processed = par_filter_map_points(&*self.points);
        Ok(Self::new(processed, self.timestamp))
    }

    /// Reads a cloud captured at `timestamp` from its wire bytes.
    pub fn from_bytes(data: &[u8], timestamp: u64) -> (r: Self)
        ensures
            r.points_view() == points_of_bytes(data@),
            r.time() == timestamp,
    {
        let len = data.len();
        let n = len / 12;
        let mut points: Vec<PointXYZ> = Vec::with_capacity(n);
        let mut i: usize = 0;
        while i < n
            invariant
                len == data@.len(),
                n == data@.len() / 12,
                i <= n,
                points@ == points_of_bytes(data@).subrange(0, i as int),
            decreases n - i,
        {
            assert(12 * i + 12 <= data@.len()) by (nonlinear_arith)
                requires
                    i < n,
                    n == data@.len() / 12,
            ;
            let at = 12 * i;
            let p = PointXYZ {
                x: read_le_u32(data[at], data[at + 1], data[at + 2], data[at + 3]),
                y: read_le_u32(data[at + 4], data[at + 5], data[at + 6], data[at + 7]),
                z: read_le_u32(data[at + 8], data[at + 9], data[at + 10], data[at + 11]),
            };
            points.push(p);
            i = i + 1;
            assert(points@ =~= points_of_bytes(data@).subrange(0, i as int));
        }
        assert(points@ =~= points_of_bytes(data@));
        ProcessedCloud::new(points, timestamp)
    }

    /// The wire bytes of the cloud's points.
    pub fn to_bytes(&self) -> (r: Vec<u8>)
        ensures
            r@ == bytes_of_points(self.points_view()),
    {
        let points: &Vec<PointXYZ> = &*self.points;
        let mut out: Vec<u8> = Vec::new();
        let mut i: usize = 0;
        while i < points.len()
            invariant
                i <= points@.len(),
                points@ == self.points_view(),
                out@ == bytes_of_points(points@.subrange(0, i as int)),
            decreases points@.len() - i,
        {
            let p = points[i];
            push_le_u32(&mut out, p.x);
            push_le_u32(&mut out, p.y);
            push_le_u32(&mut out, p.z);
            proof {
                let next = points@.subrange(0, i + 1);
                assert(next.drop_last() =~= points@.subrange(0, i as int));
                assert(next.last() == p);
                assert(out@ =~= bytes_of_points(next));
            }
            i = i + 1;
        }
        assert(points@.subrange(0, points@.len() as int) =~= points@);
        out
    }
}

impl Clone for ProcessedCloud {
    /// Another handle on the same points, with the same capture time.
    fn clone(&self) -> (r: Self)
        ensures
            r.points_view() == self.points_view(),
            r.time() == self.time(),
    {
        ProcessedCloud { points: share_points(&self.points), timestamp: self.timestamp }
    }
}

} // verus!
