//! Bounded, insertion-ordered history of recently visited points, drawn with
//! an intensity that decays linearly from the newest point to the oldest.
//!
//! Every visualization front end keeps one such trail per trajectory: each
//! tick it pushes the new position to the front and the buffer is cut back to
//! its configured maximum length, so the newest point is always at index 0
//! and at most `max_len` points are retained.

use std::collections::vec_deque::VecDeque;
use vstd::prelude::*;

verus! {

/// What one push leaves in a buffer that held `s`: the new point `p` at the
/// front, the previous contents after it, truncated to `max_len` entries.
pub open spec fn push_model<T>(s: Seq<T>, p: T, max_len: nat) -> Seq<T> {
    if s.len() < max_len {
        seq![p] + s
    } else {
        (seq![p] + s).take(max_len as int)
    }
}

/// The buffer left by pushing the points of `ps`, in order, into an empty
/// trail bounded at `max_len`.
pub open spec fn trail_model<T>(ps: Seq<T>, max_len: nat) -> Seq<T>
    decreases ps.len(),
{
    if ps.len() == 0 {
        Seq::empty()
    } else {
        push_model(trail_model(ps.drop_last(), max_len), ps.last(), max_len)
    }
}

/// Numerator of the intensity at position `i` of a trail bounded at
/// `max_len`, over the denominator `max_len`: the intensity itself is
/// `max(0, 1 - i * decay)` with `decay = 1 / max_len`, so its exact value at
/// position `i` is this numerator divided by `max_len`.
pub open spec fn intensity_num_model(i: int, max_len: int) -> int {
    if i < max_len {
        max_len - i
    } else {
        0
    }
}

/// Bounded trail of visual-space points; newest first.
pub struct Trail<T> {
    points: VecDeque<T>,
    max_len: usize,
}

impl<T> View for Trail<T> {
    type V = Seq<T>;

    closed spec fn view(&self) -> Seq<T> {
        self.points@
    }
}

impl<T> Trail<T> {
    /// The configured maximum length of the trail.
    pub closed spec fn spec_max_len(&self) -> usize {
        self.max_len
    }

    /// A trail is well formed when its bound is positive and its contents
    /// never exceed the bound.
    pub open spec fn wf(&self) -> bool {
        1 <= self.spec_max_len() && self@.len() <= self.spec_max_len()
    }

    /// An empty trail bounded at `max_len`, with room reserved for the one
    /// extra point a push holds before truncation.
    pub fn new(max_len: usize) -> (t: Self)
        requires
            1 <= max_len < usize::MAX,
        ensures
            t.wf(),
            t@ == Seq::<T>::empty(),
            t.spec_max_len() == max_len,
    {
        Trail { points: VecDeque::with_capacity(max_len + 1), max_len }
    }

    /// The configured maximum length.
    pub fn max_len(&self) -> (n: usize)
        ensures
            n == self.spec_max_len(),
    {
        self.max_len
    }

    /// How many points the trail currently holds.
    pub fn len(&self) -> (n: usize)
        ensures
            n == self@.len(),
    {
        self.points.len()
    }

    /// The point at position `i`, front to back: position 0 is the newest.
    pub fn get(&self, i: usize) -> (p: &T)
        requires
            i < self@.len(),
        ensures
            *p == self@[i as int],
    {
        &self.points[i]
    }

    /// Inserts `point` at the front, then truncates the back so that at most
    /// `max_len` points remain. The newest point ends up at position 0, the
    /// relative order of the previously pushed points is preserved, and the
    /// length becomes `min(max_len, previous length + 1)`.
    pub fn push(&mut self, point: T)
        requires
            old(self).wf(),
        ensures
            final(self).wf(),
            final(self).spec_max_len() == old(self).spec_max_len(),
            final(self)@ == push_model(old(self)@, point, old(self).spec_max_len() as nat),
            final(self)@.len() == if old(self)@.len() < old(self).spec_max_len() {
                (old(self)@.len() + 1) as int
            } else {
                old(self).spec_max_len() as int
            },
            final(self)@[0] == point,
            forall|i: int| 1 <= i < final(self)@.len() ==> final(self)@[i] == old(self)@[i - 1],
    {
        self.points.push_front(point);
        self.points.truncate(self.max_len);
        proof {
            let s = old(self)@;
            let m = self.max_len as int;
            if s.len() < m {
                assert(self@ =~= seq![point] + s);
            } else {
                assert(self@ =~= (seq![point] + s).take(m));
            }
        }
    }

    /// Intensity numerator for the point at position `i` of this trail; the
    /// intensity is the returned value over `max_len`.
    pub fn intensity_at(&self, i: usize) -> (n: usize)
        ensures
            n == intensity_num_model(i as int, self.spec_max_len() as int),
    {
        intensity_num(i, self.max_len)
    }

    /// The position-indexed intensity ramp of the whole trail, front to back:
    /// entry `i` is the intensity numerator that goes with the point at
    /// position `i`, so a renderer can walk (point, intensity) pairs and draw
    /// either dots or consecutive segments.
    pub fn intensity_ramp(&self) -> (r: Vec<usize>)
        ensures
            r@.len() == self@.len(),
            forall|i: int|
                0 <= i < r@.len() ==> r@[i] == intensity_num_model(
                    i,
                    self.spec_max_len() as int,
                ),
    {
        let n = self.points.len();
        let mut r: Vec<usize> = Vec::new();
        let mut i: usize = 0;
        while i < n
            invariant
                i <= n,
                n == self@.len(),
                r@.len() == i,
                forall|j: int|
                    0 <= j < i ==> r@[j] == intensity_num_model(j, self.spec_max_len() as int),
            decreases n - i,
        {
            let e = intensity_num(i, self.max_len);
            r.push(e);
            i = i + 1;
        }
        r
    }
}

/// Intensity numerator at position `i` of a trail bounded at `max_len`: the
/// intensity `max(0, 1 - i * decay)` with `decay = 1 / max_len` equals the
/// returned value divided by `max_len`.
pub fn intensity_num(i: usize, max_len: usize) -> (n: usize)
    ensures
        n == intensity_num_model(i as int, max_len as int),
{
    if i < max_len {
        max_len - i
    } else {
        0
    }
}

/// Pushing `k` points into an empty trail bounded at `max_len` yields length
/// `k` while `k <= max_len` and length exactly `max_len` thereafter, and the
/// buffer holds the most recent `min(k, max_len)` points in push order, the
/// front being the most recently pushed.
pub proof fn lemma_trail_model<T>(ps: Seq<T>, max_len: nat)
    requires
        1 <= max_len,
    ensures
        trail_model(ps, max_len).len() == if ps.len() <= max_len {
            ps.len() as int
        } else {
            max_len as int
        },
        forall|i: int|
            0 <= i < trail_model(ps, max_len).len() ==> trail_model(ps, max_len)[i] == ps[ps.len()
                - 1 - i],
    decreases ps.len(),
{
    if ps.len() > 0 {
        lemma_trail_model(ps.drop_last(), max_len);
    }
}

/// The intensity ramp is monotonically non-increasing from front to back.
pub proof fn lemma_intensity_monotone(i: int, j: int, max_len: int)
    requires
        0 <= i <= j,
    ensures
        intensity_num_model(j, max_len) <= intensity_num_model(i, max_len),
{
}

/// The intensity is zero exactly at the positions at or past `max_len`; in
/// particular it is still positive at every retained position, the smallest
/// positive value `1 / max_len` being reached at the last one.
pub proof fn lemma_intensity_zero(i: int, max_len: int)
    requires
        0 <= i,
        1 <= max_len,
    ensures
        intensity_num_model(i, max_len) == 0 <==> max_len <= i,
        i == max_len - 1 ==> intensity_num_model(i, max_len) == 1,
{
}

} // verus!
