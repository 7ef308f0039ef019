//! What a ray can hit, and lists of such things.
use crate::ray::{HitRec, Ray};
use crate::scalar::{in_window, lawful, lt, strictly_ordered, Scalar};
use vstd::prelude::*;

verus! {

/// Something a ray can hit.
pub trait Shape {
    /// The numbers that the shape is measured in.
    type Num: Scalar;

    /// What `hit` returns for `ray` and the open interval from `t0` to `t1`.
    spec fn hit_spec(&self, ray: &Ray<Self::Num>, t0: Self::Num, t1: Self::Num) -> Option<
        HitRec<Self::Num>,
    >;

    /// Where `ray` meets the shape at a parameter strictly between `t0` and
    /// `t1`, if it does. The record's point is the point of the ray at the
    /// record's parameter.
    fn hit(&self, ray: &Ray<Self::Num>, t0: Self::Num, t1: Self::Num) -> (r: Option<
        HitRec<Self::Num>,
    >)
        requires
            lawful::<Self::Num>(),
        ensures
            r == self.hit_spec(ray, t0, t1),
            r matches Some(h) ==> in_window(h.t, t0, t1) && h.p == ray.at_spec(h.t),
    ;
}

/// The upper end of the window that is left once `best` has been found: its
/// parameter, or `t1` while nothing has been hit.
pub open spec fn bound_after<T>(best: Option<HitRec<T>>, t1: T) -> T {
    match best {
        Some(h) => h.t,
        None => t1,
    }
}

/// What a ray hits first among `shapes`, tried in order: each shape is asked
/// only for a hit nearer than the best one before it, and a shape that answers
/// replaces that best.
pub open spec fn nearest<S: Shape>(
    shapes: Seq<S>,
    ray: &Ray<S::Num>,
    t0: S::Num,
    t1: S::Num,
) -> Option<HitRec<S::Num>>
    decreases shapes.len(),
{
    if shapes.len() == 0 {
        None
    } else {
        let before = nearest(shapes.drop_last(), ray, t0, t1);
        match shapes.last().hit_spec(ray, t0, bound_after(before, t1)) {
            Some(h) => Some(h),
            None => before,
        }
    }
}

/// Shapes of one kind, in the order in which they were added.
pub struct ShapeList<S: Shape> {
    list: Vec<S>,
}

impl<S: Shape> View for ShapeList<S> {
    type V = Seq<S>;

    /// The shapes, first added first.
    closed spec fn view(&self) -> Seq<S> {
        self.list@
    }
}

impl<S: Shape> ShapeList<S> {
    /// The list of no shapes.
    pub fn new() -> (l: Self)
        ensures
            l@ == Seq::<S>::empty(),
    {
        Self { list: Vec::new() }
    }

    /// Appends `shape` to the list.
    pub fn add(&mut self, shape: S)
        ensures
            final(self)@ == old(self)@.push(shape),
    {
        self.list.push(shape);
    }
}

impl<S: Shape> Shape for ShapeList<S> {
    type Num = S::Num;

    open spec fn hit_spec(&self, ray: &Ray<S::Num>, t0: S::Num, t1: S::Num) -> Option<
        HitRec<S::Num>,
    > {
        nearest(self@, ray, t0, t1)
    }

    /// The nearest hit among the shapes of the list; nothing for a list of no
    /// shapes.
    fn hit(&self, ray: &Ray<S::Num>, t0: S::Num, t1: S::Num) -> (r: Option<HitRec<S::Num>>)
        ensures
            self@.len() == 0 ==> r is None,
    {
        let mut best: Option<HitRec<S::Num>> = None;
        let mut bound = t1;
        let mut i: usize = 0;
        while i < self.list.len()
            invariant
                lawful::<S::Num>(),
                i <= self.list.len(),
                best == nearest(self@.take(i as int), ray, t0, t1),
                bound == bound_after(best, t1),
                best matches Some(h) ==> in_window(h.t, t0, t1) && h.p == ray.at_spec(h.t),
            decreases self.list.len() - i,
        {
            proof {
                assert(self@.take(i + 1).drop_last() =~= self@.take(i as int));
            }
            match self.list[i].hit(ray, t0, bound) {
                Some(h) => {
                    bound = h.t;
                    best = Some(h);
                },
                None => {},
            }
            i += 1;
        }
        proof {
            assert(self@.take(i as int) =~= self@);
        }
        best
    }
}

/// What is left of a full-window answer `full` once the window ends at `b`:
/// the same hit if it lies before `b`, else nothing.
pub open spec fn clipped_at<T: Scalar>(full: Option<HitRec<T>>, b: T) -> Option<HitRec<T>> {
    match full {
        Some(h) => if lt(h.t, b) {
            Some(h)
        } else {
            None
        },
        None => None,
    }
}

/// `shape` answers nearest first along `ray` from `t0` up to `t1`: what it
/// reports lies in the window, and when the window is cut short at some `b`
/// before `t1`, it reports the same hit if that lies before `b`, and nothing
/// otherwise.
pub open spec fn nearest_first<S: Shape>(
    shape: S,
    ray: &Ray<S::Num>,
    t0: S::Num,
    t1: S::Num,
) -> bool {
    &&& shape.hit_spec(ray, t0, t1) matches Some(h) ==> in_window(h.t, t0, t1)
    &&& forall|b: S::Num|
        lt(b, t1) ==> #[trigger] shape.hit_spec(ray, t0, b) == clipped_at(
            shape.hit_spec(ray, t0, t1),
            b,
        )
}

/// `answer` is the nearest hit among `shapes`: nothing, where no shape is hit
/// in the window; otherwise the record that one of the shapes reports for the
/// whole window, with no shape reporting a parameter below that record's.
pub open spec fn is_nearest_hit<S: Shape>(
    answer: Option<HitRec<S::Num>>,
    shapes: Seq<S>,
    ray: &Ray<S::Num>,
    t0: S::Num,
    t1: S::Num,
) -> bool {
    match answer {
        None => forall|i: int|
            0 <= i < shapes.len() ==> (#[trigger] shapes[i]).hit_spec(ray, t0, t1) is None,
        Some(h) => {
            &&& in_window(h.t, t0, t1)
            &&& exists|i: int|
                0 <= i < shapes.len() && (#[trigger] shapes[i]).hit_spec(ray, t0, t1) == Some(h)
            &&& forall|j: int|
                0 <= j < shapes.len() ==> match (#[trigger] shapes[j]).hit_spec(ray, t0, t1) {
                    Some(other) => !lt(other.t, h.t),
                    None => true,
                }
        },
    }
}

/// The nearest hit wins: where every shape of a list answers nearest first,
/// what the list reports is the nearest hit among its shapes.
pub proof fn lemma_nearest_is_minimal<S: Shape>(
    shapes: Seq<S>,
    ray: &Ray<S::Num>,
    t0: S::Num,
    t1: S::Num,
)
    requires
        strictly_ordered::<S::Num>(),
        forall|i: int| 0 <= i < shapes.len() ==> nearest_first(#[trigger] shapes[i], ray, t0, t1),
    ensures
        is_nearest_hit(nearest(shapes, ray, t0, t1), shapes, ray, t0, t1),
    decreases shapes.len(),
{
    if shapes.len() > 0 {
        let front = shapes.drop_last();
        let last = shapes.last();
        let k = shapes.len() - 1;
        assert forall|i: int| 0 <= i < front.len() implies front[i] == shapes[i] by {}
        lemma_nearest_is_minimal(front, ray, t0, t1);
        assert(nearest_first(shapes[k], ray, t0, t1));
        let full = last.hit_spec(ray, t0, t1);
        match nearest(front, ray, t0, t1) {
            None => {
                // The last shape is asked for the whole window.
                if full is Some {
                    assert(shapes[k].hit_spec(ray, t0, t1) == full);
                }
            },
            Some(best) => {
                // The last shape is asked for what lies before the best so
                // far, and answers with its own hit only if that lies there.
                assert(last.hit_spec(ray, t0, best.t) == clipped_at(full, best.t));
                let w = choose|i: int|
                    0 <= i < front.len() && (#[trigger] front[i]).hit_spec(ray, t0, t1) == Some(
                        best,
                    );
                assert(shapes[w].hit_spec(ray, t0, t1) == Some(best));
                assert(shapes[k].hit_spec(ray, t0, t1) == full);
            },
        }
    }
}

/// Two answers name the same record, or their parameters compare one way or
/// the other.
pub open spec fn same_or_apart<T: Scalar>(x: Option<HitRec<T>>, y: Option<HitRec<T>>) -> bool {
    match (x, y) {
        (Some(hx), Some(hy)) => hx == hy || lt(hx.t, hy.t) || lt(hy.t, hx.t),
        _ => true,
    }
}

/// The order of the shapes does not matter. Two lists with the same members,
/// each answering nearest first, report the same hit, provided that no two
/// members are hit at parameters that compare neither way.
pub proof fn lemma_nearest_ignores_order<S: Shape>(
    a: Seq<S>,
    b: Seq<S>,
    ray: &Ray<S::Num>,
    t0: S::Num,
    t1: S::Num,
)
    requires
        strictly_ordered::<S::Num>(),
        forall|i: int| 0 <= i < a.len() ==> nearest_first(#[trigger] a[i], ray, t0, t1),
        forall|s: S| a.contains(s) <==> b.contains(s),
        forall|i: int, j: int|
            0 <= i < a.len() && 0 <= j < a.len() ==> same_or_apart(
                (#[trigger] a[i]).hit_spec(ray, t0, t1),
                (#[trigger] a[j]).hit_spec(ray, t0, t1),
            ),
    ensures
        nearest(a, ray, t0, t1) == nearest(b, ray, t0, t1),
{
    assert forall|j: int| 0 <= j < b.len() implies nearest_first(#[trigger] b[j], ray, t0, t1) by {
        assert(b.contains(b[j]));
        assert(a.contains(b[j]));
        let i = choose|i: int| 0 <= i < a.len() && a[i] == b[j];
        assert(nearest_first(a[i], ray, t0, t1));
    }
    lemma_nearest_is_minimal(a, ray, t0, t1);
    lemma_nearest_is_minimal(b, ray, t0, t1);
    match (nearest(a, ray, t0, t1), nearest(b, ray, t0, t1)) {
        (None, None) => {},
        (None, Some(hb)) => {
            let j = choose|j: int|
                0 <= j < b.len() && (#[trigger] b[j]).hit_spec(ray, t0, t1) == Some(hb);
            assert(b.contains(b[j]));
            assert(a.contains(b[j]));
            let i = choose|i: int| 0 <= i < a.len() && a[i] == b[j];
            assert(a[i].hit_spec(ray, t0, t1) is None);
        },
        (Some(ha), None) => {
            let i = choose|i: int|
                0 <= i < a.len() && (#[trigger] a[i]).hit_spec(ray, t0, t1) == Some(ha);
            assert(a.contains(a[i]));
            assert(b.contains(a[i]));
            let j = choose|j: int| 0 <= j < b.len() && b[j] == a[i];
            assert(b[j].hit_spec(ray, t0, t1) is None);
        },
        (Some(ha), Some(hb)) => {
            let i = choose|i: int|
                0 <= i < a.len() && (#[trigger] a[i]).hit_spec(ray, t0, t1) == Some(ha);
            let j = choose|j: int|
                0 <= j < b.len() && (#[trigger] b[j]).hit_spec(ray, t0, t1) == Some(hb);
            assert(a.contains(a[i]));
            assert(b.contains(a[i]));
            let j2 = choose|j2: int| 0 <= j2 < b.len() && b[j2] == a[i];
            assert(b.contains(b[j]));
            assert(a.contains(b[j]));
            let i2 = choose|i2: int| 0 <= i2 < a.len() && a[i2] == b[j];
            assert(b[j2].hit_spec(ray, t0, t1) == Some(ha));
            assert(a[i2].hit_spec(ray, t0, t1) == Some(hb));
            assert(!lt(ha.t, hb.t));
            assert(!lt(hb.t, ha.t));
            assert(same_or_apart(a[i].hit_spec(ray, t0, t1), a[i2].hit_spec(ray, t0, t1)));
        },
    }
}

} // verus!
