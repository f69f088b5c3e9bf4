//! What the primary pointer button does to the selection and to the drag in
//! progress, one frame at a time.
//!
//! In a frame the objects are visited in scene order. An object whose
//! bounding box holds the pointer in the frame in which the button went down
//! becomes the selected and the dragged one, so the last such object keeps
//! both roles. The box is the upright rectangle around the object: how the
//! object is turned plays no part. The dragged
//! object then follows the pointer: the stretch from the anchor to the
//! pointer is reported as a motion and the anchor moves on to the pointer.
//! Releasing the button ends the drag and leaves the selection.

use vstd::prelude::*;
use crate::number::{at_most, le};
use crate::object::Vec2;

verus! {

/// The stretch between two places on the screen.
#[derive(Clone, Copy, Debug, PartialEq, Eq, Structural)]
pub struct Segment {
    pub from: Vec2,
    pub to: Vec2,
}

/// The object at `index` is to be moved by as much as the pointer moved
/// along `along`.
#[derive(Clone, Copy, Debug, PartialEq, Eq, Structural)]
pub struct Motion {
    pub index: usize,
    pub along: Segment,
}

/// What the primary button and the pointer did in one frame.
#[derive(Clone, Copy, Debug, PartialEq, Eq, Structural)]
pub struct PointerFrame {
    /// The button went down in this frame.
    pub started: bool,
    /// The button came up in this frame.
    pub released: bool,
    /// Where the pointer is, if it is over the canvas.
    pub pointer: Option<Vec2>,
}

/// The selection and the drag in progress.
#[derive(Clone, Copy, Debug, PartialEq, Eq, Structural)]
pub struct PointerState {
    /// The selected object.
    pub selected: Option<usize>,
    /// The object that follows the pointer.
    pub dragging: Option<usize>,
    /// Where the pointer was when the dragged object last followed it.
    pub anchor: Option<Vec2>,
}

/// An upright rectangle on the screen, given by its corners with the least
/// and the greatest coordinates.
#[derive(Clone, Copy, Debug, PartialEq, Eq, Structural)]
pub struct Bounds {
    pub min: Vec2,
    pub max: Vec2,
}

impl Bounds {
    /// Whether `p` lies in the rectangle, its edges included.
    pub open spec fn holds(self, p: Vec2) -> bool {
        &&& at_most(self.min.x, p.x)
        &&& at_most(p.x, self.max.x)
        &&& at_most(self.min.y, p.y)
        &&& at_most(p.y, self.max.y)
    }

    /// Whether `p` lies in the rectangle, its edges included.
    pub fn contains(&self, p: Vec2) -> (inside: bool)
        ensures
            inside == self.holds(p),
    {
        le(self.min.x, p.x) && le(p.x, self.max.x) && le(self.min.y, p.y) && le(p.y, self.max.y)
    }
}

/// Whether the pointer is inside the bounding box of the object at `i`.
/// `boxes` holds one box for each object; an object without a box is not
/// under the pointer, nor is any object while the pointer is away.
pub open spec fn under_pointer(frame: PointerFrame, boxes: Seq<Bounds>, i: int) -> bool {
    0 <= i < boxes.len() && frame.pointer is Some && boxes[i].holds(frame.pointer->0)
}

/// Whether an object is grabbed in this frame: the button went down while the
/// pointer was inside the object's bounding box.
pub open spec fn grabs(frame: PointerFrame, under_pointer: bool) -> bool {
    frame.started && frame.pointer is Some && under_pointer
}

/// Whether `j` is the last object that is grabbed among the first `n`.
pub open spec fn last_hit(frame: PointerFrame, boxes: Seq<Bounds>, n: nat, j: int) -> bool {
    &&& 0 <= j < n
    &&& grabs(frame, under_pointer(frame, boxes, j))
    &&& forall|k: int| j < k < n ==> !grabs(frame, under_pointer(frame, boxes, k))
}

/// Whether none of the first `n` objects is grabbed.
pub open spec fn no_hit(frame: PointerFrame, boxes: Seq<Bounds>, n: nat) -> bool {
    forall|k: int| 0 <= k < n ==> !grabs(frame, under_pointer(frame, boxes, k))
}

impl PointerState {
    /// Nothing selected, nothing dragged.
    pub open spec fn idle() -> PointerState {
        PointerState { selected: None, dragging: None, anchor: None }
    }

    /// The selected and the dragged object are objects of a scene of `len`
    /// objects, the dragged object is the selected one, and there is an
    /// anchor exactly while an object is dragged.
    pub open spec fn wf(self, len: nat) -> bool {
        &&& self.selected is Some ==> self.selected->0 < len
        &&& self.dragging is Some ==> self.dragging == self.selected
        &&& self.dragging is Some <==> self.anchor is Some
    }

    /// The state after the object at `index` was chosen by other means than
    /// the pointer. A drag of that object goes on; a drag of another object
    /// ends, since the dragged object is always the selected one.
    pub open spec fn chosen(self, index: usize) -> PointerState {
        if self.dragging == Some(index) {
            PointerState { selected: Some(index), dragging: self.dragging, anchor: self.anchor }
        } else {
            PointerState { selected: Some(index), dragging: None, anchor: None }
        }
    }

    /// The state after the object at `i` was grabbed, if it is in this frame.
    pub open spec fn grabbed(self, i: usize, frame: PointerFrame, under_pointer: bool) -> PointerState {
        if grabs(frame, under_pointer) {
            PointerState { selected: Some(i), dragging: Some(i), anchor: frame.pointer }
        } else {
            self
        }
    }

    /// The state after the dragged object followed the pointer: the anchor
    /// is where the pointer is, and a release ends the drag.
    pub open spec fn followed(self, frame: PointerFrame) -> PointerState {
        if frame.released {
            PointerState { selected: self.selected, dragging: None, anchor: None }
        } else if frame.pointer is Some && self.anchor is Some {
            PointerState { selected: self.selected, dragging: self.dragging, anchor: frame.pointer }
        } else {
            self
        }
    }

    /// The state after the object at `i` was visited.
    pub open spec fn step(self, i: usize, frame: PointerFrame, under_pointer: bool) -> PointerState {
        let grabbed = self.grabbed(i, frame, under_pointer);
        if grabbed.dragging == Some(i) {
            grabbed.followed(frame)
        } else {
            grabbed
        }
    }

    /// The motion that visiting the object at `i` reports, if any.
    pub open spec fn step_motion(self, i: usize, frame: PointerFrame, under_pointer: bool) -> Option<
        Motion,
    > {
        let grabbed = self.grabbed(i, frame, under_pointer);
        if grabbed.dragging == Some(i) && frame.pointer is Some && grabbed.anchor is Some {
            Some(Motion { index: i, along: Segment { from: grabbed.anchor->0, to: frame.pointer->0 } })
        } else {
            None
        }
    }

    /// The state after the first `k` objects were visited.
    pub open spec fn after(self, frame: PointerFrame, boxes: Seq<Bounds>, k: nat) -> PointerState
        decreases k,
    {
        if k == 0 {
            self
        } else {
            self.after(frame, boxes, (k - 1) as nat).step(
                (k - 1) as usize,
                frame,
                under_pointer(frame, boxes, k - 1),
            )
        }
    }

    /// The motions that visiting the first `k` objects reports, in scene order.
    pub open spec fn motions(self, frame: PointerFrame, boxes: Seq<Bounds>, k: nat) -> Seq<Motion>
        decreases k,
    {
        if k == 0 {
            Seq::empty()
        } else {
            let before = self.motions(frame, boxes, (k - 1) as nat);
            match self.after(frame, boxes, (k - 1) as nat).step_motion(
                (k - 1) as usize,
                frame,
                under_pointer(frame, boxes, k - 1),
            ) {
                Some(motion) => before.push(motion),
                None => before,
            }
        }
    }

    /// Visits the object at `i`.
    fn visit(&mut self, i: usize, frame: PointerFrame, under_pointer: bool) -> (motion: Option<Motion>)
        ensures
            *final(self) == old(self).step(i, frame, under_pointer),
            motion == old(self).step_motion(i, frame, under_pointer),
    {
        if frame.started && frame.pointer.is_some() && under_pointer {
            self.selected = Some(i);
            self.dragging = Some(i);
            self.anchor = frame.pointer;
        }
        let mut motion: Option<Motion> = None;
        if self.dragging == Some(i) {
            if let Some(to) = frame.pointer {
                if let Some(from) = self.anchor {
                    motion = Some(Motion { index: i, along: Segment { from, to } });
                    self.anchor = Some(to);
                }
            }
            if frame.released {
                self.dragging = None;
                self.anchor = None;
            }
        }
        motion
    }

    /// Visits the first `count` objects in scene order and reports the
    /// motions of the dragged object.
    pub(crate) fn visit_all(&mut self, count: usize, frame: PointerFrame, boxes: &Vec<Bounds>) -> (motions: Vec<
        Motion,
    >)
        ensures
            *final(self) == old(self).after(frame, boxes@, count as nat),
            motions@ == old(self).motions(frame, boxes@, count as nat),
    {
        let mut motions: Vec<Motion> = Vec::new();
        let mut i: usize = 0;
        while i < count
            invariant
                i <= count,
                *self == old(self).after(frame, boxes@, i as nat),
                motions@ == old(self).motions(frame, boxes@, i as nat),
            decreases count - i,
        {
            let under = i < boxes.len() && match frame.pointer {
                Some(p) => boxes[i].contains(p),
                None => false,
            };
            if let Some(motion) = self.visit(i, frame, under) {
                motions.push(motion);
            }
            i += 1;
        }
        motions
    }
}

/// A frame keeps the state well-formed for a scene of `len` objects. In
/// particular the object that it leaves dragged is the selected one: a drag
/// starts on the object that it selects, and ends without touching the
/// selection.
pub proof fn lemma_after_wf(
    state: PointerState,
    frame: PointerFrame,
    boxes: Seq<Bounds>,
    k: nat,
    len: nat,
)
    requires
        state.wf(len),
        k <= len,
        len <= usize::MAX,
    ensures
        state.after(frame, boxes, k).wf(len),
    decreases k,
{
    if k > 0 {
        lemma_after_wf(state, frame, boxes, (k - 1) as nat, len);
    }
}

/// Every motion that a frame reports is a motion of one of the objects
/// visited.
pub proof fn lemma_motions_in_range(
    state: PointerState,
    frame: PointerFrame,
    boxes: Seq<Bounds>,
    k: nat,
)
    requires
        k <= usize::MAX,
    ensures
        forall|m: int|
            0 <= m < state.motions(frame, boxes, k).len() ==> (#[trigger] state.motions(
                frame,
                boxes,
                k,
            )[m]).index < k,
    decreases k,
{
    if k > 0 {
        lemma_motions_in_range(state, frame, boxes, (k - 1) as nat);
        let before = state.motions(frame, boxes, (k - 1) as nat);
        let now = state.motions(frame, boxes, k);
        assert forall|m: int| 0 <= m < now.len() implies (#[trigger] now[m]).index < k by {
            if m < before.len() {
                assert(now[m] == before[m]);
            }
        }
    }
}

/// Tie-break of the hit test: of the objects under the pointer when the
/// button goes down, the last in scene order is selected. It is also the
/// dragged one, anchored at the pointer, unless the button came up in the
/// same frame.
pub proof fn lemma_last_hit_wins(
    state: PointerState,
    frame: PointerFrame,
    boxes: Seq<Bounds>,
    n: nat,
    j: int,
)
    requires
        n <= usize::MAX,
        last_hit(frame, boxes, n, j),
    ensures
        state.after(frame, boxes, n).selected == Some(j as usize),
        !frame.released ==> state.after(frame, boxes, n).dragging == Some(j as usize)
            && state.after(frame, boxes, n).anchor == frame.pointer,
        frame.released ==> state.after(frame, boxes, n).dragging is None && state.after(
            frame,
            boxes,
            n,
        ).anchor is None,
{
    lemma_rest_is_passed_over(state, frame, boxes, n, n, j);
}

/// After the last grabbed object was visited, visiting the objects behind it
/// changes nothing.
proof fn lemma_rest_is_passed_over(
    state: PointerState,
    frame: PointerFrame,
    boxes: Seq<Bounds>,
    n: nat,
    k: nat,
    j: int,
)
    requires
        n <= usize::MAX,
        last_hit(frame, boxes, n, j),
        j < k <= n,
    ensures
        state.after(frame, boxes, k) == state.after(frame, boxes, (j + 1) as nat),
        state.after(frame, boxes, k) == state.after(frame, boxes, j as nat).step(
            j as usize,
            frame,
            true,
        ),
    decreases k,
{
    if k > j + 1 {
        lemma_rest_is_passed_over(state, frame, boxes, n, (k - 1) as nat, j);
    }
}

/// Where no object is grabbed, the selection stays as it is.
pub proof fn lemma_selection_persists(
    state: PointerState,
    frame: PointerFrame,
    boxes: Seq<Bounds>,
    n: nat,
)
    requires
        no_hit(frame, boxes, n),
    ensures
        state.after(frame, boxes, n).selected == state.selected,
    decreases n,
{
    if n > 0 {
        assert(no_hit(frame, boxes, (n - 1) as nat));
        lemma_selection_persists(state, frame, boxes, (n - 1) as nat);
    }
}

/// While nothing is dragged and no object is grabbed, a frame changes
/// nothing and reports no motion.
pub proof fn lemma_idle_frame(state: PointerState, frame: PointerFrame, boxes: Seq<Bounds>, n: nat)
    requires
        state.dragging is None,
        no_hit(frame, boxes, n),
    ensures
        state.after(frame, boxes, n) == state,
        state.motions(frame, boxes, n) == Seq::<Motion>::empty(),
    decreases n,
{
    if n > 0 {
        assert(no_hit(frame, boxes, (n - 1) as nat));
        lemma_idle_frame(state, frame, boxes, (n - 1) as nat);
    }
}

/// What a frame does to a drag in progress when no object is grabbed: the
/// dragged object alone is affected. If the pointer is over the canvas, one
/// motion is reported, from the anchor to the pointer. If the button came up,
/// the drag is over; otherwise the anchor is where the pointer is.
pub proof fn lemma_drag_frame(
    state: PointerState,
    frame: PointerFrame,
    boxes: Seq<Bounds>,
    n: nat,
)
    requires
        n <= usize::MAX,
        state.wf(n),
        state.dragging is Some,
        no_hit(frame, boxes, n),
    ensures
        state.after(frame, boxes, n) == state.followed(frame),
        state.motions(frame, boxes, n) == if frame.pointer is Some {
            seq![
                Motion {
                    index: state.dragging->0,
                    along: Segment { from: state.anchor->0, to: frame.pointer->0 },
                },
            ]
        } else {
            Seq::<Motion>::empty()
        },
{
    let i = state.dragging->0;
    lemma_drag_untouched_before(state, frame, boxes, i as nat);
    lemma_drag_settled_behind(state, frame, boxes, n, n);
}

/// The objects in front of the dragged one are passed over.
proof fn lemma_drag_untouched_before(
    state: PointerState,
    frame: PointerFrame,
    boxes: Seq<Bounds>,
    k: nat,
)
    requires
        state.dragging is Some,
        k <= state.dragging->0,
        no_hit(frame, boxes, k),
    ensures
        state.after(frame, boxes, k) == state,
        state.motions(frame, boxes, k) == Seq::<Motion>::empty(),
    decreases k,
{
    if k > 0 {
        assert(no_hit(frame, boxes, (k - 1) as nat));
        lemma_drag_untouched_before(state, frame, boxes, (k - 1) as nat);
    }
}

/// The objects behind the dragged one are passed over.
proof fn lemma_drag_settled_behind(
    state: PointerState,
    frame: PointerFrame,
    boxes: Seq<Bounds>,
    n: nat,
    k: nat,
)
    requires
        n <= usize::MAX,
        state.wf(n),
        state.dragging is Some,
        state.dragging->0 < k <= n,
        no_hit(frame, boxes, n),
    ensures
        state.after(frame, boxes, k) == state.followed(frame),
        state.motions(frame, boxes, k) == if frame.pointer is Some {
            seq![
                Motion {
                    index: state.dragging->0,
                    along: Segment { from: state.anchor->0, to: frame.pointer->0 },
                },
            ]
        } else {
            Seq::<Motion>::empty()
        },
    decreases k,
{
    let i = state.dragging->0;
    if k == i + 1 {
        assert(no_hit(frame, boxes, i as nat));
        lemma_drag_untouched_before(state, frame, boxes, i as nat);
        assert(Seq::<Motion>::empty().push(
            Motion { index: i, along: Segment { from: state.anchor->0, to: frame.pointer->0 } },
        ) =~= seq![
            Motion { index: i, along: Segment { from: state.anchor->0, to: frame.pointer->0 } },
        ]);
    } else {
        lemma_drag_settled_behind(state, frame, boxes, n, (k - 1) as nat);
    }
}

/// Delta tracking: while an object is dragged from anchor `a` and the
/// pointer goes to `b` in one frame and to `c` in the next, the first frame
/// reports the stretch from `a` to `b` and the second the stretch from `b`
/// to `c`. Each part of the way is reported once.
pub proof fn lemma_drag_is_tracked_per_frame(
    state: PointerState,
    first_boxes: Seq<Bounds>,
    second_boxes: Seq<Bounds>,
    n: nat,
    b: Vec2,
    c: Vec2,
)
    requires
        n <= usize::MAX,
        state.wf(n),
        state.dragging is Some,
    ensures
        ({
            let to_b = PointerFrame { started: false, released: false, pointer: Some(b) };
            let to_c = PointerFrame { started: false, released: false, pointer: Some(c) };
            let between = state.after(to_b, first_boxes, n);
            let i = state.dragging->0;
            &&& state.motions(to_b, first_boxes, n) == seq![
                Motion { index: i, along: Segment { from: state.anchor->0, to: b } },
            ]
            &&& between == PointerState { anchor: Some(b), ..state }
            &&& between.motions(to_c, second_boxes, n) == seq![
                Motion { index: i, along: Segment { from: b, to: c } },
            ]
            &&& between.after(to_c, second_boxes, n) == PointerState { anchor: Some(c), ..state }
        }),
{
    let to_b = PointerFrame { started: false, released: false, pointer: Some(b) };
    let to_c = PointerFrame { started: false, released: false, pointer: Some(c) };
    lemma_drag_frame(state, to_b, first_boxes, n);
    lemma_drag_frame(state.after(to_b, first_boxes, n), to_c, second_boxes, n);
}

/// Releasing the button ends the drag and keeps the selection.
pub proof fn lemma_release_ends_drag(
    state: PointerState,
    pointer: Option<Vec2>,
    boxes: Seq<Bounds>,
    n: nat,
)
    requires
        n <= usize::MAX,
        state.wf(n),
        state.dragging is Some,
    ensures
        ({
            let frame = PointerFrame { started: false, released: true, pointer };
            state.after(frame, boxes, n) == PointerState {
                selected: state.selected,
                dragging: None,
                anchor: None,
            }
        }),
{
    lemma_drag_frame(state, PointerFrame { started: false, released: true, pointer }, boxes, n);
}

} // verus!
