//! State handed down the display list while a frame is drawn.
use vstd::prelude::*;
use crate::value::Twips;

verus! {

/// The depth of a display object among its siblings, as used by masks.
pub type Depth = u16;

/// The placement of a display object: a translation in twips.
#[derive(Clone, Copy, Debug, PartialEq, Eq, Structural)]
pub struct Transform {
    pub tx: Twips,
    pub ty: Twips,
}

/// An axis-aligned rectangle in twips. An invalid box stands for bounds
/// that are not known.
#[derive(Clone, Copy, Debug, PartialEq, Eq, Structural)]
pub struct BoundingBox {
    pub x_min: Twips,
    pub y_min: Twips,
    pub x_max: Twips,
    pub y_max: Twips,
    pub valid: bool,
}

/// Whether two boxes overlap, edges included.
pub open spec fn boxes_overlap(a: BoundingBox, b: BoundingBox) -> bool {
    a.x_min.value <= b.x_max.value && b.x_min.value <= a.x_max.value
        && a.y_min.value <= b.y_max.value && b.y_min.value <= a.y_max.value
}

/// The transforms of the display objects being traversed, innermost last.
pub struct TransformStack {
    stack: Vec<Transform>,
}

impl View for TransformStack {
    type V = Seq<Transform>;

    closed spec fn view(&self) -> Seq<Transform> {
        self.stack@
    }
}

impl TransformStack {
    /// An empty stack.
    pub fn new() -> (r: Self)
        ensures
            r@ == Seq::<Transform>::empty(),
    {
        TransformStack { stack: Vec::new() }
    }

    /// Enters a display object placed by `t`.
    pub fn push(&mut self, t: Transform)
        ensures
            final(self)@ == old(self)@.push(t),
    {
        self.stack.push(t);
    }

    /// Leaves the innermost display object.
    pub fn pop(&mut self) -> (r: Transform)
        requires
            old(self)@.len() > 0,
        ensures
            r == old(self)@.last(),
            final(self)@ == old(self)@.drop_last(),
    {
        self.stack.pop().unwrap()
    }

    /// The transform of the innermost display object, if any.
    pub fn top(&self) -> (r: Option<Transform>)
        ensures
            self@.len() == 0 ==> r is None,
            self@.len() > 0 ==> r == Some(self@.last()),
    {
        if self.stack.len() == 0 {
            None
        } else {
            Some(self.stack[self.stack.len() - 1])
        }
    }

    /// How many transforms are on the stack.
    pub fn len(&self) -> (r: usize)
        ensures
            r == self@.len(),
    {
        self.stack.len()
    }
}

/// One step of a traversal, as seen by the render context's two stacks.
#[derive(Clone, Copy, Debug, PartialEq, Eq, Structural)]
pub enum RenderOp {
    PushTransform(Transform),
    PopTransform,
    PushClipDepth(Depth),
    PopClipDepth,
}

/// Pushes minus pops of transforms in `ops`.
pub open spec fn transform_net(ops: Seq<RenderOp>) -> int
    decreases ops.len(),
{
    if ops.len() == 0 {
        0
    } else {
        transform_net(ops.drop_last()) + match ops.last() {
            RenderOp::PushTransform(_) => 1int,
            RenderOp::PopTransform => -1int,
            _ => 0int,
        }
    }
}

/// Pushes minus pops of clip depths in `ops`.
pub open spec fn clip_net(ops: Seq<RenderOp>) -> int
    decreases ops.len(),
{
    if ops.len() == 0 {
        0
    } else {
        clip_net(ops.drop_last()) + match ops.last() {
            RenderOp::PushClipDepth(_) => 1int,
            RenderOp::PopClipDepth => -1int,
            _ => 0int,
        }
    }
}

/// No prefix of `ops` pops a stack below the depth it started at.
pub open spec fn stays_above(ops: Seq<RenderOp>) -> bool {
    forall|k: int| 0 <= k <= ops.len() ==> #[trigger] transform_net(ops.take(k)) >= 0
        && clip_net(ops.take(k)) >= 0
}

/// A full pass: every push is matched by a later pop of the same stack.
pub open spec fn balanced(ops: Seq<RenderOp>) -> bool {
    stays_above(ops) && transform_net(ops) == 0 && clip_net(ops) == 0
}

/// Shared data used while drawing a frame. The driving loop creates it for
/// each frame and passes it down to the display objects.
pub struct RenderContext<'a> {
    /// The transforms of the display objects being traversed.
    pub transform_stack: &'a mut TransformStack,
    /// The bounds of the current viewport, used for culling.
    pub view_bounds: BoundingBox,
    /// The depths of the masks currently in effect.
    pub clip_depth_stack: Vec<Depth>,
}

impl<'a> RenderContext<'a> {
    /// Whether something within `bounds` may be visible in the viewport.
    /// Unknown bounds on either side count as visible.
    pub fn is_visible(&self, bounds: &BoundingBox) -> (r: bool)
        ensures
            r == (!self.view_bounds.valid || !bounds.valid || boxes_overlap(self.view_bounds, *bounds)),
    {
        let v = &self.view_bounds;
        !v.valid || !bounds.valid || (v.x_min.value <= bounds.x_max.value
            && bounds.x_min.value <= v.x_max.value && v.y_min.value <= bounds.y_max.value
            && bounds.y_min.value <= v.y_max.value)
    }

    /// Applies one traversal step to the two stacks.
    pub fn apply(&mut self, op: RenderOp)
        requires
            op is PopTransform ==> old(self).transform_stack@.len() > 0,
            op is PopClipDepth ==> old(self).clip_depth_stack@.len() > 0,
        ensures
            match op {
                RenderOp::PushTransform(t) => final(self).transform_stack@
                    == old(self).transform_stack@.push(t),
                RenderOp::PopTransform => final(self).transform_stack@
                    == old(self).transform_stack@.drop_last(),
                _ => final(self).transform_stack@ == old(self).transform_stack@,
            },
            match op {
                RenderOp::PushClipDepth(d) => final(self).clip_depth_stack@
                    == old(self).clip_depth_stack@.push(d),
                RenderOp::PopClipDepth => final(self).clip_depth_stack@
                    == old(self).clip_depth_stack@.drop_last(),
                _ => final(self).clip_depth_stack@ == old(self).clip_depth_stack@,
            },
            final(self).view_bounds == old(self).view_bounds,
    {
        match op {
            RenderOp::PushTransform(t) => self.transform_stack.push(t),
            RenderOp::PopTransform => {
                self.transform_stack.pop();
            },
            RenderOp::PushClipDepth(d) => self.clip_depth_stack.push(d),
            RenderOp::PopClipDepth => {
                self.clip_depth_stack.pop();
            },
        }
    }

    /// Applies the steps of a traversal in order. Each stack ends deeper by
    /// its pushes minus its pops; entries below the starting depth are left
    /// alone; and after a full pass both stacks are as they were.
    pub fn run(&mut self, ops: &Vec<RenderOp>)
        requires
            forall|k: int|
                0 <= k <= ops@.len() ==> old(self).transform_stack@.len() + #[trigger] transform_net(
                    ops@.take(k),
                ) >= 0 && old(self).clip_depth_stack@.len() + clip_net(ops@.take(k)) >= 0,
        ensures
            final(self).transform_stack@.len() == old(self).transform_stack@.len() + transform_net(
                ops@,
            ),
            final(self).clip_depth_stack@.len() == old(self).clip_depth_stack@.len() + clip_net(
                ops@,
            ),
            stays_above(ops@) ==> final(self).transform_stack@.take(
                old(self).transform_stack@.len() as int,
            ) == old(self).transform_stack@,
            stays_above(ops@) ==> final(self).clip_depth_stack@.take(
                old(self).clip_depth_stack@.len() as int,
            ) == old(self).clip_depth_stack@,
            balanced(ops@) ==> final(self).transform_stack@ == old(self).transform_stack@,
            balanced(ops@) ==> final(self).clip_depth_stack@ == old(self).clip_depth_stack@,
            final(self).view_bounds == old(self).view_bounds,
    {
        let ghost t0 = self.transform_stack@;
        let ghost c0 = self.clip_depth_stack@;
        let mut i: usize = 0;
        while i < ops.len()
            invariant
                i <= ops@.len(),
                forall|k: int|
                    0 <= k <= ops@.len() ==> t0.len() + #[trigger] transform_net(ops@.take(k)) >= 0
                        && c0.len() + clip_net(ops@.take(k)) >= 0,
                self.transform_stack@.len() == t0.len() + transform_net(ops@.take(i as int)),
                self.clip_depth_stack@.len() == c0.len() + clip_net(ops@.take(i as int)),
                stays_above(ops@) ==> self.transform_stack@.take(t0.len() as int) == t0,
                stays_above(ops@) ==> self.clip_depth_stack@.take(c0.len() as int) == c0,
                self.view_bounds == old(self).view_bounds,
                t0 == old(self).transform_stack@,
                c0 == old(self).clip_depth_stack@,
            decreases ops@.len() - i,
        {
            let op = ops[i];
            let ghost tb = self.transform_stack@;
            let ghost cb = self.clip_depth_stack@;
            proof {
                let next = ops@.take(i + 1);
                assert(next.drop_last() =~= ops@.take(i as int));
                assert(next.last() == op);
                assert(t0.len() + transform_net(next) >= 0);
                assert(c0.len() + clip_net(next) >= 0);
            }
            self.apply(op);
            proof {
                let next = ops@.take(i + 1);
                if stays_above(ops@) {
                    assert(transform_net(next) >= 0);
                    assert(clip_net(next) >= 0);
                    assert(self.transform_stack@.take(t0.len() as int) =~= tb.take(t0.len() as int));
                    assert(self.clip_depth_stack@.take(c0.len() as int) =~= cb.take(c0.len() as int));
                }
            }
            i = i + 1;
        }
        assert(ops@.take(ops@.len() as int) =~= ops@);
        proof {
            if balanced(ops@) {
                assert(self.transform_stack@ =~= self.transform_stack@.take(t0.len() as int));
                assert(self.clip_depth_stack@ =~= self.clip_depth_stack@.take(c0.len() as int));
            }
        }
    }
}

} // verus!
