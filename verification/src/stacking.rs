//! The stacking-context tree: a strict ownership tree of compositing scopes,
//! each holding display-list references and child contexts. Paint order is
//! depth first: a context's own display lists in append order, then its
//! children in append order, each child under the composition of the
//! parent's transform with its own.

use vstd::prelude::*;
use crate::geometry::{Matrix4, Rect};

verus! {

/// How a context's finished subtree is composited onto its parent. Blending
/// happens at composite time: the subtree is rendered to an intermediate
/// surface first, so non-commutative modes such as `Difference` cascade in
/// paint order.
#[derive(Clone, Copy, Debug, PartialEq, Eq, Structural)]
pub enum MixBlendMode {
    Normal,
    Multiply,
    Screen,
    Difference,
}

/// A compositing scope. It exclusively owns its children, so the structure
/// is a strict tree: a context, once added to a parent, cannot be added
/// anywhere else.
pub struct StackingContext {
    /// The scroll layer this context scrolls with, if it scrolls at all.
    pub scroll_layer: Option<u32>,
    /// The context's bounds in its parent's coordinate space.
    pub bounds: Rect,
    /// The local content rectangle.
    pub content_rect: Rect,
    /// A hint for sibling ordering decisions made by the consumer.
    pub z_hint: i32,
    /// The context's own 4x4 transform.
    pub transform: Matrix4,
    /// The perspective/projection matrix applied to descendants.
    pub perspective: Matrix4,
    /// Whether this context establishes a new 3D rendering context, i.e. a
    /// flattening boundary for descendant transforms.
    pub establishes_3d_context: bool,
    /// How the finished subtree is composited onto the parent.
    pub blend_mode: MixBlendMode,
    /// Handles of the display lists this context paints, in append order.
    pub display_lists: Vec<u64>,
    /// The owned child contexts, in append order.
    pub children: Vec<StackingContext>,
}

/// The paint order of a context: the handles of every display list in its
/// subtree, in the order their primitives are painted. A context paints its
/// own display lists first, in append order, then each child's subtree, in
/// append order.
pub open spec fn spec_paint_order(sc: StackingContext) -> Seq<u64>
    decreases sc,
{
    sc.display_lists@ + spec_paint_order_children(sc.children@)
}

/// The concatenation of the paint orders of a sequence of sibling contexts.
pub open spec fn spec_paint_order_children(cs: Seq<StackingContext>) -> Seq<u64>
    decreases cs,
{
    if cs.len() == 0 {
        Seq::empty()
    } else {
        spec_paint_order(cs[0]) + spec_paint_order_children(cs.drop_first())
    }
}

/// Appending a sibling at the end of a sequence appends its whole subtree at
/// the end of the siblings' paint order.
pub proof fn lemma_paint_order_children_snoc(cs: Seq<StackingContext>, c: StackingContext)
    ensures
        spec_paint_order_children(cs.push(c)) == spec_paint_order_children(cs)
            + spec_paint_order(c),
    decreases cs.len(),
{
    if cs.len() == 0 {
        assert(cs.push(c)[0] == c);
        assert(cs.push(c).drop_first() =~= Seq::<StackingContext>::empty());
        assert(spec_paint_order_children(cs.push(c).drop_first()) == Seq::<u64>::empty());
        assert(spec_paint_order_children(cs.push(c)) == spec_paint_order(c) + Seq::<u64>::empty());
        assert(spec_paint_order_children(cs) == Seq::<u64>::empty());
        assert(spec_paint_order(c) + Seq::<u64>::empty() =~= Seq::<u64>::empty()
            + spec_paint_order(c));
    } else {
        assert(cs.push(c).drop_first() =~= cs.drop_first().push(c));
        lemma_paint_order_children_snoc(cs.drop_first(), c);
        assert(cs.push(c)[0] == cs[0]);
        assert(spec_paint_order_children(cs.push(c)) =~= spec_paint_order_children(cs)
            + spec_paint_order(c));
    }
}

/// A context with no children paints exactly its own display lists, in
/// append order.
pub proof fn lemma_paint_order_no_children(sc: StackingContext)
    requires
        sc.children@.len() == 0,
    ensures
        spec_paint_order(sc) == sc.display_lists@,
{
    assert(spec_paint_order(sc) =~= sc.display_lists@);
}

/// Adding a child context after the fact appends the child's whole subtree
/// to the parent's paint order and changes nothing before it: a parent with
/// display lists [A, B] paints A then B, and with child C added paints A, B,
/// then C's subtree.
pub proof fn lemma_paint_order_add_child(
    before: StackingContext,
    after: StackingContext,
    child: StackingContext,
)
    requires
        after.display_lists@ == before.display_lists@,
        after.children@ == before.children@.push(child),
    ensures
        spec_paint_order(after) == spec_paint_order(before) + spec_paint_order(child),
{
    lemma_paint_order_children_snoc(before.children@, child);
    assert(spec_paint_order(after) =~= spec_paint_order(before) + spec_paint_order(child));
}

impl StackingContext {
    /// A new, childless context with no display lists yet.
    pub fn new(
        scroll_layer: Option<u32>,
        bounds: Rect,
        content_rect: Rect,
        z_hint: i32,
        transform: &Matrix4,
        perspective: &Matrix4,
        establishes_3d_context: bool,
        blend_mode: MixBlendMode,
    ) -> (r: StackingContext)
        ensures
            r.scroll_layer == scroll_layer,
            r.bounds == bounds,
            r.content_rect == content_rect,
            r.z_hint == z_hint,
            r.transform == *transform,
            r.perspective == *perspective,
            r.establishes_3d_context == establishes_3d_context,
            r.blend_mode == blend_mode,
            r.display_lists@ == Seq::<u64>::empty(),
            r.children@ == Seq::<StackingContext>::empty(),
    {
        StackingContext {
            scroll_layer,
            bounds,
            content_rect,
            z_hint,
            transform: *transform,
            perspective: *perspective,
            establishes_3d_context,
            blend_mode,
            display_lists: Vec::new(),
            children: Vec::new(),
        }
    }

    /// Appends a display-list reference; append order is paint order among
    /// this context's own lists.
    pub fn add_display_list(&mut self, id: u64)
        ensures
            final(self).display_lists@ == old(self).display_lists@.push(id),
            final(self).children@ == old(self).children@,
            final(self).scroll_layer == old(self).scroll_layer,
            final(self).bounds == old(self).bounds,
            final(self).content_rect == old(self).content_rect,
            final(self).z_hint == old(self).z_hint,
            final(self).transform == old(self).transform,
            final(self).perspective == old(self).perspective,
            final(self).establishes_3d_context == old(self).establishes_3d_context,
            final(self).blend_mode == old(self).blend_mode,
    {
        self.display_lists.push(id);
    }

    /// Takes ownership of `child` and appends it to this context's child
    /// list. The move makes double-parenting impossible: the child cannot be
    /// added to any other context afterwards.
    pub fn add_stacking_context(&mut self, child: StackingContext)
        ensures
            final(self).children@ == old(self).children@.push(child),
            final(self).display_lists@ == old(self).display_lists@,
            final(self).scroll_layer == old(self).scroll_layer,
            final(self).bounds == old(self).bounds,
            final(self).content_rect == old(self).content_rect,
            final(self).z_hint == old(self).z_hint,
            final(self).transform == old(self).transform,
            final(self).perspective == old(self).perspective,
            final(self).establishes_3d_context == old(self).establishes_3d_context,
            final(self).blend_mode == old(self).blend_mode,
    {
        self.children.push(child);
    }

    /// Computes the paint order of this context's subtree: every display
    /// list handle in the order its primitives are painted.
    pub fn paint_order(&self) -> (r: Vec<u64>)
        ensures
            r@ == spec_paint_order(*self),
        decreases *self,
    {
        let mut out: Vec<u64> = Vec::new();
        let mut i: usize = 0;
        while i < self.display_lists.len()
            invariant
                i <= self.display_lists@.len(),
                out@ == self.display_lists@.take(i as int),
            decreases self.display_lists@.len() - i,
        {
            out.push(self.display_lists[i]);
            proof {
                assert(self.display_lists@.take(i + 1 as int) =~= self.display_lists@.take(
                    i as int,
                ).push(self.display_lists@[i as int]));
            }
            i = i + 1;
        }
        proof {
            assert(self.display_lists@.take(self.display_lists@.len() as int)
                =~= self.display_lists@);
        }
        let mut j: usize = 0;
        while j < self.children.len()
            invariant
                j <= self.children@.len(),
                out@ == self.display_lists@ + spec_paint_order_children(
                    self.children@.take(j as int),
                ),
            decreases self.children@.len() - j,
        {
            let mut sub = self.children[j].paint_order();
            out.append(&mut sub);
            proof {
                assert(self.children@.take(j + 1 as int) =~= self.children@.take(j as int).push(
                    self.children@[j as int],
                ));
                lemma_paint_order_children_snoc(
                    self.children@.take(j as int),
                    self.children@[j as int],
                );
                assert(out@ =~= self.display_lists@ + spec_paint_order_children(
                    self.children@.take(j + 1 as int),
                ));
            }
            j = j + 1;
        }
        proof {
            assert(self.children@.take(self.children@.len() as int) =~= self.children@);
        }
        out
    }
}

} // verus!
