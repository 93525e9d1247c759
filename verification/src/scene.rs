//! Scenes and the registry they are built against. Display lists, images
//! and fonts are registered once, receive stable monotonically assigned
//! handles, and are immutable thereafter. Replacing the current scene is a
//! single whole-value swap: an observer sees either the prior scene or the
//! new one in full, never a mixture.

use vstd::prelude::*;
use crate::display_list::{DisplayList, DisplayListBuilder, Primitive};
use crate::geometry::Color;
use crate::image::ImageResource;
use crate::stacking::{spec_paint_order, StackingContext};

verus! {

/// A complete frame description: the root of the stacking-context tree, the
/// background colour, the frame's epoch and the pipeline it belongs to.
pub struct Scene {
    pub root: StackingContext,
    pub background_color: Color,
    /// The monotonically increasing frame version within a pipeline.
    pub epoch: u64,
    /// The logical document this scene belongs to.
    pub pipeline_id: u64,
}

/// The registry of sealed resources plus the current scene. Registration is
/// append-only: a handle, once assigned, always refers to the same resource.
pub struct SceneApi {
    lists: Vec<DisplayList>,
    images: Vec<ImageResource>,
    fonts: Vec<Vec<u8>>,
    current: Option<Scene>,
}

/// The primitives a sequence of display-list handles resolves to, in order:
/// the concatenation of each referenced list's items.
pub open spec fn resolve_handles(lists: Seq<Seq<Primitive>>, handles: Seq<u64>) -> Seq<Primitive>
    decreases handles.len(),
{
    if handles.len() == 0 {
        Seq::empty()
    } else {
        lists[handles[0] as int] + resolve_handles(lists, handles.drop_first())
    }
}

/// Resolving one more handle at the end appends that list's items.
pub proof fn lemma_resolve_handles_snoc(lists: Seq<Seq<Primitive>>, handles: Seq<u64>, h: u64)
    ensures
        resolve_handles(lists, handles.push(h)) == resolve_handles(lists, handles) + lists[h as int],
    decreases handles.len(),
{
    if handles.len() == 0 {
        assert(handles.push(h)[0] == h);
        assert(handles.push(h).drop_first() =~= Seq::<u64>::empty());
        assert(resolve_handles(lists, handles.push(h).drop_first()) == Seq::<Primitive>::empty());
        assert(resolve_handles(lists, handles) == Seq::<Primitive>::empty());
        assert(lists[h as int] + Seq::<Primitive>::empty() =~= Seq::<Primitive>::empty() + lists[h as int]);
    } else {
        assert(handles.push(h).drop_first() =~= handles.drop_first().push(h));
        lemma_resolve_handles_snoc(lists, handles.drop_first(), h);
        assert(handles.push(h)[0] == handles[0]);
        assert(resolve_handles(lists, handles.push(h)) =~= resolve_handles(lists, handles) + lists[h as int]);
    }
}

impl SceneApi {
    /// The registered display lists' primitive sequences, by handle.
    pub closed spec fn lists(self) -> Seq<Seq<Primitive>> {
        self.lists@.map_values(|dl: DisplayList| dl.items@)
    }

    /// The registered image resources, by handle.
    pub closed spec fn images(self) -> Seq<ImageResource> {
        self.images@
    }

    /// The registered font byte buffers, by handle.
    pub closed spec fn fonts(self) -> Seq<Seq<u8>> {
        self.fonts@.map_values(|f: Vec<u8>| f@)
    }

    /// The scene currently presented, if any has been submitted yet.
    pub closed spec fn current_scene(self) -> Option<Scene> {
        self.current
    }

    /// A fresh registry with nothing registered and no scene submitted.
    pub fn new() -> (r: SceneApi)
        ensures
            r.lists() == Seq::<Seq<Primitive>>::empty(),
            r.images() == Seq::<ImageResource>::empty(),
            r.fonts() == Seq::<Seq<u8>>::empty(),
            r.current_scene() is None,
    {
        let r = SceneApi { lists: Vec::new(), images: Vec::new(), fonts: Vec::new(), current: None };
        proof {
            assert(r.lists() =~= Seq::<Seq<Primitive>>::empty());
            assert(r.fonts() =~= Seq::<Seq<u8>>::empty());
        }
        r
    }

    /// Registers the display list a builder accumulated, sealing it, and
    /// returns its stable handle.
    pub fn add_display_list(&mut self, builder: DisplayListBuilder) -> (id: u64)
        ensures
            final(self).lists() == old(self).lists().push(builder.items()),
            id as int == old(self).lists().len(),
            final(self).images() == old(self).images(),
            final(self).fonts() == old(self).fonts(),
            final(self).current_scene() == old(self).current_scene(),
    {
        let id = self.lists.len() as u64;
        let list = builder.finish();
        self.lists.push(list);
        proof {
            assert(final(self).lists() =~= old(self).lists().push(builder.items()));
        }
        id
    }

    /// Looks a registered display list up by its handle.
    pub fn get_display_list(&self, id: u64) -> (r: Option<&DisplayList>)
        ensures
            (id as int) < self.lists().len() <==> r is Some,
            r matches Some(dl) ==> dl.items@ == self.lists()[id as int],
    {
        if id < self.lists.len() as u64 {
            Some(&self.lists[id as usize])
        } else {
            None
        }
    }

    /// Registers an image resource and returns its stable handle.
    pub fn add_image(&mut self, image: ImageResource) -> (id: u64)
        ensures
            final(self).images() == old(self).images().push(image),
            id as int == old(self).images().len(),
            final(self).lists() == old(self).lists(),
            final(self).fonts() == old(self).fonts(),
            final(self).current_scene() == old(self).current_scene(),
    {
        let id = self.images.len() as u64;
        self.images.push(image);
        id
    }

    /// Registers a font's byte buffer and returns its stable handle.
    pub fn add_font(&mut self, bytes: Vec<u8>) -> (id: u64)
        ensures
            final(self).fonts() == old(self).fonts().push(bytes@),
            id as int == old(self).fonts().len(),
            final(self).lists() == old(self).lists(),
            final(self).images() == old(self).images(),
            final(self).current_scene() == old(self).current_scene(),
    {
        let id = self.fonts.len() as u64;
        self.fonts.push(bytes);
        proof {
            assert(final(self).fonts() =~= old(self).fonts().push(bytes@));
        }
        id
    }

    /// Atomically replaces the current scene with a new one built from the
    /// given root. The swap installs the whole scene as one value: after it,
    /// the current scene is exactly the submitted tree, and no observation
    /// mixes old and new parts.
    pub fn set_root_stacking_context(
        &mut self,
        root: StackingContext,
        background_color: Color,
        epoch: u64,
        pipeline_id: u64,
    )
        ensures
            final(self).current_scene() == Some(
                (Scene { root, background_color, epoch, pipeline_id }),
            ),
            final(self).lists() == old(self).lists(),
            final(self).images() == old(self).images(),
            final(self).fonts() == old(self).fonts(),
    {
        self.current = Some(Scene { root, background_color, epoch, pipeline_id });
    }

    /// How many display lists have been registered.
    pub fn display_list_count(&self) -> (r: usize)
        ensures
            r == self.lists().len(),
    {
        self.lists.len()
    }

    /// How many image resources have been registered.
    pub fn image_count(&self) -> (r: usize)
        ensures
            r == self.images().len(),
    {
        self.images.len()
    }

    /// How many fonts have been registered.
    pub fn font_count(&self) -> (r: usize)
        ensures
            r == self.fonts().len(),
    {
        self.fonts.len()
    }

    /// The scene currently presented, if any.
    pub fn current_scene_ref(&self) -> (r: &Option<Scene>)
        ensures
            *r == self.current_scene(),
    {
        &self.current
    }

    /// Resolves a context's subtree to the full primitive sequence in paint
    /// order: each display list's items, in the order `paint_order` gives
    /// the lists. Every handle in the subtree must be registered here.
    pub fn paint_primitives<'a>(&'a self, sc: &StackingContext) -> (r: Vec<&'a Primitive>)
        requires
            forall|k: int|
                0 <= k < spec_paint_order(*sc).len() ==> (spec_paint_order(*sc)[k] as int)
                    < self.lists().len(),
        ensures
            deref_prims(r@) == resolve_handles(self.lists(), spec_paint_order(*sc)),
    {
        let handles = sc.paint_order();
        let mut out: Vec<&'a Primitive> = Vec::new();
        let mut i: usize = 0;
        while i < handles.len()
            invariant
                i <= handles@.len(),
                handles@ == spec_paint_order(*sc),
                forall|k: int|
                    0 <= k < handles@.len() ==> (handles@[k] as int) < self.lists().len(),
                deref_prims(out@) == resolve_handles(self.lists(), handles@.take(i as int)),
            decreases handles@.len() - i,
        {
            let id = handles[i];
            proof {
                assert((handles@[i as int] as int) < self.lists().len());
                assert(self.lists().len() == self.lists@.len());
                assert(id as int == handles@[i as int] as int);
                assert(self.lists()[handles@[i as int] as int] == self.lists@[handles@[i as int] as int].items@);
            }
            let n = self.lists.len();
            proof {
                assert((id as int) < (n as int));
            }
            let list = &self.lists[id as usize];
            proof {
                assert(list.items@ == self.lists()[handles@[i as int] as int]);
            }
            let mut m: usize = 0;
            while m < list.items.len()
                invariant
                    m <= list.items@.len(),
                    list.items@ == self.lists()[handles@[i as int] as int],
                    i < handles@.len(),
                    handles@ == spec_paint_order(*sc),
                    deref_prims(out@) == resolve_handles(self.lists(), handles@.take(i as int))
                        + list.items@.take(m as int),
                decreases list.items@.len() - m,
            {
                let ghost out0 = out@;
                out.push(&list.items[m]);
                proof {
                    assert(list.items@.take(m + 1 as int) =~= list.items@.take(m as int).push(
                        list.items@[m as int],
                    ));
                    assert(out@ == out0.push(out@[out0.len() as int]));
                    assert(*(out@[out0.len() as int]) == list.items@[m as int]);
                    assert(deref_prims(out@) =~= deref_prims(out0).push(list.items@[m as int]));
                    assert(deref_prims(out@) =~= resolve_handles(
                        self.lists(),
                        handles@.take(i as int),
                    ) + list.items@.take(m + 1 as int));
                }
                m = m + 1;
            }
            proof {
                assert(list.items@.take(list.items@.len() as int) =~= list.items@);
                assert(handles@.take(i + 1 as int) =~= handles@.take(i as int).push(
                    handles@[i as int],
                ));
                lemma_resolve_handles_snoc(
                    self.lists(),
                    handles@.take(i as int),
                    handles@[i as int],
                );
            }
            i = i + 1;
        }
        proof {
            assert(handles@.take(handles@.len() as int) =~= handles@);
        }
        out
    }
}

/// The primitives a sequence of primitive references points at, in order.
pub open spec fn deref_prims(s: Seq<&Primitive>) -> Seq<Primitive> {
    s.map_values(|p: &Primitive| *p)
}

} // verus!
