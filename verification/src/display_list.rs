//! Append-only display lists of draw primitives. A builder accumulates
//! primitives in paint order; sealing it makes the sequence immutable, and
//! every later mutation is rejected without changing the accumulated state.

use vstd::prelude::*;
use crate::SceneError;
use crate::geometry::{Color, Point, Rect, Size};

verus! {

/// The cross-list ordering hint a primitive was pushed at. Within one list
/// paint order is strictly append order whatever the level.
#[derive(Clone, Copy, Debug, PartialEq, Eq, Structural)]
pub enum StackingLevel {
    Background,
    Content,
}

/// A gradient stop. `offset` is a position in the [0,1] range expressed in
/// thousandths, so 0 is the start of the gradient line and 1000 the end.
#[derive(Clone, Copy, Debug, PartialEq, Eq, Structural)]
pub struct GradientStop {
    pub offset: u32,
    pub color: Color,
}

/// The largest admissible gradient stop offset (the value standing for 1.0).
pub const OFFSET_END: u32 = 1000;

/// One positioned glyph of a text run: a glyph index and its baseline origin.
#[derive(Clone, Copy, Debug, PartialEq, Eq, Structural)]
pub struct GlyphInstance {
    pub index: u32,
    pub x: i64,
    pub y: i64,
}

/// The stroke style of one border side.
#[derive(Clone, Copy, Debug, PartialEq, Eq, Structural)]
pub enum BorderStyle {
    Solid,
    Dotted,
    Dashed,
}

/// One side of a border: stroke width, colour and style.
#[derive(Clone, Copy, Debug, PartialEq, Eq, Structural)]
pub struct BorderSide {
    pub width: i64,
    pub color: Color,
    pub style: BorderStyle,
}

/// The four corner radii of a border, each an ellipse size.
#[derive(Clone, Copy, Debug, PartialEq, Eq, Structural)]
pub struct BorderRadius {
    pub top_left: Size,
    pub top_right: Size,
    pub bottom_left: Size,
    pub bottom_right: Size,
}

/// A rectangular clip region; primitives never paint outside it.
#[derive(Clone, Copy, Debug, PartialEq, Eq, Structural)]
pub struct ClipRegion {
    pub main: Rect,
}

impl ClipRegion {
    pub fn new(main: Rect) -> (r: ClipRegion)
        ensures
            r == (ClipRegion { main }),
    {
        ClipRegion { main }
    }
}

/// One draw primitive. Primitives are immutable once appended to a list.
#[derive(Clone, Debug, PartialEq, Eq)]
pub enum Primitive {
    Rectangle { level: StackingLevel, bounds: Rect, clip: ClipRegion, color: Color },
    TextRun {
        level: StackingLevel,
        bounds: Rect,
        clip: ClipRegion,
        glyphs: Vec<GlyphInstance>,
        font: u64,
        color: Color,
        size: u32,
    },
    Image { level: StackingLevel, bounds: Rect, clip: ClipRegion, stretch_size: Size, image: u64 },
    Gradient {
        level: StackingLevel,
        bounds: Rect,
        clip: ClipRegion,
        start: Point,
        end: Point,
        stops: Vec<GradientStop>,
    },
    Border {
        level: StackingLevel,
        bounds: Rect,
        clip: ClipRegion,
        left: BorderSide,
        top: BorderSide,
        right: BorderSide,
        bottom: BorderSide,
        radius: BorderRadius,
    },
}

/// A gradient stop list is valid when it is non-empty, every offset lies in
/// [0,1], and offsets are monotonically non-decreasing.
pub open spec fn stops_wf(stops: Seq<GradientStop>) -> bool {
    &&& stops.len() > 0
    &&& forall|i: int| 0 <= i < stops.len() ==> stops[i].offset <= OFFSET_END
    &&& forall|i: int, j: int| 0 <= i <= j < stops.len() ==> stops[i].offset <= stops[j].offset
}

/// A sealed display list: the immutable outcome of a builder, an ordered
/// sequence of primitives in paint order.
#[derive(Debug, PartialEq, Eq)]
pub struct DisplayList {
    pub items: Vec<Primitive>,
}

/// The mutable accumulator for one display list. Each push appends one
/// primitive or fails leaving the accumulated sequence untouched; after
/// `seal` every push fails with `ListSealed`.
pub struct DisplayListBuilder {
    prims: Vec<Primitive>,
    sealed: bool,
}

impl DisplayListBuilder {
    /// The primitives accumulated so far, in append (= paint) order.
    pub closed spec fn items(self) -> Seq<Primitive> {
        self.prims@
    }

    /// Whether the builder has been sealed against further mutation.
    pub closed spec fn is_sealed(self) -> bool {
        self.sealed
    }

    pub fn new() -> (r: DisplayListBuilder)
        ensures
            r.items() == Seq::<Primitive>::empty(),
            !r.is_sealed(),
    {
        DisplayListBuilder { prims: Vec::new(), sealed: false }
    }

    /// Appends a solid rectangle.
    pub fn push_rect(
        &mut self,
        level: StackingLevel,
        bounds: Rect,
        clip: ClipRegion,
        color: Color,
    ) -> (r: Result<(), SceneError>)
        ensures
            final(self).is_sealed() == old(self).is_sealed(),
            old(self).is_sealed() ==> r == Err::<(), SceneError>(SceneError::ListSealed)
                && final(self).items() == old(self).items(),
            !old(self).is_sealed() && !bounds.wf() ==> r == Err::<(), SceneError>(
                SceneError::InvalidGeometry,
            ) && final(self).items() == old(self).items(),
            !old(self).is_sealed() && bounds.wf() ==> r == Ok::<(), SceneError>(()) && final(self).items() == old(self).items().push(
                (Primitive::Rectangle { level, bounds, clip, color }),
            ),
    {
        if self.sealed {
            return Err(SceneError::ListSealed);
        }
        if bounds.size.width < 0 || bounds.size.height < 0 {
            return Err(SceneError::InvalidGeometry);
        }
        self.prims.push(Primitive::Rectangle { level, bounds, clip, color });
        Ok(())
    }

    /// Appends a run of positioned glyphs in a single font and colour.
    pub fn push_text(
        &mut self,
        level: StackingLevel,
        bounds: Rect,
        clip: ClipRegion,
        glyphs: Vec<GlyphInstance>,
        font: u64,
        color: Color,
        size: u32,
    ) -> (r: Result<(), SceneError>)
        ensures
            final(self).is_sealed() == old(self).is_sealed(),
            old(self).is_sealed() ==> r == Err::<(), SceneError>(SceneError::ListSealed)
                && final(self).items() == old(self).items(),
            !old(self).is_sealed() && !bounds.wf() ==> r == Err::<(), SceneError>(
                SceneError::InvalidGeometry,
            ) && final(self).items() == old(self).items(),
            !old(self).is_sealed() && bounds.wf() ==> r == Ok::<(), SceneError>(()) && final(self).items() == old(self).items().push(
                (Primitive::TextRun { level, bounds, clip, glyphs, font, color, size }),
            ),
    {
        if self.sealed {
            return Err(SceneError::ListSealed);
        }
        if bounds.size.width < 0 || bounds.size.height < 0 {
            return Err(SceneError::InvalidGeometry);
        }
        self.prims.push(Primitive::TextRun { level, bounds, clip, glyphs, font, color, size });
        Ok(())
    }

    /// Appends an image primitive referencing a registered image resource.
    pub fn push_image(
        &mut self,
        level: StackingLevel,
        bounds: Rect,
        clip: ClipRegion,
        stretch_size: Size,
        image: u64,
    ) -> (r: Result<(), SceneError>)
        ensures
            final(self).is_sealed() == old(self).is_sealed(),
            old(self).is_sealed() ==> r == Err::<(), SceneError>(SceneError::ListSealed)
                && final(self).items() == old(self).items(),
            !old(self).is_sealed() && !bounds.wf() ==> r == Err::<(), SceneError>(
                SceneError::InvalidGeometry,
            ) && final(self).items() == old(self).items(),
            !old(self).is_sealed() && bounds.wf() ==> r == Ok::<(), SceneError>(()) && final(self).items() == old(self).items().push(
                (Primitive::Image { level, bounds, clip, stretch_size, image }),
            ),
    {
        if self.sealed {
            return Err(SceneError::ListSealed);
        }
        if bounds.size.width < 0 || bounds.size.height < 0 {
            return Err(SceneError::InvalidGeometry);
        }
        self.prims.push(Primitive::Image { level, bounds, clip, stretch_size, image });
        Ok(())
    }

    /// Appends a linear gradient with an ordered stop list.
    pub fn push_gradient(
        &mut self,
        level: StackingLevel,
        bounds: Rect,
        clip: ClipRegion,
        start: Point,
        end: Point,
        stops: Vec<GradientStop>,
    ) -> (r: Result<(), SceneError>)
        ensures
            final(self).is_sealed() == old(self).is_sealed(),
            old(self).is_sealed() ==> r == Err::<(), SceneError>(SceneError::ListSealed)
                && final(self).items() == old(self).items(),
            !old(self).is_sealed() && !bounds.wf() ==> r == Err::<(), SceneError>(
                SceneError::InvalidGeometry,
            ) && final(self).items() == old(self).items(),
            !old(self).is_sealed() && bounds.wf() && !stops_wf(stops@) ==> r == Err::<(), SceneError>(SceneError::InvalidGradientStops) && final(self).items() == old(self).items(),
            !old(self).is_sealed() && bounds.wf() && stops_wf(stops@) ==> r == Ok::<(), SceneError>(()) && final(self).items() == old(self).items().push(
                (Primitive::Gradient { level, bounds, clip, start, end, stops }),
            ),
    {
        if self.sealed {
            return Err(SceneError::ListSealed);
        }
        if bounds.size.width < 0 || bounds.size.height < 0 {
            return Err(SceneError::InvalidGeometry);
        }
        if !check_stops(&stops) {
            return Err(SceneError::InvalidGradientStops);
        }
        self.prims.push(Primitive::Gradient { level, bounds, clip, start, end, stops });
        Ok(())
    }

    /// Appends a border with four independent sides and corner radii.
    pub fn push_border(
        &mut self,
        level: StackingLevel,
        bounds: Rect,
        clip: ClipRegion,
        left: BorderSide,
        top: BorderSide,
        right: BorderSide,
        bottom: BorderSide,
        radius: BorderRadius,
    ) -> (r: Result<(), SceneError>)
        ensures
            final(self).is_sealed() == old(self).is_sealed(),
            old(self).is_sealed() ==> r == Err::<(), SceneError>(SceneError::ListSealed)
                && final(self).items() == old(self).items(),
            !old(self).is_sealed() && !bounds.wf() ==> r == Err::<(), SceneError>(
                SceneError::InvalidGeometry,
            ) && final(self).items() == old(self).items(),
            !old(self).is_sealed() && bounds.wf() ==> r == Ok::<(), SceneError>(()) && final(self).items() == old(self).items().push(
                (Primitive::Border { level, bounds, clip, left, top, right, bottom, radius }),
            ),
    {
        if self.sealed {
            return Err(SceneError::ListSealed);
        }
        if bounds.size.width < 0 || bounds.size.height < 0 {
            return Err(SceneError::InvalidGeometry);
        }
        self.prims.push(Primitive::Border { level, bounds, clip, left, top, right, bottom, radius });
        Ok(())
    }

    /// Seals the builder: the accumulated sequence stays as it is and every
    /// later push fails with `ListSealed`.
    pub fn seal(&mut self)
        ensures
            final(self).is_sealed(),
            final(self).items() == old(self).items(),
    {
        self.sealed = true;
    }

    /// The number of primitives accumulated so far.
    pub fn len(&self) -> (r: usize)
        ensures
            r == self.items().len(),
    {
        self.prims.len()
    }

    /// Finishes the builder, yielding the immutable display list that holds
    /// exactly the accumulated primitives in append order.
    pub fn finish(self) -> (r: DisplayList)
        ensures
            r.items@ == self.items(),
    {
        let DisplayListBuilder { prims, sealed: _ } = self;
        DisplayList { items: prims }
    }
}

/// Checks a stop list for validity as `stops_wf` states it.
fn check_stops(stops: &Vec<GradientStop>) -> (r: bool)
    ensures
        r == stops_wf(stops@),
{
    if stops.len() == 0 {
        return false;
    }
    let mut k: usize = 1;
    if stops[0].offset > OFFSET_END {
        return false;
    }
    while k < stops.len()
        invariant
            1 <= k <= stops@.len(),
            forall|i: int| 0 <= i < k ==> stops@[i].offset <= OFFSET_END,
            forall|i: int, j: int| 0 <= i <= j < k ==> stops@[i].offset <= stops@[j].offset,
        decreases stops@.len() - k,
    {
        if stops[k].offset > OFFSET_END {
            return false;
        }
        if stops[k - 1].offset > stops[k].offset {
            return false;
        }
        k = k + 1;
    }
    true
}

} // verus!
