//! Two ready-made demonstration scenes, built entirely through the public
//! scene-construction API: one exercising every primitive kind with a
//! nested child context, and one cascading `Difference`-blended siblings.

use vstd::prelude::*;
use crate::display_list::{
    BorderRadius, BorderSide, BorderStyle, ClipRegion, DisplayListBuilder, GlyphInstance,
    GradientStop, Primitive, StackingLevel,
};
use crate::geometry::{Color, Matrix4, Point, Rect, Size};
use crate::image::ImageResource;
use crate::scene::SceneApi;
use crate::stacking::{
    lemma_paint_order_add_child, lemma_paint_order_no_children, spec_paint_order, MixBlendMode,
    StackingContext,
};

verus! {

/// Builds a scene showing one of every primitive kind — a rectangle, a text
/// run, two stretched images, a gradient, a border and two overlapping
/// translucent rectangles — plus a child context holding a single yellow
/// rectangle. The font and the image are registered on the way. The scene
/// paints the main list first, then the child's.
pub fn build_sample_scene(
    api: &mut SceneApi,
    width: u32,
    height: u32,
    font_bytes: Vec<u8>,
    image: ImageResource,
) -> (r: StackingContext)
    requires
        old(api).lists().len() + 2 <= u64::MAX,
        old(api).images().len() + 1 <= u64::MAX,
        old(api).fonts().len() + 1 <= u64::MAX,
    ensures
        final(api).fonts() == old(api).fonts().push(font_bytes@),
        final(api).images() == old(api).images().push(image),
        final(api).current_scene() == old(api).current_scene(),
        final(api).lists().len() == old(api).lists().len() + 2,
        final(api).lists()[old(api).lists().len() as int].len() == 8,
        final(api).lists()[old(api).lists().len() as int][0] == (Primitive::Rectangle {
            level: StackingLevel::Content,
            bounds: Rect {
                origin: Point { x: 100, y: 100 },
                size: Size { width: 100, height: 100 },
            },
            clip: ClipRegion {
                main: Rect {
                    origin: Point { x: 0, y: 0 },
                    size: Size { width: 2048, height: 2048 },
                },
            },
            color: Color { r: 0, g: 255, b: 0, a: 255 },
        }),
        final(api).lists()[old(api).lists().len() as int][1] matches (Primitive::TextRun {
            bounds,
            glyphs,
            font,
            color,
            size,
            ..
        }) && bounds == (Rect {
            origin: Point { x: 0, y: 0 },
            size: Size { width: width as i64, height: height as i64 },
        }) && glyphs@.len() == 12 && font == (old(api).fonts().len() as u64) && color == (Color {
            r: 255,
            g: 0,
            b: 0,
            a: 255,
        }) && size == 50,
        final(api).lists()[old(api).lists().len() as int][2] matches (Primitive::Image {
            bounds,
            stretch_size,
            image,
            ..
        }) && bounds == (Rect {
            origin: Point { x: 600, y: 100 },
            size: Size { width: 100, height: 100 },
        }) && stretch_size == (Size { width: 100, height: 100 }) && image == (old(
            api,
        ).images().len() as u64),
        final(api).lists()[old(api).lists().len() as int][3] matches (Primitive::Image {
            bounds,
            stretch_size,
            image,
            ..
        }) && bounds == (Rect {
            origin: Point { x: 600, y: 400 },
            size: Size { width: 100, height: 100 },
        }) && stretch_size == (Size { width: 100, height: 100 }) && image == (old(
            api,
        ).images().len() as u64),
        final(api).lists()[old(api).lists().len() as int][4] matches (Primitive::Gradient {
            stops,
            ..
        }) && stops@.len() == 3 && stops@[0].offset == 0 && stops@[1].offset == 500 && stops@[2].offset
            == 1000,
        final(api).lists()[old(api).lists().len() as int][5] matches (Primitive::Border {
            bounds,
            left,
            top,
            right,
            bottom,
            ..
        }) && bounds == (Rect {
            origin: Point { x: 100, y: 100 },
            size: Size { width: 400, height: 400 },
        }) && left.width == 200 && top.width == 200 && right.width == 20 && bottom.width == 20,
        final(api).lists()[old(api).lists().len() as int][6] matches (Primitive::Rectangle {
            bounds,
            color,
            ..
        }) && bounds == (Rect {
            origin: Point { x: 200, y: 500 },
            size: Size { width: 100, height: 100 },
        }) && color == (Color { r: 255, g: 0, b: 0, a: 128 }),
        final(api).lists()[old(api).lists().len() as int][7] matches (Primitive::Rectangle {
            bounds,
            color,
            ..
        }) && bounds == (Rect {
            origin: Point { x: 250, y: 500 },
            size: Size { width: 100, height: 100 },
        }) && color == (Color { r: 0, g: 255, b: 0, a: 255 }),
        final(api).lists()[old(api).lists().len() as int + 1] == seq![
            (Primitive::Rectangle {
                level: StackingLevel::Content,
                bounds: Rect {
                    origin: Point { x: 0, y: 0 },
                    size: Size { width: 100, height: 100 },
                },
                clip: ClipRegion {
                    main: Rect {
                        origin: Point { x: 0, y: 0 },
                        size: Size { width: 2048, height: 2048 },
                    },
                },
                color: Color { r: 255, g: 255, b: 0, a: 255 },
            }),
        ],
        spec_paint_order(r) == seq![
            (old(api).lists().len() as u64),
            ((old(api).lists().len() + 1) as u64),
        ],
        r.display_lists@ == seq![(old(api).lists().len() as u64)],
        r.children@.len() == 1,
        r.children@[0].display_lists@ == seq![((old(api).lists().len() + 1) as u64)],
        r.children@[0].children@.len() == 0,
        r.scroll_layer == Some(0u32),
        r.bounds == (Rect {
            origin: Point { x: 0, y: 0 },
            size: Size { width: width as i64, height: height as i64 },
        }),
        r.content_rect == (Rect {
            origin: Point { x: 0, y: 0 },
            size: Size { width: width as i64, height: height as i64 },
        }),
        r.z_hint == 0,
        r.transform.is_identity(),
        r.perspective.is_identity(),
        !r.establishes_3d_context,
        r.blend_mode == MixBlendMode::Normal,
        r.children@[0].scroll_layer is None,
        r.children@[0].blend_mode == MixBlendMode::Normal,
        r.children@[0].bounds == (Rect {
            origin: Point { x: 100, y: 600 },
            size: Size { width: 100, height: 100 },
        }),
        r.children@[0].content_rect == (Rect {
            origin: Point { x: 0, y: 0 },
            size: Size { width: 100, height: 100 },
        }),
        r.children@[0].z_hint == 0,
        r.children@[0].transform.is_identity(),
        r.children@[0].perspective.is_identity(),
        !r.children@[0].establishes_3d_context,
{
    let font_id = api.add_font(font_bytes);

    let clip_rect = Rect::new(Point::new(0, 0), Size::new(width as i64, height as i64));
    let clip = ClipRegion::new(Rect::new(Point::new(0, 0), Size::new(2048, 2048)));

    let color_red = Color::new(255, 0, 0, 255);
    let color_green = Color::new(0, 255, 0, 255);
    let color_yellow = Color::new(255, 255, 0, 255);

    let mut dl = DisplayListBuilder::new();

    let rect = Rect::new(Point::new(100, 100), Size::new(100, 100));
    let _ = dl.push_rect(StackingLevel::Content, rect, clip, color_green);

    let mut glyphs: Vec<GlyphInstance> = Vec::new();
    glyphs.push(GlyphInstance { index: 48, x: 100, y: 100 });
    glyphs.push(GlyphInstance { index: 68, x: 150, y: 100 });
    glyphs.push(GlyphInstance { index: 80, x: 200, y: 100 });
    glyphs.push(GlyphInstance { index: 82, x: 250, y: 100 });
    glyphs.push(GlyphInstance { index: 81, x: 300, y: 100 });
    glyphs.push(GlyphInstance { index: 3, x: 350, y: 100 });
    glyphs.push(GlyphInstance { index: 86, x: 400, y: 100 });
    glyphs.push(GlyphInstance { index: 79, x: 450, y: 100 });
    glyphs.push(GlyphInstance { index: 72, x: 500, y: 100 });
    glyphs.push(GlyphInstance { index: 83, x: 550, y: 100 });
    glyphs.push(GlyphInstance { index: 87, x: 600, y: 100 });
    glyphs.push(GlyphInstance { index: 17, x: 650, y: 100 });

    assert(clip_rect.wf());
    let _ = dl.push_text(StackingLevel::Content, clip_rect, clip, glyphs, font_id, color_red, 50);

    let stretch_size = Size::new(100, 100);
    let image_id = api.add_image(image);

    let image_rect = Rect::new(Point::new(600, 100), Size::new(100, 100));
    let _ = dl.push_image(StackingLevel::Content, image_rect, clip, stretch_size, image_id);

    let image_rect2 = Rect::new(Point::new(600, 400), Size::new(100, 100));
    let _ = dl.push_image(StackingLevel::Content, image_rect2, clip, stretch_size, image_id);

    let grect = Rect::new(Point::new(0, 0), Size::new(100, 100));
    let start_point = Point::new(0, 0);
    let end_point = Point::new(100, 100);
    let mut stops: Vec<GradientStop> = Vec::new();
    stops.push(GradientStop { offset: 0, color: Color::new(255, 0, 0, 255) });
    stops.push(GradientStop { offset: 500, color: Color::new(0, 0, 255, 255) });
    stops.push(GradientStop { offset: 1000, color: Color::new(0, 255, 0, 255) });
    let _ = dl.push_gradient(StackingLevel::Content, grect, clip, start_point, end_point, stops);

    let left_border = BorderSide {
        width: 200,
        color: Color::new(255, 0, 0, 255),
        style: BorderStyle::Solid,
    };
    let top_border = BorderSide {
        width: 200,
        color: Color::new(0, 255, 0, 255),
        style: BorderStyle::Solid,
    };
    let right_border = BorderSide {
        width: 20,
        color: Color::new(0, 0, 255, 255),
        style: BorderStyle::Solid,
    };
    let bottom_border = BorderSide {
        width: 20,
        color: Color::new(255, 255, 0, 255),
        style: BorderStyle::Solid,
    };
    let radius = BorderRadius {
        top_left: Size::new(200, 200),
        top_right: Size::new(0, 0),
        bottom_left: Size::new(0, 0),
        bottom_right: Size::new(0, 0),
    };
    let border_rect = Rect::new(Point::new(100, 100), Size::new(400, 400));
    let _ = dl.push_border(
        StackingLevel::Content,
        border_rect,
        clip,
        left_border,
        top_border,
        right_border,
        bottom_border,
        radius,
    );

    let overlap_rect_1 = Rect::new(Point::new(200, 500), Size::new(100, 100));
    let overlap_rect_2 = Rect::new(Point::new(250, 500), Size::new(100, 100));
    let _ = dl.push_rect(StackingLevel::Content, overlap_rect_1, clip, Color::new(255, 0, 0, 128));
    let _ = dl.push_rect(StackingLevel::Content, overlap_rect_2, clip, Color::new(0, 255, 0, 255));

    let display_list_id = api.add_display_list(dl);

    let identity = Matrix4::identity();
    let mut sc = StackingContext::new(
        Some(0u32),
        Rect::new(Point::new(0, 0), Size::new(width as i64, height as i64)),
        Rect::new(Point::new(0, 0), Size::new(width as i64, height as i64)),
        0,
        &identity,
        &identity,
        false,
        MixBlendMode::Normal,
    );
    sc.add_display_list(display_list_id);

    let mut dl2 = DisplayListBuilder::new();
    let rect2 = Rect::new(Point::new(0, 0), Size::new(100, 100));
    let _ = dl2.push_rect(StackingLevel::Content, rect2, clip, color_yellow);
    let mut sc2 = StackingContext::new(
        None,
        Rect::new(Point::new(100, 600), Size::new(100, 100)),
        Rect::new(Point::new(0, 0), Size::new(100, 100)),
        0,
        &identity,
        &identity,
        false,
        MixBlendMode::Normal,
    );
    let dl2_id = api.add_display_list(dl2);
    sc2.add_display_list(dl2_id);
    proof {
        lemma_paint_order_no_children(sc2);
    }
    let ghost sc_before = sc;
    sc.add_stacking_context(sc2);
    proof {
        lemma_paint_order_no_children(sc_before);
        lemma_paint_order_add_child(sc_before, sc, sc2);
        assert(spec_paint_order(sc) =~= seq![
            (old(api).lists().len() as u64),
            ((old(api).lists().len() + 1) as u64),
        ]);
    }
    sc
}

/// Builds a scene of three `Difference`-blended sibling contexts, each
/// holding one solid rectangle, inside a normal scrolling root: the blend
/// cascades in sibling paint order.
pub fn build_blend_scene(api: &mut SceneApi, width: u32, height: u32) -> (r: StackingContext)
    requires
        old(api).lists().len() + 3 <= u64::MAX,
    ensures
        final(api).images() == old(api).images(),
        final(api).fonts() == old(api).fonts(),
        final(api).current_scene() == old(api).current_scene(),
        final(api).lists() == old(api).lists() + seq![
            seq![
                (Primitive::Rectangle {
                    level: StackingLevel::Content,
                    bounds: Rect {
                        origin: Point { x: 0, y: 0 },
                        size: Size { width: 250, height: 250 },
                    },
                    clip: ClipRegion {
                        main: Rect {
                            origin: Point { x: 0, y: 0 },
                            size: Size { width: 2048, height: 2048 },
                        },
                    },
                    color: Color { r: 128, g: 128, b: 0, a: 255 },
                }),
            ],
            seq![
                (Primitive::Rectangle {
                    level: StackingLevel::Content,
                    bounds: Rect {
                        origin: Point { x: 0, y: 0 },
                        size: Size { width: 250, height: 250 },
                    },
                    clip: ClipRegion {
                        main: Rect {
                            origin: Point { x: 0, y: 0 },
                            size: Size { width: 2048, height: 2048 },
                        },
                    },
                    color: Color { r: 0, g: 128, b: 128, a: 255 },
                }),
            ],
            seq![
                (Primitive::Rectangle {
                    level: StackingLevel::Content,
                    bounds: Rect {
                        origin: Point { x: 0, y: 0 },
                        size: Size { width: 250, height: 250 },
                    },
                    clip: ClipRegion {
                        main: Rect {
                            origin: Point { x: 0, y: 0 },
                            size: Size { width: 2048, height: 2048 },
                        },
                    },
                    color: Color { r: 128, g: 0, b: 128, a: 255 },
                }),
            ],
        ],
        spec_paint_order(r) == seq![
            (old(api).lists().len() as u64),
            ((old(api).lists().len() + 1) as u64),
            ((old(api).lists().len() + 2) as u64),
        ],
        r.display_lists@.len() == 0,
        r.children@.len() == 3,
        r.blend_mode == MixBlendMode::Normal,
        r.scroll_layer == Some(0u32),
        r.bounds == (Rect {
            origin: Point { x: 100, y: 100 },
            size: Size { width: 467, height: 462 },
        }),
        r.content_rect == (Rect {
            origin: Point { x: 0, y: 0 },
            size: Size { width: 467, height: 462 },
        }),
        r.z_hint == 0,
        r.transform.is_identity(),
        r.perspective.is_identity(),
        !r.establishes_3d_context,
        forall|k: int|
            0 <= k < 3 ==> #[trigger] r.children@[k].blend_mode == MixBlendMode::Difference
                && r.children@[k].scroll_layer is None && r.children@[k].children@.len() == 0
                && r.children@[k].content_rect == (Rect {
                origin: Point { x: 0, y: 0 },
                size: Size { width: 250, height: 250 },
            }) && r.children@[k].z_hint == 0 && r.children@[k].transform.is_identity()
                && r.children@[k].perspective.is_identity()
                && !r.children@[k].establishes_3d_context,
        r.children@[0].display_lists@ == seq![(old(api).lists().len() as u64)],
        r.children@[1].display_lists@ == seq![((old(api).lists().len() + 1) as u64)],
        r.children@[2].display_lists@ == seq![((old(api).lists().len() + 2) as u64)],
        r.children@[0].bounds == (Rect {
            origin: Point { x: 80, y: 60 },
            size: Size { width: 250, height: 250 },
        }),
        r.children@[1].bounds == (Rect {
            origin: Point { x: 140, y: 120 },
            size: Size { width: 250, height: 250 },
        }),
        r.children@[2].bounds == (Rect {
            origin: Point { x: 180, y: 180 },
            size: Size { width: 250, height: 250 },
        }),
{
    let clip = ClipRegion::new(Rect::new(Point::new(0, 0), Size::new(2048, 2048)));

    let color_red = Color::new(128, 128, 0, 255);
    let color_green = Color::new(0, 128, 128, 255);
    let color_blue = Color::new(128, 0, 128, 255);

    let rect1 = Rect::new(Point::new(0, 0), Size::new(250, 250));
    let mut dl1 = DisplayListBuilder::new();
    let _ = dl1.push_rect(StackingLevel::Content, rect1, clip, color_red);
    let id1 = api.add_display_list(dl1);

    let rect2 = Rect::new(Point::new(0, 0), Size::new(250, 250));
    let mut dl2 = DisplayListBuilder::new();
    let _ = dl2.push_rect(StackingLevel::Content, rect2, clip, color_green);
    let id2 = api.add_display_list(dl2);

    let rect3 = Rect::new(Point::new(0, 0), Size::new(250, 250));
    let mut dl3 = DisplayListBuilder::new();
    let _ = dl3.push_rect(StackingLevel::Content, rect3, clip, color_blue);
    let id3 = api.add_display_list(dl3);

    let identity = Matrix4::identity();
    let mut sc0 = StackingContext::new(
        Some(0u32),
        Rect::new(Point::new(100, 100), Size::new(467, 462)),
        Rect::new(Point::new(0, 0), Size::new(467, 462)),
        0,
        &identity,
        &identity,
        false,
        MixBlendMode::Normal,
    );

    let mut sc1 = StackingContext::new(
        None,
        Rect::new(Point::new(80, 60), Size::new(250, 250)),
        Rect::new(Point::new(0, 0), Size::new(250, 250)),
        0,
        &identity,
        &identity,
        false,
        MixBlendMode::Difference,
    );
    sc1.add_display_list(id1);

    let mut sc2 = StackingContext::new(
        None,
        Rect::new(Point::new(140, 120), Size::new(250, 250)),
        Rect::new(Point::new(0, 0), Size::new(250, 250)),
        0,
        &identity,
        &identity,
        false,
        MixBlendMode::Difference,
    );
    sc2.add_display_list(id2);

    let mut sc3 = StackingContext::new(
        None,
        Rect::new(Point::new(180, 180), Size::new(250, 250)),
        Rect::new(Point::new(0, 0), Size::new(250, 250)),
        0,
        &identity,
        &identity,
        false,
        MixBlendMode::Difference,
    );
    sc3.add_display_list(id3);

    proof {
        lemma_paint_order_no_children(sc1);
        lemma_paint_order_no_children(sc2);
        lemma_paint_order_no_children(sc3);
        lemma_paint_order_no_children(sc0);
    }
    let ghost sc0_a = sc0;
    sc0.add_stacking_context(sc1);
    proof {
        lemma_paint_order_add_child(sc0_a, sc0, sc1);
    }
    let ghost sc0_b = sc0;
    sc0.add_stacking_context(sc2);
    proof {
        lemma_paint_order_add_child(sc0_b, sc0, sc2);
    }
    let ghost sc0_c = sc0;
    sc0.add_stacking_context(sc3);
    proof {
        lemma_paint_order_add_child(sc0_c, sc0, sc3);
        assert(spec_paint_order(sc0) =~= seq![
            (old(api).lists().len() as u64),
            ((old(api).lists().len() + 1) as u64),
            ((old(api).lists().len() + 2) as u64),
        ]);
        assert(api.lists() =~= old(api).lists() + seq![
            api.lists()[old(api).lists().len() as int],
            api.lists()[old(api).lists().len() as int + 1],
            api.lists()[old(api).lists().len() as int + 2],
        ]);
    }
    sc0
}

} // verus!
