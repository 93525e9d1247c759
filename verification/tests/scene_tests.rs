use scene_core::display_list::{
    ClipRegion, DisplayListBuilder, GradientStop, Primitive, StackingLevel,
};
use scene_core::geometry::{Color, Matrix4, Point, Rect, Size};
use scene_core::scene::SceneApi;
use scene_core::stacking::{MixBlendMode, StackingContext};
use scene_core::SceneError;

fn rect(x: i64, y: i64, w: i64, h: i64) -> Rect {
    Rect::new(Point::new(x, y), Size::new(w, h))
}

fn device_clip() -> ClipRegion {
    ClipRegion::new(rect(0, 0, 2048, 2048))
}

fn plain_context(blend: MixBlendMode) -> StackingContext {
    let identity = Matrix4::identity();
    StackingContext::new(
        None,
        rect(0, 0, 100, 100),
        rect(0, 0, 100, 100),
        0,
        &identity,
        &identity,
        false,
        blend,
    )
}

#[test]
fn push_rect_appends_in_order() {
    let mut dl = DisplayListBuilder::new();
    assert_eq!(dl.len(), 0);
    dl.push_rect(StackingLevel::Content, rect(0, 0, 10, 10), device_clip(), Color::new(1, 2, 3, 4))
        .unwrap();
    dl.push_rect(StackingLevel::Background, rect(5, 5, 6, 6), device_clip(), Color::new(9, 9, 9, 9))
        .unwrap();
    assert_eq!(dl.len(), 2);
    let list = dl.finish();
    match &list.items[0] {
        Primitive::Rectangle { color, .. } => assert_eq!(*color, Color::new(1, 2, 3, 4)),
        _ => panic!("expected a rectangle"),
    }
}

#[test]
fn negative_geometry_rejected() {
    let mut dl = DisplayListBuilder::new();
    let r = dl.push_rect(
        StackingLevel::Content,
        rect(0, 0, -1, 10),
        device_clip(),
        Color::new(0, 0, 0, 255),
    );
    assert_eq!(r.unwrap_err(), SceneError::InvalidGeometry);
    assert_eq!(dl.len(), 0);
}

#[test]
fn sealed_list_rejects_pushes_and_keeps_items() {
    let mut dl = DisplayListBuilder::new();
    dl.push_rect(StackingLevel::Content, rect(0, 0, 10, 10), device_clip(), Color::new(1, 1, 1, 1))
        .unwrap();
    dl.seal();
    let rejected = dl.push_rect(
        StackingLevel::Content,
        rect(1, 1, 5, 5),
        device_clip(),
        Color::new(2, 2, 2, 2),
    );
    assert_eq!(rejected.unwrap_err(), SceneError::ListSealed);
    assert_eq!(dl.len(), 1);
    let list = dl.finish();
    assert_eq!(list.items.len(), 1);
}

#[test]
fn monotone_gradient_stops_accepted() {
    let mut dl = DisplayListBuilder::new();
    let stops = vec![
        GradientStop { offset: 0, color: Color::new(255, 0, 0, 255) },
        GradientStop { offset: 500, color: Color::new(0, 0, 255, 255) },
        GradientStop { offset: 1000, color: Color::new(0, 255, 0, 255) },
    ];
    dl.push_gradient(
        StackingLevel::Content,
        rect(0, 0, 100, 100),
        device_clip(),
        Point::new(0, 0),
        Point::new(100, 100),
        stops,
    )
    .unwrap();
    assert_eq!(dl.len(), 1);
}

#[test]
fn non_monotone_gradient_stops_rejected() {
    let mut dl = DisplayListBuilder::new();
    let stops = vec![
        GradientStop { offset: 0, color: Color::new(255, 0, 0, 255) },
        GradientStop { offset: 300, color: Color::new(0, 0, 255, 255) },
        GradientStop { offset: 100, color: Color::new(0, 255, 0, 255) },
    ];
    let r = dl.push_gradient(
        StackingLevel::Content,
        rect(0, 0, 100, 100),
        device_clip(),
        Point::new(0, 0),
        Point::new(100, 100),
        stops,
    );
    assert_eq!(r.unwrap_err(), SceneError::InvalidGradientStops);
    assert_eq!(dl.len(), 0);
}

#[test]
fn empty_gradient_stops_rejected() {
    let mut dl = DisplayListBuilder::new();
    let r = dl.push_gradient(
        StackingLevel::Content,
        rect(0, 0, 100, 100),
        device_clip(),
        Point::new(0, 0),
        Point::new(100, 100),
        Vec::new(),
    );
    assert_eq!(r.unwrap_err(), SceneError::InvalidGradientStops);
}

#[test]
fn paint_order_lists_then_children() {
    let mut parent = plain_context(MixBlendMode::Normal);
    parent.add_display_list(7);
    parent.add_display_list(8);
    assert_eq!(parent.paint_order(), vec![7, 8]);

    let mut child = plain_context(MixBlendMode::Normal);
    child.add_display_list(9);
    parent.add_stacking_context(child);
    assert_eq!(parent.paint_order(), vec![7, 8, 9]);
}

#[test]
fn paint_order_depth_first() {
    let mut root = plain_context(MixBlendMode::Normal);
    root.add_display_list(0);
    let mut a = plain_context(MixBlendMode::Normal);
    a.add_display_list(1);
    let mut a_child = plain_context(MixBlendMode::Normal);
    a_child.add_display_list(2);
    a.add_stacking_context(a_child);
    let mut b = plain_context(MixBlendMode::Normal);
    b.add_display_list(3);
    root.add_stacking_context(a);
    root.add_stacking_context(b);
    assert_eq!(root.paint_order(), vec![0, 1, 2, 3]);
}

#[test]
fn end_to_end_green_then_yellow() {
    let mut api = SceneApi::new();

    let mut dl = DisplayListBuilder::new();
    dl.push_rect(
        StackingLevel::Content,
        rect(100, 100, 100, 100),
        device_clip(),
        Color::new(0, 255, 0, 255),
    )
    .unwrap();
    let root_list = api.add_display_list(dl);

    let mut dl2 = DisplayListBuilder::new();
    dl2.push_rect(StackingLevel::Content, rect(0, 0, 100, 100), device_clip(), Color::new(255, 255, 0, 255))
        .unwrap();
    let child_list = api.add_display_list(dl2);

    let identity = Matrix4::identity();
    let mut root = StackingContext::new(
        None,
        rect(0, 0, 800, 600),
        rect(0, 0, 800, 600),
        0,
        &identity,
        &identity,
        false,
        MixBlendMode::Normal,
    );
    root.add_display_list(root_list);
    let mut child = StackingContext::new(
        None,
        rect(100, 600, 100, 100),
        rect(0, 0, 100, 100),
        0,
        &identity,
        &identity,
        false,
        MixBlendMode::Normal,
    );
    child.add_display_list(child_list);
    root.add_stacking_context(child);

    let prims = api.paint_primitives(&root);
    assert_eq!(prims.len(), 2);
    match prims[0] {
        Primitive::Rectangle { color, .. } => assert_eq!(*color, Color::new(0, 255, 0, 255)),
        _ => panic!("expected the green rectangle first"),
    }
    match prims[1] {
        Primitive::Rectangle { color, .. } => assert_eq!(*color, Color::new(255, 255, 0, 255)),
        _ => panic!("expected the yellow rectangle second"),
    }
}

#[test]
fn scene_replacement_swaps_whole_scene() {
    let mut api = SceneApi::new();
    let mut first_root = plain_context(MixBlendMode::Normal);
    first_root.add_display_list(1);
    api.set_root_stacking_context(first_root, Color::new(0, 0, 0, 255), 1, 0);

    {
        let current = api.current_scene_ref().as_ref().unwrap();
        assert_eq!(current.epoch, 1);
        assert_eq!(current.root.paint_order(), vec![1]);
    }

    let mut second_root = plain_context(MixBlendMode::Difference);
    second_root.add_display_list(2);
    second_root.add_display_list(3);
    api.set_root_stacking_context(second_root, Color::new(9, 9, 9, 255), 2, 0);

    let current = api.current_scene_ref().as_ref().unwrap();
    assert_eq!(current.epoch, 2);
    assert_eq!(current.background_color, Color::new(9, 9, 9, 255));
    assert_eq!(current.root.blend_mode, MixBlendMode::Difference);
    assert_eq!(current.root.paint_order(), vec![2, 3]);
}

#[test]
fn registry_handles_are_stable_and_monotone() {
    let mut api = SceneApi::new();
    let mut dl = DisplayListBuilder::new();
    dl.push_rect(StackingLevel::Content, rect(0, 0, 1, 1), device_clip(), Color::new(1, 0, 0, 255))
        .unwrap();
    let first = api.add_display_list(dl);
    let second = api.add_display_list(DisplayListBuilder::new());
    assert_eq!(first, 0);
    assert_eq!(second, 1);
    assert_eq!(api.get_display_list(first).unwrap().items.len(), 1);
    assert_eq!(api.get_display_list(second).unwrap().items.len(), 0);
    assert!(api.get_display_list(2).is_none());
}
