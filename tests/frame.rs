use rgfx::frame::{padded_uniform_size, surface_size};
use rgfx::{
    Canvas, DrawStep, DrawStyle, FixedCamera, FramePlanner, Image, MeshBuilder2D, TextureBinding,
    TextureCache, MAX_INSTANCES,
};

type TestCanvas = Canvas<u8, u8, u8, u8>;

fn triangle() -> rgfx::Mesh<u8> {
    MeshBuilder2D::from_triangle(0, 1, 2)
}

fn picture(path: &str) -> Image {
    Image::single_pixel([255, 255, 255, 255], String::from(path))
}

#[test]
fn padded_size_rounds_up_to_alignment() {
    assert_eq!(padded_uniform_size(144, 256), 256);
    assert_eq!(padded_uniform_size(256, 256), 256);
    assert_eq!(padded_uniform_size(257, 256), 512);
    assert_eq!(padded_uniform_size(0, 64), 0);
    assert_eq!(padded_uniform_size(5, 1), 5);
}

#[test]
fn surface_size_is_at_least_one_pixel() {
    assert_eq!(surface_size(0, 0), (1, 1));
    assert_eq!(surface_size(800, 0), (800, 1));
    assert_eq!(surface_size(0, 600), (1, 600));
    assert_eq!(surface_size(800, 600), (800, 600));
}

#[test]
fn planner_needs_an_alignment_and_a_small_enough_buffer() {
    assert!(FramePlanner::new(144, 0).is_none());
    assert!(FramePlanner::new(u64::MAX, 256).is_none());
    assert!(FramePlanner::new(5_000_000, 256).is_none());
    let p = FramePlanner::new(144, 256).unwrap();
    assert_eq!(p.padded_uniform_size(), 256);
    assert_eq!(p.uniform_buffer_size(), 256 * MAX_INSTANCES as u64);
    assert_eq!(p.texture_count(), 0);
}

#[test]
fn single_untextured_draw_uses_default_white() {
    let camera = FixedCamera { matrix: 7u8 };
    let mut canvas: TestCanvas = Canvas::new(0);
    canvas.clear(1);
    let rect = MeshBuilder2D::from_rectangle(0u8, 1, 2, 3);
    canvas.draw_mesh(&camera, 0, rect, DrawStyle::new(9));
    let mut planner = FramePlanner::new(144, 256).unwrap();
    let steps = planner.plan_frame(canvas.to_frame());
    assert_eq!(
        steps,
        vec![DrawStep {
            command: 0,
            uniform_offset: 0,
            use_texture: false,
            texture: TextureBinding::DefaultWhite,
            index_count: 6,
        }]
    );
    assert_eq!(planner.texture_count(), 0);
}

#[test]
fn draws_past_the_instance_limit_are_dropped() {
    let camera = FixedCamera { matrix: 0u8 };
    let mut canvas: TestCanvas = Canvas::new(0);
    for _ in 0..MAX_INSTANCES + 5 {
        canvas.draw_mesh(&camera, 0, triangle(), DrawStyle::new(0));
    }
    assert_eq!(canvas.to_frame().len(), MAX_INSTANCES + 5);
    let mut planner = FramePlanner::new(64, 256).unwrap();
    let steps = planner.plan_frame(canvas.to_frame());
    assert_eq!(steps.len(), MAX_INSTANCES);
    for (i, s) in steps.iter().enumerate() {
        assert_eq!(s.command, i);
        assert_eq!(s.uniform_offset as usize, i * 256);
        assert_eq!(s.index_count, 3);
    }
    assert_eq!(steps[MAX_INSTANCES - 1].uniform_offset, 999 * 256);
}

#[test]
fn same_image_path_shares_one_texture() {
    let camera = FixedCamera { matrix: 0u8 };
    let mut canvas: TestCanvas = Canvas::new(0);
    let paths = ["a.png", "b.png", "a.png"];
    for p in paths {
        canvas.draw_mesh(&camera, 0, triangle(), DrawStyle::new(0).with_image(picture(p)));
    }
    canvas.draw_mesh(&camera, 0, triangle(), DrawStyle::new(0));
    let mut planner = FramePlanner::new(16, 16).unwrap();
    let steps = planner.plan_frame(canvas.to_frame());
    let bindings: Vec<TextureBinding> = steps.iter().map(|s| s.texture).collect();
    assert_eq!(
        bindings,
        vec![
            TextureBinding::Cached { slot: 0, upload: true },
            TextureBinding::Cached { slot: 1, upload: true },
            TextureBinding::Cached { slot: 0, upload: false },
            TextureBinding::DefaultWhite,
        ]
    );
    let flags: Vec<bool> = steps.iter().map(|s| s.use_texture).collect();
    assert_eq!(flags, vec![true, true, true, false]);
    assert_eq!(planner.texture_count(), 2);

    let again = planner.plan_frame(canvas.to_frame());
    assert_eq!(again[0].texture, TextureBinding::Cached { slot: 0, upload: false });
    assert_eq!(again[1].texture, TextureBinding::Cached { slot: 1, upload: false });
    assert_eq!(planner.texture_count(), 2);
}

#[test]
fn texture_cache_lists_each_path_once() {
    let mut cache = TextureCache::new();
    assert_eq!(cache.len(), 0);
    let a = String::from("a");
    let b = String::from("b");
    assert_eq!(cache.slot_of(&a), None);
    assert_eq!(cache.register(&a), (0, true));
    assert_eq!(cache.register(&b), (1, true));
    assert_eq!(cache.register(&a), (0, false));
    assert_eq!(cache.slot_of(&b), Some(1));
    assert_eq!(cache.len(), 2);
}

#[test]
fn empty_frame_plans_nothing() {
    let canvas: TestCanvas = Canvas::new(0);
    let mut planner = FramePlanner::new(144, 256).unwrap();
    assert!(planner.plan_frame(canvas.to_frame()).is_empty());
    assert_eq!(planner.texture_count(), 0);
}

#[test]
fn images_past_the_instance_limit_are_not_cached() {
    let camera = FixedCamera { matrix: 0u8 };
    let mut canvas: TestCanvas = Canvas::new(0);
    for _ in 0..MAX_INSTANCES {
        canvas.draw_mesh(&camera, 0, triangle(), DrawStyle::new(0));
    }
    canvas.draw_mesh(&camera, 0, triangle(), DrawStyle::new(0).with_image(picture("late.png")));
    let mut planner = FramePlanner::new(4, 4).unwrap();
    let steps = planner.plan_frame(canvas.to_frame());
    assert_eq!(steps.len(), MAX_INSTANCES);
    assert_eq!(planner.texture_count(), 0);

    let mut next: TestCanvas = Canvas::new(0);
    next.draw_mesh(&camera, 0, triangle(), DrawStyle::new(0).with_image(picture("late.png")));
    let steps = planner.plan_frame(next.to_frame());
    assert_eq!(steps[0].texture, TextureBinding::Cached { slot: 0, upload: true });
    assert_eq!(steps[0].uniform_offset, 0);
    assert_eq!(planner.texture_count(), 1);
}
