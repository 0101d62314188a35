use batch2d::batch::GpuCommand;
use batch2d::engine::{Engine, Texture};
use batch2d::geom::FP_ONE;
use batch2d::types::{Color, Rect};

fn engine() -> Engine {
    Engine::new(16 * FP_ONE, 9 * FP_ONE)
}

fn draw_command_count(cmds: &[GpuCommand]) -> usize {
    cmds.iter()
        .filter(|c| {
            matches!(
                c,
                GpuCommand::DrawFill { .. }
                    | GpuCommand::DrawTextured { .. }
                    | GpuCommand::DrawText { .. }
            )
        })
        .count()
}

fn test_texture(id: u32) -> Texture {
    Texture::new(16, 16, vec![0u8; 16 * 16 * 4], id)
}

#[test]
fn submissions_equal_same_kind_runs() {
    // drawRect, drawRect, drawTexture, drawRect => runs of length 2, 1, 1,
    // so exactly 3 draw submissions, not 4.
    let mut e = engine();
    let t = test_texture(7);
    e.draw_rect(Rect::new(0, 0, 10, 10), Color::new(255, 0, 0));
    e.draw_rect(Rect::new(20, 0, 10, 10), Color::new(0, 255, 0));
    e.draw_texture(&t, Rect::new(0, 0, 16, 16), Rect::new(40, 0, 16, 16));
    e.draw_rect(Rect::new(60, 0, 10, 10), Color::new(0, 0, 255));
    e.present();
    let cmds = e.take_commands();
    assert_eq!(draw_command_count(&cmds), 3);
    assert!(matches!(cmds[0], GpuCommand::DrawFill { ref vertices, .. } if vertices.len() == 12));
    assert!(matches!(cmds[1], GpuCommand::DrawTextured { texture: 7, ref vertices } if vertices.len() == 6));
    assert!(matches!(cmds[2], GpuCommand::DrawFill { ref vertices, .. } if vertices.len() == 6));
    assert!(matches!(cmds[3], GpuCommand::PresentFrame));
}

#[test]
fn switching_textures_splits_the_batch() {
    // Same topology, different texture handle: still a new submission.
    let mut e = engine();
    let t1 = test_texture(1);
    let t2 = test_texture(2);
    e.draw_texture(&t1, Rect::new(0, 0, 16, 16), Rect::new(0, 0, 16, 16));
    e.draw_texture(&t2, Rect::new(0, 0, 16, 16), Rect::new(16, 0, 16, 16));
    e.draw_texture(&t2, Rect::new(0, 0, 16, 16), Rect::new(32, 0, 16, 16));
    e.present();
    let cmds = e.take_commands();
    assert_eq!(draw_command_count(&cmds), 2);
    assert!(matches!(cmds[0], GpuCommand::DrawTextured { texture: 1, ref vertices } if vertices.len() == 6));
    assert!(matches!(cmds[1], GpuCommand::DrawTextured { texture: 2, ref vertices } if vertices.len() == 12));
}

#[test]
fn order_preserved_within_batch() {
    // Two overlapping semi-transparent rectangles drawn A then B occupy the
    // buffer in that order within a single submission, so the GPU blends
    // "B over A".
    let a = Color::rgba(255, 0, 0, 128);
    let b = Color::rgba(0, 0, 255, 128);
    let mut e = engine();
    e.draw_rect(Rect::new(0, 0, 20, 20), a);
    e.draw_rect(Rect::new(10, 10, 20, 20), b);
    e.present();
    let cmds = e.take_commands();
    assert_eq!(draw_command_count(&cmds), 1);
    match &cmds[0] {
        GpuCommand::DrawFill { vertices, .. } => {
            assert_eq!(vertices.len(), 12);
            assert!(vertices[..6].iter().all(|v| v.color == a));
            assert!(vertices[6..].iter().all(|v| v.color == b));
        },
        other => panic!("expected a fill submission, got {:?}", other),
    }
}

#[test]
fn end_to_end_single_rect() {
    // drawRect({x:10,y:0,w:10,h:10}) then present: exactly one
    // filled-triangle submission of 6 vertices whose clip x values are
    // 10*2/800-1 and 20*2/800-1 on the default 800x600 viewport.
    let mut e = engine();
    e.draw_rect(Rect::new(10, 0, 10, 10), Color::new(255, 0, 0));
    e.present();
    let cmds = e.take_commands();
    assert_eq!(cmds.len(), 2);
    match &cmds[0] {
        GpuCommand::DrawFill { vertices, reuse_buffer } => {
            assert_eq!(vertices.len(), 6);
            assert!(!reuse_buffer);
            let mut xs: Vec<f64> =
                vertices.iter().map(|v| v.x.num as f64 / v.x.den as f64).collect();
            xs.sort_by(f64::total_cmp);
            assert!((xs[0] - (10.0 * 2.0 / 800.0 - 1.0)).abs() < 1e-12);
            assert!((xs[5] - (20.0 * 2.0 / 800.0 - 1.0)).abs() < 1e-12);
        },
        other => panic!("expected a fill submission, got {:?}", other),
    }
    assert!(matches!(cmds[1], GpuCommand::PresentFrame));
}

#[test]
fn stable_vertex_count_reuses_buffer() {
    // Same filled vertex count as the previous flush of that kind: the
    // submission asks for an in-place buffer update; a changed count asks
    // for reallocation.
    let mut e = engine();
    e.draw_rect(Rect::new(0, 0, 1, 1), Color::new(1, 2, 3));
    e.present();
    e.draw_rect(Rect::new(5, 5, 1, 1), Color::new(1, 2, 3));
    e.present();
    e.draw_rect(Rect::new(0, 0, 1, 1), Color::new(1, 2, 3));
    e.draw_rect(Rect::new(2, 2, 1, 1), Color::new(1, 2, 3));
    e.present();
    let cmds = e.take_commands();
    let reuses: Vec<bool> = cmds
        .iter()
        .filter_map(|c| match c {
            GpuCommand::DrawFill { reuse_buffer, .. } => Some(*reuse_buffer),
            _ => None,
        })
        .collect();
    assert_eq!(reuses, vec![false, true, false]);
}

#[test]
fn resize_flushes_open_batch_at_old_size() {
    // The flush-on-resize policy: an open batch is submitted before the
    // viewport changes, with its clip coordinates still baked against the
    // old viewport size.
    let mut e = engine();
    e.draw_rect(Rect::new(0, 0, 10, 10), Color::new(255, 255, 255));
    e.resize(1024, 768);
    e.draw_rect(Rect::new(0, 0, 10, 10), Color::new(255, 255, 255));
    e.present();
    let cmds = e.take_commands();
    assert!(matches!(cmds[0], GpuCommand::DrawFill { ref vertices, .. }
        if vertices.iter().all(|v| v.x.den == 800 * FP_ONE && v.y.den == 600 * FP_ONE)));
    assert!(matches!(cmds[1], GpuCommand::SetViewport { width: 1024, height: 768 }));
    assert!(matches!(cmds[2], GpuCommand::DrawFill { ref vertices, .. }
        if vertices.iter().all(|v| v.x.den == 1024 * FP_ONE && v.y.den == 768 * FP_ONE)));
    assert!(matches!(cmds[3], GpuCommand::PresentFrame));
    assert_eq!(e.viewport_width, 1024);
    assert_eq!(e.viewport_height, 768);
}

#[test]
fn clear_and_overlay_ordering() {
    // The clear goes out when issued; the UI overlay renders after the final
    // flush and before the buffer swap.
    let mut e = engine();
    e.clear(Color::new(0, 0, 0));
    e.draw_rect(Rect::new(0, 0, 5, 5), Color::new(9, 9, 9));
    e.ui();
    e.present();
    let cmds = e.take_commands();
    assert!(matches!(cmds[0], GpuCommand::Clear { color } if color == Color::new(0, 0, 0)));
    assert!(matches!(cmds[1], GpuCommand::DrawFill { .. }));
    assert!(matches!(cmds[2], GpuCommand::UiOverlay));
    assert!(matches!(cmds[3], GpuCommand::PresentFrame));
}

#[test]
fn present_with_nothing_queued() {
    let mut e = engine();
    e.present();
    let cmds = e.take_commands();
    assert_eq!(cmds.len(), 1);
    assert!(matches!(cmds[0], GpuCommand::PresentFrame));
}

#[test]
fn take_commands_drains_the_queue() {
    let mut e = engine();
    e.clear(Color::new(1, 1, 1));
    let first = e.take_commands();
    assert_eq!(first.len(), 1);
    let second = e.take_commands();
    assert!(second.is_empty());
}

#[test]
fn textured_quad_carries_exact_uvs() {
    // Texture coordinates are the source rectangle over the texture size,
    // as exact fractions; v points down the source image.
    let mut e = engine();
    let t = Texture::new(64, 32, vec![0u8; 64 * 32 * 4], 3);
    e.draw_texture(&t, Rect::new(16, 8, 32, 16), Rect::new(0, 0, 32, 16));
    e.present();
    let cmds = e.take_commands();
    match &cmds[0] {
        GpuCommand::DrawTextured { texture, vertices } => {
            assert_eq!(*texture, 3);
            // First vertex: top-left of the quad, u = 16/64, v = 8/32.
            assert_eq!((vertices[0].u.num, vertices[0].u.den), (16, 64));
            assert_eq!((vertices[0].v.num, vertices[0].v.den), (8, 32));
            // Third vertex: bottom-right, u = 48/64, v = 24/32.
            assert_eq!((vertices[2].u.num, vertices[2].u.den), (48, 64));
            assert_eq!((vertices[2].v.num, vertices[2].v.den), (24, 32));
        },
        other => panic!("expected a textured submission, got {:?}", other),
    }
}
