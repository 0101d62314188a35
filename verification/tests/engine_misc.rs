use batch2d::batch::GpuCommand;
use batch2d::engine::{Engine, Texture};
use batch2d::geom::{Rotation, FP_ONE};
use batch2d::types::{Color, Point, Rect};

#[test]
fn texture_records_its_fields() {
    let data = vec![7u8; 4 * 4 * 4];
    let t = Texture::new(4, 4, data.clone(), 12);
    assert_eq!((t.width, t.height, t.texture_id), (4, 4, 12));
    assert_eq!(t.data, data);
}

#[test]
fn font_metrics_can_be_replaced() {
    let mut e = Engine::new(16 * FP_ONE, 9 * FP_ONE);
    assert_eq!(e.text_length("ab"), 2 * 9 * FP_ONE);
    e.set_font_metrics(20 * FP_ONE, 11 * FP_ONE);
    assert_eq!(e.font_size, 20 * FP_ONE);
    assert_eq!(e.text_length("ab"), 2 * 11 * FP_ONE);
}

#[test]
fn rotated_rect_uses_the_general_path() {
    // A quarter turn about the rectangle's top-left corner: the quad's
    // second vertex (originally the top-right corner) lands below the pivot.
    let mut e = Engine::new(16 * FP_ONE, 9 * FP_ONE);
    e.draw_rotated_rect(
        Rect::new(400, 300, 10, 20),
        Color::new(5, 5, 5),
        Point::new(0, 0),
        Rotation::Turn { cos: 0, sin: FP_ONE },
    );
    e.present();
    let cmds = e.take_commands();
    match &cmds[0] {
        GpuCommand::DrawFill { vertices, .. } => {
            // Pivot stays at pixel (400, 300): clip (0, 0) on 800x600.
            assert_eq!(vertices[0].x.num, 0);
            assert_eq!(vertices[0].y.num, 0);
            // The top-right corner (410, 300) rotates to (400, 310).
            assert_eq!(vertices[1].x.num, 0);
            assert_eq!(vertices[1].y.num, 600 * FP_ONE - 2 * 310 * FP_ONE);
        },
        other => panic!("expected a fill submission, got {:?}", other),
    }
}

#[test]
fn mixed_frame_command_sequence() {
    // One frame touching every subsystem keeps the queue in issue order.
    let mut e = Engine::new(16 * FP_ONE, 9 * FP_ONE);
    let t = Texture::new(8, 8, vec![0u8; 8 * 8 * 4], 2);
    e.insert_text_texture("go", 3, 18, 16);
    e.clear(Color::new(0, 0, 0));
    e.draw_rect(Rect::new(0, 0, 10, 10), Color::new(1, 1, 1));
    e.draw_texture(&t, Rect::new(0, 0, 8, 8), Rect::new(20, 0, 8, 8));
    e.draw_text("go", 0, 40, Color::new(2, 2, 2));
    e.present();
    let cmds = e.take_commands();
    assert!(matches!(cmds[0], GpuCommand::Clear { .. }));
    assert!(matches!(cmds[1], GpuCommand::DrawFill { .. }));
    assert!(matches!(cmds[2], GpuCommand::DrawTextured { texture: 2, .. }));
    assert!(matches!(cmds[3], GpuCommand::DrawText { .. }));
    assert!(matches!(cmds[4], GpuCommand::PresentFrame));
    assert_eq!(cmds.len(), 5);
}
