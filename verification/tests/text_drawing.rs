use batch2d::batch::GpuCommand;
use batch2d::engine::Engine;
use batch2d::geom::FP_ONE;
use batch2d::text::{str_eq, TextCache, TextEntry};
use batch2d::types::{Color, Rect};

fn engine() -> Engine {
    Engine::new(20 * FP_ONE, 9 * FP_ONE)
}

#[test]
fn rasterize_is_idempotent() {
    // Two lookups of the same string return the identical texture handle
    // and dimensions; no second insert is ever needed.
    let mut e = engine();
    assert!(e.text_texture("Hello").is_none());
    e.insert_text_texture("Hello", 42, 64, 20);
    let first = e.text_texture("Hello").expect("cached after insert");
    let second = e.text_texture("Hello").expect("still cached");
    assert_eq!(first, second);
    assert_eq!((first.texture, first.width, first.height), (42, 64, 20));
}

#[test]
fn cache_note_inserts_only_once() {
    let mut cache = TextCache::new();
    let uploaded = TextEntry { texture: 1, width: 30, height: 12 };
    let r1 = cache.note("abc", uploaded);
    assert_eq!(r1, uploaded);
    // A second get-or-rasterize step returns the first upload, even if a
    // different candidate texture is offered: no second upload happens.
    let other = TextEntry { texture: 99, width: 31, height: 13 };
    let r2 = cache.note("abc", other);
    assert_eq!(r2, uploaded);
    assert_eq!(cache.lookup("abc"), Some(uploaded));
}

#[test]
fn measured_rect_matches_cache_dimensions() {
    // drawText returns a rectangle whose width and height equal the glyph
    // cache's recorded pixel size for that string.
    let mut e = engine();
    e.insert_text_texture("A", 5, 11, 23);
    let r = e.draw_text("A", 0, 0, Color::new(255, 255, 255));
    assert_eq!(r, Rect::new(0, 0, 11, 23));
    let again = e.draw_text("A", 40, 10, Color::new(0, 0, 0));
    assert_eq!(again, Rect::new(40, 10, 11, 23));
}

#[test]
fn text_quads_share_one_submission() {
    // Differently colored strings drawn back to back flush as one text
    // submission holding one run per string, in draw order.
    let mut e = engine();
    e.insert_text_texture("one", 10, 30, 20);
    e.insert_text_texture("two", 11, 33, 20);
    e.draw_text("one", 0, 0, Color::new(255, 0, 0));
    e.draw_text("two", 0, 30, Color::new(0, 255, 0));
    e.present();
    let cmds = e.take_commands();
    assert_eq!(cmds.len(), 2);
    match &cmds[0] {
        GpuCommand::DrawText { runs } => {
            assert_eq!(runs.len(), 2);
            assert_eq!(runs[0].texture, 10);
            assert_eq!(runs[1].texture, 11);
            assert_eq!(runs[0].vertices.len(), 6);
            assert!(runs[0].vertices.iter().all(|v| v.color == Color::new(255, 0, 0)));
            assert!(runs[1].vertices.iter().all(|v| v.color == Color::new(0, 255, 0)));
        },
        other => panic!("expected a text submission, got {:?}", other),
    }
}

#[test]
fn empty_string_draws_nothing() {
    // An empty string rasterizes to a zero-size texture; the draw is
    // skipped rather than submitted.
    let mut e = engine();
    e.insert_text_texture("", 9, 0, 20);
    let r = e.draw_text("", 15, 25, Color::new(1, 2, 3));
    assert_eq!(r, Rect::new(15, 25, 0, 20));
    e.present();
    let cmds = e.take_commands();
    assert_eq!(cmds.len(), 1);
    assert!(matches!(cmds[0], GpuCommand::PresentFrame));
}

#[test]
fn text_and_shapes_interleave() {
    // Text is its own batch kind: rect, text, rect is three submissions.
    let mut e = engine();
    e.insert_text_texture("x", 1, 8, 16);
    e.draw_rect(Rect::new(0, 0, 4, 4), Color::new(1, 1, 1));
    e.draw_text("x", 0, 0, Color::new(2, 2, 2));
    e.draw_rect(Rect::new(8, 0, 4, 4), Color::new(3, 3, 3));
    e.present();
    let cmds = e.take_commands();
    assert!(matches!(cmds[0], GpuCommand::DrawFill { .. }));
    assert!(matches!(cmds[1], GpuCommand::DrawText { .. }));
    assert!(matches!(cmds[2], GpuCommand::DrawFill { .. }));
    assert!(matches!(cmds[3], GpuCommand::PresentFrame));
}

#[test]
fn text_quad_covers_the_measured_rect() {
    // The quad's clip corners are exactly the rectangle (x, y, w, h) mapped
    // through the viewport transform, glyph texture stretched over it.
    let mut e = engine();
    e.insert_text_texture("hi", 2, 20, 10);
    e.draw_text("hi", 40, 30, Color::new(255, 255, 255));
    e.present();
    let cmds = e.take_commands();
    match &cmds[0] {
        GpuCommand::DrawText { runs } => {
            let v = &runs[0].vertices;
            // Last vertex is the quad's top-left: pixel (40, 30).
            assert_eq!(v[5].x.num, 2 * 40 * FP_ONE - 800 * FP_ONE);
            assert_eq!(v[5].y.num, 600 * FP_ONE - 2 * 30 * FP_ONE);
            assert_eq!((v[5].u.num, v[5].v.num), (0, 0));
            // Third vertex is the top-right: pixel (60, 30), uv (1, 0).
            assert_eq!(v[2].x.num, 2 * 60 * FP_ONE - 800 * FP_ONE);
            assert_eq!(v[2].y.num, 600 * FP_ONE - 2 * 30 * FP_ONE);
            assert_eq!((v[2].u.num, v[2].v.num), (1, 0));
            // Second vertex is the bottom-right: pixel (60, 40), uv (1, 1).
            assert_eq!(v[1].y.num, 600 * FP_ONE - 2 * 40 * FP_ONE);
            assert_eq!((v[1].u.num, v[1].v.num), (1, 1));
        },
        other => panic!("expected a text submission, got {:?}", other),
    }
}

#[test]
fn string_equality_is_by_characters() {
    assert!(str_eq("", ""));
    assert!(str_eq("abc", "abc"));
    assert!(!str_eq("abc", "abd"));
    assert!(!str_eq("abc", "ab"));
    assert!(str_eq("naïve", "naïve"));
    assert!(!str_eq("naïve", "naive"));
}

#[test]
fn text_length_scales_with_char_width() {
    let e = Engine::new(16 * FP_ONE, 9 * FP_ONE);
    assert_eq!(e.text_length(""), 0);
    assert_eq!(e.text_length("abcd"), 4 * 9 * FP_ONE);
}
