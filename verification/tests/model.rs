use offscreen_canvas::canvas::Canvas;
use offscreen_canvas::color::Color;
use offscreen_canvas::color::Pixel;
use offscreen_canvas::framebuffer::convert;
use offscreen_canvas::framebuffer::to_framebuffer;
use offscreen_canvas::framebuffer::FrameBuffer;
use offscreen_canvas::pipeline::advance;
use offscreen_canvas::pipeline::FatalError;
use offscreen_canvas::pipeline::Stage;
use offscreen_canvas::select::name_or_unknown;
use offscreen_canvas::select::select_config;

#[test]
fn select_config_picks_maximum() {
    assert_eq!(select_config(&vec![1, 5, 3]), Some(1));
    assert_eq!(select_config(&vec![0]), Some(0));
    assert_eq!(select_config(&vec![7, 7, 7]), Some(0));
}

#[test]
fn select_config_tie_keeps_first() {
    assert_eq!(select_config(&vec![4, 2, 4]), Some(0));
    assert_eq!(select_config(&vec![2, 4, 4]), Some(1));
}

#[test]
fn select_config_empty_is_none() {
    assert_eq!(select_config(&vec![]), None);
}

#[test]
fn select_config_deterministic_across_runs() {
    let samples = vec![2, 8, 8, 1];
    let first = select_config(&samples);
    let second = select_config(&samples);
    assert_eq!(first, second);
    assert_eq!(first, Some(1));
}

#[test]
fn device_name_falls_back_to_sentinel() {
    assert_eq!(name_or_unknown(Some("Mesa Intel(R) Graphics")), "Mesa Intel(R) Graphics");
    assert_eq!(name_or_unknown(None), "UNKNOWN");
}

#[test]
fn full_clear_paints_every_pixel() {
    let mut canvas = Canvas::new();
    canvas.set_size(3, 2);
    canvas.clear_rect(0, 0, 3, 2, Color { r: 9, g: 120, b: 200 });
    canvas.flush();
    let fb = canvas.screenshot().expect("sized canvas must capture");
    assert_eq!(fb.width, 3);
    assert_eq!(fb.height, 2);
    assert_eq!(fb.pixels.len(), 6);
    for p in &fb.pixels {
        assert_eq!(*p, Pixel { r: 9, g: 120, b: 200, a: 255 });
    }
}

#[test]
fn oversized_clear_still_covers_whole_canvas() {
    let mut canvas = Canvas::new();
    canvas.set_size(640, 480);
    canvas.clear_rect(0, 0, 1920, 1080, Color { r: 10, g: 20, b: 30 });
    canvas.flush();
    let fb = canvas.screenshot().expect("sized canvas must capture");
    assert_eq!((fb.width, fb.height), (640, 480));
    assert_eq!(fb.pixels.len(), 640 * 480);
    for p in &fb.pixels {
        assert_eq!(*p, Pixel { r: 10, g: 20, b: 30, a: 255 });
    }
}

#[test]
fn partial_clear_paints_only_the_rectangle() {
    let mut canvas = Canvas::new();
    canvas.set_size(4, 3);
    canvas.clear_rect(1, 1, 2, 1, Color { r: 255, g: 0, b: 0 });
    canvas.flush();
    let fb = canvas.screenshot().unwrap();
    for y in 0..3u32 {
        for x in 0..4u32 {
            let p = fb.pixels[(y * 4 + x) as usize];
            if y == 1 && (x == 1 || x == 2) {
                assert_eq!(p, Pixel { r: 255, g: 0, b: 0, a: 255 });
            } else {
                assert_eq!(p, Pixel { r: 0, g: 0, b: 0, a: 0 });
            }
        }
    }
}

#[test]
fn later_commands_overpaint_earlier_ones() {
    let mut canvas = Canvas::new();
    canvas.set_size(2, 2);
    canvas.clear_rect(0, 0, 2, 2, Color { r: 1, g: 1, b: 1 });
    canvas.clear_rect(0, 0, 1, 1, Color { r: 2, g: 2, b: 2 });
    canvas.flush();
    let fb = canvas.screenshot().unwrap();
    assert_eq!(fb.pixels[0], Pixel { r: 2, g: 2, b: 2, a: 255 });
    assert_eq!(fb.pixels[1], Pixel { r: 1, g: 1, b: 1, a: 255 });
    assert_eq!(fb.pixels[2], Pixel { r: 1, g: 1, b: 1, a: 255 });
    assert_eq!(fb.pixels[3], Pixel { r: 1, g: 1, b: 1, a: 255 });
}

#[test]
fn flush_twice_is_idempotent() {
    let mut canvas = Canvas::new();
    canvas.set_size(5, 4);
    canvas.clear_rect(0, 0, 2, 2, Color { r: 50, g: 60, b: 70 });
    canvas.flush();
    let once = canvas.screenshot().unwrap();
    canvas.flush();
    let twice = canvas.screenshot().unwrap();
    assert_eq!(once, twice);
}

#[test]
fn commands_have_no_effect_before_flush() {
    let mut canvas = Canvas::new();
    canvas.set_size(2, 2);
    canvas.clear_rect(0, 0, 2, 2, Color { r: 100, g: 100, b: 100 });
    let fb = canvas.screenshot().unwrap();
    for p in &fb.pixels {
        assert_eq!(*p, Pixel { r: 0, g: 0, b: 0, a: 0 });
    }
}

#[test]
fn screenshot_without_size_fails() {
    let canvas = Canvas::new();
    assert!(canvas.screenshot().is_none());
}

#[test]
fn last_declared_size_wins() {
    let mut canvas = Canvas::new();
    canvas.set_size(4, 4);
    canvas.set_size(2, 3);
    let fb = canvas.screenshot().unwrap();
    assert_eq!((fb.width, fb.height), (2, 3));
    assert_eq!(fb.pixels.len(), 6);
}

#[test]
fn convert_interleaves_channels_in_order() {
    let fb = FrameBuffer {
        width: 2,
        height: 1,
        pixels: vec![
            Pixel { r: 1, g: 2, b: 3, a: 4 },
            Pixel { r: 200, g: 150, b: 100, a: 255 },
        ],
    };
    let img = convert(&fb);
    assert_eq!((img.width, img.height), (2, 1));
    assert_eq!(img.data, vec![1, 2, 3, 4, 200, 150, 100, 255]);
}

#[test]
fn conversion_round_trips_in_memory() {
    let fb = FrameBuffer {
        width: 3,
        height: 2,
        pixels: (0u8..6)
            .map(|i| Pixel { r: i, g: 40 + i, b: 80 + i, a: 255 - i })
            .collect(),
    };
    let img = convert(&fb);
    let back = to_framebuffer(&img);
    assert_eq!(back, fb);
}

#[test]
fn successful_run_walks_every_stage_once() {
    let mut stage = Stage::Uninitialized;
    let order = [
        Stage::ContextReady,
        Stage::RendererReady,
        Stage::CanvasReady,
        Stage::Drawn,
        Stage::Flushed,
        Stage::Captured,
        Stage::Saved,
    ];
    for expected in order {
        stage = advance(stage, true).expect("a successful step never aborts");
        assert_eq!(stage, expected);
    }
}

#[test]
fn each_fallible_stage_aborts_with_its_error() {
    assert_eq!(advance(Stage::Uninitialized, false), Err(FatalError::ContextCreation));
    assert_eq!(advance(Stage::ContextReady, false), Err(FatalError::RendererInit));
    assert_eq!(advance(Stage::RendererReady, false), Err(FatalError::CanvasCreation));
    assert_eq!(advance(Stage::Flushed, false), Err(FatalError::ScreenshotCapture));
    assert_eq!(advance(Stage::Captured, false), Err(FatalError::ImageSave));
}

#[test]
fn context_failure_aborts_before_any_canvas_or_save() {
    let outcomes = [false, true, true, true, true, true, true];
    let mut stage = Stage::Uninitialized;
    let mut canvas_created = false;
    let mut saved = false;
    let mut aborted = None;
    for ok in outcomes {
        match advance(stage, ok) {
            Ok(next) => {
                stage = next;
                if stage == Stage::CanvasReady {
                    canvas_created = true;
                }
                if stage == Stage::Saved {
                    saved = true;
                }
            }
            Err(e) => {
                aborted = Some(e);
                break;
            }
        }
    }
    assert_eq!(aborted, Some(FatalError::ContextCreation));
    assert!(!canvas_created);
    assert!(!saved);
}
