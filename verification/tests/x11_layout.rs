use scap::capturer::{Area, Options, Point, Resolution, Size};
use scap::coordinate::Coordinate;
use scap::frame::FrameType;
use scap::linux::x11::layout::{
    crop, crop_edges_fit, layout, layout_fits, output_size, probe, Depth, ImageLayout, PixmapFormat, Screen,
    Setup, Visual,
};

fn c(value: f64) -> Coordinate {
    Coordinate::from_bits(value.to_bits())
}

fn area(x: f64, y: f64, width: f64, height: f64) -> Option<Area> {
    Some(Area {
        origin: Point { x: c(x), y: c(y) },
        size: Size { width: c(width), height: c(height) },
    })
}

fn options(crop_area: Option<Area>) -> Options {
    Options {
        fps: 30,
        show_cursor: true,
        show_highlight: false,
        target: None,
        crop_area,
        output_type: FrameType::BGRAFrame,
        output_resolution: Resolution::Captured,
        excluded_targets: None,
        captures_audio: false,
        exclude_current_process_audio: false,
    }
}

fn visual(visual_id: u32) -> Visual {
    Visual { visual_id, red_mask: 0xff0000, green_mask: 0xff00, blue_mask: 0xff }
}

fn setup() -> Setup {
    Setup {
        image_byte_order: 0,
        pixmap_formats: vec![
            PixmapFormat { depth: 1, bits_per_pixel: 1, scanline_pad: 32 },
            PixmapFormat { depth: 24, bits_per_pixel: 32, scanline_pad: 32 },
            PixmapFormat { depth: 24, bits_per_pixel: 16, scanline_pad: 16 },
        ],
        roots: vec![Screen {
            root: 77,
            width_in_pixels: 1920,
            height_in_pixels: 1080,
            root_depth: 24,
            root_visual: 33,
            allowed_depths: vec![
                Depth { visuals: vec![visual(5)] },
                Depth { visuals: vec![visual(32), visual(33)] },
            ],
        }],
    }
}

fn error_of<T>(result: Result<T, scap::linux::error::LinCapError>) -> String {
    match result {
        Ok(_) => panic!("no error"),
        Err(error) => error.message().to_string(),
    }
}

#[test]
fn whole_screen_is_laid_out() {
    let found = layout(&setup(), 0, &options(None)).unwrap();
    assert_eq!(
        found,
        ImageLayout {
            root: 77,
            x: 0,
            y: 0,
            width: 1920,
            height: 1080,
            depth: 24,
            bits_per_pixel: 32,
            scanline_pad: 32,
            little_endian: true,
            red_mask: 0xff0000,
            green_mask: 0xff00,
            blue_mask: 0xff,
        }
    );
    assert_eq!(found.stride(), 7680);
    assert_eq!(found.byte_len(), 8_294_400);
    assert_eq!(output_size(&setup(), 0, &options(None)).unwrap(), [1920, 1080]);
}

#[test]
fn byte_order_is_that_of_the_server() {
    let mut server = setup();
    server.image_byte_order = 1;
    assert!(!layout(&server, 0, &options(None)).unwrap().little_endian);
}

#[test]
fn rows_are_padded_to_whole_pads() {
    let mut found = layout(&setup(), 0, &options(area(0.0, 0.0, 3.0, 2.0))).unwrap();
    found.bits_per_pixel = 24;
    assert_eq!(found.stride(), 12);
    found.scanline_pad = 8;
    assert_eq!(found.stride(), 9);
    found.bits_per_pixel = 16;
    found.scanline_pad = 16;
    assert_eq!(found.stride(), 6);
    assert_eq!(found.byte_len(), 12);
}

#[test]
fn crop_area_is_cut_to_whole_pixels() {
    assert_eq!(
        crop(1920, 1080, &options(area(10.9, 20.1, 300.5, 200.0))).unwrap(),
        (10, 20, 300, 200)
    );
    assert_eq!(
        crop(1920, 1080, &options(area(1919.0, 1079.0, 1.0, 1.0))).unwrap(),
        (1919, 1079, 1, 1)
    );
    assert_eq!(
        crop(1920, 1080, &options(area(0.0, 0.0, 0.5, 0.5))).unwrap(),
        (0, 0, 0, 0)
    );
    assert_eq!(
        crop(1920, 1080, &options(area(-0.0, 0.0, 1.0, 1.0))).unwrap(),
        (0, 0, 1, 1)
    );
    assert_eq!(crop(640, 480, &options(None)).unwrap(), (0, 0, 640, 480));
}

#[test]
fn far_left_edges_wrap_to_signed() {
    assert_eq!(
        crop(65535, 65535, &options(area(40000.0, 32768.0, 5.0, 5.0))).unwrap(),
        (-25536, -32768, 5, 5)
    );
}

#[test]
fn crop_areas_without_place_or_extent_are_invalid() {
    for bad in [
        area(f64::NAN, 0.0, 1.0, 1.0),
        area(0.0, f64::INFINITY, 1.0, 1.0),
        area(0.0, 0.0, f64::INFINITY, 1.0),
        area(0.0, 0.0, 1.0, f64::NAN),
        area(-1.0, 0.0, 1.0, 1.0),
        area(0.0, -0.1, 1.0, 1.0),
        area(0.0, 0.0, 0.0, 1.0),
        area(0.0, 0.0, 1.0, -3.0),
    ] {
        assert_eq!(error_of(crop(1920, 1080, &options(bad))), "invalid X11 crop area");
    }
}

#[test]
fn crop_areas_beyond_the_screen_are_refused() {
    let message = "X11 crop area exceeds the 1920x1080 root window";
    assert_eq!(error_of(crop(1920, 1080, &options(area(1.0, 0.0, 1920.0, 5.0)))), message);
    assert_eq!(error_of(crop(1920, 1080, &options(area(0.0, 1000.0, 5.0, 81.0)))), message);
    assert_eq!(error_of(layout(&setup(), 0, &options(area(0.0, 0.0, 1921.0, 1.0)))), message);
}

#[test]
fn edges_beyond_32_bits_are_told() {
    assert!(crop_edges_fit(1920, &options(None)));
    assert!(crop_edges_fit(1920, &options(area(4.0e9, 0.0, 1.0, 1.0))));
    assert!(!crop_edges_fit(1920, &options(area(4.0e9, 0.0, 4.0e9, 1.0))));
    assert!(!crop_edges_fit(1920, &options(area(0.0, 4.0e9, 1.0, 4.0e9))));
    assert!(crop_edges_fit(1920, &options(area(2000.0, 4.0e9, 1.0, 4.0e9))));
    assert!(crop_edges_fit(1920, &options(area(-1.0, 4.0e9, 1.0, 4.0e9))));
}

#[test]
fn layout_asks_for_edges_within_32_bits() {
    let wide = options(area(4.0e9, 0.0, 4.0e9, 1.0));
    assert!(layout_fits(&setup(), 0, &options(None)));
    assert!(!layout_fits(&setup(), 0, &wide));
    assert!(layout_fits(&setup(), 1, &wide));
}

#[test]
fn bytes_of_an_image_are_countable() {
    let mut found = layout(&setup(), 0, &options(None)).unwrap();
    assert!(found.is_countable());
    found.scanline_pad = 0;
    assert!(!found.is_countable());
}

#[test]
fn missing_screens_are_refused() {
    assert!(probe(&setup(), 0).is_ok());
    assert_eq!(error_of(probe(&setup(), 1)), "X11 server has no screen 1");
    assert_eq!(
        error_of(output_size(&setup(), 12, &options(None))),
        "X11 server has no screen 12"
    );
}

#[test]
fn scaled_output_is_refused() {
    let mut scaled = options(None);
    scaled.output_resolution = Resolution::_720p;
    assert_eq!(
        error_of(layout(&setup(), 9, &scaled)),
        "X11 backend currently supports output_resolution='captured' only"
    );
}

#[test]
fn unknown_formats_are_refused() {
    let mut server = setup();
    server.roots[0].root_depth = 30;
    assert_eq!(
        error_of(layout(&server, 0, &options(None))),
        "X11 root depth 30 has no matching pixmap format"
    );
    server.roots[0].root_depth = 1;
    assert_eq!(
        error_of(layout(&server, 0, &options(None))),
        "unsupported X11 root pixel size: 1 bits per pixel"
    );
    server.roots[0].root_depth = 24;
    server.pixmap_formats[1].scanline_pad = 64;
    assert_eq!(
        error_of(layout(&server, 0, &options(None))),
        "unsupported X11 scanline padding: 64 bits"
    );
    server.pixmap_formats[1].scanline_pad = 8;
    server.roots[0].root_visual = 34;
    assert_eq!(
        error_of(layout(&server, 0, &options(None))),
        "X11 root visual was not found"
    );
}
