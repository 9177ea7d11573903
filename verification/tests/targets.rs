use scap::capturer::{Area, Point, Size};
use scap::coordinate::Coordinate;
use scap::targets::{
    cg_window_metadata, get_all_targets, get_display_name, get_main_display, get_scale_factor,
    get_target_dimensions, scale_factor_for_frame, BoundsRecord, Display, DisplayMetrics,
    DisplayMode, NamedScreen, ScaleFactor, Target, Window, WindowRecord,
};

fn c(value: f64) -> Coordinate {
    Coordinate::from_bits(value.to_bits())
}

fn metrics(x: f64, y: f64, width: f64, height: f64, mode: Option<DisplayMode>) -> DisplayMetrics {
    DisplayMetrics::new(c(x), c(y), c(x + width), c(y + height), mode)
}

fn mode(width: u64, height: u64, pixel_width: u64) -> Option<DisplayMode> {
    Some(DisplayMode { width, height, pixel_width })
}

fn center(x: f64, y: f64, width: f64, height: f64) -> Point {
    Point { x: c(x + width / 2.0), y: c(y + height / 2.0) }
}

fn value(scale: ScaleFactor) -> f64 {
    scale.pixels as f64 / scale.points as f64
}

#[test]
fn scale_factor_uses_core_graphics_display_containing_window_center() {
    let displays = [
        metrics(0.0, 0.0, 1920.0, 1080.0, mode(1920, 1080, 1920)),
        metrics(1920.0, 0.0, 1512.0, 982.0, mode(1512, 982, 3024)),
    ];
    let frame = center(2100.0, 100.0, 800.0, 600.0);
    assert_eq!(value(scale_factor_for_frame(frame, &displays)), 2.0);
}

#[test]
fn scale_factor_falls_back_to_one_for_offscreen_window() {
    let frame = center(-5000.0, -5000.0, 800.0, 600.0);
    assert_eq!(value(scale_factor_for_frame(frame, &[])), 1.0);
}

#[test]
fn edges_belong_to_the_display_on_their_right() {
    let displays = [
        metrics(0.0, 0.0, 100.0, 100.0, mode(100, 100, 300)),
        metrics(100.0, 0.0, 100.0, 100.0, mode(100, 100, 200)),
    ];
    let at = |x: f64, y: f64| {
        value(scale_factor_for_frame(Point { x: c(x), y: c(y) }, &displays))
    };
    assert_eq!(at(0.0, 0.0), 3.0);
    assert_eq!(at(-0.0, 0.0), 3.0);
    assert_eq!(at(99.9, 99.9), 3.0);
    assert_eq!(at(100.0, 0.0), 2.0);
    assert_eq!(at(50.0, 100.0), 1.0);
    assert_eq!(at(f64::NAN, 50.0), 1.0);
}

#[test]
fn metrics_always_have_a_scale() {
    let unscaled = ScaleFactor { pixels: 1, points: 1 };
    for missing in [None, mode(0, 0, 5), mode(5, 5, 0)] {
        assert_eq!(metrics(0.0, 0.0, 1.0, 1.0, missing).scale, unscaled);
    }
    assert_eq!(
        metrics(0.0, 0.0, 1.0, 1.0, mode(1512, 982, 3024)).scale,
        ScaleFactor { pixels: 3024, points: 1512 }
    );
}

fn screens() -> Vec<NamedScreen> {
    vec![
        NamedScreen { number: 1, name: "Built-in".to_string() },
        NamedScreen { number: 2, name: "External".to_string() },
        NamedScreen { number: 2, name: "Mirror".to_string() },
    ]
}

#[test]
fn displays_have_names() {
    assert_eq!(get_display_name(&screens(), 2), "External");
    assert_eq!(get_display_name(&screens(), 40), "Unknown Display 40");
    assert_eq!(get_display_name(&screens(), u32::MAX), "Unknown Display 4294967295");
    let main = get_main_display(&screens(), 1);
    assert_eq!((main.id, main.title.as_str()), (1, "Built-in"));
}

fn record(number: Option<u32>, x: Option<f64>, name: Option<&str>) -> WindowRecord {
    WindowRecord {
        number,
        bounds: Some(BoundsRecord {
            x: x.map(c),
            y: Some(c(20.0)),
            width: Some(c(30.0)),
            height: Some(c(40.0)),
            center: Point { x: c(x.unwrap_or(0.0) + 15.0), y: c(40.0) },
        }),
        name: name.map(str::to_string),
    }
}

#[test]
fn incomplete_window_records_are_passed_over() {
    let table = cg_window_metadata(&vec![
        record(Some(1), Some(10.0), Some("first")),
        record(None, Some(10.0), Some("numberless")),
        record(Some(2), None, Some("edgeless")),
        WindowRecord { number: Some(3), bounds: None, name: None },
        record(Some(4), Some(11.0), None),
        record(Some(1), Some(12.0), Some("again")),
    ]);
    assert_eq!(table.len(), 2);
    assert_eq!(table[&1].title, "again");
    assert_eq!(table[&1].frame.origin, Point { x: c(12.0), y: c(20.0) });
    assert_eq!(table[&1].frame.size, Size { width: c(30.0), height: c(40.0) });
    assert_eq!(table[&1].center, Point { x: c(27.0), y: c(40.0) });
    assert_eq!(table[&4].title, "");
}

#[test]
fn displays_come_before_known_windows() {
    let table = cg_window_metadata(&vec![
        record(Some(7), Some(0.0), Some("seven")),
        record(Some(8), Some(5000.0), Some("eight")),
    ]);
    let displays = vec![metrics(0.0, 0.0, 100.0, 100.0, mode(100, 100, 200))];
    let all = get_all_targets(&vec![2, 9], &screens(), &displays, &vec![8, 6, 7], &table);
    let described: Vec<(u32, String, Option<f64>)> = all
        .into_iter()
        .map(|target| match target {
            Target::Display(display) => (display.id, display.title, None),
            Target::Window(window) => (window.id, window.title, Some(value(window.scale_factor))),
        })
        .collect();
    assert_eq!(
        described,
        vec![
            (2, "External".to_string(), None),
            (9, "Unknown Display 9".to_string(), None),
            (8, "eight".to_string(), Some(1.0)),
            (7, "seven".to_string(), Some(2.0)),
        ]
    );
}

#[test]
fn targets_have_scale_and_dimensions() {
    let display = Target::Display(Display { id: 1, title: String::new() });
    assert_eq!(value(get_scale_factor(&display, mode(1512, 982, 3024))), 2.0);
    assert_eq!(value(get_scale_factor(&display, mode(0, 982, 3024))), 1.0);
    assert_eq!(value(get_scale_factor(&display, mode(5, 982, 0))), 0.0);
    assert_eq!(get_target_dimensions(&display, mode(1512, 982, 3024)), (1512, 982));
    let window = Target::Window(Window {
        id: 1,
        title: String::new(),
        frame: Area {
            origin: Point { x: c(0.0), y: c(0.0) },
            size: Size { width: c(800.9), height: c(-1.0) },
        },
        scale_factor: ScaleFactor { pixels: 3, points: 2 },
    });
    assert_eq!(value(get_scale_factor(&window, None)), 1.5);
    assert_eq!(get_target_dimensions(&window, None), (800, 0));
}
