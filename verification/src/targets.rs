//! What can be captured on macOS: displays and windows.

use crate::capturer::{Area, Point, Size};
use crate::coordinate::Coordinate;
use crate::text::{append_decimal, decimal};
use std::collections::HashMap;
use vstd::prelude::*;

verus! {

broadcast use vstd::std_specs::hash::group_hash_axioms;

/// Pixels per point, as a ratio.
#[derive(Clone, Copy, Debug, PartialEq, Eq, Structural)]
pub struct ScaleFactor {
    pub pixels: u64,
    pub points: u64,
}

/// A display.
#[derive(Clone, Debug)]
pub struct Display {
    pub id: u32,
    pub title: String,
}

/// A window, with its frame in points.
#[derive(Clone, Debug)]
pub struct Window {
    pub id: u32,
    pub title: String,
    pub frame: Area,
    pub scale_factor: ScaleFactor,
}

/// Something that can be captured.
#[derive(Clone, Debug)]
pub enum Target {
    Window(Window),
    Display(Display),
}

/// The mode of a display: its size in points, and its width in pixels.
#[derive(Clone, Copy, Debug, PartialEq, Eq, Structural)]
pub struct DisplayMode {
    pub width: u64,
    pub height: u64,
    pub pixel_width: u64,
}

/// Where a display lies among the others, from its left and top edge up to its right and bottom
/// edge, and its scale.
#[derive(Clone, Copy, Debug, PartialEq, Eq, Structural)]
pub struct DisplayMetrics {
    pub left: Coordinate,
    pub top: Coordinate,
    pub right: Coordinate,
    pub bottom: Coordinate,
    pub scale: ScaleFactor,
}

/// One pixel per point.
pub open spec fn unscaled() -> ScaleFactor {
    ScaleFactor { pixels: 1, points: 1 }
}

/// The scale of a display: its pixels per point where its mode tells both, else one.
pub open spec fn scale_of(mode: Option<DisplayMode>) -> ScaleFactor {
    match mode {
        Some(mode) => if mode.width > 0 && mode.pixel_width > 0 {
            ScaleFactor { pixels: mode.pixel_width, points: mode.width }
        } else {
            unscaled()
        },
        None => unscaled(),
    }
}

impl DisplayMetrics {
    /// Whether the point lies on the display.
    pub open spec fn contains(self, point: Point) -> bool {
        &&& point.x.at_least(self.left) && point.x.below(self.right)
        &&& point.y.at_least(self.top) && point.y.below(self.bottom)
    }

    /// The metrics of a display with these edges in this mode.
    pub fn new(
        left: Coordinate,
        top: Coordinate,
        right: Coordinate,
        bottom: Coordinate,
        mode: Option<DisplayMode>,
    ) -> (r: DisplayMetrics)
        ensures
            r == (DisplayMetrics { left, top, right, bottom, scale: scale_of(mode) }),
    {
        let scale: ScaleFactor = match mode {
            Some(mode) => if mode.width > 0 && mode.pixel_width > 0 {
                ScaleFactor { pixels: mode.pixel_width, points: mode.width }
            } else {
                ScaleFactor { pixels: 1, points: 1 }
            },
            None => ScaleFactor { pixels: 1, points: 1 },
        };
        DisplayMetrics { left, top, right, bottom, scale }
    }

    fn is_under(&self, point: &Point) -> (r: bool)
        ensures
            r == self.contains(*point),
    {
        point.x.is_at_least(&self.left) && point.x.is_below(&self.right) && point.y.is_at_least(
            &self.top,
        ) && point.y.is_below(&self.bottom)
    }
}

/// The scale of the first display on which the point lies, or one pixel per point where it lies
/// on none.
pub open spec fn scale_at(center: Point, displays: Seq<DisplayMetrics>) -> ScaleFactor
    decreases displays.len(),
{
    if displays.len() == 0 {
        unscaled()
    } else if displays.first().contains(center) {
        displays.first().scale
    } else {
        scale_at(center, displays.drop_first())
    }
}

/// The scale of a window with this centre. A window can be off every display while displays
/// change; one pixel per point is then the scale that makes no empty stream.
pub fn scale_factor_for_frame(center: Point, displays: &[DisplayMetrics]) -> (r: ScaleFactor)
    ensures
        r == scale_at(center, displays@),
{
    let mut i: usize = 0;
    proof {
        assert(displays@.skip(0) =~= displays@);
    }
    while i < displays.len()
        invariant
            i <= displays@.len(),
            scale_at(center, displays@) == scale_at(center, displays@.skip(i as int)),
        decreases displays@.len() - i,
    {
        proof {
            assert(displays@.skip(i as int).drop_first() =~= displays@.skip(i + 1));
        }
        if displays[i].is_under(&center) {
            return displays[i].scale;
        }
        i = i + 1;
    }
    ScaleFactor { pixels: 1, points: 1 }
}

/// A screen with its number and its name.
#[derive(Debug)]
pub struct NamedScreen {
    pub number: u32,
    pub name: String,
}

/// The name of the first screen with the number of the display, or one made of that number.
pub open spec fn display_name(screens: Seq<NamedScreen>, id: u32) -> Seq<char>
    decreases screens.len(),
{
    if screens.len() == 0 {
        "Unknown Display "@ + decimal(id as nat)
    } else if screens.first().number == id {
        screens.first().name@
    } else {
        display_name(screens.drop_first(), id)
    }
}

/// The name of a display.
pub fn get_display_name(screens: &Vec<NamedScreen>, id: u32) -> (r: String)
    ensures
        r@ == display_name(screens@, id),
{
    let mut i: usize = 0;
    proof {
        assert(screens@.skip(0) =~= screens@);
    }
    while i < screens.len()
        invariant
            i <= screens@.len(),
            display_name(screens@, id) == display_name(screens@.skip(i as int), id),
        decreases screens@.len() - i,
    {
        proof {
            assert(screens@.skip(i as int).drop_first() =~= screens@.skip(i + 1));
        }
        if screens[i].number == id {
            return screens[i].name.clone();
        }
        i = i + 1;
    }
    let mut name: String = "Unknown Display ".to_owned();
    append_decimal(&mut name, id as u64);
    name
}

/// The bounds of a window as the window server tells them, where it tells them.
#[derive(Clone, Copy, Debug)]
pub struct BoundsRecord {
    pub x: Option<Coordinate>,
    pub y: Option<Coordinate>,
    pub width: Option<Coordinate>,
    pub height: Option<Coordinate>,
    pub center: Point,
}

/// A window as the window server tells of it.
#[derive(Debug)]
pub struct WindowRecord {
    pub number: Option<u32>,
    pub bounds: Option<BoundsRecord>,
    pub name: Option<String>,
}

/// What is known of a window beside its number.
#[derive(Debug)]
pub struct WindowMetadata {
    pub frame: Area,
    pub center: Point,
    pub title: String,
}

/// Whether a record has a number and whole bounds.
pub open spec fn is_whole(record: WindowRecord) -> bool {
    &&& record.number is Some
    &&& record.bounds matches Some(bounds) && bounds.x is Some && bounds.y is Some
        && bounds.width is Some && bounds.height is Some
}

/// Whether `metadata` is what a whole record tells; without a name, the title is empty.
pub open spec fn tells(record: WindowRecord, metadata: WindowMetadata) -> bool {
    let bounds = record.bounds->Some_0;
    &&& metadata.frame == (Area {
        origin: Point { x: bounds.x->Some_0, y: bounds.y->Some_0 },
        size: Size { width: bounds.width->Some_0, height: bounds.height->Some_0 },
    })
    &&& metadata.center == bounds.center
    &&& metadata.title@ == match record.name {
        Some(name) => name@,
        None => seq![],
    }
}

/// The last whole record with the number `id`, if there is one: a later record replaces an
/// earlier one.
pub open spec fn record_of(records: Seq<WindowRecord>, id: u32) -> Option<WindowRecord>
    decreases records.len(),
{
    if records.len() == 0 {
        None
    } else if is_whole(records.last()) && records.last().number == Some(id) {
        Some(records.last())
    } else {
        record_of(records.drop_last(), id)
    }
}

/// Whether `table` holds for `id` what its last whole record tells, or nothing without one.
pub open spec fn agrees(
    table: Map<u32, WindowMetadata>,
    records: Seq<WindowRecord>,
    id: u32,
) -> bool {
    match record_of(records, id) {
        Some(record) => table.contains_key(id) && tells(record, table[id]),
        None => !table.contains_key(id),
    }
}

/// Whether `table` holds what the records tell, and nothing else.
pub open spec fn tabulates(
    table: Map<u32, WindowMetadata>,
    records: Seq<WindowRecord>,
) -> bool {
    forall|id: u32| #[trigger] agrees(table, records, id)
}

fn metadata_in(record: &WindowRecord) -> (r: Option<(u32, WindowMetadata)>)
    ensures
        match r {
            Some((id, metadata)) => is_whole(*record) && record.number == Some(id) && tells(
                *record,
                metadata,
            ),
            None => !is_whole(*record),
        },
{
    let id: u32 = match record.number {
        Some(id) => id,
        None => {
            return None;
        },
    };
    let bounds: &BoundsRecord = match &record.bounds {
        Some(bounds) => bounds,
        None => {
            return None;
        },
    };
    let (x, y, width, height): (Coordinate, Coordinate, Coordinate, Coordinate) = match (
        bounds.x,
        bounds.y,
        bounds.width,
        bounds.height,
    ) {
        (Some(x), Some(y), Some(width), Some(height)) => (x, y, width, height),
        _ => {
            return None;
        },
    };
    let title: String = match &record.name {
        Some(name) => name.clone(),
        None => String::new(),
    };
    Some(
        (
            id,
            WindowMetadata {
                frame: Area { origin: Point { x, y }, size: Size { width, height } },
                center: bounds.center,
                title,
            },
        ),
    )
}

/// What the window server tells of the windows, by their numbers; a record without a number or
/// without whole bounds is passed over.
pub fn cg_window_metadata(records: &Vec<WindowRecord>) -> (r: HashMap<u32, WindowMetadata>)
    ensures
        tabulates(r@, records@),
{
    let mut table: HashMap<u32, WindowMetadata> = HashMap::new();
    let mut i: usize = 0;
    while i < records.len()
        invariant
            i <= records@.len(),
            tabulates(table@, records@.take(i as int)),
        decreases records@.len() - i,
    {
        let ghost before = table@;
        proof {
            assert(records@.take(i + 1).drop_last() =~= records@.take(i as int));
            assert(records@.take(i + 1).last() == records@[i as int]);
        }
        match metadata_in(&records[i]) {
            Some((id, metadata)) => {
                table.insert(id, metadata);
            },
            None => {},
        }
        proof {
            assert forall|id: u32| #[trigger] agrees(table@, records@.take(i + 1), id) by {
                assert(agrees(before, records@.take(i as int), id));
            }
        }
        i = i + 1;
    }
    proof {
        assert(records@.take(i as int) =~= records@);
    }
    table
}

/// Whether `target` is the display with the number `id`.
pub open spec fn is_display(target: Target, screens: Seq<NamedScreen>, id: u32) -> bool {
    target matches Target::Display(display) && display.id == id && display.title@ == display_name(
        screens,
        id,
    )
}

/// Whether `target` is the window with the number `id`.
pub open spec fn is_window(
    target: Target,
    table: Map<u32, WindowMetadata>,
    metrics: Seq<DisplayMetrics>,
    id: u32,
) -> bool {
    target matches Target::Window(window) && {
        &&& window.id == id
        &&& window.title@ == table[id].title@
        &&& window.frame == table[id].frame
        &&& window.scale_factor == scale_at(table[id].center, metrics)
    }
}

/// The numbers in `windows` of which the table tells, in their order.
pub open spec fn known_windows(windows: Seq<u32>, table: Map<u32, WindowMetadata>) -> Seq<u32>
    decreases windows.len(),
{
    if windows.len() == 0 {
        seq![]
    } else if table.contains_key(windows.last()) {
        known_windows(windows.drop_last(), table).push(windows.last())
    } else {
        known_windows(windows.drop_last(), table)
    }
}

/// Whether `targets` are the displays and then the windows, each in the order given.
pub open spec fn lists(
    targets: Seq<Target>,
    displays: Seq<u32>,
    screens: Seq<NamedScreen>,
    metrics: Seq<DisplayMetrics>,
    windows: Seq<u32>,
    table: Map<u32, WindowMetadata>,
) -> bool {
    &&& targets.len() == displays.len() + windows.len()
    &&& forall|i: int|
        0 <= i < displays.len() ==> is_display(#[trigger] targets[i], screens, displays[i])
    &&& forall|i: int|
        displays.len() <= i < targets.len() ==> is_window(
            #[trigger] targets[i],
            table,
            metrics,
            windows[i - displays.len()],
        )
}

/// Everything that can be captured: the displays, then the windows of which the table tells.
pub fn get_all_targets(
    displays: &Vec<u32>,
    screens: &Vec<NamedScreen>,
    metrics: &Vec<DisplayMetrics>,
    windows: &Vec<u32>,
    table: &HashMap<u32, WindowMetadata>,
) -> (r: Vec<Target>)
    ensures
        lists(
            r@,
            displays@,
            screens@,
            metrics@,
            known_windows(windows@, table@),
            table@,
        ),
{
    let mut targets: Vec<Target> = Vec::new();
    let mut i: usize = 0;
    while i < displays.len()
        invariant
            i <= displays@.len(),
            lists(
                targets@,
                displays@.take(i as int),
                screens@,
                metrics@,
                Seq::<u32>::empty(),
                table@,
            ),
        decreases displays@.len() - i,
    {
        let id: u32 = displays[i];
        targets.push(Target::Display(Display { id, title: get_display_name(screens, id) }));
        i = i + 1;
    }
    proof {
        assert(displays@.take(i as int) =~= displays@);
        assert(windows@.take(0) =~= Seq::<u32>::empty());
    }
    let mut j: usize = 0;
    while j < windows.len()
        invariant
            j <= windows@.len(),
            lists(
                targets@,
                displays@,
                screens@,
                metrics@,
                known_windows(windows@.take(j as int), table@),
                table@,
            ),
        decreases windows@.len() - j,
    {
        let id: u32 = windows[j];
        proof {
            assert(windows@.take(j + 1).drop_last() =~= windows@.take(j as int));
            assert(windows@.take(j + 1).last() == id);
        }
        match table.get(&id) {
            Some(metadata) => {
                targets.push(
                    Target::Window(
                        Window {
                            id,
                            title: metadata.title.clone(),
                            frame: metadata.frame,
                            scale_factor: scale_factor_for_frame(
                                metadata.center,
                                metrics.as_slice(),
                            ),
                        },
                    ),
                );
            },
            None => {},
        }
        j = j + 1;
    }
    proof {
        assert(windows@.take(j as int) =~= windows@);
    }
    targets
}

/// The main display, by its number.
pub fn get_main_display(screens: &Vec<NamedScreen>, id: u32) -> (r: Display)
    ensures
        r.id == id,
        r.title@ == display_name(screens@, id),
{
    Display { id, title: get_display_name(screens, id) }
}

/// The scale of a target, for a display in the given mode.
pub open spec fn scale_for(target: Target, mode: Option<DisplayMode>) -> ScaleFactor {
    match target {
        Target::Window(window) => window.scale_factor,
        Target::Display(_) => if mode->Some_0.width == 0 {
            unscaled()
        } else {
            ScaleFactor { pixels: mode->Some_0.pixel_width, points: mode->Some_0.width }
        },
    }
}

/// The width and height of a target in points, for a display in the given mode.
pub open spec fn dimensions_of(target: Target, mode: Option<DisplayMode>) -> (int, int) {
    match target {
        Target::Window(window) => (
            window.frame.size.width.clamped(u64::MAX as int),
            window.frame.size.height.clamped(u64::MAX as int),
        ),
        Target::Display(_) => (mode->Some_0.width as int, mode->Some_0.height as int),
    }
}

/// The scale of a target: that of the window, or the pixels per point of the display in its
/// mode, one where the mode is without width.
pub fn get_scale_factor(target: &Target, mode: Option<DisplayMode>) -> (r: ScaleFactor)
    requires
        target is Display ==> mode is Some,
    ensures
        r == scale_for(*target, mode),
{
    match target {
        Target::Window(window) => window.scale_factor,
        Target::Display(_) => {
            let mode: DisplayMode = mode.unwrap();
            if mode.width == 0 {
                ScaleFactor { pixels: 1, points: 1 }
            } else {
                ScaleFactor { pixels: mode.pixel_width, points: mode.width }
            }
        },
    }
}

/// The size of a target in points: that of the window's frame cut to whole points, or that of
/// the display in its mode.
pub fn get_target_dimensions(target: &Target, mode: Option<DisplayMode>) -> (r: (u64, u64))
    requires
        target is Display ==> mode is Some,
    ensures
        (r.0 as int, r.1 as int) == dimensions_of(*target, mode),
{
    match target {
        Target::Window(window) => (
            window.frame.size.width.to_u64(),
            window.frame.size.height.to_u64(),
        ),
        Target::Display(_) => {
            let mode: DisplayMode = mode.unwrap();
            (mode.width, mode.height)
        },
    }
}

/// No window is without scale: where every display has pixels and points, so has every window.
pub proof fn law_scale_is_never_empty(center: Point, displays: Seq<DisplayMetrics>)
    requires
        forall|i: int|
            0 <= i < displays.len() ==> (#[trigger] displays[i]).scale.pixels > 0
                && displays[i].scale.points > 0,
    ensures
        scale_at(center, displays).pixels > 0,
        scale_at(center, displays).points > 0,
    decreases displays.len(),
{
    if displays.len() > 0 && !displays.first().contains(center) {
        law_scale_is_never_empty(center, displays.drop_first());
    }
}

/// The scale that metrics are made with has pixels and points.
pub proof fn law_metrics_have_scale(mode: Option<DisplayMode>)
    ensures
        scale_of(mode).pixels > 0,
        scale_of(mode).points > 0,
{
}

/// A window is listed exactly where the table tells of it.
pub proof fn law_listed_windows_are_known(windows: Seq<u32>, table: Map<u32, WindowMetadata>, id: u32)
    ensures
        known_windows(windows, table).contains(id) <==> windows.contains(id)
            && table.contains_key(id),
    decreases windows.len(),
{
    if windows.len() > 0 {
        let earlier = windows.drop_last();
        law_listed_windows_are_known(earlier, table, id);
        let listed = known_windows(earlier, table);
        assert(windows =~= earlier.push(windows.last()));
        if windows.contains(id) && windows.last() != id {
            let i = choose|i: int| 0 <= i < windows.len() && windows[i] == id;
            assert(earlier[i] == id);
        }
        if earlier.contains(id) {
            let i = choose|i: int| 0 <= i < earlier.len() && earlier[i] == id;
            assert(windows[i] == id);
        }
        if table.contains_key(windows.last()) {
            let all = listed.push(windows.last());
            assert(all.last() == windows.last());
            if listed.contains(id) {
                let i = choose|i: int| 0 <= i < listed.len() && listed[i] == id;
                assert(all[i] == id);
            }
            if all.contains(id) && id != windows.last() {
                let i = choose|i: int| 0 <= i < all.len() && all[i] == id;
                assert(listed[i] == id);
            }
        }
        assert(windows.last() == windows[windows.len() - 1]);
    }
}

/// Whether the point lies in the rectangle of the display: at its left or top edge or beyond, and
/// before its right and bottom edge.
pub open spec fn lies_in(point: Point, display: DisplayMetrics) -> bool {
    &&& point.x.at_least(display.left) && point.x.below(display.right)
    &&& point.y.at_least(display.top) && point.y.below(display.bottom)
}

/// The scale of a window is that of the first display that its middle lies in.
pub proof fn law_first_display_gives_the_scale(
    center: Point,
    displays: Seq<DisplayMetrics>,
    i: int,
)
    requires
        0 <= i < displays.len(),
        lies_in(center, displays[i]),
        forall|j: int| 0 <= j < i ==> !lies_in(center, #[trigger] displays[j]),
    ensures
        scale_at(center, displays) == displays[i].scale,
    decreases displays.len(),
{
    if i > 0 {
        let rest = displays.drop_first();
        assert(!lies_in(center, displays[0]));
        assert forall|j: int| 0 <= j < i - 1 implies !lies_in(center, #[trigger] rest[j]) by {
            assert(!lies_in(center, displays[j + 1]));
        }
        law_first_display_gives_the_scale(center, rest, i - 1);
    }
}

/// A window whose middle lies in no display has one pixel for each point.
pub proof fn law_offscreen_windows_are_unscaled(center: Point, displays: Seq<DisplayMetrics>)
    requires
        forall|j: int| 0 <= j < displays.len() ==> !lies_in(center, #[trigger] displays[j]),
    ensures
        scale_at(center, displays).pixels == 1,
        scale_at(center, displays).points == 1,
    decreases displays.len(),
{
    if displays.len() > 0 {
        let rest = displays.drop_first();
        assert(!lies_in(center, displays[0]));
        assert forall|j: int| 0 <= j < rest.len() implies !lies_in(center, #[trigger] rest[j]) by {
            assert(!lies_in(center, displays[j + 1]));
        }
        law_offscreen_windows_are_unscaled(center, rest);
    }
}

/// A display's scale is its pixels to its points where its mode tells both, and one else.
pub proof fn law_mode_gives_the_scale(mode: DisplayMode)
    ensures
        mode.width > 0 && mode.pixel_width > 0 ==> scale_of(Some(mode)).pixels == mode.pixel_width
            && scale_of(Some(mode)).points == mode.width,
        mode.width == 0 || mode.pixel_width == 0 ==> scale_of(Some(mode)).pixels == 1 && scale_of(
            Some(mode),
        ).points == 1,
        scale_of(None).pixels == 1,
        scale_of(None).points == 1,
        unscaled().pixels == 1,
        unscaled().points == 1,
{
}

/// A display has the name of the first screen with its number.
pub proof fn law_first_screen_gives_the_name(screens: Seq<NamedScreen>, id: u32, i: int)
    requires
        0 <= i < screens.len(),
        screens[i].number == id,
        forall|j: int| 0 <= j < i ==> (#[trigger] screens[j]).number != id,
    ensures
        display_name(screens, id) == screens[i].name@,
    decreases screens.len(),
{
    if i > 0 {
        let rest = screens.drop_first();
        assert(screens[0].number != id);
        assert forall|j: int| 0 <= j < i - 1 implies (#[trigger] rest[j]).number != id by {
            assert(screens[j + 1].number != id);
        }
        law_first_screen_gives_the_name(rest, id, i - 1);
    }
}

/// A display without a screen is named by its number.
pub proof fn law_displays_without_a_screen_are_numbered(screens: Seq<NamedScreen>, id: u32)
    requires
        forall|j: int| 0 <= j < screens.len() ==> (#[trigger] screens[j]).number != id,
    ensures
        display_name(screens, id) == "Unknown Display "@ + decimal(id as nat),
    decreases screens.len(),
{
    if screens.len() > 0 {
        let rest = screens.drop_first();
        assert(screens[0].number != id);
        assert forall|j: int| 0 <= j < rest.len() implies (#[trigger] rest[j]).number != id by {
            assert(screens[j + 1].number != id);
        }
        law_displays_without_a_screen_are_numbered(rest, id);
    }
}

/// Whether the record tells the number `id` and all four bounds.
pub open spec fn tells_all_of(record: WindowRecord, id: u32) -> bool {
    &&& record.number == Some(id)
    &&& record.bounds is Some
    &&& record.bounds->Some_0.x is Some
    &&& record.bounds->Some_0.y is Some
    &&& record.bounds->Some_0.width is Some
    &&& record.bounds->Some_0.height is Some
}

proof fn lemma_last_record(records: Seq<WindowRecord>, id: u32, i: int)
    requires
        0 <= i < records.len(),
        tells_all_of(records[i], id),
        forall|j: int| i < j < records.len() ==> !tells_all_of(#[trigger] records[j], id),
    ensures
        record_of(records, id) == Some(records[i]),
    decreases records.len(),
{
    if i < records.len() - 1 {
        let rest = records.drop_last();
        assert(!tells_all_of(records[records.len() - 1], id));
        assert forall|j: int| i < j < rest.len() implies !tells_all_of(#[trigger] rest[j], id) by {
            assert(!tells_all_of(records[j], id));
        }
        lemma_last_record(rest, id, i);
    }
}

proof fn lemma_no_record(records: Seq<WindowRecord>, id: u32)
    requires
        forall|j: int| 0 <= j < records.len() ==> !tells_all_of(#[trigger] records[j], id),
    ensures
        record_of(records, id) is None,
    decreases records.len(),
{
    if records.len() > 0 {
        let rest = records.drop_last();
        assert(!tells_all_of(records[records.len() - 1], id));
        assert forall|j: int| 0 <= j < rest.len() implies !tells_all_of(#[trigger] rest[j], id) by {
            assert(!tells_all_of(records[j], id));
        }
        lemma_no_record(rest, id);
    }
}

/// The table has of a window what the last record that tells its number and all its bounds says:
/// each bound, the middle, and the name, which is empty where none is told.
pub proof fn law_last_record_counts(
    table: Map<u32, WindowMetadata>,
    records: Seq<WindowRecord>,
    id: u32,
    i: int,
)
    requires
        tabulates(table, records),
        0 <= i < records.len(),
        tells_all_of(records[i], id),
        forall|j: int| i < j < records.len() ==> !tells_all_of(#[trigger] records[j], id),
    ensures
        table.contains_key(id),
        ({
            let bounds = records[i].bounds->Some_0;
            &&& Some(table[id].frame.origin.x) == bounds.x
            &&& Some(table[id].frame.origin.y) == bounds.y
            &&& Some(table[id].frame.size.width) == bounds.width
            &&& Some(table[id].frame.size.height) == bounds.height
            &&& table[id].center.x == bounds.center.x
            &&& table[id].center.y == bounds.center.y
            &&& records[i].name matches Some(name) ==> table[id].title@ == name@
            &&& records[i].name is None ==> table[id].title@.len() == 0
        }),
{
    lemma_last_record(records, id, i);
    assert(agrees(table, records, id));
}

/// The table has no window of which no record tells the number and all bounds.
pub proof fn law_windows_without_a_record_are_unknown(
    table: Map<u32, WindowMetadata>,
    records: Seq<WindowRecord>,
    id: u32,
)
    requires
        tabulates(table, records),
        forall|j: int| 0 <= j < records.len() ==> !tells_all_of(#[trigger] records[j], id),
    ensures
        !table.contains_key(id),
{
    lemma_no_record(records, id);
    assert(agrees(table, records, id));
}

proof fn lemma_known_windows_are_kept(windows: Seq<u32>, table: Map<u32, WindowMetadata>)
    ensures
        known_windows(windows, table) == windows.filter(|id: u32| table.contains_key(id)),
    decreases windows.len(),
{
    reveal(Seq::filter);
    if windows.len() > 0 {
        lemma_known_windows_are_kept(windows.drop_last(), table);
    }
}

/// The targets are the displays and then the windows that the table knows, each in the order that
/// they were told in, and nothing else. A display has its number and the name of that number.
pub proof fn law_targets_keep_their_order(
    targets: Seq<Target>,
    displays: Seq<u32>,
    screens: Seq<NamedScreen>,
    metrics: Seq<DisplayMetrics>,
    windows: Seq<u32>,
    table: Map<u32, WindowMetadata>,
)
    requires
        lists(targets, displays, screens, metrics, known_windows(windows, table), table),
    ensures
        ({
            let known = windows.filter(|id: u32| table.contains_key(id));
            &&& targets.len() == displays.len() + known.len()
            &&& forall|i: int|
                0 <= i < displays.len() ==> ((#[trigger] targets[i]) matches Target::Display(
                    display,
                ) && display.id == displays[i] && display.title@ == display_name(
                    screens,
                    displays[i],
                ))
            &&& forall|i: int|
                displays.len() <= i < targets.len() ==> ((#[trigger] targets[i]) matches
                    Target::Window(window) && window.id == known[i - displays.len()])
        }),
{
    lemma_known_windows_are_kept(windows, table);
}

/// A window that is listed has the frame and the name that the window server told of it: its left
/// edge, top edge, width and height are those of the last record that tells its number and all its
/// bounds. Its scale is that of the display that the middle of that record lies in.
pub proof fn law_windows_are_listed_as_told(
    targets: Seq<Target>,
    displays: Seq<u32>,
    screens: Seq<NamedScreen>,
    metrics: Seq<DisplayMetrics>,
    windows: Seq<u32>,
    table: Map<u32, WindowMetadata>,
    records: Seq<WindowRecord>,
    window: Window,
    at: int,
    i: int,
)
    requires
        tabulates(table, records),
        lists(targets, displays, screens, metrics, known_windows(windows, table), table),
        0 <= at < targets.len(),
        targets[at] == Target::Window(window),
        0 <= i < records.len(),
        tells_all_of(records[i], window.id),
        forall|j: int| i < j < records.len() ==> !tells_all_of(#[trigger] records[j], window.id),
    ensures
        ({
            let bounds = records[i].bounds->Some_0;
            &&& Some(window.frame.origin.x) == bounds.x
            &&& Some(window.frame.origin.y) == bounds.y
            &&& Some(window.frame.size.width) == bounds.width
            &&& Some(window.frame.size.height) == bounds.height
            &&& records[i].name matches Some(name) ==> window.title@ == name@
            &&& records[i].name is None ==> window.title@.len() == 0
            &&& window.scale_factor == scale_at(bounds.center, metrics)
        }),
{
    law_last_record_counts(table, records, window.id, i);
}

/// A window has the scale that it was listed with, and a display the pixels per point of its mode,
/// or one where the mode has no width.
pub proof fn law_targets_have_their_scale(target: Target, mode: DisplayMode)
    ensures
        target matches Target::Window(window) ==> scale_for(target, Some(mode))
            == window.scale_factor && scale_for(target, None) == window.scale_factor,
        target is Display && mode.width > 0 ==> scale_for(target, Some(mode)).pixels
            == mode.pixel_width && scale_for(target, Some(mode)).points == mode.width,
        target is Display && mode.width == 0 ==> scale_for(target, Some(mode)).pixels == 1
            && scale_for(target, Some(mode)).points == 1,
{
}

/// A window has the width and the height of its frame, in whole points, and a display those of its
/// mode.
pub proof fn law_targets_have_their_dimensions(target: Target, mode: DisplayMode)
    ensures
        target matches Target::Window(window) ==> dimensions_of(target, None).0
            == window.frame.size.width.clamped(0xffff_ffff_ffff_ffff) && dimensions_of(
            target,
            None,
        ).1 == window.frame.size.height.clamped(0xffff_ffff_ffff_ffff) && dimensions_of(
            target,
            Some(mode),
        ) == dimensions_of(target, None),
        target is Display ==> dimensions_of(target, Some(mode)).0 == mode.width && dimensions_of(
            target,
            Some(mode),
        ).1 == mode.height,
{
}

} // verus!
