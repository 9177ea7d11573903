//! Where the captured image lies on the root window and how its bytes are laid out.

use crate::capturer::{Area, Options, Resolution};
use crate::coordinate::law_clamped_in_range;
use crate::linux::error::{outcome, LinCapError};
use crate::linux::x11::wire::least_significant_first;
use crate::text::{append_decimal, decimal};
use vstd::prelude::*;

verus! {

/// How the pixels of one depth are stored.
#[derive(Clone, Copy, Debug, PartialEq, Eq, Structural)]
pub struct PixmapFormat {
    pub depth: u8,
    pub bits_per_pixel: u8,
    pub scanline_pad: u8,
}

/// A visual: which bits of a pixel hold which colour.
#[derive(Clone, Copy, Debug, PartialEq, Eq, Structural)]
pub struct Visual {
    pub visual_id: u32,
    pub red_mask: u32,
    pub green_mask: u32,
    pub blue_mask: u32,
}

/// The visuals of one depth.
#[derive(Debug)]
pub struct Depth {
    pub visuals: Vec<Visual>,
}

/// A screen of the server.
#[derive(Debug)]
pub struct Screen {
    pub root: u32,
    pub width_in_pixels: u16,
    pub height_in_pixels: u16,
    pub root_depth: u8,
    pub root_visual: u32,
    pub allowed_depths: Vec<Depth>,
}

/// What the server said of itself when the connection was set up.
#[derive(Debug)]
pub struct Setup {
    pub image_byte_order: u8,
    pub pixmap_formats: Vec<PixmapFormat>,
    pub roots: Vec<Screen>,
}

/// A rectangle of the root window and the format of its pixels.
#[derive(Clone, Copy, Debug, PartialEq, Eq, Structural)]
pub struct ImageLayout {
    pub root: u32,
    pub x: i16,
    pub y: i16,
    pub width: u16,
    pub height: u16,
    pub depth: u8,
    pub bits_per_pixel: u8,
    pub scanline_pad: u8,
    pub little_endian: bool,
    pub red_mask: u32,
    pub green_mask: u32,
    pub blue_mask: u32,
}

/// A root window and the format of its pixels.
#[derive(Clone, Copy, Debug, PartialEq, Eq, Structural)]
pub struct RootWindow {
    pub root: u32,
    pub width: u16,
    pub height: u16,
    pub depth: u8,
    pub format: PixmapFormat,
    pub visual: Visual,
}

impl ImageLayout {
    /// The bytes of one row: its bits, filled up to whole pads of `scanline_pad` bits.
    pub open spec fn row_bytes(self) -> int {
        let bits = self.width * self.bits_per_pixel;
        let pads = (bits + self.scanline_pad - 1) / self.scanline_pad as int;
        pads * (self.scanline_pad as int / 8)
    }

    /// The bytes of the whole image.
    pub open spec fn image_bytes(self) -> int {
        self.row_bytes() * self.height
    }

    /// The bytes from the start of one row to the start of the next.
    pub fn stride(&self) -> (r: usize)
        requires
            self.scanline_pad > 0,
        ensures
            r == self.row_bytes(),
    {
        proof {
            lemma_row_is_bounded(*self);
        }
        let bits: usize = self.width as usize * self.bits_per_pixel as usize;
        let pad: usize = self.scanline_pad as usize;
        ((bits + (pad - 1)) / pad) * (pad / 8)
    }

    /// Whether the bytes of the image can be counted, as [`ImageLayout::byte_len`] asks.
    pub fn is_countable(&self) -> (r: bool)
        ensures
            r == (self.scanline_pad > 0 && self.image_bytes() <= usize::MAX),
    {
        self.scanline_pad > 0 && self.stride().checked_mul(self.height as usize).is_some()
    }

    /// The bytes of the whole image.
    pub fn byte_len(&self) -> (r: usize)
        requires
            self.scanline_pad > 0,
            self.image_bytes() <= usize::MAX,
        ensures
            r == self.image_bytes(),
    {
        self.stride() * self.height as usize
    }
}

/// A row is no longer than its bits take in bytes, and one pad.
proof fn lemma_row_is_bounded(layout: ImageLayout)
    requires
        layout.scanline_pad > 0,
    ensures
        0 <= layout.width * layout.bits_per_pixel <= 0xffff * 0xff,
        0 <= layout.row_bytes() <= layout.width * layout.bits_per_pixel + layout.scanline_pad,
{
    let bits = layout.width * layout.bits_per_pixel;
    let pad = layout.scanline_pad as int;
    assert(0 <= bits <= 0xffff * 0xff) by (nonlinear_arith)
        requires
            bits == layout.width * layout.bits_per_pixel,
            0 <= layout.width <= 0xffff,
            0 <= layout.bits_per_pixel <= 0xff,
    ;
    let pads = (bits + pad - 1) / pad;
    assert(0 <= pads && pads * pad <= bits + pad - 1) by (nonlinear_arith)
        requires
            bits >= 0,
            pad > 0,
            pads == (bits + pad - 1) / pad,
    ;
    assert(0 <= pads * (pad / 8) <= pads * pad) by (nonlinear_arith)
        requires
            pads >= 0,
            pad > 0,
    ;
}

/// The first format for `depth`.
pub open spec fn format_for(formats: Seq<PixmapFormat>, depth: u8) -> Option<PixmapFormat>
    decreases formats.len(),
{
    if formats.len() == 0 {
        None
    } else if formats.first().depth == depth {
        Some(formats.first())
    } else {
        format_for(formats.drop_first(), depth)
    }
}

/// The first visual with the number `id`.
pub open spec fn visual_among(visuals: Seq<Visual>, id: u32) -> Option<Visual>
    decreases visuals.len(),
{
    if visuals.len() == 0 {
        None
    } else if visuals.first().visual_id == id {
        Some(visuals.first())
    } else {
        visual_among(visuals.drop_first(), id)
    }
}

/// The first visual with the number `id` over all depths, in their order.
pub open spec fn visual_for(depths: Seq<Depth>, id: u32) -> Option<Visual>
    decreases depths.len(),
{
    if depths.len() == 0 {
        None
    } else {
        match visual_among(depths.first().visuals@, id) {
            Some(visual) => Some(visual),
            None => visual_for(depths.drop_first(), id),
        }
    }
}

/// The message for a screen that the server does not have.
pub open spec fn no_screen_message(screen_number: usize) -> Seq<char> {
    "X11 server has no screen "@ + decimal(screen_number as nat)
}

/// The root window of a screen with the format of its pixels, or why it cannot be captured.
pub open spec fn root_window_of(
    setup: Setup,
    screen_number: usize,
    resolution: Resolution,
) -> Result<RootWindow, Seq<char>> {
    if resolution != Resolution::Captured {
        Err("X11 backend currently supports output_resolution='captured' only"@)
    } else if screen_number >= setup.roots@.len() {
        Err(no_screen_message(screen_number))
    } else {
        let screen = setup.roots@[screen_number as int];
        match format_for(setup.pixmap_formats@, screen.root_depth) {
            None => Err(
                "X11 root depth "@ + decimal(screen.root_depth as nat)
                    + " has no matching pixmap format"@,
            ),
            Some(format) => if format.bits_per_pixel != 16 && format.bits_per_pixel != 24
                && format.bits_per_pixel != 32 {
                Err(
                    "unsupported X11 root pixel size: "@ + decimal(format.bits_per_pixel as nat)
                        + " bits per pixel"@,
                )
            } else if format.scanline_pad != 8 && format.scanline_pad != 16
                && format.scanline_pad != 32 {
                Err(
                    "unsupported X11 scanline padding: "@ + decimal(format.scanline_pad as nat)
                        + " bits"@,
                )
            } else {
                match visual_for(screen.allowed_depths@, screen.root_visual) {
                    None => Err("X11 root visual was not found"@),
                    Some(visual) => Ok(
                        RootWindow {
                            root: screen.root,
                            width: screen.width_in_pixels,
                            height: screen.height_in_pixels,
                            depth: screen.root_depth,
                            format,
                            visual,
                        },
                    ),
                }
            },
        }
    }
}

impl Area {
    /// Whether the rectangle has a place and an extent: finite numbers, no negative origin,
    /// and something in both directions.
    pub open spec fn croppable(self) -> bool {
        &&& self.origin.x.finite() && self.origin.y.finite()
        &&& self.size.width.finite() && self.size.height.finite()
        &&& !self.origin.x.negative() && !self.origin.y.negative()
        &&& self.size.width.positive() && self.size.height.positive()
    }

    /// The left edge in whole pixels.
    pub open spec fn left(self) -> int {
        self.origin.x.clamped(u32::MAX as int)
    }

    /// The top edge in whole pixels.
    pub open spec fn top(self) -> int {
        self.origin.y.clamped(u32::MAX as int)
    }

    /// The width in whole pixels.
    pub open spec fn columns(self) -> int {
        self.size.width.clamped(u32::MAX as int)
    }

    /// The height in whole pixels.
    pub open spec fn rows(self) -> int {
        self.size.height.clamped(u32::MAX as int)
    }
}

/// Whether the far edges of a crop area that is held against the screen stay within 32 bits.
pub open spec fn edges_fit(screen_width: u16, crop_area: Option<Area>) -> bool {
    crop_area matches Some(area) ==> area.croppable() ==> {
        &&& area.left() + area.columns() <= u32::MAX
        &&& area.left() + area.columns() <= screen_width ==> area.top() + area.rows() <= u32::MAX
    }
}

/// The low 16 bits of `n` as a signed number, for `n` from 0 to 65535.
pub open spec fn as_signed(n: int) -> i16 {
    if n < 0x8000 {
        n as i16
    } else {
        (n - 0x1_0000) as i16
    }
}

/// The rectangle to capture, as its left and top edge, its width and its height.
pub open spec fn cropped(
    screen_width: u16,
    screen_height: u16,
    crop_area: Option<Area>,
) -> Result<(i16, i16, u16, u16), Seq<char>> {
    match crop_area {
        None => Ok((0, 0, screen_width, screen_height)),
        Some(area) => if !area.croppable() {
            Err("invalid X11 crop area"@)
        } else if area.left() + area.columns() > screen_width || area.top() + area.rows()
            > screen_height {
            Err(
                "X11 crop area exceeds the "@ + decimal(screen_width as nat) + "x"@ + decimal(
                    screen_height as nat,
                ) + " root window"@,
            )
        } else {
            Ok(
                (
                    as_signed(area.left()),
                    as_signed(area.top()),
                    area.columns() as u16,
                    area.rows() as u16,
                ),
            )
        },
    }
}

/// The layout of the image to capture, or why there is none.
pub open spec fn layout_of(
    setup: Setup,
    screen_number: usize,
    options: Options,
) -> Result<ImageLayout, Seq<char>> {
    match root_window_of(setup, screen_number, options.output_resolution) {
        Err(message) => Err(message),
        Ok(window) => match cropped(window.width, window.height, options.crop_area) {
            Err(message) => Err(message),
            Ok((x, y, width, height)) => Ok(
                ImageLayout {
                    root: window.root,
                    x,
                    y,
                    width,
                    height,
                    depth: window.depth,
                    bits_per_pixel: window.format.bits_per_pixel,
                    scanline_pad: window.format.scanline_pad,
                    little_endian: setup.image_byte_order == 0,
                    red_mask: window.visual.red_mask,
                    green_mask: window.visual.green_mask,
                    blue_mask: window.visual.blue_mask,
                },
            ),
        },
    }
}

/// The width and height of the frames that the options ask for on a screen, or why there are none.
pub open spec fn size_of(setup: Setup, screen_number: usize, options: Options) -> Result<
    Seq<u32>,
    Seq<char>,
> {
    match layout_of(setup, screen_number, options) {
        Ok(layout) => Ok(seq![layout.width as u32, layout.height as u32]),
        Err(message) => Err(message),
    }
}

/// What [`layout`] asks of its arguments: where it comes to the crop area, its far edges stay
/// within 32 bits.
pub open spec fn layout_requires(setup: Setup, screen_number: usize, options: Options) -> bool {
    root_window_of(setup, screen_number, options.output_resolution) matches Ok(window)
        ==> edges_fit(window.width, options.crop_area)
}

/// An error of two texts with a number between them.
fn numbered_error(before: &str, n: u64, after: &str) -> (r: LinCapError)
    ensures
        r@ == before@ + decimal(n as nat) + after@,
{
    let mut message: String = before.to_owned();
    append_decimal(&mut message, n);
    message.append(after);
    LinCapError::new(message)
}

fn find_format(formats: &Vec<PixmapFormat>, depth: u8) -> (r: Option<PixmapFormat>)
    ensures
        r == format_for(formats@, depth),
{
    let mut i: usize = 0;
    proof {
        assert(formats@.skip(0) =~= formats@);
    }
    while i < formats.len()
        invariant
            i <= formats@.len(),
            format_for(formats@, depth) == format_for(formats@.skip(i as int), depth),
        decreases formats@.len() - i,
    {
        proof {
            assert(formats@.skip(i as int).drop_first() =~= formats@.skip(i + 1));
        }
        if formats[i].depth == depth {
            return Some(formats[i]);
        }
        i = i + 1;
    }
    None
}

fn find_visual_among(visuals: &Vec<Visual>, id: u32) -> (r: Option<Visual>)
    ensures
        r == visual_among(visuals@, id),
{
    let mut i: usize = 0;
    proof {
        assert(visuals@.skip(0) =~= visuals@);
    }
    while i < visuals.len()
        invariant
            i <= visuals@.len(),
            visual_among(visuals@, id) == visual_among(visuals@.skip(i as int), id),
        decreases visuals@.len() - i,
    {
        proof {
            assert(visuals@.skip(i as int).drop_first() =~= visuals@.skip(i + 1));
        }
        if visuals[i].visual_id == id {
            return Some(visuals[i]);
        }
        i = i + 1;
    }
    None
}

fn find_visual(depths: &Vec<Depth>, id: u32) -> (r: Option<Visual>)
    ensures
        r == visual_for(depths@, id),
{
    let mut i: usize = 0;
    proof {
        assert(depths@.skip(0) =~= depths@);
    }
    while i < depths.len()
        invariant
            i <= depths@.len(),
            visual_for(depths@, id) == visual_for(depths@.skip(i as int), id),
        decreases depths@.len() - i,
    {
        proof {
            assert(depths@.skip(i as int).drop_first() =~= depths@.skip(i + 1));
        }
        match find_visual_among(&depths[i].visuals, id) {
            Some(visual) => {
                return Some(visual);
            },
            None => {},
        }
        i = i + 1;
    }
    None
}

/// The root window of a screen with the format of its pixels.
pub fn root_window(setup: &Setup, screen_number: usize, resolution: Resolution) -> (r: Result<
    RootWindow,
    LinCapError,
>)
    ensures
        outcome(r) == root_window_of(*setup, screen_number, resolution),
{
    if resolution != Resolution::Captured {
        return Err(
            LinCapError::from_text(
                "X11 backend currently supports output_resolution='captured' only",
            ),
        );
    }
    if screen_number >= setup.roots.len() {
        return Err(no_screen(screen_number));
    }
    let screen: &Screen = &setup.roots[screen_number];
    let format: PixmapFormat = match find_format(&setup.pixmap_formats, screen.root_depth) {
        Some(format) => format,
        None => {
            return Err(
                numbered_error(
                    "X11 root depth ",
                    screen.root_depth as u64,
                    " has no matching pixmap format",
                ),
            );
        },
    };
    if format.bits_per_pixel != 16 && format.bits_per_pixel != 24 && format.bits_per_pixel != 32 {
        return Err(
            numbered_error(
                "unsupported X11 root pixel size: ",
                format.bits_per_pixel as u64,
                " bits per pixel",
            ),
        );
    }
    if format.scanline_pad != 8 && format.scanline_pad != 16 && format.scanline_pad != 32 {
        return Err(
            numbered_error(
                "unsupported X11 scanline padding: ",
                format.scanline_pad as u64,
                " bits",
            ),
        );
    }
    match find_visual(&screen.allowed_depths, screen.root_visual) {
        Some(visual) => Ok(
            RootWindow {
                root: screen.root,
                width: screen.width_in_pixels,
                height: screen.height_in_pixels,
                depth: screen.root_depth,
                format,
                visual,
            },
        ),
        None => Err(LinCapError::from_text("X11 root visual was not found")),
    }
}

fn no_screen(screen_number: usize) -> (r: LinCapError)
    ensures
        r@ == no_screen_message(screen_number),
{
    let mut message: String = "X11 server has no screen ".to_owned();
    append_decimal(&mut message, screen_number as u64);
    LinCapError::new(message)
}

fn signed(n: u32) -> (r: i16)
    requires
        n <= 0xffff,
    ensures
        r == as_signed(n as int),
{
    if n < 0x8000 {
        n as i16
    } else {
        (n as i32 - 0x1_0000) as i16
    }
}

/// Whether the far edges of the crop area stay within 32 bits, as [`crop`] asks.
pub fn crop_edges_fit(screen_width: u16, options: &Options) -> (r: bool)
    ensures
        r == edges_fit(screen_width, options.crop_area),
{
    match &options.crop_area {
        None => true,
        Some(area) => {
            if !is_croppable(area) {
                return true;
            }
            let right: u64 = area.origin.x.to_u32() as u64 + area.size.width.to_u32() as u64;
            let bottom: u64 = area.origin.y.to_u32() as u64 + area.size.height.to_u32() as u64;
            right <= 0xffff_ffff && (right > screen_width as u64 || bottom <= 0xffff_ffff)
        },
    }
}

fn is_croppable(area: &Area) -> (r: bool)
    ensures
        r == area.croppable(),
{
    area.origin.x.is_finite() && area.origin.y.is_finite() && area.size.width.is_finite()
        && area.size.height.is_finite() && !area.origin.x.is_negative()
        && !area.origin.y.is_negative() && area.size.width.is_positive()
        && area.size.height.is_positive()
}

/// Holds the crop area against the screen: the whole screen without one, else the area cut to
/// whole pixels, which must lie on the screen.
pub fn crop(screen_width: u16, screen_height: u16, options: &Options) -> (r: Result<
    (i16, i16, u16, u16),
    LinCapError,
>)
    requires
        edges_fit(screen_width, options.crop_area),
    ensures
        outcome(r) == cropped(screen_width, screen_height, options.crop_area),
{
    let area: &Area = match &options.crop_area {
        None => {
            return Ok((0, 0, screen_width, screen_height));
        },
        Some(area) => area,
    };
    if !is_croppable(area) {
        return Err(LinCapError::from_text("invalid X11 crop area"));
    }
    let x: u32 = area.origin.x.to_u32();
    let y: u32 = area.origin.y.to_u32();
    let width: u32 = area.size.width.to_u32();
    let height: u32 = area.size.height.to_u32();
    if x + width > screen_width as u32 || y + height > screen_height as u32 {
        let mut message: String = "X11 crop area exceeds the ".to_owned();
        append_decimal(&mut message, screen_width as u64);
        message.append("x");
        append_decimal(&mut message, screen_height as u64);
        message.append(" root window");
        return Err(LinCapError::new(message));
    }
    Ok((signed(x), signed(y), width as u16, height as u16))
}

/// Finds the layout of the image that the options ask for on a screen.
pub fn layout(setup: &Setup, screen_number: usize, options: &Options) -> (r: Result<
    ImageLayout,
    LinCapError,
>)
    requires
        layout_requires(*setup, screen_number, *options),
    ensures
        outcome(r) == layout_of(*setup, screen_number, *options),
{
    let window: RootWindow = match root_window(setup, screen_number, options.output_resolution) {
        Ok(window) => window,
        Err(error) => {
            return Err(error);
        },
    };
    match crop(window.width, window.height, options) {
        Ok((x, y, width, height)) => Ok(
            ImageLayout {
                root: window.root,
                x,
                y,
                width,
                height,
                depth: window.depth,
                bits_per_pixel: window.format.bits_per_pixel,
                scanline_pad: window.format.scanline_pad,
                little_endian: setup.image_byte_order == least_significant_first(),
                red_mask: window.visual.red_mask,
                green_mask: window.visual.green_mask,
                blue_mask: window.visual.blue_mask,
            },
        ),
        Err(error) => Err(error),
    }
}

/// Whether [`layout`] can be asked: where it comes to the crop area, its far edges stay within
/// 32 bits.
pub fn layout_fits(setup: &Setup, screen_number: usize, options: &Options) -> (r: bool)
    ensures
        r == layout_requires(*setup, screen_number, *options),
{
    match root_window(setup, screen_number, options.output_resolution) {
        Ok(window) => crop_edges_fit(window.width, options),
        Err(_) => true,
    }
}

/// Whether the server has the screen that the connection is for.
pub fn probe(setup: &Setup, screen_number: usize) -> (r: Result<(), LinCapError>)
    ensures
        outcome(r) == (if screen_number < setup.roots@.len() {
            Ok(())
        } else {
            Err(no_screen_message(screen_number))
        }),
{
    if screen_number >= setup.roots.len() {
        return Err(no_screen(screen_number));
    }
    Ok(())
}

/// The width and height of the frames that the options ask for on a screen.
pub fn output_size(setup: &Setup, screen_number: usize, options: &Options) -> (r: Result<
    [u32; 2],
    LinCapError,
>)
    requires
        layout_requires(*setup, screen_number, *options),
    ensures
        match size_of(*setup, screen_number, *options) {
            Ok(size) => r matches Ok(told) && told@ == size,
            Err(message) => r matches Err(error) && error@ == message,
        },
{
    match layout(setup, screen_number, options) {
        Ok(layout) => Ok([layout.width as u32, layout.height as u32]),
        Err(error) => Err(error),
    }
}

impl ImageLayout {
    /// Whether the pixels are of a size and a padding that this backend takes.
    pub open spec fn supported(self) -> bool {
        &&& self.bits_per_pixel == 16 || self.bits_per_pixel == 24 || self.bits_per_pixel == 32
        &&& self.scanline_pad == 8 || self.scanline_pad == 16 || self.scanline_pad == 32
    }
}

/// A layout that was found has pixels of a supported size and padding, and lies on its screen:
/// the whole screen without a crop area, and with one the rectangle of whole pixels that the
/// area was cut to.
pub proof fn law_layout_lies_on_screen(setup: Setup, screen_number: usize, options: Options)
    requires
        layout_of(setup, screen_number, options) is Ok,
    ensures
        ({
            let layout = layout_of(setup, screen_number, options)->Ok_0;
            let screen = setup.roots@[screen_number as int];
            &&& screen_number < setup.roots@.len()
            &&& layout.supported()
            &&& layout.root == screen.root
            &&& layout.depth == screen.root_depth
            &&& layout.width <= screen.width_in_pixels
            &&& layout.height <= screen.height_in_pixels
            &&& options.crop_area is None ==> layout.x == 0 && layout.y == 0 && layout.width
                == screen.width_in_pixels && layout.height == screen.height_in_pixels
            &&& options.crop_area matches Some(area) ==> {
                &&& layout.width == area.columns() && layout.height == area.rows()
                &&& area.left() + layout.width <= screen.width_in_pixels
                &&& area.top() + layout.height <= screen.height_in_pixels
            }
        }),
{
    if let Some(area) = options.crop_area {
        law_clamped_in_range(area.origin.x, u32::MAX as int);
        law_clamped_in_range(area.origin.y, u32::MAX as int);
        law_clamped_in_range(area.size.width, u32::MAX as int);
        law_clamped_in_range(area.size.height, u32::MAX as int);
    }
}

/// A row of a supported layout holds all its pixels, ends on a whole pad, and has less than one
/// pad to spare.
pub proof fn law_row_holds_its_pixels(layout: ImageLayout)
    requires
        layout.supported(),
    ensures
        layout.row_bytes() >= layout.width * (layout.bits_per_pixel as int / 8),
        layout.row_bytes() % (layout.scanline_pad as int / 8) == 0,
        layout.row_bytes() * 8 < layout.width * layout.bits_per_pixel + layout.scanline_pad,
        layout.width > 0 ==> layout.row_bytes() > 0,
{
    let width = layout.width as int;
    let bits = layout.width * layout.bits_per_pixel;
    let bytes = layout.bits_per_pixel as int / 8;
    assert(bits == width * bytes * 8 && width * bytes >= width) by (nonlinear_arith)
        requires
            bits == width * layout.bits_per_pixel,
            bytes == 2 && layout.bits_per_pixel == 16 || bytes == 3 && layout.bits_per_pixel == 24
                || bytes == 4 && layout.bits_per_pixel == 32,
            width >= 0,
    ;
    let pads = (bits + layout.scanline_pad - 1) / layout.scanline_pad as int;
    if layout.scanline_pad == 8 {
        assert(layout.row_bytes() == pads * 1);
    } else if layout.scanline_pad == 16 {
        assert(layout.row_bytes() == pads * 2);
    } else {
        assert(layout.row_bytes() == pads * 4);
    }
}

/// A layout that was found for a crop area captures the rectangle that was asked for: its left
/// edge is the x of the area and its top edge the y, in whole pixels, and so are its width and its
/// height. Edges from 32768 on come out as the negative numbers with the same 16 bits.
pub proof fn law_crop_area_is_captured(
    setup: Setup,
    screen_number: usize,
    options: Options,
    area: Area,
)
    requires
        layout_of(setup, screen_number, options) is Ok,
        options.crop_area == Some(area),
    ensures
        ({
            let layout = layout_of(setup, screen_number, options)->Ok_0;
            let left = area.origin.x.clamped(u32::MAX as int);
            let top = area.origin.y.clamped(u32::MAX as int);
            let screen = setup.roots@[screen_number as int];
            &&& layout.x == (if left < 0x8000 {
                left
            } else {
                left - 0x1_0000
            })
            &&& layout.y == (if top < 0x8000 {
                top
            } else {
                top - 0x1_0000
            })
            &&& layout.width == area.size.width.clamped(u32::MAX as int)
            &&& layout.height == area.size.height.clamped(u32::MAX as int)
            &&& 0 <= left && left + layout.width <= screen.width_in_pixels
            &&& 0 <= top && top + layout.height <= screen.height_in_pixels
        }),
{
    law_clamped_in_range(area.origin.x, u32::MAX as int);
    law_clamped_in_range(area.origin.y, u32::MAX as int);
    law_clamped_in_range(area.size.width, u32::MAX as int);
    law_clamped_in_range(area.size.height, u32::MAX as int);
}

/// Whether a rectangle has a place and an extent.
pub open spec fn is_sound(area: Area) -> bool {
    &&& area.origin.x.finite() && !area.origin.x.negative()
    &&& area.origin.y.finite() && !area.origin.y.negative()
    &&& area.size.width.finite() && area.size.width.positive()
    &&& area.size.height.finite() && area.size.height.positive()
}

/// A crop area is refused only for a reason: as invalid exactly where it has no place or no
/// extent, and as too large exactly where it has them and an edge of it lies beyond the screen.
pub proof fn law_crop_area_is_refused_for_a_reason(
    screen_width: u16,
    screen_height: u16,
    area: Area,
)
    ensures
        ({
            let right = area.origin.x.clamped(u32::MAX as int) + area.size.width.clamped(
                u32::MAX as int,
            );
            let bottom = area.origin.y.clamped(u32::MAX as int) + area.size.height.clamped(
                u32::MAX as int,
            );
            match cropped(screen_width, screen_height, Some(area)) {
                Ok(_) => is_sound(area) && right <= screen_width && bottom <= screen_height,
                Err(message) => if is_sound(area) {
                    &&& right > screen_width || bottom > screen_height
                    &&& message == "X11 crop area exceeds the "@ + decimal(screen_width as nat)
                        + "x"@ + decimal(screen_height as nat) + " root window"@
                } else {
                    message == "invalid X11 crop area"@
                },
            }
        }),
        cropped(screen_width, screen_height, None) == Ok::<(i16, i16, u16, u16), Seq<char>>(
            (0, 0, screen_width, screen_height),
        ),
{
}

/// Looking for a format finds the first one of its depth.
proof fn lemma_first_format(formats: Seq<PixmapFormat>, depth: u8, i: int)
    requires
        0 <= i < formats.len(),
        formats[i].depth == depth,
        forall|j: int| 0 <= j < i ==> (#[trigger] formats[j]).depth != depth,
    ensures
        format_for(formats, depth) == Some(formats[i]),
    decreases formats.len(),
{
    if i > 0 {
        let rest = formats.drop_first();
        assert(formats[0].depth != depth);
        assert forall|j: int| 0 <= j < i - 1 implies (#[trigger] rest[j]).depth != depth by {
            assert(formats[j + 1].depth != depth);
        }
        lemma_first_format(rest, depth, i - 1);
    }
}

/// The pixels of a root window are stored as the first format of its depth says.
pub proof fn law_first_format_counts(
    setup: Setup,
    screen_number: usize,
    resolution: Resolution,
    i: int,
)
    requires
        root_window_of(setup, screen_number, resolution) is Ok,
        0 <= i < setup.pixmap_formats@.len(),
        setup.pixmap_formats@[i].depth == setup.roots@[screen_number as int].root_depth,
        forall|j: int|
            0 <= j < i ==> (#[trigger] setup.pixmap_formats@[j]).depth
                != setup.roots@[screen_number as int].root_depth,
    ensures
        root_window_of(setup, screen_number, resolution)->Ok_0.format == setup.pixmap_formats@[i],
{
    lemma_first_format(
        setup.pixmap_formats@,
        setup.roots@[screen_number as int].root_depth,
        i,
    );
}

proof fn lemma_format_is_listed(formats: Seq<PixmapFormat>, depth: u8)
    ensures
        match format_for(formats, depth) {
            Some(format) => format.depth == depth && formats.contains(format),
            None => forall|i: int| 0 <= i < formats.len() ==> (#[trigger] formats[i]).depth != depth,
        },
    decreases formats.len(),
{
    if formats.len() > 0 {
        let rest = formats.drop_first();
        lemma_format_is_listed(rest, depth);
        assert(formats[0] == formats.first());
        assert(formats =~= seq![formats.first()] + rest);
        if let Some(format) = format_for(formats, depth) {
            if formats.first().depth != depth {
                let i = choose|i: int| 0 <= i < rest.len() && rest[i] == format;
                assert(formats[i + 1] == format);
            }
        } else {
            assert forall|i: int| 0 <= i < formats.len() implies (#[trigger] formats[i]).depth
                != depth by {
                if i > 0 {
                    assert(rest[i - 1].depth != depth);
                }
            }
        }
    }
}

proof fn lemma_visual_is_listed(visuals: Seq<Visual>, id: u32)
    ensures
        match visual_among(visuals, id) {
            Some(visual) => visual.visual_id == id && visuals.contains(visual),
            None => forall|i: int| 0 <= i < visuals.len() ==> (#[trigger] visuals[i]).visual_id
                != id,
        },
    decreases visuals.len(),
{
    if visuals.len() > 0 {
        let rest = visuals.drop_first();
        lemma_visual_is_listed(rest, id);
        assert(visuals[0] == visuals.first());
        if let Some(visual) = visual_among(visuals, id) {
            if visuals.first().visual_id != id {
                let i = choose|i: int| 0 <= i < rest.len() && rest[i] == visual;
                assert(visuals[i + 1] == visual);
            }
        } else {
            assert forall|i: int| 0 <= i < visuals.len() implies (#[trigger] visuals[i]).visual_id
                != id by {
                if i > 0 {
                    assert(rest[i - 1].visual_id != id);
                }
            }
        }
    }
}

proof fn lemma_depth_has_visual(depths: Seq<Depth>, id: u32)
    ensures
        match visual_for(depths, id) {
            Some(visual) => visual.visual_id == id && exists|i: int|
                0 <= i < depths.len() && (#[trigger] depths[i]).visuals@.contains(visual),
            None => forall|i: int, j: int|
                0 <= i < depths.len() && 0 <= j < depths[i].visuals@.len() ==> (
                #[trigger] depths[i].visuals@[j]).visual_id != id,
        },
    decreases depths.len(),
{
    if depths.len() > 0 {
        let rest = depths.drop_first();
        lemma_depth_has_visual(rest, id);
        lemma_visual_is_listed(depths.first().visuals@, id);
        assert(depths[0] == depths.first());
        if let Some(visual) = visual_for(depths, id) {
            if visual_among(depths.first().visuals@, id) is None {
                let i = choose|i: int|
                    0 <= i < rest.len() && (#[trigger] rest[i]).visuals@.contains(visual);
                assert(depths[i + 1].visuals@.contains(visual));
            } else {
                assert(depths[0].visuals@.contains(visual));
            }
        } else {
            assert forall|i: int, j: int|
                0 <= i < depths.len() && 0 <= j < depths[i].visuals@.len() implies (
            #[trigger] depths[i].visuals@[j]).visual_id != id by {
                if i > 0 {
                    assert(rest[i - 1].visuals@[j].visual_id != id);
                }
            }
        }
    }
}

/// A root window that was found is that of the screen that was asked for, with its size and its
/// depth, one of the server's formats for that depth, and the visual of the screen out of those
/// that it allows. It can be captured: its pixels have 16, 24 or 32 bits and its rows are padded
/// to 8, 16 or 32.
pub proof fn law_root_window_is_the_screens(
    setup: Setup,
    screen_number: usize,
    resolution: Resolution,
)
    requires
        root_window_of(setup, screen_number, resolution) is Ok,
    ensures
        ({
            let window = root_window_of(setup, screen_number, resolution)->Ok_0;
            let screen = setup.roots@[screen_number as int];
            &&& resolution == Resolution::Captured
            &&& screen_number < setup.roots@.len()
            &&& window.root == screen.root
            &&& window.width == screen.width_in_pixels
            &&& window.height == screen.height_in_pixels
            &&& window.depth == screen.root_depth
            &&& window.format.depth == screen.root_depth
            &&& setup.pixmap_formats@.contains(window.format)
            &&& window.visual.visual_id == screen.root_visual
            &&& exists|i: int|
                0 <= i < screen.allowed_depths@.len() && (
                #[trigger] screen.allowed_depths@[i]).visuals@.contains(window.visual)
            &&& window.format.bits_per_pixel == 16 || window.format.bits_per_pixel == 24
                || window.format.bits_per_pixel == 32
            &&& window.format.scanline_pad == 8 || window.format.scanline_pad == 16
                || window.format.scanline_pad == 32
        }),
{
    let screen = setup.roots@[screen_number as int];
    lemma_format_is_listed(setup.pixmap_formats@, screen.root_depth);
    lemma_depth_has_visual(screen.allowed_depths@, screen.root_visual);
}

/// A root window is refused only for a reason: where a scaled output is asked for; where there is
/// no such screen; where there is no format for its depth; where the format has pixels or padding
/// of another size than those that are taken; and where its visual is not listed. The message
/// names the first of these that holds.
pub proof fn law_root_window_is_refused_for_a_reason(
    setup: Setup,
    screen_number: usize,
    resolution: Resolution,
)
    ensures
        root_window_of(setup, screen_number, resolution) matches Err(message) ==> if resolution
            != Resolution::Captured {
            message == "X11 backend currently supports output_resolution='captured' only"@
        } else if screen_number >= setup.roots@.len() {
            message == "X11 server has no screen "@ + decimal(screen_number as nat)
        } else {
            let screen = setup.roots@[screen_number as int];
            ||| message == "X11 root depth "@ + decimal(screen.root_depth as nat)
                + " has no matching pixmap format"@ && forall|i: int|
                0 <= i < setup.pixmap_formats@.len() ==> (
                #[trigger] setup.pixmap_formats@[i]).depth != screen.root_depth
            ||| exists|format: PixmapFormat| #[trigger]
                setup.pixmap_formats@.contains(format) && format.depth == screen.root_depth
                    && format.bits_per_pixel != 16 && format.bits_per_pixel != 24
                    && format.bits_per_pixel != 32 && message
                    == "unsupported X11 root pixel size: "@ + decimal(
                    format.bits_per_pixel as nat,
                ) + " bits per pixel"@
            ||| exists|format: PixmapFormat| #[trigger]
                setup.pixmap_formats@.contains(format) && format.depth == screen.root_depth
                    && format.scanline_pad != 8 && format.scanline_pad != 16
                    && format.scanline_pad != 32 && message
                    == "unsupported X11 scanline padding: "@ + decimal(format.scanline_pad as nat)
                    + " bits"@
            ||| message == "X11 root visual was not found"@ && forall|i: int, j: int|
                0 <= i < screen.allowed_depths@.len() && 0 <= j
                    < screen.allowed_depths@[i].visuals@.len() ==> (
                #[trigger] screen.allowed_depths@[i].visuals@[j]).visual_id != screen.root_visual
        },
{
    if resolution == Resolution::Captured && screen_number < setup.roots@.len() {
        let screen = setup.roots@[screen_number as int];
        lemma_format_is_listed(setup.pixmap_formats@, screen.root_depth);
        lemma_depth_has_visual(screen.allowed_depths@, screen.root_visual);
        if let Some(format) = format_for(setup.pixmap_formats@, screen.root_depth) {
            assert(setup.pixmap_formats@.contains(format));
        }
    }
}

/// A layout that was found is of the root window and in the format that the screen has: each field
/// is the field of the same name, the masks are those of its visual, and its bytes have the least
/// significant one first exactly where the server says 0.
pub proof fn law_layout_has_the_screens_format(
    setup: Setup,
    screen_number: usize,
    options: Options,
)
    requires
        layout_of(setup, screen_number, options) is Ok,
    ensures
        ({
            let layout = layout_of(setup, screen_number, options)->Ok_0;
            let window = root_window_of(
                setup,
                screen_number,
                options.output_resolution,
            )->Ok_0;
            let screen = setup.roots@[screen_number as int];
            &&& root_window_of(setup, screen_number, options.output_resolution) is Ok
            &&& layout.root == screen.root
            &&& layout.depth == screen.root_depth
            &&& layout.bits_per_pixel == window.format.bits_per_pixel
            &&& layout.scanline_pad == window.format.scanline_pad
            &&& layout.red_mask == window.visual.red_mask
            &&& layout.green_mask == window.visual.green_mask
            &&& layout.blue_mask == window.visual.blue_mask
            &&& layout.little_endian <==> setup.image_byte_order == 0
            &&& options.crop_area is None ==> layout.x == 0 && layout.y == 0 && layout.width
                == screen.width_in_pixels && layout.height == screen.height_in_pixels
        }),
{
}

/// A layout is refused only for a reason: that of its root window, or else that of its crop area.
pub proof fn law_layout_is_refused_for_a_reason(
    setup: Setup,
    screen_number: usize,
    options: Options,
)
    ensures
        match root_window_of(setup, screen_number, options.output_resolution) {
            Err(reason) => layout_of(setup, screen_number, options) == Err::<
                ImageLayout,
                Seq<char>,
            >(reason),
            Ok(window) => match cropped(
                setup.roots@[screen_number as int].width_in_pixels,
                setup.roots@[screen_number as int].height_in_pixels,
                options.crop_area,
            ) {
                Err(reason) => layout_of(setup, screen_number, options) == Err::<
                    ImageLayout,
                    Seq<char>,
                >(reason),
                Ok(_) => layout_of(setup, screen_number, options) is Ok,
            },
        },
{
}

/// A layout can be asked for wherever the edges of its crop area stay on any screen, or there is
/// none.
pub proof fn law_crop_areas_on_a_screen_can_be_asked_for(screen_width: u16, area: Area)
    requires
        area.origin.x.clamped(u32::MAX as int) + area.size.width.clamped(u32::MAX as int)
            <= u32::MAX,
        area.origin.y.clamped(u32::MAX as int) + area.size.height.clamped(u32::MAX as int)
            <= u32::MAX,
    ensures
        edges_fit(screen_width, Some(area)),
        edges_fit(screen_width, None),
{
}

/// An image has as many bytes as its rows, and a row as many as the pads that its pixels need:
/// the fewest whole pads that hold them.
pub proof fn law_rows_are_the_shortest_that_hold(layout: ImageLayout)
    requires
        layout.supported(),
    ensures
        ({
            let pad = layout.scanline_pad as int / 8;
            &&& layout.row_bytes() % pad == 0
            &&& layout.width * (layout.bits_per_pixel as int / 8) <= layout.row_bytes()
            &&& layout.row_bytes() < layout.width * (layout.bits_per_pixel as int / 8) + pad
            &&& layout.image_bytes() == layout.height * layout.row_bytes()
        }),
{
    law_row_holds_its_pixels(layout);
    let width = layout.width as int;
    let bytes = layout.bits_per_pixel as int / 8;
    assert(width * layout.bits_per_pixel == width * bytes * 8) by (nonlinear_arith)
        requires
            bytes == 2 && layout.bits_per_pixel == 16 || bytes == 3 && layout.bits_per_pixel == 24
                || bytes == 4 && layout.bits_per_pixel == 32,
    ;
    assert(layout.row_bytes() * layout.height == layout.height * layout.row_bytes())
        by (nonlinear_arith);
}

/// The size that is told is the width and then the height of the layout.
pub proof fn law_size_is_that_of_the_layout(setup: Setup, screen_number: usize, options: Options)
    ensures
        match (
            size_of(setup, screen_number, options),
            layout_of(setup, screen_number, options),
        ) {
            (Ok(size), Ok(layout)) => size.len() == 2 && size[0] == layout.width && size[1]
                == layout.height,
            (Err(untold), Err(refused)) => untold == refused,
            _ => false,
        },
{
}

proof fn lemma_first_visual(visuals: Seq<Visual>, id: u32, i: int)
    requires
        0 <= i < visuals.len(),
        visuals[i].visual_id == id,
        forall|j: int| 0 <= j < i ==> (#[trigger] visuals[j]).visual_id != id,
    ensures
        visual_among(visuals, id) == Some(visuals[i]),
    decreases visuals.len(),
{
    if i > 0 {
        let rest = visuals.drop_first();
        assert(visuals[0].visual_id != id);
        assert forall|j: int| 0 <= j < i - 1 implies (#[trigger] rest[j]).visual_id != id by {
            assert(visuals[j + 1].visual_id != id);
        }
        lemma_first_visual(rest, id, i - 1);
    }
}

/// The visual that is looked for is the first of its number, depth by depth.
pub proof fn law_first_visual_counts(depths: Seq<Depth>, id: u32, depth: int, i: int)
    requires
        0 <= depth < depths.len(),
        0 <= i < depths[depth].visuals@.len(),
        depths[depth].visuals@[i].visual_id == id,
        forall|j: int|
            0 <= j < i ==> (#[trigger] depths[depth].visuals@[j]).visual_id != id,
        forall|d: int, j: int|
            0 <= d < depth && 0 <= j < depths[d].visuals@.len() ==> (
            #[trigger] depths[d].visuals@[j]).visual_id != id,
    ensures
        visual_for(depths, id) == Some(depths[depth].visuals@[i]),
    decreases depths.len(),
{
    if depth == 0 {
        lemma_first_visual(depths[0].visuals@, id, i);
    } else {
        let rest = depths.drop_first();
        lemma_visual_is_listed(depths[0].visuals@, id);
        if let Some(visual) = visual_among(depths[0].visuals@, id) {
            let j = choose|j: int|
                0 <= j < depths[0].visuals@.len() && depths[0].visuals@[j] == visual;
            assert(depths[0].visuals@[j].visual_id != id);
        }
        assert forall|d: int, j: int|
            0 <= d < depth - 1 && 0 <= j < rest[d].visuals@.len() implies (
        #[trigger] rest[d].visuals@[j]).visual_id != id by {
            assert(depths[d + 1].visuals@[j].visual_id != id);
        }
        assert(rest[depth - 1] == depths[depth]);
        law_first_visual_counts(rest, id, depth - 1, i);
    }
}

} // verus!
