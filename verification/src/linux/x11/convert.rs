//! Conversion of the server's image to the pixel format that was asked for.

use crate::frame::{FrameType, PixelFrame, VideoFrame};
use crate::linux::error::{outcome, LinCapError};
use crate::linux::x11::layout::{law_row_holds_its_pixels, ImageLayout};
use crate::linux::x11::pixel::{
    component, intensity, law_component_extremes, pixel_number, pixel_value,
};
use crate::time::SystemTime;
use vstd::arithmetic::div_mod::lemma_fundamental_div_mod;
use vstd::prelude::*;
use vstd::slice::slice_subrange;

verus! {

/// The message for output that this backend does not make.
pub open spec fn no_yuv_message() -> Seq<char> {
    "X11 backend does not support YUV output; use BGRAFrame, BGR0, or RGB"@
}

/// How many chunks of `size` bytes, the last of which may be short, cover `length` bytes.
pub open spec fn chunk_count(length: int, size: int) -> int {
    (length + size - 1) / size
}

/// The chunk of `data` with the number `index`, where each but the last has `size` bytes.
pub open spec fn chunk(data: Seq<u8>, size: int, index: int) -> Seq<u8> {
    let start = index * size;
    data.subrange(
        start,
        if start + size < data.len() {
            start + size
        } else {
            data.len() as int
        },
    )
}

/// The smaller of the two numbers.
pub open spec fn least(a: int, b: int) -> int {
    if a < b {
        a
    } else {
        b
    }
}

/// The bytes of one pixel of the output.
pub open spec fn encoded(output: FrameType, red: u8, green: u8, blue: u8) -> Seq<u8> {
    match output {
        FrameType::RGB => seq![red, green, blue],
        FrameType::BGRAFrame => seq![blue, green, red, 255],
        FrameType::BGR0 => seq![blue, green, red, 0],
        FrameType::YUVFrame => seq![],
    }
}

/// How many bytes one pixel of the output takes.
pub open spec fn channels(output: FrameType) -> int {
    match output {
        FrameType::RGB => 3,
        FrameType::BGRAFrame => 4,
        FrameType::BGR0 => 4,
        FrameType::YUVFrame => 0,
    }
}

/// The output for the pixel that the server stored in `bytes`.
pub open spec fn converted_pixel(bytes: Seq<u8>, layout: ImageLayout, output: FrameType) -> Seq<
    u8,
> {
    let value = pixel_number(bytes, layout.little_endian) as u32;
    encoded(
        output,
        intensity(value, layout.red_mask) as u8,
        intensity(value, layout.green_mask) as u8,
        intensity(value, layout.blue_mask) as u8,
    )
}

/// The output for the first `count` pixels of a row.
pub open spec fn converted_row(
    row: Seq<u8>,
    layout: ImageLayout,
    output: FrameType,
    count: int,
) -> Seq<u8>
    decreases count,
{
    if count <= 0 {
        seq![]
    } else {
        converted_row(row, layout, output, count - 1) + converted_pixel(
            chunk(row, layout.bits_per_pixel as int / 8, count - 1),
            layout,
            output,
        )
    }
}

/// How many pixels of a row of `length` bytes are converted: those that it holds, a last short
/// one among them, up to the width.
pub open spec fn pixels_in_row(length: int, layout: ImageLayout) -> int {
    least(layout.width as int, chunk_count(length, layout.bits_per_pixel as int / 8))
}

/// The output for the first `count` rows of an image.
pub open spec fn converted_rows(
    raw: Seq<u8>,
    layout: ImageLayout,
    output: FrameType,
    count: int,
) -> Seq<u8>
    decreases count,
{
    if count <= 0 {
        seq![]
    } else {
        let row = chunk(raw, layout.row_bytes(), count - 1);
        converted_rows(raw, layout, output, count - 1) + converted_row(
            row,
            layout,
            output,
            pixels_in_row(row.len() as int, layout),
        )
    }
}

/// How many rows of an image of `length` bytes are converted: those that it holds, a last
/// short one among them, up to the height.
pub open spec fn rows_in_image(length: int, layout: ImageLayout) -> int {
    least(layout.height as int, chunk_count(length, layout.row_bytes()))
}

/// The output for an image: its pixels from left to right, row by row from the top.
pub open spec fn converted(raw: Seq<u8>, layout: ImageLayout, output: FrameType) -> Seq<u8> {
    converted_rows(raw, layout, output, rows_in_image(raw.len() as int, layout))
}

/// Whether an image of `length` bytes can be cut into rows and pixels: rows and pixels have
/// bytes, and pixels with the least significant byte first have at most four.
pub open spec fn decodable(length: int, layout: ImageLayout) -> bool {
    &&& layout.scanline_pad > 0
    &&& layout.row_bytes() > 0
    &&& length > 0 && layout.height > 0 ==> {
        &&& layout.bits_per_pixel >= 8
        &&& layout.little_endian ==> layout.bits_per_pixel < 40 || length <= 4
            || layout.row_bytes() <= 4
    }
}

/// Whether an image of `length` bytes can be cut into rows and pixels, as [`convert_frame`] asks.
pub fn is_decodable(length: usize, layout: &ImageLayout) -> (r: bool)
    ensures
        r == decodable(length as int, *layout),
{
    if layout.scanline_pad == 0 {
        return false;
    }
    let stride: usize = layout.stride();
    if stride == 0 {
        return false;
    }
    if length == 0 || layout.height == 0 {
        return true;
    }
    layout.bits_per_pixel >= 8 && (!layout.little_endian || layout.bits_per_pixel < 40 || length
        <= 4 || stride <= 4)
}

/// Whether `frame` holds the pixels `data` of a capture in the given output.
pub open spec fn holds(
    frame: VideoFrame,
    data: Seq<u8>,
    layout: ImageLayout,
    output: FrameType,
    display_time: SystemTime,
) -> bool {
    let image = match frame {
        VideoFrame::RGB(image) if output == FrameType::RGB => Some(image),
        VideoFrame::BGRA(image) if output == FrameType::BGRAFrame => Some(image),
        VideoFrame::BGR0(image) if output == FrameType::BGR0 => Some(image),
        _ => None,
    };
    image matches Some(image) && {
        &&& image.display_time == display_time
        &&& image.width == layout.width
        &&& image.height == layout.height
        &&& image.data@ == data
    }
}

/// Whether `frame` holds the conversion of `raw`.
pub open spec fn shows(
    frame: VideoFrame,
    raw: Seq<u8>,
    layout: ImageLayout,
    output: FrameType,
    display_time: SystemTime,
) -> bool {
    holds(frame, converted(raw, layout, output), layout, output, display_time)
}

/// Refuses the output that this backend does not make.
pub fn check_output(output: FrameType) -> (r: Result<(), LinCapError>)
    ensures
        outcome(r) == (if output == FrameType::YUVFrame {
            Err(no_yuv_message())
        } else {
            Ok(())
        }),
{
    if output == FrameType::YUVFrame {
        return Err(
            LinCapError::from_text(
                "X11 backend does not support YUV output; use BGRAFrame, BGR0, or RGB",
            ),
        );
    }
    Ok(())
}

fn append_pixel(
    data: &mut Vec<u8>,
    bytes: &[u8],
    layout: &ImageLayout,
    output: FrameType,
)
    requires
        layout.little_endian ==> bytes@.len() <= 4,
    ensures
        final(data)@ == old(data)@ + converted_pixel(bytes@, *layout, output),
{
    let value: u32 = pixel_value(bytes, layout.little_endian);
    let red: u8 = component(value, layout.red_mask);
    let green: u8 = component(value, layout.green_mask);
    let blue: u8 = component(value, layout.blue_mask);
    match output {
        FrameType::RGB => {
            data.push(red);
            data.push(green);
            data.push(blue);
        },
        FrameType::BGRAFrame => {
            data.push(blue);
            data.push(green);
            data.push(red);
            data.push(255);
        },
        FrameType::BGR0 => {
            data.push(blue);
            data.push(green);
            data.push(red);
            data.push(0);
        },
        FrameType::YUVFrame => {},
    }
    proof {
        assert(data@ =~= old(data)@ + converted_pixel(bytes@, *layout, output));
    }
}

/// The number of chunks is reached exactly where the next one would start behind the end.
proof fn lemma_chunk_starts(length: int, size: int, index: int)
    requires
        size > 0,
        length >= 0,
        index >= 0,
    ensures
        index < chunk_count(length, size) <==> index * size < length,
        (index + 1) * size == index * size + size,
{
    assert((index + 1) * size == index * size + size) by (nonlinear_arith);
    let count = chunk_count(length, size);
    assert(count * size <= length + size - 1 < (count + 1) * size) by (nonlinear_arith)
        requires
            size > 0,
            count == (length + size - 1) / size,
    ;
    if index < count {
        assert((index + 1) * size <= count * size) by (nonlinear_arith)
            requires
                index + 1 <= count,
                size > 0,
        ;
    } else {
        assert(count * size + size == (count + 1) * size) by (nonlinear_arith);
        assert(count * size <= index * size) by (nonlinear_arith)
            requires
                count <= index,
                size > 0,
        ;
    }
}

fn append_row(data: &mut Vec<u8>, row: &[u8], layout: &ImageLayout, output: FrameType)
    requires
        layout.bits_per_pixel >= 8,
        layout.little_endian ==> layout.bits_per_pixel < 40 || row@.len() <= 4,
    ensures
        final(data)@ == old(data)@ + converted_row(
            row@,
            *layout,
            output,
            pixels_in_row(row@.len() as int, *layout),
        ),
{
    let pixel_bytes: usize = layout.bits_per_pixel as usize / 8;
    let mut column: usize = 0;
    let mut start: usize = 0;
    proof {
        assert(data@ =~= old(data)@ + converted_row(row@, *layout, output, 0));
        lemma_chunk_starts(row@.len() as int, pixel_bytes as int, 0);
    }
    while column < layout.width as usize && start < row.len()
        invariant
            pixel_bytes == layout.bits_per_pixel as int / 8,
            layout.bits_per_pixel >= 8,
            layout.little_endian ==> layout.bits_per_pixel < 40 || row@.len() <= 4,
            0 <= column <= pixels_in_row(row@.len() as int, *layout),
            start == least(column * pixel_bytes, row@.len() as int),
            data@ == old(data)@ + converted_row(row@, *layout, output, column as int),
        decreases layout.width - column,
    {
        let end: usize = if row.len() - start > pixel_bytes {
            start + pixel_bytes
        } else {
            row.len()
        };
        proof {
            lemma_chunk_starts(row@.len() as int, pixel_bytes as int, column as int);
        }
        let bytes: &[u8] = slice_subrange(row, start, end);
        append_pixel(data, bytes, layout, output);
        proof {
            assert(bytes@ == chunk(row@, pixel_bytes as int, column as int));
            assert(data@ =~= old(data)@ + converted_row(row@, *layout, output, column + 1));
            lemma_chunk_starts(row@.len() as int, pixel_bytes as int, column + 1);
        }
        column = column + 1;
        start = end;
    }
    proof {
        lemma_chunk_starts(row@.len() as int, pixel_bytes as int, column as int);
    }
}

/// Converts the pixels of an image of the server, row by row.
pub fn convert_pixels(raw: &[u8], layout: &ImageLayout, output: FrameType) -> (r: Vec<u8>)
    requires
        decodable(raw@.len() as int, *layout),
    ensures
        r@ == converted(raw@, *layout, output),
{
    let stride: usize = layout.stride();
    let mut data: Vec<u8> = Vec::new();
    let mut line: usize = 0;
    let mut start: usize = 0;
    proof {
        assert(data@ =~= converted_rows(raw@, *layout, output, 0));
        lemma_chunk_starts(raw@.len() as int, stride as int, 0);
    }
    while line < layout.height as usize && start < raw.len()
        invariant
            decodable(raw@.len() as int, *layout),
            stride == layout.row_bytes(),
            0 <= line <= rows_in_image(raw@.len() as int, *layout),
            start == least(line * stride, raw@.len() as int),
            data@ == converted_rows(raw@, *layout, output, line as int),
        decreases layout.height - line,
    {
        let end: usize = if raw.len() - start > stride {
            start + stride
        } else {
            raw.len()
        };
        proof {
            lemma_chunk_starts(raw@.len() as int, stride as int, line as int);
        }
        let row: &[u8] = slice_subrange(raw, start, end);
        append_row(&mut data, row, layout, output);
        proof {
            assert(row@ == chunk(raw@, stride as int, line as int));
            assert(data@ =~= converted_rows(raw@, *layout, output, line + 1));
            lemma_chunk_starts(raw@.len() as int, stride as int, line + 1);
        }
        line = line + 1;
        start = end;
    }
    proof {
        lemma_chunk_starts(raw@.len() as int, stride as int, line as int);
    }
    data
}

/// Makes a frame of converted pixels, shown at `display_time`.
pub fn make_frame(
    data: Vec<u8>,
    layout: &ImageLayout,
    output: FrameType,
    display_time: SystemTime,
) -> (r: Result<VideoFrame, LinCapError>)
    ensures
        if output == FrameType::YUVFrame {
            r matches Err(error) && error@ == no_yuv_message()
        } else {
            r matches Ok(frame) && holds(frame, data@, *layout, output, display_time)
        },
{
    match check_output(output) {
        Ok(()) => {},
        Err(error) => {
            return Err(error);
        },
    }
    let image: PixelFrame = PixelFrame {
        display_time,
        width: layout.width as i32,
        height: layout.height as i32,
        data,
    };
    match output {
        FrameType::RGB => Ok(VideoFrame::RGB(image)),
        FrameType::BGRAFrame => Ok(VideoFrame::BGRA(image)),
        _ => Ok(VideoFrame::BGR0(image)),
    }
}

/// Converts an image of the server to a frame, shown at `display_time`.
pub fn convert_frame(
    raw: &[u8],
    layout: &ImageLayout,
    output: FrameType,
    display_time: SystemTime,
) -> (r: Result<VideoFrame, LinCapError>)
    requires
        output != FrameType::YUVFrame ==> decodable(raw@.len() as int, *layout),
    ensures
        if output == FrameType::YUVFrame {
            r matches Err(error) && error@ == no_yuv_message()
        } else {
            r matches Ok(frame) && shows(frame, raw@, *layout, output, display_time)
        },
{
    match check_output(output) {
        Ok(()) => {},
        Err(error) => {
            return Err(error);
        },
    }
    make_frame(convert_pixels(raw, layout, output), layout, output, display_time)
}

/// A chunk that lies within the data is the bytes from its start.
proof fn lemma_inner_chunk(data: Seq<u8>, size: int, index: int, count: int)
    requires
        size > 0,
        0 <= index < count,
        count * size <= data.len(),
    ensures
        0 <= index * size,
        index * size + size <= data.len(),
        chunk(data, size, index) == data.subrange(index * size, index * size + size),
        chunk_count(data.len() as int, size) >= count,
{
    assert((index + 1) * size <= count * size && 0 <= index * size) by (nonlinear_arith)
        requires
            0 <= index < count,
            size > 0,
    ;
    assert((index + 1) * size == index * size + size) by (nonlinear_arith);
    lemma_chunk_starts(data.len() as int, size, count - 1);
    assert((count - 1) * size + size == count * size) by (nonlinear_arith);
}

/// Every converted pixel takes as many bytes as there are channels.
proof fn lemma_row_places_pixels(
    row: Seq<u8>,
    layout: ImageLayout,
    output: FrameType,
    count: int,
    column: int,
)
    requires
        0 <= column < count,
    ensures
        converted_row(row, layout, output, count).len() == count * channels(output),
        0 <= column * channels(output),
        column * channels(output) + channels(output) <= count * channels(output),
        converted_row(row, layout, output, count).subrange(
            column * channels(output),
            column * channels(output) + channels(output),
        ) == converted_pixel(
            chunk(row, layout.bits_per_pixel as int / 8, column),
            layout,
            output,
        ),
    decreases count,
{
    let bytes = channels(output);
    let all = converted_row(row, layout, output, count);
    let before = converted_row(row, layout, output, count - 1);
    let last = converted_pixel(
        chunk(row, layout.bits_per_pixel as int / 8, count - 1),
        layout,
        output,
    );
    assert(last.len() == bytes);
    assert(all == before + last);
    assert(count * bytes == (count - 1) * bytes + bytes) by (nonlinear_arith);
    assert(0 <= column * bytes && column * bytes + bytes <= count * bytes) by (nonlinear_arith)
        requires
            0 <= column < count,
            bytes >= 0,
    ;
    if count > 1 {
        lemma_row_places_pixels(row, layout, output, count - 1, if column < count - 1 {
            column
        } else {
            0
        });
    } else {
        assert(before == Seq::<u8>::empty());
    }
    if column < count - 1 {
        assert(all.subrange(column * bytes, column * bytes + bytes) =~= before.subrange(
            column * bytes,
            column * bytes + bytes,
        ));
    } else {
        assert(all.subrange(column * bytes, column * bytes + bytes) =~= last);
    }
}

/// The rows of a complete image follow each other in the output at equal distances.
proof fn lemma_rows_follow(
    raw: Seq<u8>,
    layout: ImageLayout,
    output: FrameType,
    count: int,
    line: int,
)
    requires
        layout.supported(),
        layout.width > 0,
        0 <= line < count,
        count * layout.row_bytes() <= raw.len(),
    ensures
        converted_rows(raw, layout, output, count).len() == count * (layout.width * channels(
            output,
        )),
        0 <= line * (layout.width * channels(output)),
        line * (layout.width * channels(output)) + layout.width * channels(output) <= count * (
        layout.width * channels(output)),
        converted_rows(raw, layout, output, count).subrange(
            line * (layout.width * channels(output)),
            line * (layout.width * channels(output)) + layout.width * channels(output),
        ) == converted_row(
            chunk(raw, layout.row_bytes(), line),
            layout,
            output,
            layout.width as int,
        ),
    decreases count,
{
    let stride = layout.row_bytes();
    let bytes = layout.width * channels(output);
    let row = chunk(raw, stride, count - 1);
    law_row_holds_its_pixels(layout);
    lemma_inner_chunk(raw, stride, count - 1, count);
    lemma_inner_chunk(row, layout.bits_per_pixel as int / 8, 0, layout.width as int);
    assert(pixels_in_row(row.len() as int, layout) == layout.width);
    lemma_row_places_pixels(row, layout, output, layout.width as int, 0);
    let all = converted_rows(raw, layout, output, count);
    let before = converted_rows(raw, layout, output, count - 1);
    let last = converted_row(row, layout, output, layout.width as int);
    assert(all == before + last);
    assert((count - 1) * stride <= count * stride) by (nonlinear_arith)
        requires
            stride > 0,
    ;
    assert(count * bytes == (count - 1) * bytes + bytes) by (nonlinear_arith);
    if count > 1 {
        lemma_rows_follow(raw, layout, output, count - 1, if line < count - 1 {
            line
        } else {
            0
        });
    } else {
        assert(before == Seq::<u8>::empty());
    }
    assert(0 <= line * bytes && line * bytes + bytes <= count * bytes) by (nonlinear_arith)
        requires
            0 <= line < count,
            bytes >= 0,
    ;
    if line < count - 1 {
        assert(all.subrange(line * bytes, line * bytes + bytes) =~= before.subrange(
            line * bytes,
            line * bytes + bytes,
        ));
    } else {
        assert(all.subrange(line * bytes, line * bytes + bytes) =~= last);
    }
}

/// A complete image can be decoded and has all its rows.
proof fn lemma_complete_image(raw: Seq<u8>, layout: ImageLayout, line: int)
    requires
        layout.supported(),
        layout.width > 0,
        raw.len() >= layout.image_bytes(),
        0 <= line < layout.height,
    ensures
        decodable(raw.len() as int, layout),
        rows_in_image(raw.len() as int, layout) == layout.height,
        layout.height * layout.row_bytes() <= raw.len(),
        0 <= line * layout.row_bytes(),
        line * layout.row_bytes() + layout.row_bytes() <= raw.len(),
        chunk(raw, layout.row_bytes(), line) == raw.subrange(
            line * layout.row_bytes(),
            line * layout.row_bytes() + layout.row_bytes(),
        ),
        layout.width * (layout.bits_per_pixel as int / 8) <= layout.row_bytes(),
        layout.bits_per_pixel as int / 8 > 0,
{
    let stride = layout.row_bytes();
    let height = layout.height as int;
    law_row_holds_its_pixels(layout);
    assert(height * stride == stride * height) by (nonlinear_arith);
    lemma_inner_chunk(raw, stride, line, height);
}

/// The place of a pixel is the place of its row and its place in that.
proof fn lemma_place_in_row(line: int, width: int, column: int, bytes: int)
    ensures
        (line * width + column) * bytes == line * (width * bytes) + column * bytes,
{
    assert((line * width + column) * bytes == line * (width * bytes) + column * bytes)
        by (nonlinear_arith);
}

/// A part of a part is a part.
proof fn lemma_nested_part(whole: Seq<u8>, from: int, to: int, inner: int, length: int)
    requires
        0 <= from <= to <= whole.len(),
        0 <= inner,
        0 <= length,
        inner + length <= to - from,
    ensures
        whole.subrange(from, to).subrange(inner, inner + length) == whole.subrange(
            from + inner,
            from + inner + length,
        ),
{
    assert(whole.subrange(from, to).subrange(inner, inner + length) =~= whole.subrange(
        from + inner,
        from + inner + length,
    ));
}

/// A complete image of a supported layout fills its frame: the output has every pixel of the
/// rectangle.
pub proof fn law_complete_image_fills_frame(
    raw: Seq<u8>,
    layout: ImageLayout,
    output: FrameType,
)
    requires
        layout.supported(),
        layout.width > 0,
        layout.height > 0,
        raw.len() >= layout.image_bytes(),
    ensures
        decodable(raw.len() as int, layout),
        converted(raw, layout, output).len() == layout.width * layout.height * channels(output),
{
    lemma_complete_image(raw, layout, 0);
    lemma_rows_follow(raw, layout, output, layout.height as int, 0);
    let bytes = channels(output);
    assert(layout.height * (layout.width * bytes) == layout.width * layout.height * bytes)
        by (nonlinear_arith);
}

/// In the output for a complete image of a supported layout, the pixel at a line and a column
/// stands where rows of `width` pixels put it, and is made from the bytes that the server
/// stored there.
pub proof fn law_pixels_keep_their_places(
    raw: Seq<u8>,
    layout: ImageLayout,
    output: FrameType,
    line: int,
    column: int,
)
    requires
        layout.supported(),
        raw.len() >= layout.image_bytes(),
        0 <= line < layout.height,
        0 <= column < layout.width,
    ensures
        ({
            let bytes = channels(output);
            let at = (line * layout.width + column) * bytes;
            let pixel_bytes = layout.bits_per_pixel as int / 8;
            let from = line * layout.row_bytes() + column * pixel_bytes;
            &&& 0 <= at && at + bytes <= converted(raw, layout, output).len()
            &&& 0 <= from && from + pixel_bytes <= raw.len()
            &&& converted(raw, layout, output).subrange(at, at + bytes) == converted_pixel(
                raw.subrange(from, from + pixel_bytes),
                layout,
                output,
            )
        }),
{
    let stride = layout.row_bytes();
    let width = layout.width as int;
    let bytes = channels(output);
    let pixel_bytes = layout.bits_per_pixel as int / 8;
    let all = converted(raw, layout, output);
    let row = chunk(raw, stride, line);
    lemma_complete_image(raw, layout, line);
    lemma_rows_follow(raw, layout, output, layout.height as int, line);
    lemma_inner_chunk(row, pixel_bytes, column, width);
    lemma_row_places_pixels(row, layout, output, width, column);
    lemma_place_in_row(line, width, column, bytes);
    let line_start = line * (width * bytes);
    lemma_nested_part(all, line_start, line_start + width * bytes, column * bytes, bytes);
    lemma_nested_part(
        raw,
        line * stride,
        line * stride + stride,
        column * pixel_bytes,
        pixel_bytes,
    );
}

/// Further rows leave the output of the rows before them as it is.
proof fn lemma_rows_prefix(
    raw: Seq<u8>,
    layout: ImageLayout,
    output: FrameType,
    first: int,
    count: int,
)
    requires
        0 <= first <= count,
    ensures
        converted_rows(raw, layout, output, first).len() <= converted_rows(
            raw,
            layout,
            output,
            count,
        ).len(),
        converted_rows(raw, layout, output, first) == converted_rows(
            raw,
            layout,
            output,
            count,
        ).subrange(0, converted_rows(raw, layout, output, first).len() as int),
    decreases count - first,
{
    let part = converted_rows(raw, layout, output, first);
    let all = converted_rows(raw, layout, output, count);
    if first < count {
        lemma_rows_prefix(raw, layout, output, first, count - 1);
        let before = converted_rows(raw, layout, output, count - 1);
        assert(part =~= before.subrange(0, part.len() as int));
        assert(all.subrange(0, before.len() as int) =~= before);
        assert(all.subrange(0, part.len() as int) =~= before.subrange(0, part.len() as int));
    } else {
        assert(all.subrange(0, part.len() as int) =~= part);
    }
}

/// The output of rows that are all there.
proof fn lemma_whole_rows(raw: Seq<u8>, layout: ImageLayout, output: FrameType, count: int)
    requires
        layout.supported(),
        layout.width > 0,
        0 <= count,
        count * layout.row_bytes() <= raw.len(),
    ensures
        converted_rows(raw, layout, output, count).len() == count * (layout.width * channels(
            output,
        )),
{
    if count > 0 {
        lemma_rows_follow(raw, layout, output, count, 0);
    } else {
        let bytes = layout.width * channels(output);
        assert(count * bytes == 0) by (nonlinear_arith)
            requires
                count == 0,
        ;
    }
}

/// What is stored of the pixel at a line and a column of an image, and what it becomes.
proof fn lemma_stored_pixel(
    raw: Seq<u8>,
    layout: ImageLayout,
    output: FrameType,
    line: int,
    column: int,
)
    requires
        layout.supported(),
        0 <= line < layout.height,
        0 <= column < layout.width,
        line * layout.row_bytes() + column * (layout.bits_per_pixel as int / 8) < raw.len(),
    ensures
        ({
            let bytes = channels(output);
            let at = (line * layout.width + column) * bytes;
            let pixel_bytes = layout.bits_per_pixel as int / 8;
            let from = line * layout.row_bytes() + column * pixel_bytes;
            &&& 0 <= at && at + bytes <= converted(raw, layout, output).len()
            &&& 0 <= from
            &&& converted(raw, layout, output).subrange(at, at + bytes) == converted_pixel(
                raw.subrange(from, least(from + pixel_bytes, raw.len() as int)),
                layout,
                output,
            )
        }),
{
    let stride = layout.row_bytes();
    let width = layout.width as int;
    let bytes = channels(output);
    let pixel_bytes = layout.bits_per_pixel as int / 8;
    let all = converted(raw, layout, output);
    let rows = rows_in_image(raw.len() as int, layout);
    let row = chunk(raw, stride, line);
    let from = line * stride + column * pixel_bytes;
    law_row_holds_its_pixels(layout);
    assert(0 <= line * stride && 0 <= column * pixel_bytes && column * pixel_bytes + pixel_bytes
        <= width * pixel_bytes) by (nonlinear_arith)
        requires
            0 <= line,
            0 < stride,
            0 <= column < width,
            0 < pixel_bytes,
    ;
    lemma_chunk_starts(raw.len() as int, stride, line);
    assert(line < rows);
    lemma_whole_rows(raw, layout, output, line);
    lemma_rows_prefix(raw, layout, output, line + 1, rows);
    let before = converted_rows(raw, layout, output, line);
    let here = converted_rows(raw, layout, output, line + 1);
    let count = pixels_in_row(row.len() as int, layout);
    let last = converted_row(row, layout, output, count);
    assert(here == before + last);
    lemma_chunk_starts(row.len() as int, pixel_bytes, column);
    assert(column < count);
    lemma_row_places_pixels(row, layout, output, count, column);
    lemma_place_in_row(line, width, column, bytes);
    let at = (line * width + column) * bytes;
    assert(0 <= line * (width * bytes)) by (nonlinear_arith)
        requires
            0 <= line,
            0 <= width,
            0 <= bytes,
    ;
    assert(all.subrange(at, at + bytes) =~= here.subrange(at, at + bytes));
    assert(here.subrange(at, at + bytes) =~= last.subrange(
        column * bytes,
        column * bytes + bytes,
    ));
    let end = least(from + pixel_bytes, raw.len() as int);
    assert(chunk(row, pixel_bytes, column) =~= raw.subrange(from, end));
}

/// Every pixel of which anything is stored is shown in its place and in its colours: at the place
/// of a line and a column, the output has the levels of the stored pixel under the red, the green
/// and the blue mask, in the order that the output asks for, and behind them 255 for BGRA and 0
/// for BGR0.
pub proof fn law_pixels_keep_their_colours(
    raw: Seq<u8>,
    layout: ImageLayout,
    output: FrameType,
    line: int,
    column: int,
)
    requires
        layout.supported(),
        0 <= line < layout.height,
        0 <= column < layout.width,
        line * layout.row_bytes() + column * (layout.bits_per_pixel as int / 8) < raw.len(),
    ensures
        ({
            let pixel_bytes = layout.bits_per_pixel as int / 8;
            let from = line * layout.row_bytes() + column * pixel_bytes;
            let to = if from + pixel_bytes <= raw.len() {
                from + pixel_bytes
            } else {
                raw.len() as int
            };
            let pixel = pixel_number(raw.subrange(from, to), layout.little_endian) as u32;
            let red = intensity(pixel, layout.red_mask);
            let green = intensity(pixel, layout.green_mask);
            let blue = intensity(pixel, layout.blue_mask);
            let data = converted(raw, layout, output);
            let place = line * layout.width + column;
            match output {
                FrameType::RGB => {
                    &&& 0 <= place * 3 && place * 3 + 3 <= data.len()
                    &&& data[place * 3] == red
                    &&& data[place * 3 + 1] == green
                    &&& data[place * 3 + 2] == blue
                },
                FrameType::BGRAFrame => {
                    &&& 0 <= place * 4 && place * 4 + 4 <= data.len()
                    &&& data[place * 4] == blue
                    &&& data[place * 4 + 1] == green
                    &&& data[place * 4 + 2] == red
                    &&& data[place * 4 + 3] == 255
                },
                FrameType::BGR0 => {
                    &&& 0 <= place * 4 && place * 4 + 4 <= data.len()
                    &&& data[place * 4] == blue
                    &&& data[place * 4 + 1] == green
                    &&& data[place * 4 + 2] == red
                    &&& data[place * 4 + 3] == 0
                },
                FrameType::YUVFrame => true,
            }
        }),
{
    lemma_stored_pixel(raw, layout, output, line, column);
    let bytes = channels(output);
    let at = (line * layout.width + column) * bytes;
    let pixel_bytes = layout.bits_per_pixel as int / 8;
    let from = line * layout.row_bytes() + column * pixel_bytes;
    let stored = raw.subrange(from, least(from + pixel_bytes, raw.len() as int));
    let pixel = pixel_number(stored, layout.little_endian) as u32;
    lemma_intensity_is_a_byte(pixel, layout.red_mask);
    lemma_intensity_is_a_byte(pixel, layout.green_mask);
    lemma_intensity_is_a_byte(pixel, layout.blue_mask);
    let shown = converted(raw, layout, output).subrange(at, at + bytes);
    assert(forall|k: int| 0 <= k < bytes ==> #[trigger] shown[k] == converted(raw, layout, output)[at
        + k]);
    if output == FrameType::RGB {
        assert(shown[0] == converted(raw, layout, output)[at]);
        assert(shown[1] == converted(raw, layout, output)[at + 1]);
        assert(shown[2] == converted(raw, layout, output)[at + 2]);
    } else if output != FrameType::YUVFrame {
        assert(shown[0] == converted(raw, layout, output)[at]);
        assert(shown[1] == converted(raw, layout, output)[at + 1]);
        assert(shown[2] == converted(raw, layout, output)[at + 2]);
        assert(shown[3] == converted(raw, layout, output)[at + 3]);
    }
}

proof fn lemma_intensity_is_a_byte(pixel: u32, mask: u32)
    ensures
        0 <= intensity(pixel, mask) <= 255,
{
    if mask != 0 {
        law_component_extremes(pixel, mask);
    }
}

/// The output has every pixel of which anything is stored, and nothing else: all pixels of the
/// rectangle where the image is complete; else those of the rows that are there, and of the row
/// that is cut off as many as it begins.
pub proof fn law_nothing_else_is_shown(raw: Seq<u8>, layout: ImageLayout, output: FrameType)
    requires
        layout.supported(),
        layout.width > 0,
        output != FrameType::YUVFrame,
    ensures
        ({
            let bytes: int = if output == FrameType::RGB {
                3
            } else {
                4
            };
            let pixel_bytes = layout.bits_per_pixel as int / 8;
            let lines = raw.len() as int / layout.row_bytes();
            let rest = raw.len() as int % layout.row_bytes();
            let begun = (rest + pixel_bytes - 1) / pixel_bytes;
            converted(raw, layout, output).len() == if lines >= layout.height {
                layout.height * layout.width * bytes
            } else if begun >= layout.width {
                (lines * layout.width + layout.width) * bytes
            } else {
                (lines * layout.width + begun) * bytes
            }
        }),
{
    let stride = layout.row_bytes();
    let width = layout.width as int;
    let bytes = channels(output);
    let length = raw.len() as int;
    let lines = length / stride;
    let rest = length % stride;
    law_row_holds_its_pixels(layout);
    lemma_fundamental_div_mod(length, stride);
    assert(0 <= lines) by (nonlinear_arith)
        requires
            length >= 0,
            stride > 0,
            lines == length / stride,
    ;
    assert(lines * stride == stride * lines) by (nonlinear_arith);
    lemma_chunk_starts(length, stride, lines);
    if lines >= layout.height {
        let height = layout.height as int;
        assert(height * stride <= lines * stride) by (nonlinear_arith)
            requires
                height <= lines,
                stride > 0,
        ;
        assert(rows_in_image(length, layout) == height) by {
            if height > 0 {
                lemma_chunk_starts(length, stride, height - 1);
                assert((height - 1) * stride < height * stride) by (nonlinear_arith)
                    requires
                        stride > 0,
                ;
            } else {
                lemma_chunk_starts(length, stride, 0);
            }
        }
        lemma_whole_rows(raw, layout, output, height);
        assert(height * (width * bytes) == height * width * bytes) by (nonlinear_arith);
    } else {
        lemma_whole_rows(raw, layout, output, lines);
        assert(lines * (width * bytes) == (lines * width) * bytes) by (nonlinear_arith);
        if lines > 0 {
            lemma_chunk_starts(length, stride, lines - 1);
            assert((lines - 1) * stride < lines * stride) by (nonlinear_arith)
                requires
                    stride > 0,
            ;
        }
        let pixel_bytes = layout.bits_per_pixel as int / 8;
        let begun = (rest + pixel_bytes - 1) / pixel_bytes;
        if rest == 0 {
            assert(rows_in_image(length, layout) == lines);
            assert(begun == 0) by (nonlinear_arith)
                requires
                    pixel_bytes > 0,
                    begun == (0 + pixel_bytes - 1) / pixel_bytes,
            ;
            assert(begun < layout.width);
            assert((lines * width + begun) * bytes == (lines * width) * bytes);
            assert(converted(raw, layout, output).len() == (lines * width + begun) * bytes);
        } else {
            lemma_chunk_starts(length, stride, lines + 1);
            assert(rows_in_image(length, layout) == lines + 1);
            let row = chunk(raw, stride, lines);
            assert(row.len() == rest);
            let count = pixels_in_row(rest, layout);
            lemma_chunk_starts(rest, layout.bits_per_pixel as int / 8, 0);
            lemma_row_places_pixels(row, layout, output, count, 0);
            assert((lines * width + count) * bytes == (lines * width) * bytes + count * bytes)
                by (nonlinear_arith);
            assert(count == least(width, begun));
            assert(converted_rows(raw, layout, output, lines + 1) == converted_rows(
                raw,
                layout,
                output,
                lines,
            ) + converted_row(row, layout, output, count));
            assert(converted(raw, layout, output).len() == (lines * width + count) * bytes);
        }
    }
}

/// A frame that shows an image is of the output that was asked for, has the size of the
/// rectangle and the moment that it is shown at, and holds the converted pixels.
pub proof fn law_frame_is_as_asked(
    frame: VideoFrame,
    raw: Seq<u8>,
    layout: ImageLayout,
    output: FrameType,
    display_time: SystemTime,
)
    requires
        shows(frame, raw, layout, output, display_time),
    ensures
        output == FrameType::RGB <==> frame is RGB,
        output == FrameType::BGRAFrame <==> frame is BGRA,
        output == FrameType::BGR0 <==> frame is BGR0,
        match frame {
            VideoFrame::RGB(image) | VideoFrame::BGRA(image) | VideoFrame::BGR0(image) => {
                &&& image.display_time == display_time
                &&& image.width == layout.width
                &&& image.height == layout.height
                &&& image.data@.len() == converted(raw, layout, output).len()
                &&& forall|i: int|
                    0 <= i < image.data@.len() ==> #[trigger] image.data@[i] == converted(
                        raw,
                        layout,
                        output,
                    )[i]
            },
            _ => false,
        },
{
}

/// A frame holds the pixels that it is made of, byte by byte.
pub proof fn law_frame_holds_its_pixels(
    frame: VideoFrame,
    data: Seq<u8>,
    layout: ImageLayout,
    output: FrameType,
    display_time: SystemTime,
)
    requires
        holds(frame, data, layout, output, display_time),
    ensures
        output == FrameType::RGB <==> frame is RGB,
        output == FrameType::BGRAFrame <==> frame is BGRA,
        output == FrameType::BGR0 <==> frame is BGR0,
        match frame {
            VideoFrame::RGB(image) | VideoFrame::BGRA(image) | VideoFrame::BGR0(image) => {
                &&& image.display_time == display_time
                &&& image.width == layout.width
                &&& image.height == layout.height
                &&& image.data@.len() == data.len()
                &&& forall|i: int|
                    0 <= i < data.len() ==> #[trigger] image.data@[i] == data[i]
            },
            _ => false,
        },
{
}

/// What can be decoded: images whose rows and pixels have bytes, and no pixel with the least
/// significant byte first has more than the four that a number holds. So it is of every image of
/// a supported layout with a width.
pub proof fn law_supported_images_are_decodable(length: int, layout: ImageLayout)
    requires
        layout.supported(),
        layout.width > 0,
    ensures
        decodable(length, layout),
{
    law_row_holds_its_pixels(layout);
}

} // verus!
