use scap::frame::{FrameType, PixelFrame, VideoFrame};
use scap::linux::x11::convert::{check_output, convert_frame, convert_pixels, is_decodable, make_frame};
use scap::linux::x11::layout::ImageLayout;
use scap::time::{Duration, SystemTime};

fn now() -> SystemTime {
    SystemTime::unix_epoch()
        .checked_add(Duration::from_secs(77))
        .unwrap()
}

fn layout(width: u16, height: u16, bits_per_pixel: u8, scanline_pad: u8) -> ImageLayout {
    ImageLayout {
        root: 1,
        x: 0,
        y: 0,
        width,
        height,
        depth: 24,
        bits_per_pixel,
        scanline_pad,
        little_endian: true,
        red_mask: 0xff0000,
        green_mask: 0xff00,
        blue_mask: 0xff,
    }
}

fn rgb(raw: &[u8], layout: &ImageLayout) -> PixelFrame {
    match convert_frame(raw, layout, FrameType::RGB, now()) {
        Ok(VideoFrame::RGB(frame)) => frame,
        other => panic!("{other:?}"),
    }
}

#[test]
fn pixels_are_reordered_for_each_output() {
    let layout = layout(2, 1, 32, 32);
    let raw = [3, 2, 1, 9, 6, 5, 4, 9];
    let frame = rgb(&raw, &layout);
    assert_eq!(frame.data, vec![1, 2, 3, 4, 5, 6]);
    assert_eq!((frame.width, frame.height), (2, 1));
    assert_eq!(frame.display_time, now());
    match convert_frame(&raw, &layout, FrameType::BGRAFrame, now()) {
        Ok(VideoFrame::BGRA(frame)) => {
            assert_eq!(frame.data, vec![3, 2, 1, 255, 6, 5, 4, 255])
        }
        other => panic!("{other:?}"),
    }
    match convert_frame(&raw, &layout, FrameType::BGR0, now()) {
        Ok(VideoFrame::BGR0(frame)) => assert_eq!(frame.data, vec![3, 2, 1, 0, 6, 5, 4, 0]),
        other => panic!("{other:?}"),
    }
}

#[test]
fn padding_between_rows_is_left_out() {
    let layout = layout(1, 2, 24, 32);
    assert_eq!(layout.stride(), 4);
    let raw = [3, 2, 1, 99, 6, 5, 4, 99];
    assert_eq!(rgb(&raw, &layout).data, vec![1, 2, 3, 4, 5, 6]);
}

#[test]
fn sixteen_bit_pixels_are_scaled() {
    let mut layout = layout(2, 1, 16, 32);
    layout.red_mask = 0xf800;
    layout.green_mask = 0x07e0;
    layout.blue_mask = 0x001f;
    let raw = [0x00, 0xf8, 0xe0, 0x07];
    assert_eq!(rgb(&raw, &layout).data, vec![255, 0, 0, 0, 255, 0]);
    layout.little_endian = false;
    assert_eq!(rgb(&[0xf8, 0x00, 0x07, 0xe0], &layout).data, vec![255, 0, 0, 0, 255, 0]);
}

#[test]
fn bytes_beyond_the_image_are_left_out() {
    let layout = layout(1, 1, 32, 32);
    let raw = [3, 2, 1, 0, 6, 5, 4, 0];
    assert_eq!(rgb(&raw, &layout).data, vec![1, 2, 3]);
}

#[test]
fn short_images_give_what_they_hold() {
    let layout = layout(2, 2, 32, 32);
    assert_eq!(rgb(&[], &layout).data, Vec::<u8>::new());
    let raw = [3, 2, 1, 0, 6, 5, 4, 0, 9];
    assert_eq!(rgb(&raw, &layout).data, vec![1, 2, 3, 4, 5, 6, 0, 0, 9]);
}

#[test]
fn every_pixel_of_a_complete_image_keeps_its_place() {
    let layout = layout(5, 4, 24, 32);
    let stride = layout.stride();
    assert_eq!(stride, 16);
    let raw: Vec<u8> = (0..layout.byte_len()).map(|i| i as u8).collect();
    let frame = rgb(&raw, &layout);
    assert_eq!(frame.data.len(), 5 * 4 * 3);
    for line in 0..4 {
        for column in 0..5 {
            let at = (line * 5 + column) * 3;
            let from = line * stride + column * 3;
            assert_eq!(frame.data[at], raw[from + 2]);
            assert_eq!(frame.data[at + 1], raw[from + 1]);
            assert_eq!(frame.data[at + 2], raw[from]);
        }
    }
}

#[test]
fn yuv_is_refused() {
    let message = "X11 backend does not support YUV output; use BGRAFrame, BGR0, or RGB";
    let layout = layout(1, 1, 32, 32);
    let error = convert_frame(&[0, 0, 0, 0], &layout, FrameType::YUVFrame, now()).unwrap_err();
    assert_eq!(error.message(), message);
    assert_eq!(check_output(FrameType::YUVFrame).unwrap_err().message(), message);
    assert!(check_output(FrameType::RGB).is_ok());
    assert!(check_output(FrameType::BGR0).is_ok());
    assert!(check_output(FrameType::BGRAFrame).is_ok());
}

#[test]
fn conversion_and_framing_make_a_frame() {
    let layout = layout(1, 1, 32, 32);
    let raw = [3, 2, 1, 0];
    let data = convert_pixels(&raw, &layout, FrameType::BGR0);
    assert_eq!(data, vec![3, 2, 1, 0]);
    match make_frame(data, &layout, FrameType::BGR0, now()) {
        Ok(VideoFrame::BGR0(frame)) => {
            assert_eq!((frame.width, frame.height, frame.display_time), (1, 1, now()));
            assert_eq!(frame.data, vec![3, 2, 1, 0]);
        }
        other => panic!("{other:?}"),
    }
    assert!(make_frame(vec![], &layout, FrameType::YUVFrame, now()).is_err());
}

#[test]
fn images_without_rows_or_pixels_cannot_be_decoded() {
    assert!(is_decodable(4, &layout(1, 1, 32, 32)));
    assert!(is_decodable(0, &layout(1, 1, 4, 32)));
    assert!(!is_decodable(4, &layout(0, 1, 32, 32)));
    assert!(!is_decodable(4, &layout(1, 1, 32, 0)));
    assert!(!is_decodable(4, &layout(1, 1, 4, 32)));
    assert!(!is_decodable(8, &layout(1, 1, 40, 32)));
    assert!(is_decodable(4, &layout(1, 1, 40, 32)));
    let mut mirrored = layout(1, 1, 40, 32);
    mirrored.little_endian = false;
    assert!(is_decodable(8, &mirrored));
}
