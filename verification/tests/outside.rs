use chrono::{Local, TimeZone, Timelike};
use image::{Rgb, RgbImage};
use pixootop::clock::ClockTime;
use pixootop::frame::{Frame, DISPLAY_SIZE};
use pixootop::render::{create_frame, Context};

#[test]
fn clock_text_is_what_chrono_prints_for_a_local_timestamp() {
    for hour in 0..24u32 {
        for minute in 0..60u32 {
            let second = (hour * 7 + minute * 13) % 60;
            let stamp = Local
                .with_ymd_and_hms(2024, 1, 15, hour, minute, second)
                .single()
                .unwrap();
            let time = ClockTime::new(
                stamp.hour() as u8,
                stamp.minute() as u8,
                stamp.second() as u8,
            )
            .unwrap();
            assert_eq!(time.hour_minute_string(), stamp.format("%l:%M").to_string());
            assert_eq!(time.second_string(), stamp.format("%S").to_string());
        }
    }
}

#[test]
fn clock_text_has_the_documented_shape() {
    for hour in 0..24u8 {
        for minute in 0..60u8 {
            let time = ClockTime::new(hour, minute, minute).unwrap();
            let twelve = if hour % 12 == 0 { 12 } else { hour % 12 };
            assert_eq!(time.hour_minute_string(), format!("{twelve:2}:{minute:02}"));
            assert_eq!(time.second_string(), format!("{minute:02}"));
        }
    }
}

#[test]
fn frame_bytes_make_an_image_of_the_same_pixels() {
    let time = ClockTime::new(12, 34, 5).unwrap();
    let ctx = Context { cpu: 30, mem: 15, gpu: 7, gpu_mem: 2, vol: 45, net_up: 1, net_down: 44, time };
    let frame = create_frame(Some(ctx), time, false);
    let image = RgbImage::from_raw(DISPLAY_SIZE, DISPLAY_SIZE, frame.to_rgb_bytes()).unwrap();
    assert_eq!(image.dimensions(), (16, 16));
    for y in 0..16 {
        for x in 0..16 {
            let (r, g, b) = frame.get_pixel(x, y).unwrap();
            assert_eq!(*image.get_pixel(x, y), Rgb([r, g, b]));
        }
    }
}

#[test]
fn frame_matches_an_image_painted_the_same_way() {
    let mut frame = Frame::new();
    let mut image = RgbImage::new(DISPLAY_SIZE, DISPLAY_SIZE);
    for step in 0..40u32 {
        let (x, y) = ((step * 7) % 16, (step * 11) % 16);
        let color = (step as u8, (step * 3) as u8, 255 - step as u8);
        frame.put_pixel(x, y, color);
        image.put_pixel(x, y, Rgb([color.0, color.1, color.2]));
    }
    assert_eq!(frame.to_rgb_bytes(), image.into_raw());
}
