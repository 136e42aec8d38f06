use ws2812_esp32_rmt_driver::color::{ColorOrder, LedPixelColor};
use ws2812_esp32_rmt_driver::driver::Ws2812Esp32RmtDriver;

#[test]
fn test_ws2812_esp32_rmt_driver_mock() {
    let sample_data: [u8; 6] = [0x00, 0x01, 0x02, 0x03, 0x04, 0x05];

    let mut driver = Ws2812Esp32RmtDriver::new(0, 27).unwrap();
    assert_eq!(driver.grb_pixels, None);
    driver.write(&sample_data).unwrap();
    assert_eq!(driver.grb_pixels.unwrap(), &sample_data);

    let mut driver = Ws2812Esp32RmtDriver::new(0, 27).unwrap();
    let colors = [
        LedPixelColor::new_with_rgb(ColorOrder::Grb24, 1, 2, 3),
        LedPixelColor::new_with_rgb(ColorOrder::Grb24, 4, 5, 6),
    ];
    driver.write_colors(&colors).unwrap();
    assert_eq!(driver.grb_pixels.unwrap(), vec![2, 1, 3, 5, 4, 6]);
}

#[test]
fn new_driver_has_nothing_recorded() {
    let driver = Ws2812Esp32RmtDriver::new(3, 18).unwrap();
    assert_eq!(driver.grb_pixels, None);
    assert!(driver.wait_tx_done);
    assert_eq!(driver.channel_num, 3);
    assert_eq!(driver.gpio_num, 18);
}

#[test]
fn write_records_bytes_unchanged() {
    let mut driver = Ws2812Esp32RmtDriver::new(0, 27).unwrap();
    let data: [u8; 5] = [0xff, 0x00, 0x80, 0x7f, 0x01];
    assert!(driver.write(&data).is_ok());
    assert_eq!(driver.grb_pixels, Some(data.to_vec()));
}

#[test]
fn write_empty_slice_records_empty() {
    let mut driver = Ws2812Esp32RmtDriver::new(0, 27).unwrap();
    driver.write(&[]).unwrap();
    assert_eq!(driver.grb_pixels, Some(Vec::new()));
}

#[test]
fn write_colors_empty_records_empty() {
    let mut driver = Ws2812Esp32RmtDriver::new(0, 27).unwrap();
    driver.write(&[9, 9, 9]).unwrap();
    driver.write_colors(&[]).unwrap();
    assert_eq!(driver.grb_pixels, Some(Vec::new()));
}

#[test]
fn write_colors_concatenates_in_order() {
    let mut driver = Ws2812Esp32RmtDriver::new(0, 27).unwrap();
    let colors = [
        LedPixelColor::new_with_rgb(ColorOrder::Rgb24, 10, 20, 30),
        LedPixelColor::new_with_rgbw(ColorOrder::Grbw32, 1, 2, 3, 4),
        LedPixelColor::new_with_rgb(ColorOrder::Grb24, 7, 8, 9),
    ];
    driver.write_colors(&colors).unwrap();
    let mut expected = Vec::new();
    for c in colors.iter() {
        expected.extend(c.as_wire_bytes());
    }
    assert_eq!(expected, vec![10, 20, 30, 2, 1, 3, 4, 8, 7, 9]);
    assert_eq!(driver.grb_pixels, Some(expected));
}

#[test]
fn second_write_colors_overwrites_first() {
    let mut driver = Ws2812Esp32RmtDriver::new(0, 27).unwrap();
    let first = [
        LedPixelColor::new_with_rgb(ColorOrder::Grb24, 1, 2, 3),
        LedPixelColor::new_with_rgb(ColorOrder::Grb24, 4, 5, 6),
    ];
    let second = [LedPixelColor::new_with_rgb(ColorOrder::Grb24, 7, 8, 9)];
    driver.write_colors(&first).unwrap();
    driver.write_colors(&second).unwrap();
    assert_eq!(driver.grb_pixels, Some(vec![8, 7, 9]));
}

#[test]
fn write_keeps_wait_flag_and_identity() {
    let mut driver = Ws2812Esp32RmtDriver::new(1, 5).unwrap();
    driver.wait_tx_done = false;
    driver.write(&[1, 2, 3]).unwrap();
    driver.write_colors(&[LedPixelColor::new_with_rgb(ColorOrder::Rgb24, 4, 5, 6)]).unwrap();
    assert!(!driver.wait_tx_done);
    assert_eq!(driver.channel_num, 1);
    assert_eq!(driver.gpio_num, 5);
    assert_eq!(driver.grb_pixels, Some(vec![4, 5, 6]));
}
