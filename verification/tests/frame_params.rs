use rhi_undistort::geometry::Size;
use rhi_undistort::ieee::Binary64;
use rhi_undistort::params::{FrameParams, StabilizationParams};

fn params_with(readout_time: f64, height: u32, background: [u8; 4]) -> StabilizationParams {
    StabilizationParams {
        output_size: Size::new(3840, 2160),
        background,
        frame_readout_time: Binary64::from_bits(readout_time.to_bits()),
        size: Size::new(1920, height),
    }
}

#[test]
fn rolling_shutter_frame_takes_a_row_per_scanline_and_two() {
    assert_eq!(params_with(0.01, 1080, [0, 0, 0, 0]).row_count(), 1082);
    assert_eq!(params_with(-0.01, 1080, [0, 0, 0, 0]).row_count(), 1082);
    assert_eq!(params_with(1e-300, 2160, [0, 0, 0, 0]).row_count(), 2162);
    assert_eq!(params_with(5e-324, 1, [0, 0, 0, 0]).row_count(), 3);
    assert_eq!(params_with(0.033, 0, [0, 0, 0, 0]).row_count(), 2);
    assert_eq!(params_with(f64::INFINITY, 720, [0, 0, 0, 0]).row_count(), 722);
}

#[test]
fn global_shutter_frame_takes_three_rows() {
    assert_eq!(params_with(0.0, 1080, [0, 0, 0, 0]).row_count(), 3);
    assert_eq!(params_with(-0.0, 1080, [0, 0, 0, 0]).row_count(), 3);
    assert_eq!(params_with(0.0, 0, [0, 0, 0, 0]).row_count(), 3);
    assert_eq!(params_with(0.0, u32::MAX, [0, 0, 0, 0]).row_count(), 3);
    assert_eq!(params_with(f64::NAN, 1080, [0, 0, 0, 0]).row_count(), 3);
}

#[test]
fn row_count_follows_the_parameters_of_the_moment() {
    let mut params: StabilizationParams = params_with(0.0, 1080, [0, 0, 0, 0]);
    assert_eq!(params.row_count(), 3);
    params.frame_readout_time = Binary64::from_bits(0.02f64.to_bits());
    assert_eq!(params.row_count(), 1082);
    params.size = Size::new(1280, 720);
    assert_eq!(params.row_count(), 722);
    params.frame_readout_time = Binary64::from_bits(0);
    assert_eq!(params.row_count(), 3);
}

#[test]
fn background_bytes_become_fractions_of_one() {
    let colour = params_with(0.0, 1080, [255, 128, 0, 64]).normalized_background();
    let red: f32 = f32::from_bits(colour[0].bits);
    let green: f32 = f32::from_bits(colour[1].bits);
    let blue: f32 = f32::from_bits(colour[2].bits);
    let alpha: f32 = f32::from_bits(colour[3].bits);
    assert_eq!(red, 1.0);
    assert!((green - 0.501_960_8).abs() < 1e-6);
    assert_eq!(blue, 0.0);
    assert!((alpha - 0.250_980_4).abs() < 1e-6);
    assert_eq!(green, 128.0f32 / 255.0);
    assert_eq!(alpha, 64.0f32 / 255.0);
}

#[test]
fn background_channels_keep_their_order() {
    let colour = params_with(0.0, 1080, [1, 2, 3, 4]).normalized_background();
    assert_eq!(f32::from_bits(colour[0].bits), 1.0f32 / 255.0);
    assert_eq!(f32::from_bits(colour[1].bits), 2.0f32 / 255.0);
    assert_eq!(f32::from_bits(colour[2].bits), 3.0f32 / 255.0);
    assert_eq!(f32::from_bits(colour[3].bits), 4.0f32 / 255.0);
}

#[test]
fn frame_params_hold_row_count_and_background() {
    let frame: FrameParams = params_with(0.01, 1080, [255, 128, 0, 64]).frame_params();
    assert_eq!(frame.row_count, 1082);
    assert_eq!(frame.background[0].bits, 1.0f32.to_bits());
    assert_eq!(frame.background[1].bits, (128.0f32 / 255.0).to_bits());
    assert_eq!(frame.background[2].bits, 0);
    assert_eq!(frame.background[3].bits, (64.0f32 / 255.0).to_bits());
}

#[test]
fn rows_fit_but_for_the_tallest_rolling_shutter_frames() {
    assert!(params_with(0.01, 1080, [0, 0, 0, 0]).check_rows_fit());
    assert!(params_with(0.0, u32::MAX, [0, 0, 0, 0]).check_rows_fit());
    assert!(!params_with(0.01, u32::MAX, [0, 0, 0, 0]).check_rows_fit());
    assert!(!params_with(0.01, u32::MAX - 1, [0, 0, 0, 0]).check_rows_fit());
    let tallest: u32 = u32::MAX - 2;
    let expected: bool = (tallest as u64 + 2) * 9 <= usize::MAX as u64;
    assert_eq!(params_with(0.01, tallest, [0, 0, 0, 0]).check_rows_fit(), expected);
}
