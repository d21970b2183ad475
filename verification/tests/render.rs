use rhi_undistort::error::PipelineError;
use rhi_undistort::geometry::{DisplaySize, Size};
use rhi_undistort::ieee::Binary64;
use rhi_undistort::params::StabilizationParams;
use rhi_undistort::pipeline::{FillRequest, Frame, InitRequest, Pipeline, PlayerHandle, Submission};

fn params(readout_time: f64, height: u32) -> StabilizationParams {
    StabilizationParams {
        output_size: Size::new(3840, 2160),
        background: [255, 128, 0, 64],
        frame_readout_time: Binary64::from_bits(readout_time.to_bits()),
        size: Size::new(1920, height),
    }
}

fn frame(timestamp: f64, index: i32, do_render: bool) -> Frame {
    Frame { timestamp: Binary64::from_bits(timestamp.to_bits()), index, do_render }
}

fn initialized() -> Pipeline {
    let mut pipeline: Pipeline = Pipeline::new();
    let request: InitRequest = pipeline.begin_init(
        PlayerHandle { raw: 0x1000 },
        Size::new(1920, 1080),
        DisplaySize { width: Binary64::from_bits(0), height: Binary64::from_bits(0) },
        &params(0.0, 1080),
    );
    assert_eq!(pipeline.finish_init(request, true), Ok(()));
    pipeline
}

fn fill_with(pipeline: &mut Pipeline, request: &FillRequest, value: f32) {
    let window: &mut [u32] = pipeline.fill_window(request.submission.row_count).unwrap();
    assert_eq!(window.len(), request.element_count);
    for slot in window.iter_mut() {
        *slot = value.to_bits();
    }
}

#[test]
fn render_without_a_context_is_refused() {
    let mut pipeline: Pipeline = Pipeline::new();
    let step = pipeline.begin_render(&params(0.01, 1080), frame(1.5, 45, true));
    assert_eq!(step.err(), Some(PipelineError::NotInitialized));
    assert!(!pipeline.is_initialized());
    assert_eq!(pipeline.buffer_len(), 0);
    assert!(pipeline.params().is_none());
    assert!(pipeline.fill_window(1082).is_none());
    assert!(pipeline.fill_window(0).is_none());
}

#[test]
fn render_after_cleanup_is_refused() {
    let mut pipeline: Pipeline = initialized();
    assert!(pipeline.begin_render(&params(0.0, 1080), frame(0.0, 0, true)).is_ok());
    assert!(pipeline.cleanup());
    let step = pipeline.begin_render(&params(0.0, 1080), frame(0.04, 1, true));
    assert_eq!(step.err(), Some(PipelineError::NotInitialized));
    assert_eq!(pipeline.buffer_len(), 0);
}

#[test]
fn rolling_shutter_frame_asks_for_a_row_per_scanline_and_two() {
    let mut pipeline: Pipeline = initialized();
    let request: FillRequest =
        pipeline.begin_render(&params(0.01, 1080), frame(2.0, 60, true)).unwrap();
    assert_eq!(request.element_count, 9738);
    assert_eq!(request.element_count, 1082 * 9);
    assert_eq!(request.submission.row_count, 1082);
    assert_eq!(pipeline.buffer_len(), 9738);
}

#[test]
fn global_shutter_frame_asks_for_three_rows() {
    let mut pipeline: Pipeline = initialized();
    let request: FillRequest =
        pipeline.begin_render(&params(0.0, 1080), frame(2.0, 60, true)).unwrap();
    assert_eq!(request.element_count, 27);
    assert_eq!(request.submission.row_count, 3);
    assert_eq!(pipeline.buffer_len(), 27);
}

#[test]
fn fill_is_asked_for_the_time_in_whole_microseconds() {
    let mut pipeline: Pipeline = initialized();
    let request: FillRequest =
        pipeline.begin_render(&params(0.0, 1080), frame(0.0033335, 0, true)).unwrap();
    assert_eq!(request.timestamp_us, 3333);
    let later: FillRequest =
        pipeline.begin_render(&params(0.0, 1080), frame(12.345678, 370, true)).unwrap();
    assert_eq!(later.timestamp_us, (12.345678f64 * 1_000_000.0) as i64);
    assert_eq!(later.timestamp_us, 12_345_678);
}

#[test]
fn submission_carries_the_frame_and_its_parameters() {
    let mut pipeline: Pipeline = initialized();
    let shown: Frame = frame(1.25, 37, false);
    let request: FillRequest = pipeline.begin_render(&params(0.01, 1080), shown).unwrap();
    let submission: Submission = request.submission;
    assert_eq!(submission.player, PlayerHandle { raw: 0x1000 });
    assert_eq!(submission.frame, shown);
    assert_eq!(f64::from_bits(submission.frame.timestamp.bits), 1.25);
    assert_eq!(submission.frame.index, 37);
    assert!(!submission.frame.do_render);
    assert_eq!(submission.row_count, 1082);
    assert_eq!(f32::from_bits(submission.background[0].bits), 1.0);
    assert_eq!(f32::from_bits(submission.background[1].bits), 128.0f32 / 255.0);
    assert_eq!(f32::from_bits(submission.background[2].bits), 0.0);
    assert_eq!(f32::from_bits(submission.background[3].bits), 64.0f32 / 255.0);
}

#[test]
fn failed_fill_ends_the_frame_whatever_do_render_says() {
    let mut pipeline: Pipeline = initialized();
    let drawn: FillRequest =
        pipeline.begin_render(&params(0.01, 1080), frame(1.0, 30, true)).unwrap();
    assert_eq!(drawn.after_fill(false).err(), Some(PipelineError::FillFailure));
    let computed: FillRequest =
        pipeline.begin_render(&params(0.01, 1080), frame(1.0, 30, false)).unwrap();
    assert_eq!(computed.after_fill(false).err(), Some(PipelineError::FillFailure));
    assert!(pipeline.is_initialized());
}

#[test]
fn filled_frame_is_submitted_as_it_was_asked_for() {
    let mut pipeline: Pipeline = initialized();
    for do_render in [true, false] {
        let request: FillRequest =
            pipeline.begin_render(&params(0.01, 1080), frame(1.0, 30, do_render)).unwrap();
        fill_with(&mut pipeline, &request, 1.0);
        let submission: Submission = request.after_fill(true).unwrap();
        assert_eq!(submission.frame.do_render, do_render);
        assert_eq!(submission.row_count, request.submission.row_count);
        assert_eq!(submission.player, request.submission.player);
        assert_eq!(submission.after_submit(true), Ok(()));
    }
}

#[test]
fn renderer_failure_fails_the_frame_and_keeps_the_context() {
    let mut pipeline: Pipeline = initialized();
    let request: FillRequest =
        pipeline.begin_render(&params(0.0, 1080), frame(1.0, 30, true)).unwrap();
    fill_with(&mut pipeline, &request, 0.5);
    let submission: Submission = request.after_fill(true).unwrap();
    assert_eq!(submission.after_submit(false), Err(PipelineError::GpuFailure));
    assert!(pipeline.is_initialized());
    let next: FillRequest =
        pipeline.begin_render(&params(0.0, 1080), frame(1.04, 31, true)).unwrap();
    fill_with(&mut pipeline, &next, 0.5);
    assert_eq!(next.after_fill(true).unwrap().after_submit(true), Ok(()));
}

#[test]
fn buffer_keeps_its_length_when_frames_need_fewer_rows() {
    let mut pipeline: Pipeline = initialized();
    assert!(pipeline.begin_render(&params(0.01, 1080), frame(0.0, 0, true)).is_ok());
    assert_eq!(pipeline.buffer_len(), 9738);
    let request: FillRequest =
        pipeline.begin_render(&params(0.0, 1080), frame(0.04, 1, true)).unwrap();
    assert_eq!(request.element_count, 27);
    assert_eq!(pipeline.buffer_len(), 9738);
    assert!(pipeline.begin_render(&params(0.01, 2160), frame(0.08, 2, true)).is_ok());
    assert_eq!(pipeline.buffer_len(), 2162 * 9);
    assert!(pipeline.begin_render(&params(0.01, 720), frame(0.12, 3, true)).is_ok());
    assert_eq!(pipeline.buffer_len(), 2162 * 9);
}

#[test]
fn filled_values_are_what_the_renderer_reads() {
    let mut pipeline: Pipeline = initialized();
    let first: FillRequest =
        pipeline.begin_render(&params(0.01, 4), frame(0.0, 0, true)).unwrap();
    assert_eq!(first.element_count, 54);
    fill_with(&mut pipeline, &first, 2.0);
    assert!(pipeline.params().unwrap().iter().all(|value| *value == 2.0f32.to_bits()));
    let second: FillRequest =
        pipeline.begin_render(&params(0.0, 4), frame(0.04, 1, true)).unwrap();
    fill_with(&mut pipeline, &second, 3.0);
    let values: &[u32] = pipeline.params().unwrap();
    assert_eq!(values.len(), 54);
    assert!(values[..27].iter().all(|value| *value == 3.0f32.to_bits()));
    assert!(values[27..].iter().all(|value| *value == 2.0f32.to_bits()));
}

#[test]
fn fill_window_is_refused_beyond_the_buffer() {
    let mut pipeline: Pipeline = initialized();
    assert!(pipeline.begin_render(&params(0.0, 1080), frame(0.0, 0, true)).is_ok());
    assert_eq!(pipeline.fill_window(3).map(|window| window.len()), Some(27));
    assert_eq!(pipeline.fill_window(2).map(|window| window.len()), Some(18));
    assert!(pipeline.fill_window(4).is_none());
    assert_eq!(pipeline.buffer_len(), 27);
}

#[test]
fn new_context_starts_with_an_empty_buffer() {
    let mut pipeline: Pipeline = initialized();
    assert!(pipeline.begin_render(&params(0.01, 1080), frame(0.0, 0, true)).is_ok());
    assert_eq!(pipeline.buffer_len(), 9738);
    let request: InitRequest = pipeline.begin_init(
        PlayerHandle { raw: 0x1000 },
        Size::new(1280, 720),
        DisplaySize { width: Binary64::from_bits(0), height: Binary64::from_bits(0) },
        &params(0.0, 720),
    );
    assert_eq!(pipeline.finish_init(request, true), Ok(()));
    assert_eq!(pipeline.buffer_len(), 0);
}
