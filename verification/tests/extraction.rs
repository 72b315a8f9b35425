use media::extract::frame::ExtractedFrame;
use media::extract::plan::{
    count_plan, count_targets, every_n_plan, resolve_window, step_plan, timestamps_plan, FrameVerdict, Plan,
    SampleStep, SampledFrames,
};
use media::extract::report::ExtractReport;
use media::extract::types::{ImageFormat, NamingScheme, Resolution};
use media::rational::Rational;
use media::time::Duration;
use media::extract::plan::{resolve_plan, SamplingInterval};
use media::extract::plan::progress_bounds;
use media::extract::types::rgb_conversion_chain;
use media::frame::{Frame, SampleLayout};
use media::types::{Channels, PixelFormat, SampleFormat};

const TB: Rational = Rational { num: 1, den: 1000 };

#[test]
fn sequential_naming_zero_pads_the_index() {
    let scheme = NamingScheme::default();
    assert_eq!(scheme.file_name(0, "jpg"), "frame_0000.jpg");
    assert_eq!(scheme.file_name(42, "png"), "frame_0042.png");
    let wide = NamingScheme::Sequential { prefix: "shot".to_owned(), padding: 2 };
    assert_eq!(wide.file_name(7, "jpg"), "shot_07.jpg");
    // An index exceeding the padding width is not truncated.
    assert_eq!(wide.file_name(1234, "jpg"), "shot_1234.jpg");
}

#[test]
fn image_format_extension_and_inference() {
    assert_eq!(ImageFormat::Jpeg { quality: 80 }.extension(), "jpg");
    assert_eq!(ImageFormat::Png.extension(), "png");
    assert_eq!(ImageFormat::from_extension("JPEG"), Some(ImageFormat::Jpeg { quality: 90 }));
    assert_eq!(ImageFormat::from_path("a/b/c.png"), Some(ImageFormat::Png));
    assert_eq!(ImageFormat::from_extension("gif"), None);
}

#[test]
fn paths_without_a_known_extension_infer_nothing() {
    assert_eq!(ImageFormat::from_path("frames/shot.JpG"), Some(ImageFormat::Jpeg { quality: 90 }));
    assert_eq!(ImageFormat::from_path("frames/shot"), None);
    assert_eq!(ImageFormat::from_path("archive.tar.gz"), None);
    assert_eq!(ImageFormat::default(), ImageFormat::Jpeg { quality: 90 });
    assert_eq!(Resolution::default(), Resolution::Original);
}

fn expand(plan: Plan) -> Vec<i64> {
    match plan {
        Plan::Targets { targets, .. } => targets,
        Plan::Step { step_ts, mut next, end_ts } => {
            let mut out = Vec::new();
            while next < end_ts {
                out.push(next);
                next += step_ts;
            }
            out
        }
        Plan::EveryN { .. } => panic!("expected a target-based plan"),
    }
}

#[test]
fn one_second_steps_over_ten_seconds_exclude_the_end() {
    let w = resolve_window(None, Duration::from_secs(10), TB);
    assert_eq!((w.start_ts, w.end_ts), (0, 10_000));
    let t = expand(step_plan(Duration::from_secs(1), w.start_ts, w.end_ts, TB));
    assert_eq!(t, vec![0, 1000, 2000, 3000, 4000, 5000, 6000, 7000, 8000, 9000]);
}

#[test]
fn half_second_steps_over_two_seconds() {
    let w = resolve_window(None, Duration::from_secs(2), TB);
    let t = expand(step_plan(Duration::from_millis(500), w.start_ts, w.end_ts, TB));
    assert_eq!(t, vec![0, 500, 1000, 1500]);
}

#[test]
fn a_zero_step_yields_no_targets() {
    assert!(expand(step_plan(Duration::zero(), 0, 10_000, TB)).is_empty());
}

#[test]
fn counted_targets_sit_at_slice_midpoints() {
    let w = resolve_window(None, Duration::from_secs(8), TB);
    assert_eq!(expand(count_plan(4, w, TB)), vec![1000, 3000, 5000, 7000]);
    assert_eq!(count_targets(4, Duration::zero(), Some(Duration::from_secs(8)), TB), vec![1000, 3000, 5000, 7000]);
}

#[test]
fn a_count_needs_a_known_end() {
    let w = resolve_window(None, Duration::zero(), TB);
    assert_eq!(w.end, None);
    assert_eq!(w.end_ts, i64::MAX);
    assert!(expand(count_plan(5, w, TB)).is_empty());
}

#[test]
fn explicit_timestamps_are_sorted_and_deduplicated() {
    let list = vec![Duration::from_millis(900), Duration::from_millis(100), Duration::from_millis(900)];
    assert_eq!(expand(timestamps_plan(&list, TB)), vec![100, 900]);
}

#[test]
fn an_inclusive_range_keeps_its_end_point() {
    let w = resolve_window(Some((Duration::from_secs(3), Duration::from_secs(6))), Duration::from_secs(10), TB);
    assert_eq!((w.start_ts, w.end_ts), (3000, 6001));
    let t = expand(step_plan(Duration::from_secs(1), w.start_ts, w.end_ts, TB));
    assert_eq!(t, vec![3000, 4000, 5000, 6000]);
}

#[test]
fn every_n_plans_start_fresh_and_clamp_zero() {
    let w = resolve_window(Some((Duration::from_secs(2), Duration::from_secs(6))), Duration::from_secs(10), TB);
    match every_n_plan(3, w.start_ts, w.end_ts) {
        Plan::EveryN { n, start_ts, end_ts, frame_no, sought } => {
            assert_eq!((n, start_ts, end_ts, frame_no, sought), (3, 2000, 6001, 0, false));
        }
        _ => panic!("expected an EveryN plan"),
    }
    match every_n_plan(0, 0, 10) {
        Plan::EveryN { n, .. } => assert_eq!(n, 1),
        _ => panic!("expected an EveryN plan"),
    }
}

#[test]
fn the_sampler_seeks_far_targets_and_emits_consecutive_indices() {
    let plan = timestamps_plan(&vec![Duration::from_secs(5), Duration::from_millis(5500)], TB);
    let mut s = SampledFrames::new(plan, TB);
    assert_eq!(s.begin(), SampleStep::Seek(5000));
    assert_eq!(s.on_frame(4960), FrameVerdict::Skip);
    assert_eq!(s.on_frame(5000), FrameVerdict::Emit { index: 0, timestamp: Duration::from_secs(5) });
    assert_eq!(s.begin(), SampleStep::Decode);
    assert_eq!(s.on_frame(5520), FrameVerdict::Emit { index: 1, timestamp: Duration::from_millis(5520) });
    assert_eq!(s.begin(), SampleStep::Finished);
}

#[test]
fn the_every_n_sampler_keeps_every_nth_frame_in_range() {
    let mut s = SampledFrames::new(every_n_plan(2, 1000, 1400), TB);
    assert_eq!(s.begin(), SampleStep::Decode);
    assert_eq!(s.on_frame(900), FrameVerdict::Skip);
    assert!(matches!(s.on_frame(1000), FrameVerdict::Emit { index: 0, .. }));
    assert_eq!(s.on_frame(1100), FrameVerdict::Skip);
    assert!(matches!(s.on_frame(1200), FrameVerdict::Emit { index: 1, .. }));
    assert_eq!(s.on_frame(1400), FrameVerdict::Stop);
    assert_eq!(s.begin(), SampleStep::Finished);
}

#[test]
fn reports_and_frames_keep_what_they_were_given() {
    let frame = ExtractedFrame::new(3, Duration::from_millis(1500), 2, 1, vec![1, 2, 3, 4, 5, 6]);
    assert_eq!(frame.index(), 3);
    assert_eq!(frame.timestamp(), Duration::from_millis(1500));
    assert_eq!(frame.dimensions(), (2, 1));
    assert_eq!(frame.to_rgb_bytes(), &[1, 2, 3, 4, 5, 6]);
    let report = ExtractReport::new(1, Duration::from_secs(2), vec![frame]);
    assert_eq!(report.frame_count(), 1);
    assert_eq!(report.elapsed(), Duration::from_secs(2));
    assert_eq!(report.frames().len(), 1);
    assert_eq!(report.into_frames()[0].index(), 3);
}

#[test]
fn progress_bounds_follow_the_range_or_the_duration() {
    assert_eq!(progress_bounds(None, Duration::from_secs(9)), (Duration::zero(), Duration::from_secs(9)));
    assert_eq!(
        progress_bounds(Some((Duration::from_secs(2), Duration::from_secs(5))), Duration::from_secs(9)),
        (Duration::from_secs(2), Duration::from_secs(3))
    );
    assert_eq!(
        progress_bounds(Some((Duration::from_secs(5), Duration::from_secs(2))), Duration::zero()),
        (Duration::from_secs(5), Duration::zero())
    );
}

#[test]
fn frames_are_converted_to_rgb_at_the_requested_size() {
    assert_eq!(rgb_conversion_chain(Resolution::Original).description(), "format=rgb24");
    assert_eq!(rgb_conversion_chain(Resolution::Fixed(640, 360)).description(), "scale=640:360,format=rgb24");
}

#[test]
fn audio_samples_are_laid_out_by_format() {
    let packed = Frame::audio(SampleFormat::S16, 1024, 48000, Channels::Stereo.to_layout(), 0, 0);
    assert_eq!(packed.sample_layout(), SampleLayout::Interleaved { values: 2048 });
    let planar = Frame::audio(SampleFormat::Fltp, 1024, 48000, Channels::Surround51.to_layout(), 0, 0);
    assert_eq!(planar.sample_layout(), SampleLayout::Planar { planes: 6, values: 1024 });
    let video = Frame::video(4, 4, PixelFormat::Yuv420p, 0, 0);
    assert_eq!(video.sample_layout(), SampleLayout::Interleaved { values: 0 });
}

#[test]
fn different_frames_get_different_file_names() {
    let scheme = NamingScheme::Sequential { prefix: "f".to_owned(), padding: 2 };
    let names: Vec<String> = (0..1200).map(|i| scheme.file_name(i, "png")).collect();
    let mut sorted = names.clone();
    sorted.sort();
    sorted.dedup();
    assert_eq!(sorted.len(), names.len());
    assert_eq!(names[5], "f_05.png");
    assert_eq!(names[1150], "f_1150.png");
}

#[test]
fn every_third_in_window_frame_is_emitted_until_the_end() {
    let mut s = SampledFrames::new(every_n_plan(3, 100, 1000), TB);
    assert_eq!(s.begin(), SampleStep::Decode);
    let mut emitted = Vec::new();
    for ts in [50, 100, 150, 160, 200, 250, 300, 999, 1000, 1100] {
        match s.on_frame(ts) {
            FrameVerdict::Emit { index, .. } => emitted.push((index, ts)),
            FrameVerdict::Skip => {}
            FrameVerdict::Stop => break,
        }
    }
    assert_eq!(emitted, vec![(0, 100), (1, 200), (2, 999)]);
    assert!(s.done);
}

#[test]
fn rgb_buffers_must_match_the_frame_size() {
    assert!(ExtractedFrame::new(0, Duration::zero(), 2, 2, vec![0; 12]).rgb_matches_dimensions());
    assert!(!ExtractedFrame::new(0, Duration::zero(), 2, 2, vec![0; 11]).rgb_matches_dimensions());
}

#[test]
fn intervals_resolve_to_their_plans() {
    let ten = Duration::from_secs(10);
    assert_eq!(
        expand(resolve_plan(&SamplingInterval::Every(Duration::from_secs(1)), None, ten, TB)),
        vec![0, 1000, 2000, 3000, 4000, 5000, 6000, 7000, 8000, 9000]
    );
    assert_eq!(expand(resolve_plan(&SamplingInterval::Count(4), None, Duration::from_secs(8), TB)), vec![1000, 3000, 5000, 7000]);
    assert!(expand(resolve_plan(&SamplingInterval::Count(5), None, Duration::zero(), TB)).is_empty());
    assert!(expand(resolve_plan(&SamplingInterval::Every(Duration::zero()), None, ten, TB)).is_empty());
    let range = Some((Duration::from_secs(3), Duration::from_secs(6)));
    assert_eq!(expand(resolve_plan(&SamplingInterval::Every(Duration::from_secs(1)), range, ten, TB)), vec![3000, 4000, 5000, 6000]);
    let stamps = SamplingInterval::Timestamps(vec![Duration::from_millis(900), Duration::from_millis(100), Duration::from_millis(900)]);
    assert_eq!(expand(resolve_plan(&stamps, None, ten, TB)), vec![100, 900]);
    match resolve_plan(&SamplingInterval::EveryNFrames(3), Some((Duration::from_secs(2), Duration::from_secs(6))), ten, TB) {
        Plan::EveryN { n, start_ts, end_ts, frame_no, sought } => assert_eq!((n, start_ts, end_ts, frame_no, sought), (3, 2000, 6001, 0, false)),
        _ => panic!("expected an EveryN plan"),
    }
}
