use media::filter::{
    buffer_source_args, check_filter_description, AudioFilterChain, DenoiseLevel, VideoFilterChain, VideoInput,
};
use media::error::Error;
use media::rational::Rational;
use media::time::Duration;
use media::types::SampleRate;

#[test]
fn empty_chain_has_empty_description() {
    let chain = VideoFilterChain::new();
    assert!(chain.is_empty());
    assert_eq!(chain.description(), "");
}

#[test]
fn raw_chain_is_used_verbatim() {
    let chain = VideoFilterChain::raw("scale=1280:720,unsharp=5:5:1.0");
    assert!(!chain.is_empty());
    assert_eq!(chain.description(), "scale=1280:720,unsharp=5:5:1.0");
}

#[test]
fn operators_compose_in_order_joined_by_commas() {
    let chain = VideoFilterChain::new().scale(640, 360).fps(30).denoise(DenoiseLevel::Moderate);
    assert_eq!(chain.description(), "scale=640:360,fps=30,hqdn3d=4:4:9:9");
}

#[test]
fn denoise_levels_map_to_distinct_strengths() {
    assert_eq!(VideoFilterChain::new().denoise(DenoiseLevel::Light).description(), "hqdn3d=1.5:1.5:6:6");
    assert_eq!(VideoFilterChain::new().denoise(DenoiseLevel::Heavy).description(), "hqdn3d=8:8:12:12");
}

#[test]
fn audio_chain_empty_by_default() {
    let chain = AudioFilterChain::new();
    assert!(chain.is_empty());
    assert_eq!(chain.description(), "");
}

#[test]
fn audio_fades_and_resample() {
    let chain = AudioFilterChain::new()
        .resample(SampleRate::Hz44100)
        .fade_in(Duration::from_secs(2))
        .fade_out(Duration::from_secs(27), Duration::from_secs(3));
    assert_eq!(chain.description(), "aresample=44100,afade=t=in:st=0:d=2,afade=t=out:st=27:d=3");
}

#[test]
fn audio_raw_is_verbatim() {
    let chain = AudioFilterChain::raw("loudnorm=I=-16:TP=-1.5:LRA=11");
    assert!(!chain.is_empty());
    assert_eq!(chain.description(), "loudnorm=I=-16:TP=-1.5:LRA=11");
}

#[test]
fn fractional_fade_durations_print_exactly() {
    let chain = AudioFilterChain::new().fade_in(Duration::from_millis(1500)).fade_out(Duration::from_millis(250), Duration::from_millis(10));
    assert_eq!(chain.description(), "afade=t=in:st=0:d=1.5,afade=t=out:st=0.25:d=0.01");
}

#[test]
fn appended_stages_extend_the_description() {
    let chain = VideoFilterChain::raw("hflip").with_stage("vflip".to_string());
    assert_eq!(chain.description(), "hflip,vflip");
    let audio = AudioFilterChain::new().with_stage("volume=2".to_string());
    assert_eq!(audio.description(), "volume=2");
    let copy = chain.duplicate();
    assert_eq!(copy.description(), chain.description());
}

#[test]
fn buffer_source_args_describe_the_input() {
    let input = VideoInput {
        width: 1920,
        height: 1080,
        pix_fmt: 0,
        time_base: Rational::new(1, 90000),
        sample_aspect_ratio: Rational::new(0, 1),
    };
    assert_eq!(buffer_source_args(&input), "video_size=1920x1080:pix_fmt=0:time_base=1/90000:pixel_aspect=1/1");
    let odd = VideoInput {
        width: 640,
        height: 480,
        pix_fmt: 23,
        time_base: Rational::new(1, 0),
        sample_aspect_ratio: Rational::new(4, 0),
    };
    assert_eq!(buffer_source_args(&odd), "video_size=640x480:pix_fmt=23:time_base=1/1:pixel_aspect=4/1");
}

#[test]
fn nul_in_a_description_is_refused() {
    assert!(check_filter_description("scale=2:2").is_ok());
    assert!(matches!(check_filter_description("scale\0=2"), Err(Error::InvalidConfig("filter description has NUL"))));
}
