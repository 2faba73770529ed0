use video4discord::decimal::decimal;
use video4discord::encode::{
    pass_one_arguments, pass_two_arguments, prepare_encode, AVOptions, AudioCodec, EncodePlan,
    EncodeRequest,
};
use video4discord::error::{Error, Stage};

fn request(div: u8, audio: u16, codec: AudioCodec) -> EncodeRequest {
    EncodeRequest {
        input_path: "in.mov".to_string(),
        output_path: "in_.mov".to_string(),
        resolution_divisor: div,
        target_size_kib: 8 * 1024,
        muxing_overhead_bp: 500,
        audio_bitrate_kbps: audio,
        audio_codec: codec,
        pass_log_path: "/tmp/run1/ffmpeg2pass".to_string(),
    }
}

fn plan(audio: u16) -> EncodePlan {
    EncodePlan {
        av_options: AVOptions { audio_bitrate: audio, video_bitrate: 560, audio_codec: "libopus".to_string() },
        div: 2,
        input_file: "in.mov".to_string(),
        output_file: "out.mp4".to_string(),
        pass_log_path: "/tmp/run1/ffmpeg2pass".to_string(),
    }
}

#[test]
fn decimal_formats_integers() {
    assert_eq!(decimal(0), "0");
    assert_eq!(decimal(560), "560");
    assert_eq!(decimal(u64::MAX), "18446744073709551615");
}

#[test]
fn plan_uses_solved_bitrate_and_codec() {
    let p = prepare_encode(request(2, 64, AudioCodec::Aac), 100, true).unwrap();
    assert_eq!(p.av_options.video_bitrate, 560);
    assert_eq!(p.av_options.audio_bitrate, 64);
    assert_eq!(p.av_options.audio_codec, "aac");
    assert_eq!(p.div, 2);
    assert_eq!(p.input_file, "in.mov");
    assert_eq!(p.output_file, "in_.mov");
    assert_eq!(p.pass_log_path, "/tmp/run1/ffmpeg2pass");
}

#[test]
fn plan_without_audio_spends_all_on_video() {
    let p = prepare_encode(request(1, 64, AudioCodec::Opus), 100, false).unwrap();
    assert_eq!(p.av_options.video_bitrate, 624);
    assert_eq!(p.av_options.audio_bitrate, 0);
    assert_eq!(p.av_options.audio_codec, "libopus");
}

#[test]
fn plan_errors() {
    assert!(matches!(prepare_encode(request(0, 64, AudioCodec::Opus), 100, true), Err(Error::InvalidRequest)));
    assert!(matches!(prepare_encode(request(2, 64, AudioCodec::Opus), 0, true), Err(Error::InvalidRequest)));
    assert!(matches!(prepare_encode(request(2, 64, AudioCodec::Opus), 3600, true), Err(Error::InfeasibleTarget)));
}

#[test]
fn pass_one_collects_statistics_and_discards_output() {
    let expected = [
        "-y", "-i", "in.mov", "-c:v", "libx264", "-b:v", "560k", "-pass", "1", "-passlogfile",
        "/tmp/run1/ffmpeg2pass", "-vf", "scale=iw/2:-1", "-vsync", "cfr", "-f", "null", "-",
    ];
    assert_eq!(pass_one_arguments(&plan(64)), expected);
}

#[test]
fn pass_two_encodes_audio() {
    let expected = [
        "-y", "-i", "in.mov", "-c:v", "libx264", "-b:v", "560k", "-pass", "2", "-passlogfile",
        "/tmp/run1/ffmpeg2pass", "-vf", "scale=iw/2:-1", "-c:a", "libopus", "-b:a", "64k", "out.mp4",
    ];
    assert_eq!(pass_two_arguments(&plan(64)), expected);
}

#[test]
fn pass_two_drops_audio_at_zero_bitrate() {
    let expected = [
        "-y", "-i", "in.mov", "-c:v", "libx264", "-b:v", "560k", "-pass", "2", "-passlogfile",
        "/tmp/run1/ffmpeg2pass", "-vf", "scale=iw/2:-1", "-an", "out.mp4",
    ];
    assert_eq!(pass_two_arguments(&plan(0)), expected);
}

#[test]
fn stage_names() {
    assert_eq!(Stage::Pass1.name(), "pass1");
    assert_eq!(Stage::Pass2.name(), "pass2");
    assert_eq!(AudioCodec::Opus.encoder_name(), "libopus");
}
