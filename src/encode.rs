use crate::bitrate::{solve_video_bitrate, solved_bitrate, valid_solver_input};
use crate::decimal::{decimal, decimal_chars};
use crate::error::{Error, Stage};
use crate::probe::effective_audio_bitrate;
use vstd::prelude::*;

verus! {

/// Audio codecs offered for the output.
#[derive(Clone, Copy, Debug, PartialEq, Eq, Structural)]
pub enum AudioCodec {
    Opus,
    Aac,
}

pub open spec fn codec_encoder(c: AudioCodec) -> Seq<char> {
    match c {
        AudioCodec::Opus => "libopus"@,
        AudioCodec::Aac => "aac"@,
    }
}

impl AudioCodec {
    /// The encoder's name for this codec.
    pub fn encoder_name(&self) -> (r: &'static str)
        ensures
            r@ == codec_encoder(*self),
    {
        match self {
            AudioCodec::Opus => "libopus",
            AudioCodec::Aac => "aac",
        }
    }
}

/// Bitrates in kbps and the audio encoder handed to both passes. An audio bitrate of
/// zero drops the audio stream.
pub struct AVOptions {
    pub audio_bitrate: u16,
    pub video_bitrate: u64,
    pub audio_codec: String,
}

/// What a caller asks for. Sizes are in kibibytes and the overhead is in basis points
/// (hundredths of a percent) of the audio and video payload.
pub struct EncodeRequest {
    pub input_path: String,
    pub output_path: String,
    pub resolution_divisor: u8,
    pub target_size_kib: u32,
    pub muxing_overhead_bp: u32,
    pub audio_bitrate_kbps: u16,
    pub audio_codec: AudioCodec,
    pub pass_log_path: String,
}

/// Everything both encoder passes are invoked with.
pub struct EncodePlan {
    pub av_options: AVOptions,
    pub div: u8,
    pub input_file: String,
    pub output_file: String,
    pub pass_log_path: String,
}

/// Turns a request and the probed media into a plan: the audio budget is dropped for
/// an input without audio, and the video bitrate is solved against what remains.
pub fn prepare_encode(request: EncodeRequest, duration_secs: u64, has_audio: bool) -> (r: Result<
    EncodePlan,
    Error,
>)
    ensures
        ({
            let a: int = if has_audio { request.audio_bitrate_kbps as int } else { 0 };
            let valid = request.resolution_divisor > 0 && valid_solver_input(
                duration_secs as int,
                request.target_size_kib as int,
            );
            let v = solved_bitrate(
                duration_secs as int,
                request.target_size_kib as int,
                a,
                request.muxing_overhead_bp as int,
            );
            &&& !valid ==> r == Err::<EncodePlan, Error>(Error::InvalidRequest)
            &&& valid && v <= 0 ==> r == Err::<EncodePlan, Error>(Error::InfeasibleTarget)
            &&& valid && v > 0 ==> (r matches Ok(p) && {
                &&& p.av_options.video_bitrate == v
                &&& p.av_options.audio_bitrate == a
                &&& p.av_options.audio_codec@ == codec_encoder(request.audio_codec)
                &&& p.div == request.resolution_divisor
                &&& p.input_file == request.input_path
                &&& p.output_file == request.output_path
                &&& p.pass_log_path == request.pass_log_path
            })
        }),
{
    if request.resolution_divisor == 0 {
        return Err(Error::InvalidRequest);
    }
    let audio = effective_audio_bitrate(request.audio_bitrate_kbps, has_audio);
    let video = match solve_video_bitrate(
        duration_secs,
        request.target_size_kib,
        audio,
        request.muxing_overhead_bp,
    ) {
        Ok(v) => v,
        Err(e) => {
            return Err(e);
        },
    };
    let codec = String::from_str(request.audio_codec.encoder_name());
    Ok(EncodePlan {
        av_options: AVOptions { audio_bitrate: audio, video_bitrate: video, audio_codec: codec },
        div: request.resolution_divisor,
        input_file: request.input_path,
        output_file: request.output_path,
        pass_log_path: request.pass_log_path,
    })
}

pub open spec fn arg_views(v: Seq<String>) -> Seq<Seq<char>> {
    v.map_values(|s: String| s@)
}

/// A bitrate as the encoder reads it: `560k`.
pub open spec fn kbps_arg(kbps: nat) -> Seq<char> {
    decimal_chars(kbps) + seq!['k']
}

/// Width divided by `div`, height following the aspect ratio.
pub open spec fn scale_filter(div: nat) -> Seq<char> {
    "scale=iw/"@ + decimal_chars(div) + ":-1"@
}

/// Arguments shared by both passes: input, video codec and bitrate, pass number with
/// its statistics log, and the scaling filter.
pub open spec fn common_args(p: EncodePlan, pass: Seq<char>) -> Seq<Seq<char>> {
    seq![
        "-y"@,
        "-i"@,
        p.input_file@,
        "-c:v"@,
        "libx264"@,
        "-b:v"@,
        kbps_arg(p.av_options.video_bitrate as nat),
        "-pass"@,
        pass,
        "-passlogfile"@,
        p.pass_log_path@,
        "-vf"@,
        scale_filter(p.div as nat),
    ]
}

/// Pass one collects statistics at a constant frame rate and discards its output.
pub open spec fn pass_one_args(p: EncodePlan) -> Seq<Seq<char>> {
    common_args(p, "1"@) + seq!["-vsync"@, "cfr"@, "-f"@, "null"@, "-"@]
}

/// The audio part of pass two: codec and bitrate, or no audio stream at all.
pub open spec fn audio_args(p: EncodePlan) -> Seq<Seq<char>> {
    if p.av_options.audio_bitrate == 0 {
        seq!["-an"@]
    } else {
        seq![
            "-c:a"@,
            p.av_options.audio_codec@,
            "-b:a"@,
            kbps_arg(p.av_options.audio_bitrate as nat),
        ]
    }
}

/// Pass two writes the output file.
pub open spec fn pass_two_args(p: EncodePlan) -> Seq<Seq<char>> {
    common_args(p, "2"@) + audio_args(p) + seq![p.output_file@]
}

fn push_arg(args: &mut Vec<String>, a: String)
    ensures
        arg_views(final(args)@) == arg_views(old(args)@).push(a@),
{
    let ghost before = args@;
    let ghost view = a@;
    args.push(a);
    assert(arg_views(args@) =~= arg_views(before).push(view));
}

fn kbps_argument(kbps: u64) -> (r: String)
    ensures
        r@ == kbps_arg(kbps as nat),
{
    let mut r = decimal(kbps);
    proof {
        reveal_strlit("k");
    }
    r.append("k");
    assert(r@ =~= kbps_arg(kbps as nat));
    r
}

fn scale_argument(div: u8) -> (r: String)
    ensures
        r@ == scale_filter(div as nat),
{
    let mut r = String::from_str("scale=iw/");
    r.append(decimal(div as u64).as_str());
    r.append(":-1");
    r
}

fn common_arguments(plan: &EncodePlan, pass: &str) -> (r: Vec<String>)
    ensures
        arg_views(r@) == common_args(*plan, pass@),
{
    let mut args: Vec<String> = Vec::new();
    push_arg(&mut args, String::from_str("-y"));
    push_arg(&mut args, String::from_str("-i"));
    push_arg(&mut args, plan.input_file.clone());
    push_arg(&mut args, String::from_str("-c:v"));
    push_arg(&mut args, String::from_str("libx264"));
    push_arg(&mut args, String::from_str("-b:v"));
    push_arg(&mut args, kbps_argument(plan.av_options.video_bitrate));
    push_arg(&mut args, String::from_str("-pass"));
    push_arg(&mut args, String::from_str(pass));
    push_arg(&mut args, String::from_str("-passlogfile"));
    push_arg(&mut args, plan.pass_log_path.clone());
    push_arg(&mut args, String::from_str("-vf"));
    push_arg(&mut args, scale_argument(plan.div));
    assert(arg_views(args@) =~= common_args(*plan, pass@));
    args
}

/// The encoder's arguments for pass one.
pub fn pass_one_arguments(plan: &EncodePlan) -> (r: Vec<String>)
    ensures
        arg_views(r@) == pass_one_args(*plan),
{
    let mut args = common_arguments(plan, "1");
    push_arg(&mut args, String::from_str("-vsync"));
    push_arg(&mut args, String::from_str("cfr"));
    push_arg(&mut args, String::from_str("-f"));
    push_arg(&mut args, String::from_str("null"));
    push_arg(&mut args, String::from_str("-"));
    assert(arg_views(args@) =~= pass_one_args(*plan));
    args
}

/// The encoder's arguments for pass two.
pub fn pass_two_arguments(plan: &EncodePlan) -> (r: Vec<String>)
    ensures
        arg_views(r@) == pass_two_args(*plan),
{
    let mut args = common_arguments(plan, "2");
    let ghost common = arg_views(args@);
    if plan.av_options.audio_bitrate == 0 {
        push_arg(&mut args, String::from_str("-an"));
    } else {
        push_arg(&mut args, String::from_str("-c:a"));
        push_arg(&mut args, plan.av_options.audio_codec.clone());
        push_arg(&mut args, String::from_str("-b:a"));
        push_arg(&mut args, kbps_argument(plan.av_options.audio_bitrate as u64));
    }
    assert(arg_views(args@) =~= common + audio_args(*plan));
    push_arg(&mut args, plan.output_file.clone());
    assert(arg_views(args@) =~= pass_two_args(*plan));
    args
}

} // verus!
