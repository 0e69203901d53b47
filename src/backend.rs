//! Decisions about the transcoder that turns the merged stream into the
//! output file: which backend, which hardware acceleration, which arguments.

use vstd::prelude::*;
use crate::error::FetchError;
use crate::naming::{decimal, decimal_string};

verus! {

/// The video encoder family that the general-purpose encoder offers.
#[derive(Debug, Clone, Copy, PartialEq, Eq, Structural)]
pub enum AccelType {
    Nvidia,
    Amd,
    Cpu,
}

/// The transcoder backend of a run.
#[derive(Debug, Clone, Copy, PartialEq, Eq, Structural)]
pub enum TranscoderKind {
    Ffmpeg(AccelType),
    AndroidHardware,
}

/// Whether `needle` occurs in `hay` starting at `i`.
pub open spec fn occurs_at(hay: Seq<u8>, needle: Seq<u8>, i: int) -> bool {
    0 <= i && i + needle.len() <= hay.len() && hay.subrange(i, i + needle.len()) == needle
}

/// Whether `needle` occurs anywhere in `hay`.
pub open spec fn contains(hay: Seq<u8>, needle: Seq<u8>) -> bool {
    exists|i: int| #[trigger] occurs_at(hay, needle, i)
}

/// The name of the NVIDIA hardware H.264 encoder, `h264_nvenc`, in ASCII.
pub open spec fn nvenc_name() -> Seq<u8> {
    seq![104u8, 50, 54, 52, 95, 110, 118, 101, 110, 99]
}

/// The name of the AMD hardware H.264 encoder, `h264_amf`, in ASCII.
pub open spec fn amf_name() -> Seq<u8> {
    seq![104u8, 50, 54, 52, 95, 97, 109, 102]
}

/// The acceleration that an encoder listing offers.
pub open spec fn accel_spec(listing: Seq<u8>) -> AccelType {
    if contains(listing, nvenc_name()) {
        AccelType::Nvidia
    } else if contains(listing, amf_name()) {
        AccelType::Amd
    } else {
        AccelType::Cpu
    }
}

fn occurs_here(hay: &[u8], needle: &[u8], i: usize) -> (r: bool)
    requires
        i + needle@.len() <= hay@.len(),
    ensures
        r == occurs_at(hay@, needle@, i as int),
{
    let h = hay.len();
    let mut k: usize = 0;
    while k < needle.len()
        invariant
            h == hay@.len(),
            i + needle@.len() <= hay@.len(),
            k <= needle@.len(),
            forall|j: int| 0 <= j < k ==> hay@[i + j] == needle@[j],
        decreases needle@.len() - k,
    {
        if hay[i + k] != needle[k] {
            assert(hay@.subrange(i as int, i + needle@.len())[k as int] != needle@[k as int]);
            return false;
        }
        k = k + 1;
    }
    assert(hay@.subrange(i as int, i + needle@.len()) =~= needle@);
    true
}

/// Whether `needle` occurs in `hay`.
pub fn contains_bytes(hay: &[u8], needle: &[u8]) -> (r: bool)
    ensures
        r == contains(hay@, needle@),
{
    if needle.len() > hay.len() {
        assert forall|i: int| !occurs_at(hay@, needle@, i) by {}
        return false;
    }
    if needle.len() == 0 {
        assert(hay@.subrange(0, 0) =~= needle@);
        assert(occurs_at(hay@, needle@, 0));
        return true;
    }
    let h = hay.len();
    let last = h - needle.len();
    let mut i: usize = 0;
    while i <= last
        invariant
            h == hay@.len(),
            last == hay@.len() - needle@.len(),
            needle@.len() >= 1,
            i <= last + 1,
            forall|j: int| 0 <= j < i ==> !occurs_at(hay@, needle@, j),
        decreases last + 1 - i,
    {
        if occurs_here(hay, needle, i) {
            return true;
        }
        i = i + 1;
    }
    assert forall|j: int| !occurs_at(hay@, needle@, j) by {
        if 0 <= j < i {
        }
    }
    false
}

/// The acceleration offered by the encoder listing `listing` (the output of
/// the encoder's list of encoders).
pub fn accel_from_encoders(listing: &[u8]) -> (r: AccelType)
    ensures
        r == accel_spec(listing@),
{
    let nvenc: Vec<u8> = vec![104u8, 50, 54, 52, 95, 110, 118, 101, 110, 99];
    let amf: Vec<u8> = vec![104u8, 50, 54, 52, 95, 97, 109, 102];
    assert(nvenc@ =~= nvenc_name());
    assert(amf@ =~= amf_name());
    if contains_bytes(listing, nvenc.as_slice()) {
        AccelType::Nvidia
    } else if contains_bytes(listing, amf.as_slice()) {
        AccelType::Amd
    } else {
        AccelType::Cpu
    }
}

/// The backend of a run: the general-purpose encoder when it is installed,
/// else the platform hardware codec when the platform has one registered.
pub open spec fn backend_spec(
    encoder_installed: bool,
    accel: AccelType,
    platform_codec: bool,
) -> Result<TranscoderKind, FetchError> {
    if encoder_installed {
        Ok(TranscoderKind::Ffmpeg(accel))
    } else if platform_codec {
        Ok(TranscoderKind::AndroidHardware)
    } else {
        Err(FetchError::NoBackend)
    }
}

/// Choose the backend, before any network activity.
pub fn choose_backend(encoder_installed: bool, accel: AccelType, platform_codec: bool) -> (r: Result<
    TranscoderKind,
    FetchError,
>)
    ensures
        r == backend_spec(encoder_installed, accel, platform_codec),
{
    if encoder_installed {
        Ok(TranscoderKind::Ffmpeg(accel))
    } else if platform_codec {
        Ok(TranscoderKind::AndroidHardware)
    } else {
        Err(FetchError::NoBackend)
    }
}

pub open spec fn strings_view(v: Seq<String>) -> Seq<Seq<char>> {
    v.map_values(|s: String| s@)
}

/// The encoder arguments that select the acceleration and name the input.
pub open spec fn accel_args(accel: AccelType, input: Seq<char>) -> Seq<Seq<char>> {
    match accel {
        AccelType::Nvidia => seq![
            "-hwaccel"@, "cuda"@, "-hwaccel_output_format"@, "cuda"@, "-c:v"@, "h264_cuvid"@,
            "-i"@, input, "-c:a"@, "aac"@, "-b:a"@, "320k"@, "-c:v"@, "h264_nvenc"@,
            "-preset"@, "p3"@, "-rc"@, "vbr"@,
        ],
        AccelType::Amd => seq![
            "-i"@, input, "-c:a"@, "aac"@, "-b:a"@, "320k"@, "-c:v"@, "h264_amf"@, "-rc"@,
            "vbr"@,
        ],
        AccelType::Cpu => seq![
            "-i"@, input, "-c:a"@, "aac"@, "-c:v"@, "libx264"@, "-preset"@, "medium"@,
        ],
    }
}

/// The full argument list of the general-purpose encoder: quiet banner,
/// acceleration and input, the video and audio bitrates when they are asked
/// for (in kilobits per second; zero leaves the encoder's default), and the
/// output.
pub open spec fn encoder_args_spec(
    accel: AccelType,
    input: Seq<char>,
    output: Seq<char>,
    video_kbps: nat,
    audio_kbps: nat,
) -> Seq<Seq<char>> {
    seq!["-hide_banner"@, "-loglevel"@, "info"@] + accel_args(accel, input) + (if video_kbps > 0 {
        seq!["-b:v"@, decimal(video_kbps) + "k"@]
    } else {
        Seq::empty()
    }) + (if audio_kbps > 0 {
        seq!["-b:a"@, decimal(audio_kbps) + "k"@]
    } else {
        Seq::empty()
    }) + seq![output]
}

fn push_arg(args: &mut Vec<String>, a: &str)
    ensures
        strings_view(final(args)@) == strings_view(old(args)@).push(a@),
{
    args.push(String::from_str(a));
    assert(strings_view(args@) =~= strings_view(old(args)@).push(a@));
}

fn kbps(v: u32) -> (r: String)
    ensures
        r@ == decimal(v as nat) + "k"@,
{
    let d = decimal_string(v as u64);
    d.concat("k")
}

/// The arguments with which the general-purpose encoder turns `input` into
/// `output`.
pub fn encoder_args(accel: AccelType, input: &str, output: &str, video_kbps: u32, audio_kbps: u32) -> (r: Vec<String>)
    ensures
        strings_view(r@) == encoder_args_spec(accel, input@, output@, video_kbps as nat, audio_kbps as nat),
{
    let mut args: Vec<String> = Vec::new();
    push_arg(&mut args, "-hide_banner");
    push_arg(&mut args, "-loglevel");
    push_arg(&mut args, "info");
    let ghost head = strings_view(args@);
    match accel {
        AccelType::Nvidia => {
            push_arg(&mut args, "-hwaccel");
            push_arg(&mut args, "cuda");
            push_arg(&mut args, "-hwaccel_output_format");
            push_arg(&mut args, "cuda");
            push_arg(&mut args, "-c:v");
            push_arg(&mut args, "h264_cuvid");
            push_arg(&mut args, "-i");
            push_arg(&mut args, input);
            push_arg(&mut args, "-c:a");
            push_arg(&mut args, "aac");
            push_arg(&mut args, "-b:a");
            push_arg(&mut args, "320k");
            push_arg(&mut args, "-c:v");
            push_arg(&mut args, "h264_nvenc");
            push_arg(&mut args, "-preset");
            push_arg(&mut args, "p3");
            push_arg(&mut args, "-rc");
            push_arg(&mut args, "vbr");
        },
        AccelType::Amd => {
            push_arg(&mut args, "-i");
            push_arg(&mut args, input);
            push_arg(&mut args, "-c:a");
            push_arg(&mut args, "aac");
            push_arg(&mut args, "-b:a");
            push_arg(&mut args, "320k");
            push_arg(&mut args, "-c:v");
            push_arg(&mut args, "h264_amf");
            push_arg(&mut args, "-rc");
            push_arg(&mut args, "vbr");
        },
        AccelType::Cpu => {
            push_arg(&mut args, "-i");
            push_arg(&mut args, input);
            push_arg(&mut args, "-c:a");
            push_arg(&mut args, "aac");
            push_arg(&mut args, "-c:v");
            push_arg(&mut args, "libx264");
            push_arg(&mut args, "-preset");
            push_arg(&mut args, "medium");
        },
    }
    assert(strings_view(args@) =~= seq!["-hide_banner"@, "-loglevel"@, "info"@] + accel_args(accel, input@));
    let ghost mid = strings_view(args@);
    if video_kbps > 0 {
        push_arg(&mut args, "-b:v");
        let v = kbps(video_kbps);
        push_arg(&mut args, v.as_str());
        assert(strings_view(args@) =~= mid + seq!["-b:v"@, decimal(video_kbps as nat) + "k"@]);
    } else {
        assert(mid + Seq::<Seq<char>>::empty() =~= mid);
    }
    let ghost tail = strings_view(args@);
    if audio_kbps > 0 {
        push_arg(&mut args, "-b:a");
        let a = kbps(audio_kbps);
        push_arg(&mut args, a.as_str());
        assert(strings_view(args@) =~= tail + seq!["-b:a"@, decimal(audio_kbps as nat) + "k"@]);
    } else {
        assert(tail + Seq::<Seq<char>>::empty() =~= tail);
    }
    push_arg(&mut args, output);
    assert(strings_view(args@) =~= encoder_args_spec(accel, input@, output@, video_kbps as nat, audio_kbps as nat));
    args
}

} // verus!
