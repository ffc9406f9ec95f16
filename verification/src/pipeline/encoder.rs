//! Encoder settings and the muxing command that joins the raw streams.
use vstd::prelude::*;
use crate::text::{decimal, decimal_chars, owned, push_chars, string_of, views};

verus! {

/// Codec for video encoding.
#[derive(Debug, Clone, Copy, PartialEq, Eq, Structural)]
pub enum VideoCodec {
    H264,
    Hevc,
    Av1,
}

impl Default for VideoCodec {
    /// H.264.
    fn default() -> (c: Self)
        ensures
            c == VideoCodec::H264,
    {
        VideoCodec::H264
    }
}

/// Audio codec for the muxed container.
#[derive(Debug, Clone, Copy, PartialEq, Eq, Structural)]
pub enum AudioCodec {
    Aac,
    Opus,
}

impl Default for AudioCodec {
    /// AAC.
    fn default() -> (c: Self)
        ensures
            c == AudioCodec::Aac,
    {
        AudioCodec::Aac
    }
}

/// Encoder configuration.
#[derive(Debug, Clone, Copy, PartialEq, Eq, Structural)]
pub struct EncoderConfig {
    pub video_codec: VideoCodec,
    pub audio_codec: AudioCodec,
    pub crf: u8,
    pub fps: u32,
    /// Frame width; 0 means 1920.
    pub width: u32,
    /// Frame height; 0 means 1080.
    pub height: u32,
    pub hardware_accel: bool,
}

impl Default for EncoderConfig {
    /// H.264/AAC at CRF 18 and 30 fps, size taken from the frames, hardware acceleration on.
    fn default() -> (c: Self)
        ensures
            c == (EncoderConfig {
                video_codec: VideoCodec::H264,
                audio_codec: AudioCodec::Aac,
                crf: 18,
                fps: 30,
                width: 0,
                height: 0,
                hardware_accel: true,
            }),
    {
        EncoderConfig {
            video_codec: VideoCodec::H264,
            audio_codec: AudioCodec::Aac,
            crf: 18,
            fps: 30,
            width: 0,
            height: 0,
            hardware_accel: true,
        }
    }
}

impl EncoderConfig {
    /// The frame size the raw video stream is read with: 1920×1080 where unset.
    pub open spec fn spec_mux_size(&self) -> (u32, u32) {
        (if self.width == 0 { 1920 } else { self.width }, if self.height == 0 { 1080 } else { self.height })
    }

    /// The frame size the raw video stream is read with.
    pub fn mux_size(&self) -> (r: (u32, u32))
        ensures
            r == self.spec_mux_size(),
    {
        let w = if self.width == 0 { 1920 } else { self.width };
        let h = if self.height == 0 { 1080 } else { self.height };
        (w, h)
    }
}

/// The ffmpeg arguments that mux the raw audio (f32, 48 kHz stereo) and raw
/// video (BGRA) streams into an H.264/AAC file.
pub open spec fn spec_mux_args(config: EncoderConfig, audio_path: Seq<char>, video_path: Seq<char>, output_path: Seq<char>) -> Seq<Seq<char>> {
    let (w, h) = config.spec_mux_size();
    seq![
        "-y"@, "-f"@, "f32le"@, "-ar"@, "48000"@, "-ac"@, "2"@, "-i"@, audio_path,
        "-f"@, "rawvideo"@, "-pix_fmt"@, "bgra"@, "-s"@, decimal(w as nat) + seq!['x'] + decimal(h as nat),
        "-r"@, decimal(config.fps as nat), "-i"@, video_path,
        "-c:v"@, "libx264"@, "-preset"@, "ultrafast"@, "-crf"@, decimal(config.crf as nat),
        "-c:a"@, "aac"@, output_path,
    ]
}

fn push_arg(args: &mut Vec<String>, a: &str)
    ensures
        views(final(args)@) == views(old(args)@).push(a@),
{
    let ghost before = args@;
    args.push(owned(a));
    assert(views(args@) =~= views(before).push(a@));
}

fn push_owned(args: &mut Vec<String>, a: String)
    ensures
        views(final(args)@) == views(old(args)@).push(a@),
{
    let ghost before = args@;
    args.push(a);
    assert(views(args@) =~= views(before).push(a@));
}

/// Builds the muxing command's arguments.
pub fn mux_args(config: &EncoderConfig, audio_path: &str, video_path: &str, output_path: &str) -> (r: Vec<String>)
    ensures
        views(r@) == spec_mux_args(*config, audio_path@, video_path@, output_path@),
{
    let (w, h) = config.mux_size();
    let mut size = string_of(decimal_chars(w as u64).as_slice());
    crate::text::push_char(&mut size, 'x');
    push_chars(&mut size, decimal_chars(h as u64).as_slice());
    assert(size@ =~= decimal(w as nat) + seq!['x'] + decimal(h as nat));
    let fps = string_of(decimal_chars(config.fps as u64).as_slice());
    let crf = string_of(decimal_chars(config.crf as u64).as_slice());
    let mut a: Vec<String> = Vec::new();
    assert(views(a@) =~= Seq::<Seq<char>>::empty());
    push_arg(&mut a, "-y");
    push_arg(&mut a, "-f");
    push_arg(&mut a, "f32le");
    push_arg(&mut a, "-ar");
    push_arg(&mut a, "48000");
    push_arg(&mut a, "-ac");
    push_arg(&mut a, "2");
    push_arg(&mut a, "-i");
    push_arg(&mut a, audio_path);
    push_arg(&mut a, "-f");
    push_arg(&mut a, "rawvideo");
    push_arg(&mut a, "-pix_fmt");
    push_arg(&mut a, "bgra");
    push_arg(&mut a, "-s");
    push_owned(&mut a, size);
    push_arg(&mut a, "-r");
    push_owned(&mut a, fps);
    push_arg(&mut a, "-i");
    push_arg(&mut a, video_path);
    push_arg(&mut a, "-c:v");
    push_arg(&mut a, "libx264");
    push_arg(&mut a, "-preset");
    push_arg(&mut a, "ultrafast");
    push_arg(&mut a, "-crf");
    push_owned(&mut a, crf);
    push_arg(&mut a, "-c:a");
    push_arg(&mut a, "aac");
    push_arg(&mut a, output_path);
    assert(views(a@) =~= spec_mux_args(*config, audio_path@, video_path@, output_path@));
    a
}

/// The encoder's run state: whether it accepts frames and how many it took.
pub struct Encoder {
    pub running: bool,
    pub frame_count: u64,
}

impl Encoder {
    /// Not running, no frames.
    pub fn new() -> (s: Self)
        ensures
            !s.running,
            s.frame_count == 0,
    {
        Encoder { running: false, frame_count: 0 }
    }

    /// Starts accepting frames.
    pub fn start(&mut self)
        ensures
            final(self).running,
            final(self).frame_count == old(self).frame_count,
    {
        self.running = true;
    }

    /// Decides whether a pushed frame is written (only while running), counting it.
    pub fn accept_frame(&mut self) -> (written: bool)
        requires
            old(self).running ==> old(self).frame_count < u64::MAX,
        ensures
            written == old(self).running,
            final(self).running == old(self).running,
            final(self).frame_count == old(self).frame_count + if old(self).running { 1int } else { 0int },
    {
        if !self.running {
            return false;
        }
        self.frame_count = self.frame_count + 1;
        true
    }

    /// Decides whether a pushed audio chunk is written (only while running).
    pub fn accept_audio(&self) -> (written: bool)
        ensures
            written == self.running,
    {
        self.running
    }

    /// Stops accepting frames; returns the number of frames written.
    pub fn finish(&mut self) -> (frames: u64)
        ensures
            !final(self).running,
            frames == old(self).frame_count,
            final(self).frame_count == old(self).frame_count,
    {
        self.running = false;
        self.frame_count
    }
}

} // verus!
