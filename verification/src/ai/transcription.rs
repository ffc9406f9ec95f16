//! Local transcription through Whisper command-line tools: the command lines, the
//! order the backends are tried in, and which output counts as the transcript.
//!
//! The audio is first converted to 16 kHz mono WAV with ffmpeg; then the
//! whisper.cpp binaries are tried in order, then the Python package. A run
//! counts when it succeeds and leaves non-blank text, on standard output or in
//! the text file it writes beside its input.
use vstd::prelude::*;
use crate::text::{chars_of, owned, string_of, trim, trim_chars, views};

verus! {

/// Where the whisper.cpp English base model is downloaded from.
pub const MODEL_URL: &'static str = "https://huggingface.co/ggerganov/whisper.cpp/resolve/main/ggml-base.en.bin";

/// The model's file name.
pub const MODEL_FILE: &'static str = "ggml-base.en.bin";

/// The number of whisper.cpp binary names tried.
pub const WHISPER_BINARY_COUNT: usize = 3;

/// The whisper.cpp binary names, in the order they are tried.
pub open spec fn whisper_binaries() -> Seq<Seq<char>> {
    seq!["whisper-cli"@, "whisper-cpp"@, "main"@]
}

/// The `i`-th whisper.cpp binary name.
pub fn whisper_binary(i: usize) -> (s: &'static str)
    requires
        i < WHISPER_BINARY_COUNT,
    ensures
        s@ == whisper_binaries()[i as int],
{
    match i {
        0 => "whisper-cli",
        1 => "whisper-cpp",
        _ => "main",
    }
}

/// The Python interpreters tried for the `whisper` package, in order.
pub open spec fn python_binaries() -> Seq<Seq<char>> {
    seq!["python"@, "python3"@]
}

/// The `i`-th Python interpreter name.
pub fn python_binary(i: usize) -> (s: &'static str)
    requires
        i < 2,
    ensures
        s@ == python_binaries()[i as int],
{
    if i == 0 { "python" } else { "python3" }
}

fn args_of(parts: &[&str]) -> (v: Vec<String>)
    ensures
        v@.len() == parts@.len(),
        forall|i: int| 0 <= i < parts@.len() ==> #[trigger] v@[i]@ == parts@[i]@,
{
    let mut v: Vec<String> = Vec::new();
    let mut i: usize = 0;
    while i < parts.len()
        invariant
            i <= parts@.len(),
            v@.len() == i,
            forall|k: int| 0 <= k < i ==> #[trigger] v@[k]@ == parts@[k]@,
        decreases parts@.len() - i,
    {
        v.push(owned(parts[i]));
        i = i + 1;
    }
    v
}

/// ffmpeg's arguments to convert `input` to 16 kHz mono WAV at `wav_out`.
pub fn convert_args(input: &str, wav_out: &str) -> (a: Vec<String>)
    ensures
        views(a@) == seq!["-y"@, "-i"@, input@, "-ar"@, "16000"@, "-ac"@, "1"@, "-f"@, "wav"@, wav_out@],
{
    let parts = ["-y", "-i", input, "-ar", "16000", "-ac", "1", "-f", "wav", wav_out];
    let a = args_of(&parts);
    assert(views(a@) =~= seq!["-y"@, "-i"@, input@, "-ar"@, "16000"@, "-ac"@, "1"@, "-f"@, "wav"@, wav_out@]);
    a
}

/// A whisper.cpp binary's arguments: the model, the WAV file, plain text
/// without progress output or timestamps.
pub fn whisper_cpp_args(model: &str, wav: &str) -> (a: Vec<String>)
    ensures
        views(a@) == seq!["-m"@, model@, "-f"@, wav@, "--output-txt"@, "--no-prints"@, "--no-timestamps"@],
{
    let parts = ["-m", model, "-f", wav, "--output-txt", "--no-prints", "--no-timestamps"];
    let a = args_of(&parts);
    assert(views(a@) =~= seq!["-m"@, model@, "-f"@, wav@, "--output-txt"@, "--no-prints"@, "--no-timestamps"@]);
    a
}

/// The Python package's arguments: the English base model, plain text written to
/// `out_dir`, without half precision.
pub fn python_whisper_args(wav: &str, out_dir: &str) -> (a: Vec<String>)
    ensures
        views(a@) == seq!["-m"@, "whisper"@, wav@, "--model"@, "base.en"@, "--output_format"@, "txt"@,
            "--output_dir"@, out_dir@, "--fp16"@, "False"@],
{
    let parts = ["-m", "whisper", wav, "--model", "base.en", "--output_format", "txt", "--output_dir", out_dir, "--fp16", "False"];
    let a = args_of(&parts);
    assert(views(a@) =~= seq!["-m"@, "whisper"@, wav@, "--model"@, "base.en"@, "--output_format"@, "txt"@,
        "--output_dir"@, out_dir@, "--fp16"@, "False"@]);
    a
}

/// The transcript of a successful whisper.cpp run: its trimmed standard output
/// when that is not blank, else the trimmed text file it wrote, when there is one
/// and it is not blank.
pub open spec fn spec_cpp_transcript(stdout: Seq<char>, sidecar: Option<Seq<char>>) -> Option<Seq<char>> {
    if trim(stdout).len() > 0 {
        Some(trim(stdout))
    } else {
        match sidecar {
            Some(t) => if trim(t).len() > 0 { Some(trim(t)) } else { None },
            None => None,
        }
    }
}

fn trimmed(s: &str) -> (t: String)
    ensures
        t@ == trim(s@),
{
    let cs = chars_of(s);
    let r = trim_chars(cs.as_slice());
    string_of(r.as_slice())
}

/// The transcript a successful whisper.cpp run produced, if any.
pub fn cpp_transcript(stdout: &str, sidecar: Option<&str>) -> (r: Option<String>)
    ensures
        match spec_cpp_transcript(stdout@, match sidecar { Some(s) => Some(s@), None => None }) {
            Some(t) => r matches Some(x) && x@ == t,
            None => r is None,
        },
{
    let out = trimmed(stdout);
    if !out.as_str().is_empty() {
        return Some(out);
    }
    match sidecar {
        Some(s) => {
            let t = trimmed(s);
            if t.as_str().is_empty() { None } else { Some(t) }
        },
        None => None,
    }
}

/// The transcript of a successful Python run: the trimmed text file it wrote,
/// when there is one and it is not blank.
pub fn python_transcript(written: Option<&str>) -> (r: Option<String>)
    ensures
        match written {
            Some(s) => if trim(s@).len() > 0 { r matches Some(x) && x@ == trim(s@) } else { r is None },
            None => r is None,
        },
{
    match written {
        Some(s) => {
            let t = trimmed(s);
            if t.as_str().is_empty() { None } else { Some(t) }
        },
        None => None,
    }
}

/// The error shown when no Whisper backend produced a transcript.
pub fn no_backend_message(model_dir: &str) -> (s: String)
    ensures
        s@ == "No Whisper backend found.\n\nTo enable local transcription, install one of:\n\nOption A — whisper.cpp (recommended, fast native binary):\n1. Download: https://github.com/ggerganov/whisper.cpp/releases\n2. Put whisper-cli.exe in your PATH\n3. Model auto-downloads to: "@
            + model_dir@ + "\n\nOption B — Python whisper:\n1. pip install openai-whisper\n2. Ensure python.exe is in PATH"@,
{
    let mut s = owned("No Whisper backend found.\n\nTo enable local transcription, install one of:\n\nOption A — whisper.cpp (recommended, fast native binary):\n1. Download: https://github.com/ggerganov/whisper.cpp/releases\n2. Put whisper-cli.exe in your PATH\n3. Model auto-downloads to: ");
    s.append(model_dir);
    s.append("\n\nOption B — Python whisper:\n1. pip install openai-whisper\n2. Ensure python.exe is in PATH");
    s
}

} // verus!
