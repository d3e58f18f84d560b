//! The ffmpeg ingest: the command line that converts an input URL to raw
//! PCM, and the report of an ffmpeg run that ended.

use vstd::prelude::*;
use vstd::string::*;

use crate::text::{chars_of, decimal, decimal_text, string_from, trim, trim_chars};

verus! {

/// The most characters of ffmpeg's error output that a report quotes.
pub const STDERR_EXCERPT_CHARS: usize = 600;

/// The character views of a list of strings.
pub open spec fn strings_view(v: Seq<String>) -> Seq<Seq<char>> {
    v.map_values(|s: String| s@)
}

/// The ffmpeg arguments that read `url` and write `f32le` PCM at `rate`
/// samples per second and `channels` channels to standard output.
pub open spec fn ffmpeg_arg_list(url: Seq<char>, rate: Seq<char>, channels: Seq<char>) -> Seq<
    Seq<char>,
> {
    seq![
        "-hide_banner"@,
        "-loglevel"@,
        "warning"@,
        "-fflags"@,
        "+genpts+discardcorrupt"@,
        "-flags"@,
        "low_delay"@,
        "-max_delay"@,
        "500000"@,
        "-thread_queue_size"@,
        "4096"@,
        "-i"@,
        url,
        "-vn"@,
        "-sn"@,
        "-dn"@,
        "-af"@,
        "aresample=async=1:min_hard_comp=0.100:first_pts=0"@,
        "-f"@,
        "f32le"@,
        "-ar"@,
        rate,
        "-ac"@,
        channels,
        "-acodec"@,
        "pcm_f32le"@,
        "pipe:1"@,
    ]
}

/// The text of the error for a blank input URL.
pub open spec fn empty_url_error() -> Seq<char> {
    "FFMPEG_INPUT_URL is empty while AUDIO_INPUT_MODE=ffmpeg_url"@
}

/// The ffmpeg arguments for one ingest run; a blank input URL is refused.
pub fn ffmpeg_args(input_url: &str, sample_rate: u32, channels: u32) -> (r: Result<
    Vec<String>,
    String,
>)
    ensures
        r is Err <==> trim(input_url@).len() == 0,
        r matches Err(e) ==> e@ == empty_url_error(),
        r matches Ok(args) ==> strings_view(args@) == ffmpeg_arg_list(
            input_url@,
            decimal(sample_rate as nat),
            decimal(channels as nat),
        ),
        r matches Ok(args) ==> {
            &&& args@.len() == 27
            &&& args@[11]@ == "-i"@ && args@[12]@ == input_url@
            &&& args@[18]@ == "-f"@ && args@[19]@ == "f32le"@
            &&& args@[20]@ == "-ar"@ && crate::text::parse_u32(args@[21]@) == Some(sample_rate)
            &&& args@[22]@ == "-ac"@ && crate::text::parse_u32(args@[23]@) == Some(channels)
            &&& args@[24]@ == "-acodec"@ && args@[25]@ == "pcm_f32le"@
            &&& args@[26]@ == "pipe:1"@
        },
{
    let url_chars = chars_of(input_url);
    let trimmed = trim_chars(&url_chars);
    if trimmed.len() == 0 {
        return Err("FFMPEG_INPUT_URL is empty while AUDIO_INPUT_MODE=ffmpeg_url".to_owned());
    }
    let mut args: Vec<String> = Vec::new();
    args.push("-hide_banner".to_owned());
    args.push("-loglevel".to_owned());
    args.push("warning".to_owned());
    args.push("-fflags".to_owned());
    args.push("+genpts+discardcorrupt".to_owned());
    args.push("-flags".to_owned());
    args.push("low_delay".to_owned());
    args.push("-max_delay".to_owned());
    args.push("500000".to_owned());
    args.push("-thread_queue_size".to_owned());
    args.push("4096".to_owned());
    args.push("-i".to_owned());
    args.push(input_url.to_owned());
    args.push("-vn".to_owned());
    args.push("-sn".to_owned());
    args.push("-dn".to_owned());
    args.push("-af".to_owned());
    args.push("aresample=async=1:min_hard_comp=0.100:first_pts=0".to_owned());
    args.push("-f".to_owned());
    args.push("f32le".to_owned());
    args.push("-ar".to_owned());
    args.push(decimal_text(sample_rate));
    args.push("-ac".to_owned());
    args.push(decimal_text(channels));
    args.push("-acodec".to_owned());
    args.push("pcm_f32le".to_owned());
    args.push("pipe:1".to_owned());
    assert(strings_view(args@) =~= ffmpeg_arg_list(
        input_url@,
        decimal(sample_rate as nat),
        decimal(channels as nat),
    ));
    proof {
        law_ffmpeg_output_flags(input_url@, sample_rate, channels);
        assert forall|i: int| 0 <= i < 27 implies #[trigger] args@[i]@ == strings_view(args@)[i] by {}
    }
    Ok(args)
}

/// The part of ffmpeg's error output that a report quotes: the trimmed text,
/// cut to its last 600 characters behind `...` when it is longer.
pub open spec fn stderr_excerpt(text: Seq<char>) -> Seq<char> {
    let cleaned = trim(text);
    if cleaned.len() > 600 {
        "..."@ + cleaned.skip(cleaned.len() - 600)
    } else {
        cleaned
    }
}

/// The part of ffmpeg's error output that a report quotes.
pub fn summarize_stderr(stderr_text: &str) -> (r: String)
    ensures
        r@ == stderr_excerpt(stderr_text@),
{
    let v = chars_of(stderr_text);
    let cleaned = trim_chars(&v);
    if cleaned.len() == 0 {
        return String::new();
    }
    if cleaned.len() > STDERR_EXCERPT_CHARS {
        let start = cleaned.len() - STDERR_EXCERPT_CHARS;
        let mut out: Vec<char> = Vec::new();
        out.push('.');
        out.push('.');
        out.push('.');
        let mut i: usize = start;
        while i < cleaned.len()
            invariant
                start <= i <= cleaned.len(),
                start == cleaned.len() - 600,
                out@ == seq!['.', '.', '.'] + cleaned@.subrange(start as int, i as int),
            decreases cleaned.len() - i,
        {
            out.push(cleaned[i]);
            i = i + 1;
        }
        proof {
            reveal_strlit("...");
            assert(cleaned@.subrange(start as int, cleaned.len() as int) == cleaned@.skip(
                start as int,
            ));
        }
        string_from(&out)
    } else {
        string_from(&cleaned)
    }
}

/// The report of an ffmpeg run that ended, given the text of its exit status
/// and its error output.
pub open spec fn exit_report(status: Seq<char>, stderr_text: Seq<char>) -> Seq<char> {
    let excerpt = stderr_excerpt(stderr_text);
    if excerpt.len() == 0 {
        "ffmpeg exited with status: "@ + status
    } else {
        "ffmpeg exited with status: "@ + status + "; stderr: "@ + excerpt
    }
}

/// The report of an ffmpeg run that ended.
pub fn ffmpeg_exit_message(status: &str, stderr_text: &str) -> (r: String)
    ensures
        r@ == exit_report(status@, stderr_text@),
{
    let excerpt = summarize_stderr(stderr_text);
    let mut s = "ffmpeg exited with status: ".to_owned();
    s.append(status);
    if excerpt.as_str().is_empty() {
        s
    } else {
        s.append("; stderr: ");
        s.append(excerpt.as_str());
        s
    }
}

/// A quoted excerpt holds at most 600 characters of the error output behind
/// a three-character ellipsis, and short output is quoted whole.
pub proof fn law_excerpt_bounded(text: Seq<char>)
    ensures
        stderr_excerpt(text).len() <= 603,
        trim(text).len() <= 600 ==> stderr_excerpt(text) == trim(text),
{
    reveal_strlit("...");
}

/// What happened last in the ffmpeg ingest loop.
#[derive(Clone, Copy, Debug, PartialEq, Eq, Structural)]
pub enum IngestEvent {
    /// The loop has just started.
    Started,
    /// An ffmpeg run ended, however it ended.
    RunEnded,
    /// The pause before a retry is over.
    WaitEnded,
}

/// What the ffmpeg ingest loop does next.
#[derive(Clone, Copy, Debug, PartialEq, Eq, Structural)]
pub enum IngestStep {
    /// Start an ffmpeg run.
    RunFfmpeg,
    /// Pause this long, then retry.
    WaitThenRetry { millis: u64 },
    /// Leave the loop.
    Stop,
}

/// The pause between the end of an ffmpeg run and the next run.
pub const RETRY_DELAY_MILLIS: u64 = 1000;

/// The next step of the ffmpeg ingest loop: stop once a stop was requested;
/// otherwise run ffmpeg, and after every run pause a second and run again.
pub fn next_ingest_step(event: IngestEvent, stop_requested: bool) -> (r: IngestStep)
    ensures
        stop_requested ==> r == IngestStep::Stop,
        !stop_requested ==> r == (match event {
            IngestEvent::RunEnded => IngestStep::WaitThenRetry { millis: 1000 },
            _ => IngestStep::RunFfmpeg,
        }),
{
    if stop_requested {
        IngestStep::Stop
    } else {
        match event {
            IngestEvent::RunEnded => IngestStep::WaitThenRetry { millis: RETRY_DELAY_MILLIS },
            _ => IngestStep::RunFfmpeg,
        }
    }
}

/// Summarizing a summary changes nothing.
pub proof fn law_summary_idempotent(text: Seq<char>)
    ensures
        stderr_excerpt(stderr_excerpt(text)) == stderr_excerpt(text),
{
    reveal_strlit("...");
    let cleaned = trim(text);
    crate::text::law_trim_idempotent(text);
    if cleaned.len() > 600 {
        let e = "..."@ + cleaned.skip(cleaned.len() - 600);
        crate::text::lemma_trim_shape(text);
        assert(e[0] == '.');
        assert(e.last() == cleaned.last());
        crate::text::lemma_trim_fixed(e);
        assert(e.len() == 603);
        assert(e.skip(3) =~= cleaned.skip(cleaned.len() - 600));
        assert("..."@ + e.skip(e.len() - 600) =~= e);
    }
}

/// The output flags of an ffmpeg run: the input URL follows `-i`, the value
/// after `-ar` reads back as the sample rate and the value after `-ac` as
/// the channel count, the output format is `f32le` PCM, written to standard
/// output.
pub proof fn law_ffmpeg_output_flags(url: Seq<char>, sample_rate: u32, channels: u32)
    ensures
        ({
            let a = ffmpeg_arg_list(url, decimal(sample_rate as nat), decimal(channels as nat));
            &&& a.len() == 27
            &&& a[11] == "-i"@ && a[12] == url
            &&& a[18] == "-f"@ && a[19] == "f32le"@
            &&& a[20] == "-ar"@ && crate::text::parse_u32(a[21]) == Some(sample_rate)
            &&& a[22] == "-ac"@ && crate::text::parse_u32(a[23]) == Some(channels)
            &&& a[24] == "-acodec"@ && a[25] == "pcm_f32le"@
            &&& a[26] == "pipe:1"@
        }),
{
    crate::text::law_decimal_round_trip(sample_rate);
    crate::text::law_decimal_round_trip(channels);
}

} // verus!
