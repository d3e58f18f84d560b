use nekostream::ffmpeg::{ffmpeg_args, ffmpeg_exit_message, summarize_stderr};

#[test]
fn builds_arguments() {
    let args = ffmpeg_args("srt://0.0.0.0:9998?mode=listener", 48000, 2).unwrap();
    assert_eq!(args.len(), 27);
    assert_eq!(args[12], "srt://0.0.0.0:9998?mode=listener");
    assert_eq!(args[11], "-i");
    assert_eq!(args[21], "48000");
    assert_eq!(args[23], "2");
    assert_eq!(args[0], "-hide_banner");
    assert_eq!(args[26], "pipe:1");
}

#[test]
fn refuses_blank_url() {
    assert_eq!(
        ffmpeg_args(" \t", 48000, 2),
        Err("FFMPEG_INPUT_URL is empty while AUDIO_INPUT_MODE=ffmpeg_url".to_string())
    );
    assert_eq!(
        ffmpeg_args("", 48000, 2),
        Err("FFMPEG_INPUT_URL is empty while AUDIO_INPUT_MODE=ffmpeg_url".to_string())
    );
    assert!(ffmpeg_args(" x ", 1, 1).is_ok());
}

#[test]
fn summarizes_error_output() {
    assert_eq!(summarize_stderr("  \n "), "");
    assert_eq!(summarize_stderr("  broken pipe \n"), "broken pipe");
    let long: String = std::iter::repeat('a').take(700).chain("END".chars()).collect();
    let s = summarize_stderr(&long);
    assert!(s.starts_with("..."));
    assert_eq!(s.chars().count(), 603);
    assert!(s.ends_with("END"));
    let exact: String = std::iter::repeat('é').take(600).collect();
    assert_eq!(summarize_stderr(&exact), exact);
}

#[test]
fn reports_exit() {
    assert_eq!(
        ffmpeg_exit_message("exit status: 1", ""),
        "ffmpeg exited with status: exit status: 1"
    );
    assert_eq!(
        ffmpeg_exit_message("exit status: 1", " bad input\n"),
        "ffmpeg exited with status: exit status: 1; stderr: bad input"
    );
}

#[test]
fn summarizing_twice_changes_nothing() {
    let long: String = std::iter::repeat('x').take(900).chain(" \n".chars()).collect();
    for s in [" a \n", "", long.as_str()] {
        let once = summarize_stderr(s);
        assert_eq!(summarize_stderr(&once), once);
    }
}
