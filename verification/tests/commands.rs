use ytdlp_bridge::{
    download, download_invocation, download_video, fetch_formats, greet, inquiry_invocation,
    read_download, read_inquiry, video_invocation, ErrorKind, FormatSelection, Host, Invocation,
    Platform, ToolRun,
};

fn unix_host() -> Host {
    Host {
        platform: Platform::Unix,
        userprofile: None,
        xdg_download_dir: None,
        home: Some("/home/alice".to_string()),
    }
}

fn bare_host(platform: Platform) -> Host {
    Host { platform, userprofile: None, xdg_download_dir: None, home: None }
}

fn video_audio(video: &str, audio: &str) -> FormatSelection {
    FormatSelection::new(None, Some(video.to_string()), Some(audio.to_string()))
}

fn exited(success: bool, stdout: &str, stderr: &str) -> ToolRun {
    ToolRun::Exited {
        success,
        stdout: stdout.as_bytes().to_vec(),
        stderr: stderr.as_bytes().to_vec(),
    }
}

fn words(list: &[&str]) -> Vec<String> {
    list.iter().map(|w| w.to_string()).collect()
}

const TWO_FORMATS: &str = "{\"id\":\"abc\",\"title\":\"A clip\",\"formats\":[\
    {\"format_id\":\"137\",\"ext\":\"mp4\",\"vcodec\":\"avc1\",\"acodec\":\"none\",\"height\":1080},\
    {\"format_id\":\"140\",\"ext\":\"m4a\",\"vcodec\":\"none\",\"acodec\":\"mp4a\"}]}";

#[test]
fn inquiry_with_empty_url_launches_nothing() {
    let mut launches = 0;
    let result = fetch_formats("", |_invocation: Invocation| {
        launches += 1;
        exited(true, TWO_FORMATS, "")
    });
    let error = result.unwrap_err();
    assert_eq!(error.kind(), ErrorKind::Validation);
    assert_eq!(error.message(), "URL cannot be empty");
    assert_eq!(launches, 0);
}

#[test]
fn download_with_empty_url_launches_nothing() {
    let mut launches = 0;
    let result = download("", &video_audio("137", "140"), Some("/mnt/dl"), &unix_host(), |_i| {
        launches += 1;
        exited(true, "", "")
    });
    let error = result.unwrap_err();
    assert_eq!(error.kind(), ErrorKind::Validation);
    assert_eq!(error.message(), "URL cannot be empty");
    assert_eq!(launches, 0);
}

#[test]
fn download_with_empty_url_and_nothing_else_is_still_a_url_error() {
    let selection = FormatSelection::new(None, None, None);
    let error = download_invocation("", &selection, None, &bare_host(Platform::Other)).unwrap_err();
    assert_eq!(error.kind(), ErrorKind::Validation);
    assert_eq!(error.message(), "URL cannot be empty");
}

#[test]
fn download_without_selection_launches_nothing() {
    let mut launches = 0;
    let selection = FormatSelection::new(None, None, None);
    let result = download("https://example.com/v", &selection, None, &unix_host(), |_i| {
        launches += 1;
        exited(true, "", "")
    });
    let error = result.unwrap_err();
    assert_eq!(error.kind(), ErrorKind::Validation);
    assert_eq!(error.message(), "No format selected");
    assert_eq!(launches, 0);
}

#[test]
fn download_without_directory_launches_nothing() {
    let mut launches = 0;
    let host = bare_host(Platform::Unix);
    let result = download("https://example.com/v", &video_audio("137", "140"), None, &host, |_i| {
        launches += 1;
        exited(true, "", "")
    });
    let error = result.unwrap_err();
    assert_eq!(error.kind(), ErrorKind::Configuration);
    assert_eq!(error.message(), "Could not determine downloads directory");
    assert_eq!(launches, 0);
}

#[test]
fn selection_comes_before_the_directory() {
    let selection = FormatSelection::new(None, None, None);
    let error = download_invocation("u", &selection, None, &bare_host(Platform::Other)).unwrap_err();
    assert_eq!(error.kind(), ErrorKind::Validation);
}

#[test]
fn inquiry_invocation_asks_for_metadata_only() {
    let invocation = inquiry_invocation("https://example.com/v").unwrap();
    assert_eq!(invocation.program, "yt-dlp");
    assert_eq!(
        invocation.arguments,
        words(&["--dump-json", "--no-download", "--no-playlist", "https://example.com/v"])
    );
}

#[test]
fn download_invocation_uses_the_default_directory() {
    let invocation =
        download_invocation("https://example.com/v", &video_audio("137", "140"), None, &unix_host())
            .unwrap();
    assert_eq!(invocation.program, "yt-dlp");
    assert_eq!(
        invocation.arguments,
        words(&[
            "-f",
            "137+140",
            "-o",
            "/home/alice/Downloads/%(title)s.%(ext)s",
            "https://example.com/v"
        ])
    );
}

#[test]
fn download_invocation_prefers_the_given_directory() {
    let invocation = download_invocation(
        "https://example.com/v",
        &FormatSelection::new(Some("best".to_string()), None, None),
        Some("/mnt/dl"),
        &unix_host(),
    )
    .unwrap();
    assert_eq!(
        invocation.arguments,
        words(&["-f", "best", "-o", "/mnt/dl/%(title)s.%(ext)s", "https://example.com/v"])
    );
}

#[test]
fn given_directory_serves_where_the_machine_tells_none() {
    let invocation = download_invocation(
        "u",
        &FormatSelection::new(None, None, Some("140".to_string())),
        Some("D:\\dl"),
        &bare_host(Platform::Windows),
    )
    .unwrap();
    assert_eq!(invocation.arguments, words(&["-f", "140", "-o", "D:\\dl\\%(title)s.%(ext)s", "u"]));
}

#[test]
fn launcher_sees_exactly_the_planned_request() {
    let mut seen: Vec<Invocation> = Vec::new();
    let result = fetch_formats("https://example.com/v", |invocation: Invocation| {
        seen.push(invocation);
        exited(true, TWO_FORMATS, "")
    });
    assert!(result.is_ok());
    assert_eq!(seen, vec![inquiry_invocation("https://example.com/v").unwrap()]);
}

#[test]
fn inquiry_that_cannot_start_is_an_execution_error_with_a_hint() {
    let run = ToolRun::NotStarted { reason: "No such file or directory (os error 2)".to_string() };
    let error = read_inquiry(&run).unwrap_err();
    assert_eq!(error.kind(), ErrorKind::Execution);
    assert_eq!(
        error.message(),
        "Failed to execute yt-dlp: No such file or directory (os error 2). \
         Make sure yt-dlp is installed and available in PATH."
    );
}

#[test]
fn download_that_cannot_start_is_an_execution_error() {
    let run = ToolRun::NotStarted { reason: "permission denied".to_string() };
    let error = read_download(&run).unwrap_err();
    assert_eq!(error.kind(), ErrorKind::Execution);
    assert_eq!(error.message(), "Failed to execute yt-dlp: permission denied");
}

#[test]
fn failed_inquiry_surfaces_stderr_verbatim() {
    let error = read_inquiry(&exited(false, "", "ERROR: Unsupported URL")).unwrap_err();
    assert_eq!(error.kind(), ErrorKind::Tool);
    assert!(error.message().contains("ERROR: Unsupported URL"));
    assert_eq!(error.message(), "yt-dlp failed: ERROR: Unsupported URL");
}

#[test]
fn failed_download_surfaces_stderr_verbatim() {
    let error = read_download(&exited(false, "", "ERROR: Unsupported URL")).unwrap_err();
    assert_eq!(error.kind(), ErrorKind::Tool);
    assert!(error.message().contains("ERROR: Unsupported URL"));
    assert_eq!(error.message(), "Download failed: ERROR: Unsupported URL");
}

#[test]
fn failed_run_ignores_what_stdout_holds() {
    let error = read_inquiry(&exited(false, TWO_FORMATS, "format unavailable\n")).unwrap_err();
    assert_eq!(error.kind(), ErrorKind::Tool);
    assert_eq!(error.message(), "yt-dlp failed: format unavailable\n");
}

#[test]
fn ill_formed_stderr_is_read_with_replacement_characters() {
    let run = ToolRun::Exited { success: false, stdout: Vec::new(), stderr: vec![b'a', 0xff, b'b'] };
    let error = read_download(&run).unwrap_err();
    assert_eq!(error.message(), "Download failed: a\u{fffd}b");
}

#[test]
fn non_ascii_stderr_is_kept() {
    let error = read_download(&exited(false, "", "Fehler: größe")).unwrap_err();
    assert_eq!(error.message(), "Download failed: Fehler: größe");
}

#[test]
fn successful_download_is_confirmed() {
    let outcome = read_download(&exited(true, "[download] 100%", "WARNING: something"));
    assert_eq!(outcome, Ok("Download completed successfully".to_string()));
}

#[test]
fn successful_inquiry_yields_the_response() {
    let response = read_inquiry(&exited(true, TWO_FORMATS, "WARNING: something")).unwrap();
    assert_eq!(response.id, "abc");
    assert_eq!(response.title, "A clip");
    assert_eq!(response.formats.len(), 2);
}

#[test]
fn successful_inquiry_with_garbage_is_a_parse_error() {
    let error = read_inquiry(&exited(true, "not json", "")).unwrap_err();
    assert_eq!(error.kind(), ErrorKind::Parse);
    assert_eq!(
        error.message(),
        "Failed to parse yt-dlp response: expected ident at line 1 column 2"
    );
}

#[test]
fn end_to_end_inquiry_selection_and_download() {
    let response = fetch_formats("https://example.com/v", |_i| exited(true, TWO_FORMATS, "")).unwrap();
    let ids: Vec<&str> = response.formats.iter().map(|f| f.format_id.as_str()).collect();
    assert_eq!(ids, vec!["137", "140"]);
    assert_eq!(response.formats[0].acodec.as_deref(), Some("none"));
    assert_eq!(response.formats[1].vcodec.as_deref(), Some("none"));

    let selection = video_audio(&response.formats[0].format_id, &response.formats[1].format_id);
    assert_eq!(selection.resolve(), Ok("137+140".to_string()));

    let mut seen: Vec<Invocation> = Vec::new();
    let outcome = download("https://example.com/v", &selection, None, &unix_host(), |invocation| {
        seen.push(invocation);
        exited(true, "", "")
    });
    assert_eq!(outcome, Ok("Download completed successfully".to_string()));
    assert_eq!(seen.len(), 1);
    assert_eq!(seen[0].arguments[1], "137+140");
}

#[test]
fn download_reports_the_failure_of_the_tool() {
    let outcome = download("u", &video_audio("1", "2"), Some("/d"), &unix_host(), |_i| {
        exited(false, "", "ERROR: Unsupported URL")
    });
    let error = outcome.unwrap_err();
    assert_eq!(error.kind(), ErrorKind::Tool);
    assert!(error.message().contains("ERROR: Unsupported URL"));
}

#[test]
fn video_invocation_passes_format_and_path_through() {
    let invocation = video_invocation("https://example.com/v", "22", "/tmp/out.mp4");
    assert_eq!(invocation.program, "yt-dlp");
    assert_eq!(
        invocation.arguments,
        words(&["-f", "22", "-o", "/tmp/out.mp4", "https://example.com/v"])
    );
}

#[test]
fn download_video_launches_once_and_reads_the_end() {
    let mut launches = 0;
    let outcome = download_video("https://example.com/v", "22", "/tmp/out.mp4", |_i| {
        launches += 1;
        exited(true, "", "")
    });
    assert_eq!(outcome, Ok("Download completed successfully".to_string()));
    assert_eq!(launches, 1);

    let outcome = download_video("", "", "", |_i| ToolRun::NotStarted { reason: "gone".to_string() });
    assert_eq!(outcome.unwrap_err().message(), "Failed to execute yt-dlp: gone");
}

#[test]
fn greeting_names_the_person() {
    assert_eq!(greet("Ada"), "Hello, Ada! You've been greeted from Rust!");
    assert_eq!(greet(""), "Hello, ! You've been greeted from Rust!");
}
