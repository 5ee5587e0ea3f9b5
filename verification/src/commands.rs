use vstd::prelude::*;
use vstd::string::StringExecFns;
use vstd::utf8::{decode_utf8, valid_utf8};

use crate::decode::{response_of, shape_words};
use crate::error::{CommandError, ErrorKind, ErrorModel};
use crate::json::{describe, json_content, json_reading, read_json, Json};
use crate::models::{ResponseModel, YtDlpResponse};
use crate::platform::{
    download_dir_of, get_download_dir, output_template, template_in, Host, HostModel,
};
use crate::process::{
    lossy_text, utf8_lossy, Invocation, InvocationModel, ToolRun, ToolRunModel,
};
use crate::selection::{nothing_selected, selector_of, FormatSelection, SelectionModel};
use crate::text::slice_text;

verus! {

/// The name under which the tool is looked up.
pub open spec fn tool_name() -> Seq<char> {
    "yt-dlp"@
}

/// The failure that an empty address is answered with.
pub open spec fn empty_url() -> ErrorModel {
    ErrorModel { kind: ErrorKind::Validation, message: "URL cannot be empty"@ }
}

/// The failure of a download for which no directory is named or known.
pub open spec fn no_download_dir() -> ErrorModel {
    ErrorModel {
        kind: ErrorKind::Configuration,
        message: "Could not determine downloads directory"@,
    }
}

/// The arguments of a download: the selector, the output template, the
/// address.
pub open spec fn download_arguments(
    selector: Seq<char>,
    template: Seq<char>,
    url: Seq<char>,
) -> Seq<Seq<char>> {
    seq!["-f"@, selector, "-o"@, template, url]
}

/// What a download asks to be launched, or why it asks for nothing.
///
/// The address is looked at first, then the selection, then the directory: the
/// one that the caller names, else the one that the machine tells.
pub open spec fn download_plan(
    url: Seq<char>,
    selection: SelectionModel,
    target_dir: Option<Seq<char>>,
    host: HostModel,
) -> Result<InvocationModel, ErrorModel> {
    if url.len() == 0 {
        Err(empty_url())
    } else {
        match selector_of(selection) {
            None => Err(nothing_selected()),
            Some(selector) => {
                let dir = if target_dir is Some {
                    target_dir
                } else {
                    download_dir_of(host)
                };
                match dir {
                    None => Err(no_download_dir()),
                    Some(dir) => Ok(
                        InvocationModel {
                            program: tool_name(),
                            arguments: download_arguments(
                                selector,
                                template_in(host.platform, dir),
                                url,
                            ),
                        },
                    ),
                }
            },
        }
    }
}

/// What the caller of a download is told once the tool has been tried.
pub open spec fn download_result(run: ToolRunModel) -> Result<Seq<char>, ErrorModel> {
    match run {
        ToolRunModel::NotStarted { reason } => Err(
            ErrorModel {
                kind: ErrorKind::Execution,
                message: "Failed to execute yt-dlp: "@ + reason,
            },
        ),
        ToolRunModel::Exited { success, stdout, stderr } => if success {
            Ok("Download completed successfully"@)
        } else {
            Err(
                ErrorModel {
                    kind: ErrorKind::Tool,
                    message: "Download failed: "@ + utf8_lossy(stderr),
                },
            )
        },
    }
}

/// The value of what a download hands back.
pub open spec fn told(r: Result<String, CommandError>) -> Result<Seq<char>, ErrorModel> {
    match r {
        Ok(text) => Ok(text@),
        Err(e) => Err(e@),
    }
}

/// The value of a request that may have been refused.
pub open spec fn planned(r: Result<Invocation, CommandError>) -> Result<
    InvocationModel,
    ErrorModel,
> {
    match r {
        Ok(invocation) => Ok(invocation@),
        Err(e) => Err(e@),
    }
}

/// A request to run the tool with the given arguments.
fn tool_invocation(arguments: Vec<String>) -> (r: Invocation)
    ensures
        r@ == (InvocationModel {
            program: tool_name(),
            arguments: arguments@.map_values(|a: String| a@),
        }),
{
    Invocation { program: String::from_str("yt-dlp"), arguments }
}

/// A request to run the tool in download mode.
fn download_request(selector: String, template: String, url: &str) -> (r: Invocation)
    ensures
        r@ == (InvocationModel {
            program: tool_name(),
            arguments: download_arguments(selector@, template@, url@),
        }),
{
    let mut arguments: Vec<String> = Vec::new();
    arguments.push(String::from_str("-f"));
    arguments.push(selector);
    arguments.push(String::from_str("-o"));
    arguments.push(template);
    arguments.push(String::from_str(url));
    assert(arguments@.map_values(|a: String| a@) =~= download_arguments(
        selector@,
        template@,
        url@,
    ));
    tool_invocation(arguments)
}

/// Decides what a download launches: the tool, with the selector, the output
/// template and the address. Nothing is launched for an empty address, for an
/// empty selection, or where no directory is named and the machine tells none.
pub fn download_invocation(
    url: &str,
    selection: &FormatSelection,
    target_dir: Option<&str>,
    host: &Host,
) -> (r: Result<Invocation, CommandError>)
    ensures
        planned(r) == download_plan(url@, selection@, slice_text(target_dir), host@),
{
    if url.is_empty() {
        return Err(
            CommandError::new(ErrorKind::Validation, String::from_str("URL cannot be empty")),
        );
    }
    let selector = match selection.resolve() {
        Ok(selector) => selector,
        Err(e) => {
            return Err(e);
        },
    };
    let template = match target_dir {
        Some(dir) => output_template(host.platform, dir),
        None => match get_download_dir(host) {
            Some(dir) => output_template(host.platform, dir.as_str()),
            None => {
                return Err(
                    CommandError::new(
                        ErrorKind::Configuration,
                        String::from_str("Could not determine downloads directory"),
                    ),
                );
            },
        },
    };
    Ok(download_request(selector, template, url))
}

/// Reads the end of a download: a confirmation where the tool ended well, the
/// reason where it could not be started, and what it wrote to its error
/// stream where it ended badly.
pub fn read_download(run: &ToolRun) -> (r: Result<String, CommandError>)
    ensures
        told(r) == download_result(run@),
        run@ matches ToolRunModel::Exited { success, stdout, stderr } ==> !success && valid_utf8(
            stderr,
        ) ==> told(r) == Err::<Seq<char>, ErrorModel>(
            ErrorModel {
                kind: ErrorKind::Tool,
                message: "Download failed: "@ + decode_utf8(stderr),
            },
        ),
{
    match run {
        ToolRun::NotStarted { reason } => {
            let mut message = String::from_str("Failed to execute yt-dlp: ");
            message.append(reason.as_str());
            Err(CommandError::new(ErrorKind::Execution, message))
        },
        ToolRun::Exited { success, stdout, stderr } => {
            if *success {
                Ok(String::from_str("Download completed successfully"))
            } else {
                let mut message = String::from_str("Download failed: ");
                let said = lossy_text(stderr.as_slice());
                message.append(said.as_str());
                Err(CommandError::new(ErrorKind::Tool, message))
            }
        },
    }
}

/// Downloads one item: decides what to launch, has `launch` run it, and reads
/// how it ended.
///
/// `launch` is called at most once, and only with the request that
/// [`download_plan`] gives; where that is a failure it is not called.
pub fn download<L: FnOnce(Invocation) -> ToolRun>(
    url: &str,
    selection: &FormatSelection,
    target_dir: Option<&str>,
    host: &Host,
    launch: L,
) -> (r: Result<String, CommandError>)
    requires
        forall|invocation: Invocation|
            download_plan(url@, selection@, slice_text(target_dir), host@) == Ok::<
                InvocationModel,
                ErrorModel,
            >(invocation@) ==> #[trigger] launch.requires((invocation,)),
    ensures
        match download_plan(url@, selection@, slice_text(target_dir), host@) {
            Err(e) => told(r) == Err::<Seq<char>, ErrorModel>(e),
            Ok(plan) => exists|invocation: Invocation, run: ToolRun|
                invocation@ == plan && #[trigger] launch.ensures((invocation,), run) && told(r)
                    == download_result(run@),
        },
{
    match download_invocation(url, selection, target_dir, host) {
        Err(e) => Err(e),
        Ok(invocation) => {
            let ghost asked = invocation;
            let run = launch(invocation);
            let r = read_download(&run);
            assert(asked@ == download_plan(url@, selection@, slice_text(target_dir), host@)->Ok_0
                && launch.ensures((asked,), run) && told(r) == download_result(run@));
            r
        },
    }
}

/// The arguments of an inquiry: metadata as JSON, no download, and a
/// playlist taken as the one item it points at.
pub open spec fn inquiry_arguments(url: Seq<char>) -> Seq<Seq<char>> {
    seq!["--dump-json"@, "--no-download"@, "--no-playlist"@, url]
}

/// What an inquiry asks to be launched, or why it asks for nothing.
pub open spec fn inquiry_plan(url: Seq<char>) -> Result<InvocationModel, ErrorModel> {
    if url.len() == 0 {
        Err(empty_url())
    } else {
        Ok(InvocationModel { program: tool_name(), arguments: inquiry_arguments(url) })
    }
}

/// The failure of an answer that cannot be read, with the reason in `words`.
pub open spec fn unreadable(words: Seq<char>) -> ErrorModel {
    ErrorModel { kind: ErrorKind::Parse, message: "Failed to parse yt-dlp response: "@ + words }
}

/// The answer that a parsed text holds: `reading` is what the JSON parser made
/// of the text.
pub open spec fn response_from(reading: Result<Json, Seq<char>>) -> Result<
    ResponseModel,
    ErrorModel,
> {
    match reading {
        Err(words) => Err(unreadable(words)),
        Ok(doc) => match response_of(doc) {
            Err(e) => Err(unreadable(shape_words(e))),
            Ok(response) => Ok(response),
        },
    }
}

/// What the caller of an inquiry is told once the tool has been tried.
pub open spec fn inquiry_result(run: ToolRunModel) -> Result<ResponseModel, ErrorModel> {
    match run {
        ToolRunModel::NotStarted { reason } => Err(
            ErrorModel {
                kind: ErrorKind::Execution,
                message: "Failed to execute yt-dlp: "@ + reason
                    + ". Make sure yt-dlp is installed and available in PATH."@,
            },
        ),
        ToolRunModel::Exited { success, stdout, stderr } => if success {
            response_from(json_reading(utf8_lossy(stdout)))
        } else {
            Err(
                ErrorModel {
                    kind: ErrorKind::Tool,
                    message: "yt-dlp failed: "@ + utf8_lossy(stderr),
                },
            )
        },
    }
}

/// The value of what an inquiry hands back.
pub open spec fn answered(r: Result<YtDlpResponse, CommandError>) -> Result<
    ResponseModel,
    ErrorModel,
> {
    match r {
        Ok(response) => Ok(response@),
        Err(e) => Err(e@),
    }
}

/// The failure of an answer that cannot be read.
fn unreadable_error(words: &str) -> (e: CommandError)
    ensures
        e@ == unreadable(words@),
{
    let mut message = String::from_str("Failed to parse yt-dlp response: ");
    message.append(words);
    CommandError::new(ErrorKind::Parse, message)
}

/// Reads the tool's answer out of a parsed document, and tells a document of
/// another shape in the words of its fault.
pub fn response_from_json(doc: &serde_json::Value) -> (r: Result<YtDlpResponse, CommandError>)
    ensures
        answered(r) == response_from(Ok(json_content(*doc))),
{
    match YtDlpResponse::from_json(doc) {
        Ok(response) => Ok(response),
        Err(e) => Err(unreadable_error(e.describe().as_str())),
    }
}

/// Reads the tool's answer out of the text that it wrote.
///
/// The text is parsed as JSON by serde_json; a text that is no JSON is told in
/// the parser's words.
pub fn parse_response(text: &str) -> (r: Result<YtDlpResponse, CommandError>)
    ensures
        answered(r) == response_from(json_reading(text@)),
{
    match read_json(text) {
        Err(refusal) => Err(unreadable_error(describe(&refusal).as_str())),
        Ok(doc) => response_from_json(&doc),
    }
}

/// Decides what an inquiry launches: the tool, asked for the metadata of the
/// one item at `url`. Nothing is launched for an empty address.
pub fn inquiry_invocation(url: &str) -> (r: Result<Invocation, CommandError>)
    ensures
        planned(r) == inquiry_plan(url@),
{
    if url.is_empty() {
        return Err(
            CommandError::new(ErrorKind::Validation, String::from_str("URL cannot be empty")),
        );
    }
    let mut arguments: Vec<String> = Vec::new();
    arguments.push(String::from_str("--dump-json"));
    arguments.push(String::from_str("--no-download"));
    arguments.push(String::from_str("--no-playlist"));
    arguments.push(String::from_str(url));
    assert(arguments@.map_values(|a: String| a@) =~= inquiry_arguments(url@));
    Ok(tool_invocation(arguments))
}

/// Reads the end of an inquiry: the answer where the tool ended well and
/// wrote one, the reason where it could not be started, and what it wrote to
/// its error stream where it ended badly.
pub fn read_inquiry(run: &ToolRun) -> (r: Result<YtDlpResponse, CommandError>)
    ensures
        answered(r) == inquiry_result(run@),
        run@ matches ToolRunModel::Exited { success, stdout, stderr } ==> !success && valid_utf8(
            stderr,
        ) ==> answered(r) == Err::<ResponseModel, ErrorModel>(
            ErrorModel {
                kind: ErrorKind::Tool,
                message: "yt-dlp failed: "@ + decode_utf8(stderr),
            },
        ),
        run@ matches ToolRunModel::Exited { success, stdout, stderr } ==> success && valid_utf8(
            stdout,
        ) ==> answered(r) == response_from(json_reading(decode_utf8(stdout))),
{
    match run {
        ToolRun::NotStarted { reason } => {
            let mut message = String::from_str("Failed to execute yt-dlp: ");
            message.append(reason.as_str());
            message.append(". Make sure yt-dlp is installed and available in PATH.");
            Err(CommandError::new(ErrorKind::Execution, message))
        },
        ToolRun::Exited { success, stdout, stderr } => {
            if *success {
                let text = lossy_text(stdout.as_slice());
                parse_response(text.as_str())
            } else {
                let mut message = String::from_str("yt-dlp failed: ");
                let said = lossy_text(stderr.as_slice());
                message.append(said.as_str());
                Err(CommandError::new(ErrorKind::Tool, message))
            }
        },
    }
}

/// Asks the tool which formats the item at `url` can be had in: decides what
/// to launch, has `launch` run it, and reads the answer.
///
/// `launch` is called at most once, and only with the request that
/// [`inquiry_plan`] gives; for an empty address it is not called.
pub fn fetch_formats<L: FnOnce(Invocation) -> ToolRun>(url: &str, launch: L) -> (r: Result<
    YtDlpResponse,
    CommandError,
>)
    requires
        forall|invocation: Invocation|
            inquiry_plan(url@) == Ok::<InvocationModel, ErrorModel>(invocation@)
                ==> #[trigger] launch.requires((invocation,)),
    ensures
        match inquiry_plan(url@) {
            Err(e) => answered(r) == Err::<ResponseModel, ErrorModel>(e),
            Ok(plan) => exists|invocation: Invocation, run: ToolRun|
                invocation@ == plan && #[trigger] launch.ensures((invocation,), run)
                    && answered(r) == inquiry_result(run@),
        },
{
    match inquiry_invocation(url) {
        Err(e) => Err(e),
        Ok(invocation) => {
            let ghost asked = invocation;
            let run = launch(invocation);
            let r = read_inquiry(&run);
            assert(asked@ == inquiry_plan(url@)->Ok_0 && launch.ensures((asked,), run)
                && answered(r) == inquiry_result(run@));
            r
        },
    }
}

/// An empty address is refused as a fault of the caller's input, by an
/// inquiry and by a download alike and whatever else the download is given,
/// and no request to launch anything comes of it.
pub proof fn lemma_empty_url_refused(
    selection: SelectionModel,
    target_dir: Option<Seq<char>>,
    host: HostModel,
)
    ensures
        inquiry_plan(Seq::empty()) == Err::<InvocationModel, ErrorModel>(empty_url()),
        download_plan(Seq::empty(), selection, target_dir, host) == Err::<
            InvocationModel,
            ErrorModel,
        >(empty_url()),
        empty_url().kind == ErrorKind::Validation,
{
}

/// The arguments of a download whose format and output path the caller has
/// settled.
pub open spec fn video_plan(
    url: Seq<char>,
    format_id: Seq<char>,
    output_path: Seq<char>,
) -> InvocationModel {
    InvocationModel {
        program: tool_name(),
        arguments: download_arguments(format_id, output_path, url),
    }
}

/// Decides what a download with a settled format and output path launches.
pub fn video_invocation(url: &str, format_id: &str, output_path: &str) -> (r: Invocation)
    ensures
        r@ == video_plan(url@, format_id@, output_path@),
{
    download_request(String::from_str(format_id), String::from_str(output_path), url)
}

/// Downloads the item at `url` in the format `format_id` to `output_path`,
/// both passed to the tool as they are: has `launch` run the tool once, and
/// reads how it ended.
pub fn download_video<L: FnOnce(Invocation) -> ToolRun>(
    url: &str,
    format_id: &str,
    output_path: &str,
    launch: L,
) -> (r: Result<String, CommandError>)
    requires
        forall|invocation: Invocation|
            invocation@ == video_plan(url@, format_id@, output_path@)
                ==> #[trigger] launch.requires((invocation,)),
    ensures
        exists|invocation: Invocation, run: ToolRun|
            invocation@ == video_plan(url@, format_id@, output_path@)
                && #[trigger] launch.ensures((invocation,), run) && told(r) == download_result(
                run@,
            ),
{
    let invocation = video_invocation(url, format_id, output_path);
    let ghost asked = invocation;
    let run = launch(invocation);
    let r = read_download(&run);
    assert(asked@ == video_plan(url@, format_id@, output_path@) && launch.ensures((asked,), run)
        && told(r) == download_result(run@));
    r
}

/// The greeting for `name`.
pub open spec fn greeting(name: Seq<char>) -> Seq<char> {
    "Hello, "@ + name + "! You've been greeted from Rust!"@
}

/// Greets `name`.
pub fn greet(name: &str) -> (r: String)
    ensures
        r@ == greeting(name@),
{
    let mut r = String::from_str("Hello, ");
    r.append(name);
    r.append("! You've been greeted from Rust!");
    r
}

} // verus!
