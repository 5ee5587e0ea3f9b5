//! A front end for the `yt-dlp` command line program: it decides how the tool
//! is invoked, reads what the tool answers, and leaves the launching of the
//! process to its caller.
//!
//! An inquiry ([`fetch_formats`]) asks the tool which formats an item can be
//! had in; a download ([`download`]) has the tool fetch one of them into a
//! directory, by default the one that [`get_download_dir`] finds. Each of the
//! two comes in three parts: a function that decides what is launched, a
//! function that reads how the launch ended, and a function that puts the two
//! around a launcher that the caller hands in.
//!
//! JSON is parsed by serde_json. What this crate takes for granted of it, and
//! of the standard library's lossy reading of bytes as text, is written down
//! in the modules [`json`] and [`process`], item by item; everything else is
//! proved.

pub mod commands;
pub mod decode;
pub mod encode;
pub mod error;
pub mod json;
pub mod models;
pub mod platform;
pub mod process;
pub mod selection;
pub mod text;

pub use commands::{
    download, download_invocation, download_video, fetch_formats, greet, inquiry_invocation,
    parse_response, read_download, read_inquiry, response_from_json, video_invocation,
};
pub use decode::{Field, ShapeError};
pub use error::{CommandError, ErrorKind, ErrorModel};
pub use models::{FormatModel, ResponseModel, YtDlpFormat, YtDlpResponse};
pub use platform::{get_download_dir, output_template, Host, HostModel, Platform};
pub use process::{Invocation, InvocationModel, ToolRun, ToolRunModel};
pub use selection::{selector_of, FormatSelection, SelectionModel};
