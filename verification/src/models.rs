use vstd::prelude::*;

use crate::text::text_of;

verus! {

/// One stream that an item can be downloaded as.
///
/// The two rates are JSON numbers and are carried as the tool wrote them: this
/// crate computes nothing from them.
#[derive(Clone, Debug, PartialEq, Eq)]
pub struct YtDlpFormat {
    /// The identifier by which the tool knows the stream.
    pub format_id: String,
    /// A note for the human reader.
    pub format_note: Option<String>,
    /// The extension of the container.
    pub ext: String,
    /// The video codec; missing or `none` where the stream has no picture.
    pub vcodec: Option<String>,
    /// The audio codec; missing or `none` where the stream has no sound.
    pub acodec: Option<String>,
    /// The size in bytes, where it is known.
    pub filesize: Option<i64>,
    /// The height of the picture in pixels.
    pub height: Option<i32>,
    /// The width of the picture in pixels.
    pub width: Option<i32>,
    /// Frames per second.
    pub fps: Option<serde_json::Number>,
    /// The total bit rate.
    pub tbr: Option<serde_json::Number>,
}

/// The mathematical value of a [`YtDlpFormat`].
pub struct FormatModel {
    pub format_id: Seq<char>,
    pub format_note: Option<Seq<char>>,
    pub ext: Seq<char>,
    pub vcodec: Option<Seq<char>>,
    pub acodec: Option<Seq<char>>,
    pub filesize: Option<i64>,
    pub height: Option<i32>,
    pub width: Option<i32>,
    pub fps: Option<serde_json::Number>,
    pub tbr: Option<serde_json::Number>,
}

impl View for YtDlpFormat {
    type V = FormatModel;

    open spec fn view(&self) -> FormatModel {
        FormatModel {
            format_id: self.format_id@,
            format_note: text_of(self.format_note),
            ext: self.ext@,
            vcodec: text_of(self.vcodec),
            acodec: text_of(self.acodec),
            filesize: self.filesize,
            height: self.height,
            width: self.width,
            fps: self.fps,
            tbr: self.tbr,
        }
    }
}

/// What the tool tells about one item: its identifier, its title, and the
/// streams it can be had as, in the order in which the tool lists them.
#[derive(Clone, Debug, PartialEq, Eq)]
pub struct YtDlpResponse {
    pub id: String,
    pub title: String,
    pub formats: Vec<YtDlpFormat>,
}

/// The mathematical value of a [`YtDlpResponse`].
pub struct ResponseModel {
    pub id: Seq<char>,
    pub title: Seq<char>,
    pub formats: Seq<FormatModel>,
}

/// The values of a list of formats, in order.
pub open spec fn format_models(formats: Seq<YtDlpFormat>) -> Seq<FormatModel> {
    formats.map_values(|f: YtDlpFormat| f@)
}

impl View for YtDlpResponse {
    type V = ResponseModel;

    open spec fn view(&self) -> ResponseModel {
        ResponseModel {
            id: self.id@,
            title: self.title@,
            formats: format_models(self.formats@),
        }
    }
}

} // verus!
