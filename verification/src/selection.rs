use vstd::prelude::*;
use vstd::string::StringExecFns;

use crate::error::{CommandError, ErrorKind, ErrorModel};
use crate::text::text_of;

verus! {

/// What the user picked for a download. Any of the three may be missing.
#[derive(Clone, Debug, PartialEq, Eq)]
pub struct FormatSelection {
    /// A selector that is already complete and is passed on as it is.
    pub default_format: Option<String>,
    /// The identifier of a video stream.
    pub video_format: Option<String>,
    /// The identifier of an audio stream.
    pub audio_format: Option<String>,
}

/// The mathematical value of a [`FormatSelection`].
pub struct SelectionModel {
    pub default_format: Option<Seq<char>>,
    pub video_format: Option<Seq<char>>,
    pub audio_format: Option<Seq<char>>,
}

impl View for FormatSelection {
    type V = SelectionModel;

    open spec fn view(&self) -> SelectionModel {
        SelectionModel {
            default_format: text_of(self.default_format),
            video_format: text_of(self.video_format),
            audio_format: text_of(self.audio_format),
        }
    }
}

/// The selector that the tool is given for a selection, or `None` where
/// nothing was picked.
///
/// A complete selector wins over everything else. Failing that, a video and an
/// audio identifier are joined by `+`, and a lone identifier stands for itself.
pub open spec fn selector_of(s: SelectionModel) -> Option<Seq<char>> {
    match (s.default_format, s.video_format, s.audio_format) {
        (Some(whole), _, _) => Some(whole),
        (None, Some(video), Some(audio)) => Some(video + seq!['+'] + audio),
        (None, Some(video), None) => Some(video),
        (None, None, Some(audio)) => Some(audio),
        (None, None, None) => None,
    }
}

/// The failure that an empty selection is answered with.
pub open spec fn nothing_selected() -> ErrorModel {
    ErrorModel { kind: ErrorKind::Validation, message: "No format selected"@ }
}

impl FormatSelection {
    /// A selection of the three optional parts.
    pub fn new(
        default_format: Option<String>,
        video_format: Option<String>,
        audio_format: Option<String>,
    ) -> (s: FormatSelection)
        ensures
            s@ == (SelectionModel {
                default_format: text_of(default_format),
                video_format: text_of(video_format),
                audio_format: text_of(audio_format),
            }),
    {
        FormatSelection { default_format, video_format, audio_format }
    }

    /// The selector for this selection, or a validation failure where nothing
    /// was picked.
    pub fn resolve(&self) -> (r: Result<String, CommandError>)
        ensures
            match r {
                Ok(selector) => selector_of(self@) == Some(selector@),
                Err(e) => selector_of(self@) is None && e@ == nothing_selected(),
            },
    {
        match &self.default_format {
            Some(whole) => Ok(whole.clone()),
            None => match (&self.video_format, &self.audio_format) {
                (Some(video), Some(audio)) => {
                    let mut merged = video.clone();
                    proof {
                        reveal_strlit("+");
                        assert("+"@ =~= seq!['+']);
                    }
                    merged.append("+");
                    merged.append(audio.as_str());
                    Ok(merged)
                },
                (Some(video), None) => Ok(video.clone()),
                (None, Some(audio)) => Ok(audio.clone()),
                (None, None) => Err(
                    CommandError::new(ErrorKind::Validation, String::from_str("No format selected")),
                ),
            },
        }
    }
}

/// The order in which the parts of a selection count: a complete selector
/// before everything else, then a video and an audio identifier joined by
/// `+`, then the video identifier alone, then the audio identifier alone; and
/// a selection of nothing has no selector.
pub proof fn lemma_selector_precedence(s: SelectionModel)
    ensures
        s.default_format is Some ==> selector_of(s) == s.default_format,
        s.default_format is None && s.video_format is Some && s.audio_format is Some
            ==> selector_of(s) == Some(s.video_format->0 + "+"@ + s.audio_format->0),
        s.default_format is None && s.video_format is Some && s.audio_format is None
            ==> selector_of(s) == s.video_format,
        s.default_format is None && s.video_format is None ==> selector_of(s) == s.audio_format,
        selector_of(s) is None <==> s.default_format is None && s.video_format is None
            && s.audio_format is None,
{
    reveal_strlit("+");
    assert("+"@ =~= seq!['+']);
}

} // verus!
