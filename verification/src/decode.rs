use vstd::prelude::*;
use vstd::string::StringExecFns;

use crate::json::{contents, json_content, member, member_of, whole_reading, Json};
use crate::models::{format_models, FormatModel, ResponseModel, YtDlpFormat, YtDlpResponse};

verus! {

/// The members of the tool's answer that this crate reads.
#[derive(Clone, Copy, Debug, PartialEq, Eq, Structural)]
pub enum Field {
    Id,
    Title,
    Formats,
    FormatId,
    FormatNote,
    Ext,
    Vcodec,
    Acodec,
    Filesize,
    Height,
    Width,
    Fps,
    Tbr,
}

impl Field {
    /// The key under which the member stands in the document.
    pub open spec fn key(self) -> Seq<char> {
        match self {
            Field::Id => "id"@,
            Field::Title => "title"@,
            Field::Formats => "formats"@,
            Field::FormatId => "format_id"@,
            Field::FormatNote => "format_note"@,
            Field::Ext => "ext"@,
            Field::Vcodec => "vcodec"@,
            Field::Acodec => "acodec"@,
            Field::Filesize => "filesize"@,
            Field::Height => "height"@,
            Field::Width => "width"@,
            Field::Fps => "fps"@,
            Field::Tbr => "tbr"@,
        }
    }

    /// The key under which the member stands in the document.
    pub fn name(self) -> (r: &'static str)
        ensures
            r@ == self.key(),
    {
        match self {
            Field::Id => "id",
            Field::Title => "title",
            Field::Formats => "formats",
            Field::FormatId => "format_id",
            Field::FormatNote => "format_note",
            Field::Ext => "ext",
            Field::Vcodec => "vcodec",
            Field::Acodec => "acodec",
            Field::Filesize => "filesize",
            Field::Height => "height",
            Field::Width => "width",
            Field::Fps => "fps",
            Field::Tbr => "tbr",
        }
    }
}

/// Why a document is not the answer that was expected.
#[derive(Clone, Copy, Debug, PartialEq, Eq, Structural)]
pub enum ShapeError {
    /// A member that must be there is not.
    Missing(Field),
    /// A member is there and is not of the kind that it must be of.
    Invalid(Field),
}

/// The words in which a fault of the document is told.
pub open spec fn shape_words(e: ShapeError) -> Seq<char> {
    match e {
        ShapeError::Missing(field) => "missing field `"@ + field.key() + "`"@,
        ShapeError::Invalid(field) => "invalid value for field `"@ + field.key() + "`"@,
    }
}

impl ShapeError {
    /// The fault in words: which member it is about, and whether the member
    /// is missing or of the wrong kind.
    pub fn describe(&self) -> (words: String)
        ensures
            words@ == shape_words(*self),
    {
        match self {
            ShapeError::Missing(field) => {
                let mut words = String::from_str("missing field `");
                words.append(field.name());
                words.append("`");
                words
            },
            ShapeError::Invalid(field) => {
                let mut words = String::from_str("invalid value for field `");
                words.append(field.name());
                words.append("`");
                words
            },
        }
    }
}

/// A member that must be a string.
pub open spec fn required_text(doc: Json, field: Field) -> Result<Seq<char>, ShapeError> {
    match member_of(doc, field.key()) {
        None => Err(ShapeError::Missing(field)),
        Some(Json::Text(text)) => Ok(text),
        Some(_) => Err(ShapeError::Invalid(field)),
    }
}

/// A member that is a string where it is there and not `null`.
pub open spec fn optional_text(doc: Json, field: Field) -> Result<Option<Seq<char>>, ShapeError> {
    match member_of(doc, field.key()) {
        None => Ok(None),
        Some(Json::Null) => Ok(None),
        Some(Json::Text(text)) => Ok(Some(text)),
        Some(_) => Err(ShapeError::Invalid(field)),
    }
}

/// A member that is a number where it is there and not `null`.
pub open spec fn optional_number(doc: Json, field: Field) -> Result<
    Option<serde_json::Number>,
    ShapeError,
> {
    match member_of(doc, field.key()) {
        None => Ok(None),
        Some(Json::Null) => Ok(None),
        Some(Json::Number(number)) => Ok(Some(number)),
        Some(_) => Err(ShapeError::Invalid(field)),
    }
}

/// A member that is an integer of 64 bits where it is there and not `null`.
pub open spec fn optional_i64(doc: Json, field: Field) -> Result<Option<i64>, ShapeError> {
    match optional_number(doc, field) {
        Err(e) => Err(e),
        Ok(None) => Ok(None),
        Ok(Some(number)) => match whole_reading(number) {
            Some(whole) => Ok(Some(whole)),
            None => Err(ShapeError::Invalid(field)),
        },
    }
}

/// A member that is an integer of 32 bits where it is there and not `null`.
pub open spec fn optional_i32(doc: Json, field: Field) -> Result<Option<i32>, ShapeError> {
    match optional_i64(doc, field) {
        Err(e) => Err(e),
        Ok(None) => Ok(None),
        Ok(Some(whole)) => if i32::MIN <= whole <= i32::MAX {
            Ok(Some(whole as i32))
        } else {
            Err(ShapeError::Invalid(field))
        },
    }
}

/// What is wrong with a reading, if anything.
pub open spec fn fault<T>(reading: Result<T, ShapeError>) -> Option<ShapeError> {
    match reading {
        Ok(_) => None,
        Err(e) => Some(e),
    }
}

/// The first of two faults.
pub open spec fn sooner(first: Option<ShapeError>, then: Option<ShapeError>) -> Option<
    ShapeError,
> {
    if first is Some {
        first
    } else {
        then
    }
}

/// What is wrong with a document as the description of a stream: the fault of
/// the first member, in the order in which a stream lists them, that cannot
/// be read.
pub open spec fn format_fault(doc: Json) -> Option<ShapeError> {
    sooner(
        fault(required_text(doc, Field::FormatId)),
        sooner(
            fault(optional_text(doc, Field::FormatNote)),
            sooner(
                fault(required_text(doc, Field::Ext)),
                sooner(
                    fault(optional_text(doc, Field::Vcodec)),
                    sooner(
                        fault(optional_text(doc, Field::Acodec)),
                        sooner(
                            fault(optional_i64(doc, Field::Filesize)),
                            sooner(
                                fault(optional_i32(doc, Field::Height)),
                                sooner(
                                    fault(optional_i32(doc, Field::Width)),
                                    sooner(
                                        fault(optional_number(doc, Field::Fps)),
                                        fault(optional_number(doc, Field::Tbr)),
                                    ),
                                ),
                            ),
                        ),
                    ),
                ),
            ),
        ),
    )
}

/// The stream that a document describes.
///
/// Members that the stream does not have are passed over. A member that may
/// be missing may also be `null`.
pub open spec fn format_of(doc: Json) -> Result<FormatModel, ShapeError> {
    match format_fault(doc) {
        Some(e) => Err(e),
        None => Ok(
            FormatModel {
                format_id: required_text(doc, Field::FormatId)->Ok_0,
                format_note: optional_text(doc, Field::FormatNote)->Ok_0,
                ext: required_text(doc, Field::Ext)->Ok_0,
                vcodec: optional_text(doc, Field::Vcodec)->Ok_0,
                acodec: optional_text(doc, Field::Acodec)->Ok_0,
                filesize: optional_i64(doc, Field::Filesize)->Ok_0,
                height: optional_i32(doc, Field::Height)->Ok_0,
                width: optional_i32(doc, Field::Width)->Ok_0,
                fps: optional_number(doc, Field::Fps)->Ok_0,
                tbr: optional_number(doc, Field::Tbr)->Ok_0,
            },
        ),
    }
}

/// The streams that a list of documents describes, in the same order, or the
/// fault of the first document that describes none.
pub open spec fn formats_of(items: Seq<Json>) -> Result<Seq<FormatModel>, ShapeError>
    decreases items.len(),
{
    if items.len() == 0 {
        Ok(Seq::empty())
    } else {
        match formats_of(items.drop_last()) {
            Err(e) => Err(e),
            Ok(formats) => match format_of(items.last()) {
                Err(e) => Err(e),
                Ok(format) => Ok(formats.push(format)),
            },
        }
    }
}

/// The member `formats`, which must be an array of streams.
pub open spec fn listed_formats(doc: Json) -> Result<Seq<FormatModel>, ShapeError> {
    match member_of(doc, Field::Formats.key()) {
        None => Err(ShapeError::Missing(Field::Formats)),
        Some(Json::Array(items)) => formats_of(items),
        Some(_) => Err(ShapeError::Invalid(Field::Formats)),
    }
}

/// The answer that a document is: an object with the strings `id` and
/// `title` and the array `formats`, or the fault of the first of these, in
/// this order, that cannot be read.
pub open spec fn response_of(doc: Json) -> Result<ResponseModel, ShapeError> {
    match sooner(
        fault(required_text(doc, Field::Id)),
        sooner(fault(required_text(doc, Field::Title)), fault(listed_formats(doc))),
    ) {
        Some(e) => Err(e),
        None => Ok(
            ResponseModel {
                id: required_text(doc, Field::Id)->Ok_0,
                title: required_text(doc, Field::Title)->Ok_0,
                formats: listed_formats(doc)->Ok_0,
            },
        ),
    }
}

/// The value of an optional string that may have failed to be read.
pub open spec fn read_optional(r: Result<Option<String>, ShapeError>) -> Result<
    Option<Seq<char>>,
    ShapeError,
> {
    match r {
        Ok(Some(text)) => Ok(Some(text@)),
        Ok(None) => Ok(None),
        Err(e) => Err(e),
    }
}

/// The value of a string that may have failed to be read.
pub open spec fn read_text(r: Result<String, ShapeError>) -> Result<Seq<char>, ShapeError> {
    match r {
        Ok(text) => Ok(text@),
        Err(e) => Err(e),
    }
}

/// The value of a stream that may have failed to be read.
pub open spec fn read_format(r: Result<YtDlpFormat, ShapeError>) -> Result<
    FormatModel,
    ShapeError,
> {
    match r {
        Ok(format) => Ok(format@),
        Err(e) => Err(e),
    }
}

/// The value of an answer that may have failed to be read.
pub open spec fn read_response(r: Result<YtDlpResponse, ShapeError>) -> Result<
    ResponseModel,
    ShapeError,
> {
    match r {
        Ok(response) => Ok(response@),
        Err(e) => Err(e),
    }
}

/// Reads a member that must be a string.
fn text_member(doc: &serde_json::Value, field: Field) -> (r: Result<String, ShapeError>)
    ensures
        read_text(r) == required_text(json_content(*doc), field),
{
    match member(doc, field.name()) {
        None => Err(ShapeError::Missing(field)),
        Some(found) => match found.as_str() {
            Some(text) => Ok(String::from_str(text)),
            None => Err(ShapeError::Invalid(field)),
        },
    }
}

/// Reads a member that is a string where it is there and not `null`.
fn optional_text_member(doc: &serde_json::Value, field: Field) -> (r: Result<
    Option<String>,
    ShapeError,
>)
    ensures
        read_optional(r) == optional_text(json_content(*doc), field),
{
    match member(doc, field.name()) {
        None => Ok(None),
        Some(found) => {
            if found.is_null() {
                Ok(None)
            } else {
                match found.as_str() {
                    Some(text) => Ok(Some(String::from_str(text))),
                    None => Err(ShapeError::Invalid(field)),
                }
            }
        },
    }
}

/// Reads a member that is a number where it is there and not `null`.
fn optional_number_member(doc: &serde_json::Value, field: Field) -> (r: Result<
    Option<serde_json::Number>,
    ShapeError,
>)
    ensures
        r == optional_number(json_content(*doc), field),
{
    match member(doc, field.name()) {
        None => Ok(None),
        Some(found) => {
            if found.is_null() {
                Ok(None)
            } else {
                match found.as_number() {
                    Some(number) => Ok(Some(number.clone())),
                    None => Err(ShapeError::Invalid(field)),
                }
            }
        },
    }
}

/// Reads a member that is an integer of 64 bits where it is there and not
/// `null`.
fn optional_i64_member(doc: &serde_json::Value, field: Field) -> (r: Result<
    Option<i64>,
    ShapeError,
>)
    ensures
        r == optional_i64(json_content(*doc), field),
{
    match optional_number_member(doc, field) {
        Err(e) => Err(e),
        Ok(None) => Ok(None),
        Ok(Some(number)) => match number.as_i64() {
            Some(whole) => Ok(Some(whole)),
            None => Err(ShapeError::Invalid(field)),
        },
    }
}

/// Reads a member that is an integer of 32 bits where it is there and not
/// `null`.
fn optional_i32_member(doc: &serde_json::Value, field: Field) -> (r: Result<
    Option<i32>,
    ShapeError,
>)
    ensures
        r == optional_i32(json_content(*doc), field),
{
    match optional_i64_member(doc, field) {
        Err(e) => Err(e),
        Ok(None) => Ok(None),
        Ok(Some(whole)) => {
            if -2147483648 <= whole && whole <= 2147483647 {
                Ok(Some(whole as i32))
            } else {
                Err(ShapeError::Invalid(field))
            }
        },
    }
}

impl YtDlpFormat {
    /// Reads the description of a stream out of a document.
    pub fn from_json(doc: &serde_json::Value) -> (r: Result<YtDlpFormat, ShapeError>)
        ensures
            read_format(r) == format_of(json_content(*doc)),
    {
        let format_id = text_member(doc, Field::FormatId)?;
        let format_note = optional_text_member(doc, Field::FormatNote)?;
        let ext = text_member(doc, Field::Ext)?;
        let vcodec = optional_text_member(doc, Field::Vcodec)?;
        let acodec = optional_text_member(doc, Field::Acodec)?;
        let filesize = optional_i64_member(doc, Field::Filesize)?;
        let height = optional_i32_member(doc, Field::Height)?;
        let width = optional_i32_member(doc, Field::Width)?;
        let fps = optional_number_member(doc, Field::Fps)?;
        let tbr = optional_number_member(doc, Field::Tbr)?;
        Ok(
            YtDlpFormat {
                format_id,
                format_note,
                ext,
                vcodec,
                acodec,
                filesize,
                height,
                width,
                fps,
                tbr,
            },
        )
    }
}

/// Reads the member `formats` out of a document.
fn formats_member(doc: &serde_json::Value) -> (r: Result<Vec<YtDlpFormat>, ShapeError>)
    ensures
        match r {
            Ok(formats) => listed_formats(json_content(*doc)) == Ok::<
                Seq<FormatModel>,
                ShapeError,
            >(format_models(formats@)),
            Err(e) => listed_formats(json_content(*doc)) == Err::<Seq<FormatModel>, ShapeError>(e),
        },
{
    let found = match member(doc, Field::Formats.name()) {
        None => {
            return Err(ShapeError::Missing(Field::Formats));
        },
        Some(found) => found,
    };
    let items = match found.as_array() {
        None => {
            return Err(ShapeError::Invalid(Field::Formats));
        },
        Some(items) => items,
    };
    let ghost docs = contents(items@);
    let mut formats: Vec<YtDlpFormat> = Vec::new();
    let mut i: usize = 0;
    assert(docs.take(0) =~= Seq::<Json>::empty());
    assert(format_models(formats@) =~= Seq::<FormatModel>::empty());
    while i < items.len()
        invariant
            i <= items.len(),
            docs == contents(items@),
            listed_formats(json_content(*doc)) == formats_of(docs),
            formats_of(docs.take(i as int)) == Ok::<Seq<FormatModel>, ShapeError>(
                format_models(formats@),
            ),
        decreases items.len() - i,
    {
        proof {
            assert(docs.take(i + 1).drop_last() =~= docs.take(i as int));
            assert(docs.take(i + 1).last() == json_content(items@[i as int]));
        }
        match YtDlpFormat::from_json(&items[i]) {
            Err(e) => {
                proof {
                    assert(formats_of(docs.take(i + 1)) == Err::<Seq<FormatModel>, ShapeError>(e));
                    lemma_fault_stays(docs, i + 1);
                }
                return Err(e);
            },
            Ok(format) => {
                assert(format_models(formats@).push(format@) =~= format_models(
                    formats@.push(format),
                ));
                formats.push(format);
            },
        }
        i += 1;
    }
    assert(docs.take(i as int) =~= docs);
    Ok(formats)
}

/// Once a beginning of a list fails to be read, so does the list, and with
/// the same fault.
pub proof fn lemma_fault_stays(items: Seq<Json>, n: int)
    requires
        0 <= n <= items.len(),
        formats_of(items.take(n)) is Err,
    ensures
        formats_of(items) == formats_of(items.take(n)),
    decreases items.len(),
{
    if n < items.len() {
        assert(items.drop_last().take(n) =~= items.take(n));
        lemma_fault_stays(items.drop_last(), n);
    } else {
        assert(items.take(n) =~= items);
    }
}

impl YtDlpResponse {
    /// Reads the tool's answer out of a document.
    pub fn from_json(doc: &serde_json::Value) -> (r: Result<YtDlpResponse, ShapeError>)
        ensures
            read_response(r) == response_of(json_content(*doc)),
    {
        let id = text_member(doc, Field::Id)?;
        let title = text_member(doc, Field::Title)?;
        let formats = formats_member(doc)?;
        Ok(YtDlpResponse { id, title, formats })
    }
}

} // verus!
