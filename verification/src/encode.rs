use vstd::prelude::*;
use vstd::string::StringExecFns;

use crate::decode::{format_of, formats_of, response_of, Field, ShapeError};
use crate::json::{
    array_value, contents, distinct_keys, entries_of, json_content, null_value, number_value,
    object_of, object_value, text_value, whole_number, whole_reading, Json,
};
use crate::models::{FormatModel, ResponseModel, YtDlpFormat, YtDlpResponse};
use crate::text::text_of;

verus! {

/// Whether a document writes an optional string down: the string, or `null`
/// in the place of a missing one.
pub open spec fn writes_text(doc: Json, text: Option<Seq<char>>) -> bool {
    match text {
        Some(text) => doc == Json::Text(text),
        None => doc is Null,
    }
}

/// Whether a document writes an optional integer down: a number that reads
/// as the integer, or `null` in the place of a missing one.
pub open spec fn writes_whole(doc: Json, whole: Option<i64>) -> bool {
    match whole {
        Some(whole) => doc is Number && whole_reading(doc->Number_0) == Some(whole),
        None => doc is Null,
    }
}

/// Whether a document writes an optional number down: the number, or `null`
/// in the place of a missing one.
pub open spec fn writes_number(doc: Json, number: Option<serde_json::Number>) -> bool {
    match number {
        Some(number) => doc == Json::Number(number),
        None => doc is Null,
    }
}

/// An optional integer of 32 bits, as one of 64.
pub open spec fn widened(whole: Option<i32>) -> Option<i64> {
    match whole {
        Some(whole) => Some(whole as i64),
        None => None,
    }
}

/// Whether `key` is one of the ten members of a stream.
pub open spec fn format_key(key: Seq<char>) -> bool {
    ||| key == Field::FormatId.key()
    ||| key == Field::FormatNote.key()
    ||| key == Field::Ext.key()
    ||| key == Field::Vcodec.key()
    ||| key == Field::Acodec.key()
    ||| key == Field::Filesize.key()
    ||| key == Field::Height.key()
    ||| key == Field::Width.key()
    ||| key == Field::Fps.key()
    ||| key == Field::Tbr.key()
}

/// Whether a document writes a stream down: an object of the ten members of
/// a stream and no others, each written down in its kind.
pub open spec fn writes_format(doc: Json, format: FormatModel) -> bool {
    &&& doc is Object
    &&& forall|key: Seq<char>| #[trigger] doc->Object_0.dom().contains(key) <==> format_key(key)
    &&& doc->Object_0[Field::FormatId.key()] == Json::Text(format.format_id)
    &&& writes_text(doc->Object_0[Field::FormatNote.key()], format.format_note)
    &&& doc->Object_0[Field::Ext.key()] == Json::Text(format.ext)
    &&& writes_text(doc->Object_0[Field::Vcodec.key()], format.vcodec)
    &&& writes_text(doc->Object_0[Field::Acodec.key()], format.acodec)
    &&& writes_whole(doc->Object_0[Field::Filesize.key()], format.filesize)
    &&& writes_whole(doc->Object_0[Field::Height.key()], widened(format.height))
    &&& writes_whole(doc->Object_0[Field::Width.key()], widened(format.width))
    &&& writes_number(doc->Object_0[Field::Fps.key()], format.fps)
    &&& writes_number(doc->Object_0[Field::Tbr.key()], format.tbr)
}

/// Whether a list of documents writes a list of streams down, one for one and
/// in the same order.
pub open spec fn writes_formats(items: Seq<Json>, formats: Seq<FormatModel>) -> bool {
    &&& items.len() == formats.len()
    &&& forall|i: int| 0 <= i < items.len() ==> writes_format(#[trigger] items[i], formats[i])
}

/// Whether `key` is one of the three members of an answer.
pub open spec fn response_key(key: Seq<char>) -> bool {
    ||| key == Field::Id.key()
    ||| key == Field::Title.key()
    ||| key == Field::Formats.key()
}

/// Whether a document writes an answer down: an object of the members `id`,
/// `title` and `formats` and no others.
pub open spec fn writes_response(doc: Json, response: ResponseModel) -> bool {
    &&& doc is Object
    &&& forall|key: Seq<char>| #[trigger] doc->Object_0.dom().contains(key) <==> response_key(key)
    &&& doc->Object_0[Field::Id.key()] == Json::Text(response.id)
    &&& doc->Object_0[Field::Title.key()] == Json::Text(response.title)
    &&& doc->Object_0[Field::Formats.key()] is Array
    &&& writes_formats(doc->Object_0[Field::Formats.key()]->Array_0, response.formats)
}

/// No two members have the same key.
pub proof fn lemma_keys_differ(a: Field, b: Field)
    requires
        a != b,
    ensures
        a.key() != b.key(),
{
    reveal_strlit("id");
    reveal_strlit("title");
    reveal_strlit("formats");
    reveal_strlit("format_id");
    reveal_strlit("format_note");
    reveal_strlit("ext");
    reveal_strlit("vcodec");
    reveal_strlit("acodec");
    reveal_strlit("filesize");
    reveal_strlit("height");
    reveal_strlit("width");
    reveal_strlit("fps");
    reveal_strlit("tbr");
    if a.key().len() == b.key().len() {
        assert(a.key()[0] != b.key()[0]);
    }
}

/// An object made of members with distinct keys has each of them, and no
/// others.
pub proof fn lemma_object_members(entries: Seq<(Seq<char>, Json)>)
    requires
        distinct_keys(entries),
    ensures
        forall|i: int|
            0 <= i < entries.len() ==> object_of(entries).dom().contains(
                (#[trigger] entries[i]).0,
            ) && object_of(entries)[entries[i].0] == entries[i].1,
        forall|key: Seq<char>| #[trigger]
            object_of(entries).dom().contains(key) ==> exists|i: int|
                0 <= i < entries.len() && (#[trigger] entries[i]).0 == key,
    decreases entries.len(),
{
    if entries.len() > 0 {
        let front = entries.drop_last();
        assert forall|i: int, j: int| 0 <= i < j < front.len() implies (#[trigger] front[i]).0 != (
        #[trigger] front[j]).0 by {
            assert(front[i] == entries[i] && front[j] == entries[j]);
        }
        lemma_object_members(front);
        assert forall|i: int| 0 <= i < entries.len() implies object_of(entries).dom().contains(
            (#[trigger] entries[i]).0,
        ) && object_of(entries)[entries[i].0] == entries[i].1 by {
            if i < entries.len() - 1 {
                assert(front[i] == entries[i]);
                assert(entries[i].0 != entries[entries.len() - 1].0);
            }
        }
        assert forall|key: Seq<char>| #[trigger]
            object_of(entries).dom().contains(key) implies exists|i: int|
            0 <= i < entries.len() && (#[trigger] entries[i]).0 == key by {
            if key == entries.last().0 {
                assert(entries[entries.len() - 1].0 == key);
            } else {
                assert(object_of(front).dom().contains(key));
                let i = choose|i: int| 0 <= i < front.len() && (#[trigger] front[i]).0 == key;
                assert(front[i] == entries[i]);
            }
        }
    }
}

/// A document that writes a stream down reads back as that stream.
pub proof fn lemma_format_reads_back(doc: Json, format: FormatModel)
    requires
        writes_format(doc, format),
    ensures
        format_of(doc) == Ok::<FormatModel, ShapeError>(format),
{
    let members = doc->Object_0;
    assert(members.dom().contains(Field::FormatId.key()));
    assert(members.dom().contains(Field::FormatNote.key()));
    assert(members.dom().contains(Field::Ext.key()));
    assert(members.dom().contains(Field::Vcodec.key()));
    assert(members.dom().contains(Field::Acodec.key()));
    assert(members.dom().contains(Field::Filesize.key()));
    assert(members.dom().contains(Field::Height.key()));
    assert(members.dom().contains(Field::Width.key()));
    assert(members.dom().contains(Field::Fps.key()));
    assert(members.dom().contains(Field::Tbr.key()));
}

/// A list of documents that writes a list of streams down reads back as that
/// list.
pub proof fn lemma_formats_read_back(items: Seq<Json>, formats: Seq<FormatModel>)
    requires
        writes_formats(items, formats),
    ensures
        formats_of(items) == Ok::<Seq<FormatModel>, ShapeError>(formats),
    decreases items.len(),
{
    if items.len() == 0 {
        assert(formats =~= Seq::<FormatModel>::empty());
    } else {
        let front = items.drop_last();
        assert forall|i: int| 0 <= i < front.len() implies writes_format(
            #[trigger] front[i],
            formats.drop_last()[i],
        ) by {
            assert(writes_format(items[i], formats[i]));
        }
        lemma_formats_read_back(front, formats.drop_last());
        assert(writes_format(items[items.len() - 1], formats[items.len() - 1]));
        lemma_format_reads_back(items.last(), formats.last());
        assert(formats.drop_last().push(formats.last()) =~= formats);
    }
}

/// Writing an answer down and reading it again gives the same answer, member
/// for member: a missing member comes back missing, and the streams come back
/// in their order.
pub proof fn lemma_response_reads_back(doc: Json, response: ResponseModel)
    requires
        writes_response(doc, response),
    ensures
        response_of(doc) == Ok::<ResponseModel, ShapeError>(response),
{
    let members = doc->Object_0;
    assert(members.dom().contains(Field::Id.key()));
    assert(members.dom().contains(Field::Title.key()));
    assert(members.dom().contains(Field::Formats.key()));
    lemma_formats_read_back(members[Field::Formats.key()]->Array_0, response.formats);
}

/// Writes an optional string down.
fn optional_text_value(text: &Option<String>) -> (v: serde_json::Value)
    ensures
        writes_text(json_content(v), text_of(*text)),
{
    match text {
        Some(text) => text_value(text.clone()),
        None => null_value(),
    }
}

/// Writes an optional integer of 64 bits down.
fn optional_whole_value(whole: Option<i64>) -> (v: serde_json::Value)
    ensures
        writes_whole(json_content(v), whole),
{
    match whole {
        Some(whole) => number_value(whole_number(whole)),
        None => null_value(),
    }
}

/// Writes an optional integer of 32 bits down.
fn optional_i32_value(whole: Option<i32>) -> (v: serde_json::Value)
    ensures
        writes_whole(json_content(v), widened(whole)),
{
    match whole {
        Some(whole) => optional_whole_value(Some(whole as i64)),
        None => null_value(),
    }
}

/// Writes an optional number down.
fn optional_number_value(number: &Option<serde_json::Number>) -> (v: serde_json::Value)
    ensures
        writes_number(json_content(v), *number),
{
    match number {
        Some(number) => number_value(number.clone()),
        None => null_value(),
    }
}

/// One member of an object under construction.
fn entry(field: Field, value: serde_json::Value) -> (r: (String, serde_json::Value))
    ensures
        r.0@ == field.key(),
        r.1 == value,
{
    (String::from_str(field.name()), value)
}

impl YtDlpFormat {
    /// Writes the stream down as a JSON object of its ten members, with
    /// `null` in the place of a missing one. What is written reads back as
    /// the same stream.
    pub fn to_json(&self) -> (v: serde_json::Value)
        ensures
            writes_format(json_content(v), self@),
            format_of(json_content(v)) == Ok::<FormatModel, ShapeError>(self@),
    {
        let mut members: Vec<(String, serde_json::Value)> = Vec::new();
        members.push(entry(Field::FormatId, text_value(self.format_id.clone())));
        members.push(entry(Field::FormatNote, optional_text_value(&self.format_note)));
        members.push(entry(Field::Ext, text_value(self.ext.clone())));
        members.push(entry(Field::Vcodec, optional_text_value(&self.vcodec)));
        members.push(entry(Field::Acodec, optional_text_value(&self.acodec)));
        members.push(entry(Field::Filesize, optional_whole_value(self.filesize)));
        members.push(entry(Field::Height, optional_i32_value(self.height)));
        members.push(entry(Field::Width, optional_i32_value(self.width)));
        members.push(entry(Field::Fps, optional_number_value(&self.fps)));
        members.push(entry(Field::Tbr, optional_number_value(&self.tbr)));
        proof {
            let entries = entries_of(members@);
            let fields = seq![
                Field::FormatId,
                Field::FormatNote,
                Field::Ext,
                Field::Vcodec,
                Field::Acodec,
                Field::Filesize,
                Field::Height,
                Field::Width,
                Field::Fps,
                Field::Tbr,
            ];
            assert forall|i: int| 0 <= i < 10 implies (#[trigger] entries[i]).0 == fields[i].key() by {}
            assert forall|i: int, j: int| 0 <= i < j < entries.len() implies (#[trigger] entries[i]).0
                != (#[trigger] entries[j]).0 by {
                lemma_keys_differ(fields[i], fields[j]);
            }
            lemma_object_members(entries);
            let object = object_of(entries);
            assert forall|key: Seq<char>| #[trigger] object.dom().contains(key) <==> format_key(
                key,
            ) by {
                if object.dom().contains(key) {
                    let i = choose|i: int| 0 <= i < entries.len() && (#[trigger] entries[i]).0 == key;
                    assert(key == fields[i].key());
                }
                if format_key(key) {
                    assert(entries[0].0 == key || entries[1].0 == key || entries[2].0 == key
                        || entries[3].0 == key || entries[4].0 == key || entries[5].0 == key
                        || entries[6].0 == key || entries[7].0 == key || entries[8].0 == key
                        || entries[9].0 == key);
                }
            }
            assert(object[entries[0].0] == entries[0].1);
            assert(object[entries[1].0] == entries[1].1);
            assert(object[entries[2].0] == entries[2].1);
            assert(object[entries[3].0] == entries[3].1);
            assert(object[entries[4].0] == entries[4].1);
            assert(object[entries[5].0] == entries[5].1);
            assert(object[entries[6].0] == entries[6].1);
            assert(object[entries[7].0] == entries[7].1);
            assert(object[entries[8].0] == entries[8].1);
            assert(object[entries[9].0] == entries[9].1);
        }
        let v = object_value(members);
        proof {
            lemma_format_reads_back(json_content(v), self@);
        }
        v
    }
}

impl YtDlpResponse {
    /// Writes the answer down as a JSON object of `id`, `title` and
    /// `formats`, the streams in their order. What is written reads back as
    /// the same answer.
    pub fn to_json(&self) -> (v: serde_json::Value)
        ensures
            writes_response(json_content(v), self@),
            response_of(json_content(v)) == Ok::<ResponseModel, ShapeError>(self@),
    {
        let mut items: Vec<serde_json::Value> = Vec::new();
        let mut i: usize = 0;
        while i < self.formats.len()
            invariant
                i <= self.formats.len(),
                items.len() == i,
                forall|j: int|
                    0 <= j < i ==> writes_format(
                        json_content(#[trigger] items@[j]),
                        self.formats@[j]@,
                    ),
            decreases self.formats.len() - i,
        {
            items.push(self.formats[i].to_json());
            i += 1;
        }
        let ghost docs = contents(items@);
        assert(writes_formats(docs, self@.formats)) by {
            assert forall|j: int| 0 <= j < docs.len() implies writes_format(
                #[trigger] docs[j],
                self@.formats[j],
            ) by {
                assert(writes_format(json_content(items@[j]), self.formats@[j]@));
            }
        }
        let mut members: Vec<(String, serde_json::Value)> = Vec::new();
        members.push(entry(Field::Id, text_value(self.id.clone())));
        members.push(entry(Field::Title, text_value(self.title.clone())));
        members.push(entry(Field::Formats, array_value(items)));
        proof {
            let entries = entries_of(members@);
            let fields = seq![Field::Id, Field::Title, Field::Formats];
            assert forall|i: int| 0 <= i < 3 implies (#[trigger] entries[i]).0 == fields[i].key() by {}
            assert forall|i: int, j: int| 0 <= i < j < entries.len() implies (#[trigger] entries[i]).0
                != (#[trigger] entries[j]).0 by {
                lemma_keys_differ(fields[i], fields[j]);
            }
            lemma_object_members(entries);
            let object = object_of(entries);
            assert forall|key: Seq<char>| #[trigger] object.dom().contains(key) <==> response_key(
                key,
            ) by {
                if object.dom().contains(key) {
                    let i = choose|i: int| 0 <= i < entries.len() && (#[trigger] entries[i]).0 == key;
                    assert(key == fields[i].key());
                }
                if response_key(key) {
                    assert(entries[0].0 == key || entries[1].0 == key || entries[2].0 == key);
                }
            }
            assert(object[entries[0].0] == entries[0].1);
            assert(object[entries[1].0] == entries[1].1);
            assert(object[entries[2].0] == entries[2].1);
        }
        let v = object_value(members);
        proof {
            lemma_response_reads_back(json_content(v), self@);
        }
        v
    }
}

} // verus!
