//! The structured document of a report: objects, texts and numbers, built as
//! values of the `serde_json` crate, which also writes them out.

use crate::json_writer::{MultiArchiveJsonWriter, ObjectView, ZipArchiveJsonWriter, ZipObjectJsonWriter};
use crate::keyed::{keys_distinct, lemma_map_of_take, map_of};
use vstd::prelude::*;

verus! {

/// What a JSON value holds. A report is made of three kinds only: texts,
/// numbers without sign, and objects, whose members are documents under
/// distinct keys. The other kinds are here so that every JSON value has its
/// document.
pub enum Document {
    Null,
    Boolean(bool),
    /// A whole number that is not negative.
    Number(u64),
    /// A whole number below zero.
    Negative(i64),
    /// A number with a fraction, by the 64 bits of its binary form.
    Fraction(u64),
    Text(Seq<char>),
    Array(Seq<Document>),
    Object(Map<Seq<char>, Document>),
}

/// A JSON value of the `serde_json` crate. `value_document` says what it
/// holds.
#[verifier::external_type_specification]
#[verifier::external_body]
pub struct ExValue(serde_json::Value);

/// The members of a JSON object, as the `serde_json` crate keeps them.
/// `object_members` says what they are.
#[verifier::external_type_specification]
#[verifier::external_body]
#[verifier::reject_recursive_types(K)]
#[verifier::reject_recursive_types(V)]
pub struct ExMembers<K, V>(serde_json::Map<K, V>);

/// The error with which the `serde_json` crate gives up writing; writing a
/// `serde_json::Value` never comes to it.
#[verifier::external_type_specification]
#[verifier::external_body]
pub struct ExWriteError(serde_json::Error);

/// The document that a JSON value holds: the kind of the value, and what a
/// value of that kind is made of.
pub uninterp spec fn value_document(value: serde_json::Value) -> Document;

/// The members that a JSON object holds, by key.
pub uninterp spec fn object_members(
    object: serde_json::Map<String, serde_json::Value>,
) -> Map<Seq<char>, Document>;

/// The text that `serde_json::to_string` writes for a document: JSON without
/// any white space between its tokens.
pub uninterp spec fn compact_text(document: Document) -> Seq<char>;

/// The text that `serde_json::to_string_pretty` writes for a document: JSON
/// with one member to a line, indented by depth.
pub uninterp spec fn pretty_text(document: Document) -> Seq<char>;

/// The members of an object without any.
pub open spec fn no_members() -> Map<Seq<char>, Document> {
    Map::empty()
}

/// `serde_json::Map::new` makes an object without members.
#[verifier::external_body]
fn new_members() -> (object: serde_json::Map<String, serde_json::Value>)
    ensures
        object_members(object) == no_members(),
{
    serde_json::Map::new()
}

/// `serde_json::Map::insert` gives the key this value, in place of the value
/// it had, if any; the other members stay.
#[verifier::external_body]
fn put_member(
    object: &mut serde_json::Map<String, serde_json::Value>,
    key: &str,
    value: serde_json::Value,
)
    ensures
        object_members(*final(object)) == object_members(*old(object)).insert(
            key@,
            value_document(value),
        ),
{
    object.insert(key.to_owned(), value);
}

/// `serde_json::Value::String` is the JSON value that holds a text.
#[verifier::external_body]
fn text_value(text: &str) -> (value: serde_json::Value)
    ensures
        value_document(value) == Document::Text(text@),
{
    serde_json::Value::String(text.to_owned())
}

/// `serde_json::Value::from` makes of an unsigned number the JSON value that
/// holds it.
#[verifier::external_body]
fn number_value(number: u64) -> (value: serde_json::Value)
    ensures
        value_document(value) == Document::Number(number),
{
    serde_json::Value::from(number)
}

/// `serde_json::Value::Object` is the JSON value that holds an object with
/// these members.
#[verifier::external_body]
fn object_value(object: serde_json::Map<String, serde_json::Value>) -> (value: serde_json::Value)
    ensures
        value_document(value) == Document::Object(object_members(object)),
{
    serde_json::Value::Object(object)
}

/// `serde_json::to_string` writes a value as compact JSON. Of a
/// `serde_json::Value` it always writes a text: it fails only where the
/// value's own way of writing itself fails or a map has a key that is no
/// text, and a `Value` does neither. The text depends on the document alone:
/// with the features that this crate builds `serde_json` with, the members of
/// an object are written in the order of their keys.
#[verifier::external_body]
pub(crate) fn write_compact(value: &serde_json::Value) -> (written: Result<String, serde_json::Error>)
    ensures
        written is Ok,
        written matches Ok(text) ==> text@ == compact_text(value_document(*value)),
{
    serde_json::to_string(value)
}

/// `serde_json::to_string_pretty` writes a value as indented JSON. Of a
/// `serde_json::Value` it always writes a text, and the text depends on the
/// document alone, both for the reasons given for the compact form.
#[verifier::external_body]
pub(crate) fn write_pretty(value: &serde_json::Value) -> (written: Result<String, serde_json::Error>)
    ensures
        written is Ok,
        written matches Ok(text) ==> text@ == pretty_text(value_document(*value)),
{
    serde_json::to_string_pretty(value)
}

/// The member for a text that may be absent: none where it is absent.
pub open spec fn with_text(
    members: Map<Seq<char>, Document>,
    key: Seq<char>,
    text: Option<Seq<char>>,
) -> Map<Seq<char>, Document> {
    match text {
        Some(t) => members.insert(key, Document::Text(t)),
        None => members,
    }
}

/// The member for a number that may be absent: none where it is absent.
pub open spec fn with_number(
    members: Map<Seq<char>, Document>,
    key: Seq<char>,
    number: Option<u64>,
) -> Map<Seq<char>, Document> {
    match number {
        Some(n) => members.insert(key, Document::Number(n)),
        None => members,
    }
}

/// The members of the object that stands for one entry: a member for each
/// statistic that is reported and for the comment if there is one, and no
/// member for what is absent.
pub open spec fn entry_members(object: ObjectView) -> Map<Seq<char>, Document> {
    with_text(
        with_text(
            with_number(
                with_number(
                    with_text(Map::empty(), "compression_type"@, object.compression_type),
                    "original_size"@,
                    object.original_size,
                ),
                "compressed_size"@,
                object.compressed_size,
            ),
            "compression_rate"@,
            object.compression_rate,
        ),
        "comment"@,
        object.comment,
    )
}

/// The document of one entry.
pub open spec fn object_document(object: ObjectView) -> Document {
    Document::Object(entry_members(object))
}

/// The document of one archive: an object with a member for each entry,
/// under the entry's name.
pub open spec fn archive_document(objects: Map<Seq<char>, ObjectView>) -> Document {
    Document::Object(objects.map_values(|object: ObjectView| object_document(object)))
}

/// The document of a batch: an object with a member for each archive, under
/// the archive's path.
pub open spec fn batch_document(batch: Map<Seq<char>, Map<Seq<char>, ObjectView>>) -> Document {
    Document::Object(
        batch.map_values(|objects: Map<Seq<char>, ObjectView>| archive_document(objects)),
    )
}

fn put_text(
    members: &mut serde_json::Map<String, serde_json::Value>,
    key: &str,
    text: &Option<String>,
)
    ensures
        object_members(*final(members)) == with_text(
            object_members(*old(members)),
            key@,
            crate::json_writer::text_view(*text),
        ),
{
    match text {
        Some(t) => {
            put_member(members, key, text_value(t.as_str()));
        },
        None => {},
    }
}

fn put_number(
    members: &mut serde_json::Map<String, serde_json::Value>,
    key: &str,
    number: Option<u64>,
)
    ensures
        object_members(*final(members)) == with_number(object_members(*old(members)), key@, number),
{
    match number {
        Some(n) => {
            put_member(members, key, number_value(n));
        },
        None => {},
    }
}

impl ZipObjectJsonWriter {
    /// The JSON object of the entry: its keys are those of the statistics
    /// that are reported, and `comment` if there is a comment.
    pub fn to_value(&self) -> (value: serde_json::Value)
        ensures
            value_document(value) == object_document(self@),
    {
        let mut members = new_members();
        put_text(&mut members, "compression_type", &self.compression_type);
        put_number(&mut members, "original_size", self.original_size);
        put_number(&mut members, "compressed_size", self.compressed_size);
        put_text(&mut members, "compression_rate", &self.compression_rate);
        put_text(&mut members, "comment", &self.comment);
        object_value(members)
    }
}

impl ZipArchiveJsonWriter {
    /// The JSON object of the archive: the object of each entry under the
    /// entry's name.
    pub fn to_value(&self) -> (value: serde_json::Value)
        ensures
            value_document(value) == archive_document(self@),
    {
        let pairs = self.objects.as_slice();
        let mut members = new_members();
        let mut i: usize = 0;
        while i < pairs.len()
            invariant
                i <= pairs@.len(),
                pairs@ == self.objects.pairs(),
                keys_distinct(pairs@),
                object_members(members) == map_of(pairs@.take(i as int)).map_values(
                    |object: ZipObjectJsonWriter| object_document(object@),
                ),
            decreases pairs@.len() - i,
        {
            proof {
                lemma_map_of_take(pairs@, i as int);
            }
            put_member(&mut members, pairs[i].0.as_str(), pairs[i].1.to_value());
            assert(object_members(members) =~= map_of(pairs@.take(i + 1)).map_values(
                |object: ZipObjectJsonWriter| object_document(object@),
            ));
            i += 1;
        }
        assert(pairs@.take(i as int) =~= pairs@);
        assert(object_members(members) =~= self@.map_values(
            |object: ObjectView| object_document(object),
        ));
        object_value(members)
    }
}

impl MultiArchiveJsonWriter {
    /// The JSON object of the batch: the object of each archive under the
    /// archive's path.
    pub fn to_value(&self) -> (value: serde_json::Value)
        ensures
            value_document(value) == batch_document(self@),
    {
        let pairs = self.archives.as_slice();
        let mut members = new_members();
        let mut i: usize = 0;
        while i < pairs.len()
            invariant
                i <= pairs@.len(),
                pairs@ == self.archives.pairs(),
                keys_distinct(pairs@),
                object_members(members) == map_of(pairs@.take(i as int)).map_values(
                    |archive: ZipArchiveJsonWriter| archive_document(archive@),
                ),
            decreases pairs@.len() - i,
        {
            proof {
                lemma_map_of_take(pairs@, i as int);
            }
            put_member(&mut members, pairs[i].0.as_str(), pairs[i].1.to_value());
            assert(object_members(members) =~= map_of(pairs@.take(i + 1)).map_values(
                |archive: ZipArchiveJsonWriter| archive_document(archive@),
            ));
            i += 1;
        }
        assert(pairs@.take(i as int) =~= pairs@);
        assert(object_members(members) =~= self@.map_values(
            |objects: Map<Seq<char>, ObjectView>| archive_document(objects),
        ));
        object_value(members)
    }
}

/// The text of a document in one of the two forms in which it is written.
pub open spec fn document_text(document: Document, pretty: bool) -> Seq<char> {
    if pretty {
        pretty_text(document)
    } else {
        compact_text(document)
    }
}

/// The five keys of an entry's object differ from one another.
pub proof fn lemma_keys_differ()
    ensures
        "compression_type"@ != "original_size"@,
        "compression_type"@ != "compressed_size"@,
        "compression_type"@ != "compression_rate"@,
        "compression_type"@ != "comment"@,
        "original_size"@ != "compressed_size"@,
        "original_size"@ != "compression_rate"@,
        "original_size"@ != "comment"@,
        "compressed_size"@ != "compression_rate"@,
        "compressed_size"@ != "comment"@,
        "compression_rate"@ != "comment"@,
{
    reveal_strlit("compression_type");
    reveal_strlit("original_size");
    reveal_strlit("compressed_size");
    reveal_strlit("compression_rate");
    reveal_strlit("comment");
    assert("compression_type"@.len() == 16);
    assert("original_size"@.len() == 13);
    assert("compressed_size"@.len() == 15);
    assert("compression_rate"@.len() == 16);
    assert("comment"@.len() == 7);
    assert("compression_type"@[12] == 't');
    assert("compression_rate"@[12] == 'r');
}

/// The object of an entry has a key exactly for what the report holds, with
/// the value that the report holds: what is absent has no key, and there is
/// no other key.
pub proof fn lemma_entry_members(object: ObjectView)
    ensures
        entry_members(object).contains_key("compression_type"@) <==> object.compression_type
            is Some,
        object.compression_type matches Some(t) ==> entry_members(object)["compression_type"@]
            == Document::Text(t),
        entry_members(object).contains_key("original_size"@) <==> object.original_size is Some,
        object.original_size matches Some(n) ==> entry_members(object)["original_size"@]
            == Document::Number(n),
        entry_members(object).contains_key("compressed_size"@) <==> object.compressed_size
            is Some,
        object.compressed_size matches Some(n) ==> entry_members(object)["compressed_size"@]
            == Document::Number(n),
        entry_members(object).contains_key("compression_rate"@) <==> object.compression_rate
            is Some,
        object.compression_rate matches Some(t) ==> entry_members(object)["compression_rate"@]
            == Document::Text(t),
        entry_members(object).contains_key("comment"@) <==> object.comment is Some,
        object.comment matches Some(t) ==> entry_members(object)["comment"@] == Document::Text(t),
        forall|key: Seq<char>| #[trigger]
            entry_members(object).contains_key(key) ==> key == "compression_type"@ || key
                == "original_size"@ || key == "compressed_size"@ || key == "compression_rate"@
                || key == "comment"@,
{
    lemma_keys_differ();
}

/// The document of an entry holds the whole report of the entry: reports
/// with one document are equal, field for field.
pub proof fn lemma_object_document_is_faithful(first: ObjectView, second: ObjectView)
    requires
        object_document(first) == object_document(second),
    ensures
        first == second,
{
    lemma_entry_members(first);
    lemma_entry_members(second);
    assert(entry_members(first) == entry_members(second));
}

/// The document of an archive holds the whole report of the archive.
pub proof fn lemma_archive_document_is_faithful(
    first: Map<Seq<char>, ObjectView>,
    second: Map<Seq<char>, ObjectView>,
)
    requires
        archive_document(first) == archive_document(second),
    ensures
        first == second,
{
    let f = |object: ObjectView| object_document(object);
    assert(first.map_values(f) == second.map_values(f));
    assert forall|name: Seq<char>| first.contains_key(name) == second.contains_key(name) by {
        assert(first.map_values(f).contains_key(name) == first.contains_key(name));
        assert(second.map_values(f).contains_key(name) == second.contains_key(name));
    }
    assert forall|name: Seq<char>| first.contains_key(name) implies first[name]
        == second[name] by {
        assert(first.map_values(f)[name] == f(first[name]));
        assert(second.map_values(f)[name] == f(second[name]));
        lemma_object_document_is_faithful(first[name], second[name]);
    }
    assert(first =~= second);
}

/// The document of a batch holds the whole report of the batch: reports with
/// one document are equal, archive for archive and entry for entry, whatever
/// the order of their keys.
pub proof fn lemma_batch_document_is_faithful(
    first: Map<Seq<char>, Map<Seq<char>, ObjectView>>,
    second: Map<Seq<char>, Map<Seq<char>, ObjectView>>,
)
    requires
        batch_document(first) == batch_document(second),
    ensures
        first == second,
{
    let f = |objects: Map<Seq<char>, ObjectView>| archive_document(objects);
    assert(first.map_values(f) == second.map_values(f));
    assert forall|path: Seq<char>| first.contains_key(path) == second.contains_key(path) by {
        assert(first.map_values(f).contains_key(path) == first.contains_key(path));
        assert(second.map_values(f).contains_key(path) == second.contains_key(path));
    }
    assert forall|path: Seq<char>| first.contains_key(path) implies first[path]
        == second[path] by {
        assert(first.map_values(f)[path] == f(first[path]));
        assert(second.map_values(f)[path] == f(second[path]));
        lemma_archive_document_is_faithful(first[path], second[path]);
    }
    assert(first =~= second);
}

} // verus!
