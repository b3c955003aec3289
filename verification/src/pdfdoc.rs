//! The trusted boundary around the PDF object-model library (lopdf).
//!
//! A document is modelled as a map from object ids to object models
//! (`Pv`), together with the highest object number it has handed out.
//! Every function here is a thin wrapper whose contract states, over that
//! model, what the named lopdf item does according to its source.
use vstd::prelude::*;

use crate::model::Pv;
use crate::model::as_dict;
use crate::model::dict_with_ref_pushed;
use crate::model::is_array;
use crate::model::is_dict;

verus! {

#[verifier::external_type_specification]
#[verifier::external_body]
pub struct ExDocument(lopdf::Document);

#[verifier::external_type_specification]
#[verifier::external_body]
pub struct ExObject(lopdf::Object);

#[verifier::external_type_specification]
#[verifier::external_body]
pub struct ExDictionary(lopdf::Dictionary);

#[verifier::external_type_specification]
#[verifier::external_body]
pub struct ExLopdfError(lopdf::Error);

/// The model of one lopdf object.
pub uninterp spec fn obj_view(o: lopdf::Object) -> Pv;

/// What a lopdf dictionary holds, keyed by its entry names.
pub uninterp spec fn dict_view(d: lopdf::Dictionary) -> Map<Seq<char>, Pv>;

/// What a lopdf document holds: its objects, keyed by object id.
pub uninterp spec fn doc_view(d: lopdf::Document) -> Map<(int, int), Pv>;

/// The document's current highest object number (its `max_id`), from
/// which the next added object's id is taken.
pub uninterp spec fn doc_max(d: lopdf::Document) -> int;

/// An id pair as the model writes it.
pub open spec fn iid(id: (u32, u16)) -> (int, int) {
    (id.0 as int, id.1 as int)
}

/// Every object number in the document stays at or below `doc_max`, so
/// ids above it are free.
pub open spec fn doc_ids_bounded(d: lopdf::Document) -> bool {
    forall|k: (int, int)| #[trigger] doc_view(d).contains_key(k) ==> k.0 <= doc_max(d)
}

/// Whether the bytes parse as a PDF: whether `lopdf::Document::load_mem`
/// succeeds is a function of the buffer alone (lenient parsing skips
/// unreadable objects rather than failing on them).
pub uninterp spec fn pdf_parses(bytes: Seq<u8>) -> bool;

/// The highest object number of the document that parsing the bytes
/// yields: the id set, and so its maximum, is a function of the buffer.
/// (The parsed objects' contents are not: the parallel parse can merge
/// conflicting object streams in either order, so no name equates the
/// whole loaded graph across loads.)
pub uninterp spec fn parsed_doc_max(bytes: Seq<u8>) -> int;

/// Whether the document serializes into an in-memory buffer: writing to
/// one cannot fail, and the writer refuses only a document whose binary
/// mark holds a byte below 128, which neither parsing nor this
/// library's mutations produce.
pub uninterp spec fn doc_saveable(d: lopdf::Document) -> bool;

/// Relies on lopdf::Document::load_mem: its success and its id ceiling
/// are functions of the buffer; parsing keeps `max_id` (a u32) at or
/// above every loaded object number; and it accepts a binary mark only
/// when all its bytes are 128 or above, so the parsed document
/// serializes.
#[verifier::external_body]
pub fn load_document(bytes: &[u8]) -> (r: Result<lopdf::Document, lopdf::Error>)
    ensures
        (r is Ok) == pdf_parses(bytes@),
        r matches Result::Ok(d) ==> doc_ids_bounded(d) && 0 <= doc_max(d) <= u32::MAX && doc_saveable(d),
        r matches Result::Ok(d) ==> doc_max(d) == parsed_doc_max(bytes@),
{
    lopdf::Document::load_mem(bytes)
}

/// The bytes that saving this document value writes: the writer reads
/// only the document itself, in the order of its maps, so the output is
/// a function of the document.
pub uninterp spec fn saved_bytes(d: lopdf::Document) -> Seq<u8>;

/// Relies on lopdf::Document::save_to with an in-memory buffer: writes
/// to a Vec cannot fail, the only other failure is the binary-mark
/// check (`doc_saveable`), the header is written before anything can
/// fail, the output depends on the document alone, and for a
/// cross-reference stream the writer increments `max_id` and then
/// computes `max_id + 1`, neither of which may overflow.
#[verifier::external_body]
pub fn save_document(doc: &mut lopdf::Document) -> (r: Result<Vec<u8>, lopdf::Error>)
    requires
        doc_max(*old(doc)) + 2 <= u32::MAX,
    ensures
        (r is Ok) == doc_saveable(*old(doc)),
        r matches Result::Ok(bytes) ==> bytes@.len() > 0 && bytes@ == saved_bytes(*old(doc)),
{
    let mut buf: Vec<u8> = Vec::new();
    match doc.save_to(&mut buf) {
        Ok(()) => Ok(buf),
        Err(e) => Err(lopdf::Error::IO(e)),
    }
}

/// Relies on the public `max_id` field of lopdf::Document: the current
/// highest object number.
#[verifier::external_body]
pub fn get_doc_max(doc: &lopdf::Document) -> (m: u32)
    ensures
        m == doc_max(*doc),
{
    doc.max_id
}

/// Relies on lopdf::Dictionary::new: the new dictionary is empty.
#[verifier::external_body]
pub fn new_dictionary() -> (d: lopdf::Dictionary)
    ensures
        dict_view(d) == crate::model::empty_dict(),
{
    lopdf::Dictionary::new()
}

/// Relies on lopdf::Dictionary::set: it inserts the value under the key.
#[verifier::external_body]
pub fn dict_set(d: &mut lopdf::Dictionary, key: &str, value: lopdf::Object)
    ensures
        dict_view(*final(d)) == dict_view(*old(d)).insert(key@, obj_view(value)),
{
    d.set(key, value);
}

/// Relies on lopdf::Object::Name holding the given name bytes.
#[verifier::external_body]
pub fn obj_name(s: &str) -> (o: lopdf::Object)
    ensures
        obj_view(o) == Pv::Name(s@),
{
    lopdf::Object::Name(s.as_bytes().to_vec())
}

/// Relies on lopdf::Object::Integer holding the given integer.
#[verifier::external_body]
pub fn obj_int(i: i64) -> (o: lopdf::Object)
    ensures
        obj_view(o) == Pv::Int(i as int),
{
    lopdf::Object::Integer(i)
}

/// Relies on lopdf::Object::String with StringFormat::Literal.
#[verifier::external_body]
pub fn obj_literal_string(b: Vec<u8>) -> (o: lopdf::Object)
    ensures
        obj_view(o) == Pv::LitStr(b@),
{
    lopdf::Object::String(b, lopdf::StringFormat::Literal)
}

/// Relies on lopdf::Object::String with StringFormat::Hexadecimal.
#[verifier::external_body]
pub fn obj_hex_string(b: Vec<u8>) -> (o: lopdf::Object)
    ensures
        obj_view(o) == Pv::HexStr(b@),
{
    lopdf::Object::String(b, lopdf::StringFormat::Hexadecimal)
}

/// Relies on lopdf::Object::Reference holding the given object id.
#[verifier::external_body]
pub fn obj_reference(id: (u32, u16)) -> (o: lopdf::Object)
    ensures
        obj_view(o) == Pv::Ref(id.0 as int, id.1 as int),
{
    lopdf::Object::Reference(id)
}

/// Relies on lopdf::Object::Array holding the given elements in order.
#[verifier::external_body]
pub fn obj_array(items: Vec<lopdf::Object>) -> (o: lopdf::Object)
    ensures
        obj_view(o) == Pv::Array(items@.map_values(|x: lopdf::Object| obj_view(x))),
{
    lopdf::Object::Array(items)
}

/// Relies on lopdf::Object::Dictionary holding the given dictionary.
#[verifier::external_body]
pub fn obj_dictionary(d: lopdf::Dictionary) -> (o: lopdf::Object)
    ensures
        obj_view(o) == Pv::Dict(dict_view(d)),
{
    lopdf::Object::Dictionary(d)
}

/// Relies on lopdf::Stream::new: it sets the dictionary's Length entry
/// to the content's byte count and keeps the content as given.
#[verifier::external_body]
pub fn obj_stream(dict: lopdf::Dictionary, content: Vec<u8>) -> (o: lopdf::Object)
    ensures
        obj_view(o) == Pv::Stream(dict_view(dict).insert("Length"@, Pv::Int(content@.len() as int)), content@),
{
    lopdf::Object::Stream(lopdf::Stream::new(dict, content))
}

/// Relies on lopdf::Document::add_object: it increments `max_id`,
/// inserts the object at id (`max_id`, 0), and touches nothing else of
/// the document (in particular not the binary mark).
#[verifier::external_body]
pub fn add_object(doc: &mut lopdf::Document, o: lopdf::Object) -> (id: (u32, u16))
    requires
        doc_max(*old(doc)) < u32::MAX,
    ensures
        id.0 == doc_max(*old(doc)) + 1 && id.1 == 0,
        doc_max(*final(doc)) == doc_max(*old(doc)) + 1,
        doc_view(*final(doc)) == doc_view(*old(doc)).insert(iid(id), obj_view(o)),
        doc_saveable(*final(doc)) == doc_saveable(*old(doc)),
{
    doc.add_object(o)
}

/// Relies on the public `objects` map of lopdf::Document and on
/// lopdf::Dictionary::set: when the object stored at `id` is a
/// dictionary, the value is inserted under the key; otherwise nothing
/// changes. The binary mark is never touched.
#[verifier::external_body]
pub fn set_dict_entry(doc: &mut lopdf::Document, id: (u32, u16), key: &str, value: lopdf::Object) -> (ok: bool)
    ensures
        ok == (doc_view(*old(doc)).contains_key(iid(id)) && is_dict(doc_view(*old(doc))[iid(id)])),
        ok ==> doc_view(*final(doc)) == doc_view(*old(doc)).insert(iid(id), Pv::Dict(as_dict(doc_view(*old(doc))[iid(id)]).insert(key@, obj_view(value)))),
        !ok ==> doc_view(*final(doc)) == doc_view(*old(doc)),
        doc_max(*final(doc)) == doc_max(*old(doc)),
        doc_saveable(*final(doc)) == doc_saveable(*old(doc)),
{
    match doc.objects.get_mut(&id) {
        Some(lopdf::Object::Dictionary(d)) => {
            d.set(key, value);
            true
        },
        _ => false,
    }
}

/// What stands under `key` of the dictionary object stored at `id`.
#[derive(PartialEq, Eq, Structural)]
pub enum EntryKind {
    /// The entry is an array.
    ArrayEntry,
    /// The entry exists but is no array.
    OtherEntry,
    /// The dictionary has no such entry.
    MissingEntry,
    /// No dictionary is stored at the id.
    NoDict,
}

/// Relies on the public `objects` map of lopdf::Document and on
/// lopdf::Dictionary::get: it reports which variant stands at the id
/// and under the key, nothing more.
#[verifier::external_body]
pub fn dict_entry_kind(doc: &lopdf::Document, id: (u32, u16), key: &str) -> (k: EntryKind)
    ensures
        (k == EntryKind::NoDict) == !(doc_view(*doc).contains_key(iid(id)) && is_dict(doc_view(*doc)[iid(id)])),
        (k == EntryKind::ArrayEntry) == (doc_view(*doc).contains_key(iid(id)) && is_dict(doc_view(*doc)[iid(id)]) && as_dict(doc_view(*doc)[iid(id)]).contains_key(key@) && is_array(as_dict(doc_view(*doc)[iid(id)])[key@])),
        (k == EntryKind::OtherEntry) == (doc_view(*doc).contains_key(iid(id)) && is_dict(doc_view(*doc)[iid(id)]) && as_dict(doc_view(*doc)[iid(id)]).contains_key(key@) && !is_array(as_dict(doc_view(*doc)[iid(id)])[key@])),
        (k == EntryKind::MissingEntry) == (doc_view(*doc).contains_key(iid(id)) && is_dict(doc_view(*doc)[iid(id)]) && !as_dict(doc_view(*doc)[iid(id)]).contains_key(key@)),
{
    match doc.objects.get(&id) {
        Some(lopdf::Object::Dictionary(d)) => match d.get(key.as_bytes()) {
            Ok(lopdf::Object::Array(_)) => EntryKind::ArrayEntry,
            Ok(_) => EntryKind::OtherEntry,
            Err(_) => EntryKind::MissingEntry,
        },
        _ => EntryKind::NoDict,
    }
}

/// Relies on the public `objects` map of lopdf::Document, on
/// lopdf::Dictionary::get_mut and on Vec::push: when the object stored
/// at `id` is a dictionary whose entry under the key is an array, a
/// reference to `rid` is pushed onto it; otherwise nothing changes. The
/// binary mark is never touched.
#[verifier::external_body]
pub fn push_ref_onto_array_entry(doc: &mut lopdf::Document, id: (u32, u16), key: &str, rid: (u32, u16)) -> (ok: bool)
    ensures
        ok == (doc_view(*old(doc)).contains_key(iid(id)) && is_dict(doc_view(*old(doc))[iid(id)]) && as_dict(doc_view(*old(doc))[iid(id)]).contains_key(key@) && is_array(as_dict(doc_view(*old(doc))[iid(id)])[key@])),
        ok ==> doc_view(*final(doc)) == doc_view(*old(doc)).insert(iid(id), Pv::Dict(dict_with_ref_pushed(as_dict(doc_view(*old(doc))[iid(id)]), key@, iid(rid)))),
        !ok ==> doc_view(*final(doc)) == doc_view(*old(doc)),
        doc_max(*final(doc)) == doc_max(*old(doc)),
        doc_saveable(*final(doc)) == doc_saveable(*old(doc)),
{
    match doc.objects.get_mut(&id) {
        Some(lopdf::Object::Dictionary(d)) => match d.get_mut(key.as_bytes()) {
            Ok(lopdf::Object::Array(a)) => {
                a.push(lopdf::Object::Reference(rid));
                true
            },
            _ => false,
        },
        _ => false,
    }
}

} // verus!
