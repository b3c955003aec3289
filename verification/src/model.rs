//! The mathematical model of a PDF object graph: what the contracts over
//! the document say. A document is a map from object ids to object models.
use vstd::prelude::*;

verus! {

/// Model of one PDF object.
pub enum Pv {
    /// A name such as `/Sig`.
    Name(Seq<char>),
    /// An integer.
    Int(int),
    /// A string written in literal form.
    LitStr(Seq<u8>),
    /// A string written in hexadecimal form.
    HexStr(Seq<u8>),
    /// An array of objects.
    Array(Seq<Pv>),
    /// A dictionary, keyed by its entry names.
    Dict(Map<Seq<char>, Pv>),
    /// A stream: its dictionary and its content bytes.
    Stream(Map<Seq<char>, Pv>, Seq<u8>),
    /// An indirect reference to the object with this id.
    Ref(int, int),
    /// Anything the contracts do not speak of.
    Other,
}

/// The empty dictionary model.
pub open spec fn empty_dict() -> Map<Seq<char>, Pv> {
    Map::empty()
}

/// Whether the model is a dictionary.
pub open spec fn is_dict(p: Pv) -> bool {
    match p {
        Pv::Dict(m) => true,
        _ => false,
    }
}

/// The dictionary entries of a model (empty when it is no dictionary).
pub open spec fn as_dict(p: Pv) -> Map<Seq<char>, Pv> {
    match p {
        Pv::Dict(m) => m,
        _ => empty_dict(),
    }
}

/// Whether the model is an array.
pub open spec fn is_array(p: Pv) -> bool {
    match p {
        Pv::Array(s) => true,
        _ => false,
    }
}

/// The elements of an array model (empty when it is no array).
pub open spec fn as_array(p: Pv) -> Seq<Pv> {
    match p {
        Pv::Array(s) => s,
        _ => Seq::empty(),
    }
}

/// The dictionary with a reference pushed onto the array under `key`.
pub open spec fn dict_with_ref_pushed(m: Map<Seq<char>, Pv>, key: Seq<char>, rid: (int, int)) -> Map<Seq<char>, Pv> {
    m.insert(key, Pv::Array(as_array(m[key]).push(Pv::Ref(rid.0, rid.1))))
}

/// The dictionary with a reference appended under `key`: pushed onto the
/// existing array when the entry is one, otherwise set to a fresh
/// one-element array.
pub open spec fn dict_with_ref_appended(m: Map<Seq<char>, Pv>, key: Seq<char>, rid: (int, int)) -> Map<Seq<char>, Pv> {
    if m.contains_key(key) && is_array(m[key]) {
        dict_with_ref_pushed(m, key, rid)
    } else {
        m.insert(key, Pv::Array(seq![Pv::Ref(rid.0, rid.1)]))
    }
}

} // verus!
