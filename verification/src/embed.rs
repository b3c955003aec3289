//! The signature embedder: it mutates the parsed object graph, creating
//! the appearance stream, the signature dictionary, the widget annotation
//! and the AcroForm, and wiring them into the catalog and the first page.
//!
//! The catalog is expected at object id (1, 0) and the first page at
//! (2, 0); a document that has no dictionary there cannot be signed and
//! the embedder reports which anchor is missing.
use vstd::prelude::*;

use crate::SignError;
use crate::model::Pv;
use crate::model::as_dict;
use crate::model::dict_with_ref_appended;
use crate::model::empty_dict;
use crate::model::is_dict;
use crate::pdfdoc::EntryKind;
use crate::pdfdoc::add_object;
use crate::pdfdoc::dict_entry_kind;
use crate::pdfdoc::dict_set;
use crate::pdfdoc::doc_saveable;
use crate::pdfdoc::push_ref_onto_array_entry;
use crate::pdfdoc::dict_view;
use crate::pdfdoc::doc_ids_bounded;
use crate::pdfdoc::doc_max;
use crate::pdfdoc::doc_view;
use crate::pdfdoc::new_dictionary;
use crate::pdfdoc::obj_array;
use crate::pdfdoc::obj_dictionary;
use crate::pdfdoc::obj_hex_string;
use crate::pdfdoc::obj_int;
use crate::pdfdoc::obj_literal_string;
use crate::pdfdoc::obj_name;
use crate::pdfdoc::obj_reference;
use crate::pdfdoc::obj_stream;
use crate::pdfdoc::obj_view;
use crate::pdfdoc::set_dict_entry;

verus! {

/// The byte capacity reserved for the signature container inside the
/// document: the `Contents` placeholder always holds exactly this many
/// bytes, so the byte range can be fixed before the final size is known.
pub const SIGNATURE_CAPACITY: usize = 4096;

/// The signer strings, as the byte sequences written into the document.
pub struct SignerInfo {
    pub name: Seq<u8>,
    pub reason: Seq<u8>,
    pub location: Seq<u8>,
    pub contact: Seq<u8>,
}

/// The content stream drawing the visible signature text.
pub open spec fn appearance_content() -> Seq<u8> {
    seq![
        0x71u8, 0x0a, 0x42, 0x54, 0x0a, 0x2f, 0x46, 0x31, 0x20, 0x30, 0x20, 0x54, 0x66, 0x0a, 0x30, 0x20,
        0x30, 0x20, 0x30, 0x20, 0x72, 0x67, 0x0a, 0x35, 0x30, 0x20, 0x35, 0x30, 0x20, 0x54, 0x64, 0x0a,
        0x28, 0x44, 0x69, 0x67, 0x69, 0x74, 0x61, 0x6c, 0x6c, 0x79, 0x20, 0x73, 0x69, 0x67, 0x6e, 0x65,
        0x64, 0x29, 0x20, 0x54, 0x6a, 0x0a, 0x45, 0x54, 0x0a, 0x51,
    ]
}

/// The field name of the signature widget, `Signature1`.
pub open spec fn signature_field_name() -> Seq<u8> {
    seq![0x53u8, 0x69, 0x67, 0x6e, 0x61, 0x74, 0x75, 0x72, 0x65, 0x31]
}

/// The AcroForm default appearance string, `/F1 0 Tf 0 0 0 rg`.
pub open spec fn default_appearance_bytes() -> Seq<u8> {
    seq![0x2fu8, 0x46, 0x31, 0x20, 0x30, 0x20, 0x54, 0x66, 0x20, 0x30, 0x20, 0x30, 0x20, 0x30, 0x20, 0x72, 0x67]
}

/// The appearance stream: a form XObject with a fixed bounding box whose
/// content draws the signature text.
pub open spec fn appearance_stream_model() -> Pv {
    Pv::Stream(
        empty_dict()
            .insert("Type"@, Pv::Name("XObject"@))
            .insert("Subtype"@, Pv::Name("Form"@))
            .insert("FormType"@, Pv::Int(1))
            .insert("BBox"@, Pv::Array(seq![Pv::Int(0), Pv::Int(0), Pv::Int(200), Pv::Int(60)]))
            .insert("Length"@, Pv::Int(appearance_content().len() as int)),
        appearance_content(),
    )
}

/// The appearance dictionary: the normal appearance points at the stream.
pub open spec fn appearance_dict_model(ap: (int, int)) -> Map<Seq<char>, Pv> {
    empty_dict().insert("N"@, Pv::Ref(ap.0, ap.1))
}

/// The signature dictionary: type and filter names, the signer strings,
/// the timestamp, the optional location, contact and certificate, the
/// appearance, the placeholder as a hexadecimal string, and the byte
/// range covering the original bytes.
pub open spec fn sig_dict_model(si: SignerInfo, ts: Seq<u8>, cert: Option<Seq<u8>>, padded: Seq<u8>, orig_len: int, ap: (int, int)) -> Map<Seq<char>, Pv> {
    let base = empty_dict()
        .insert("Type"@, Pv::Name("Sig"@))
        .insert("Filter"@, Pv::Name("Adobe.PPKLite"@))
        .insert("SubFilter"@, Pv::Name("adbe.pkcs7.detached"@))
        .insert("Name"@, Pv::LitStr(si.name))
        .insert("M"@, Pv::LitStr(ts))
        .insert("Reason"@, Pv::LitStr(si.reason));
    let with_loc = if si.location.len() > 0 {
        base.insert("Location"@, Pv::LitStr(si.location))
    } else {
        base
    };
    let with_contact = if si.contact.len() > 0 {
        with_loc.insert("ContactInfo"@, Pv::LitStr(si.contact))
    } else {
        with_loc
    };
    let with_cert = match cert {
        Option::Some(c) => with_contact.insert("Cert"@, Pv::LitStr(c)),
        Option::None => with_contact,
    };
    with_cert
        .insert("AP"@, Pv::Dict(appearance_dict_model(ap)))
        .insert("Contents"@, Pv::HexStr(padded))
        .insert("ByteRange"@, Pv::Array(seq![Pv::Int(0), Pv::Int(orig_len), Pv::Int(orig_len + SIGNATURE_CAPACITY), Pv::Int(0)]))
}

/// The signature field: a widget annotation bound to the signature
/// dictionary, placed at a fixed rectangle of the first page.
pub open spec fn field_dict_model(sig: (int, int), ap: (int, int)) -> Map<Seq<char>, Pv> {
    empty_dict()
        .insert("Type"@, Pv::Name("Annot"@))
        .insert("Subtype"@, Pv::Name("Widget"@))
        .insert("FT"@, Pv::Name("Sig"@))
        .insert("T"@, Pv::LitStr(signature_field_name()))
        .insert("F"@, Pv::Int(4))
        .insert("V"@, Pv::Ref(sig.0, sig.1))
        .insert("AP"@, Pv::Dict(appearance_dict_model(ap)))
        .insert("Rect"@, Pv::Array(seq![Pv::Int(100), Pv::Int(650), Pv::Int(300), Pv::Int(700)]))
        .insert("P"@, Pv::Ref(2, 0))
}

/// The AcroForm: signatures exist and are append-only, a default
/// appearance, and the one signature field.
pub open spec fn acroform_model(field: (int, int)) -> Map<Seq<char>, Pv> {
    empty_dict()
        .insert("SigFlags"@, Pv::Int(3))
        .insert("DA"@, Pv::LitStr(default_appearance_bytes()))
        .insert("Fields"@, Pv::Array(seq![Pv::Ref(field.0, field.1)]))
}

/// Whether the document has its catalog dictionary at (1, 0).
pub open spec fn cat_ok(m: Map<(int, int), Pv>) -> bool {
    m.contains_key((1int, 0int)) && is_dict(m[(1int, 0int)])
}

/// Whether the document has its first-page dictionary at (2, 0).
pub open spec fn page_ok(m: Map<(int, int), Pv>) -> bool {
    m.contains_key((2int, 0int)) && is_dict(m[(2int, 0int)])
}

/// Whether the graph holds both anchors the embedder needs.
pub open spec fn anchors_ok(m: Map<(int, int), Pv>) -> bool {
    cat_ok(m) && page_ok(m)
}

/// The object graph after embedding: the four new objects at the ids
/// following `base`, the catalog pointing at the AcroForm, and the field
/// appended to the first page's annotations.
pub open spec fn embed_model(m: Map<(int, int), Pv>, base: int, padded: Seq<u8>, cert: Option<Seq<u8>>, si: SignerInfo, ts: Seq<u8>, orig_len: int) -> Map<(int, int), Pv> {
    let ap = (base + 1, 0int);
    let sig = (base + 2, 0int);
    let field = (base + 3, 0int);
    let acro = (base + 4, 0int);
    m.insert(ap, appearance_stream_model())
        .insert(sig, Pv::Dict(sig_dict_model(si, ts, cert, padded, orig_len, ap)))
        .insert(field, Pv::Dict(field_dict_model(sig, ap)))
        .insert(acro, Pv::Dict(acroform_model(field)))
        .insert((1int, 0int), Pv::Dict(as_dict(m[(1int, 0int)]).insert("AcroForm"@, Pv::Ref(acro.0, acro.1))))
        .insert((2int, 0int), Pv::Dict(dict_with_ref_appended(as_dict(m[(2int, 0int)]), "Annots"@, field)))
}

/// The view of an optional byte buffer held by reference.
pub open spec fn opt_view(c: &Option<Vec<u8>>) -> Option<Seq<u8>> {
    match c {
        Option::Some(v) => Option::Some(v@),
        Option::None => Option::None,
    }
}

/// The signer strings of four byte buffers.
pub open spec fn signer_of(name_b: Seq<u8>, reason_b: Seq<u8>, location_b: Seq<u8>, contact_b: Seq<u8>) -> SignerInfo {
    SignerInfo { name: name_b, reason: reason_b, location: location_b, contact: contact_b }
}

fn build_appearance_stream() -> (o: lopdf::Object)
    ensures
        obj_view(o) == appearance_stream_model(),
{
    let content: Vec<u8> = vec![
        0x71u8, 0x0a, 0x42, 0x54, 0x0a, 0x2f, 0x46, 0x31, 0x20, 0x30, 0x20, 0x54, 0x66, 0x0a, 0x30, 0x20,
        0x30, 0x20, 0x30, 0x20, 0x72, 0x67, 0x0a, 0x35, 0x30, 0x20, 0x35, 0x30, 0x20, 0x54, 0x64, 0x0a,
        0x28, 0x44, 0x69, 0x67, 0x69, 0x74, 0x61, 0x6c, 0x6c, 0x79, 0x20, 0x73, 0x69, 0x67, 0x6e, 0x65,
        0x64, 0x29, 0x20, 0x54, 0x6a, 0x0a, 0x45, 0x54, 0x0a, 0x51,
    ];
    assert(content@ =~= appearance_content());
    let mut d = new_dictionary();
    dict_set(&mut d, "Type", obj_name("XObject"));
    dict_set(&mut d, "Subtype", obj_name("Form"));
    dict_set(&mut d, "FormType", obj_int(1));
    let bbox_items: Vec<lopdf::Object> = vec![obj_int(0), obj_int(0), obj_int(200), obj_int(60)];
    let bbox = obj_array(bbox_items);
    assert(obj_view(bbox) == Pv::Array(seq![Pv::Int(0), Pv::Int(0), Pv::Int(200), Pv::Int(60)])) by {
        assert(crate::model::as_array(obj_view(bbox)) =~= seq![Pv::Int(0), Pv::Int(0), Pv::Int(200), Pv::Int(60)]);
    }
    dict_set(&mut d, "BBox", bbox);
    obj_stream(d, content)
}

fn build_appearance_dict(ap_id: (u32, u16)) -> (d: lopdf::Dictionary)
    ensures
        dict_view(d) == appearance_dict_model((ap_id.0 as int, ap_id.1 as int)),
{
    let mut d = new_dictionary();
    dict_set(&mut d, "N", obj_reference(ap_id));
    d
}

fn build_sig_dict(
    padded: Vec<u8>,
    certificate: &Option<Vec<u8>>,
    name_b: Vec<u8>,
    reason_b: Vec<u8>,
    location_b: Vec<u8>,
    contact_b: Vec<u8>,
    timestamp: Vec<u8>,
    original_len: usize,
    ap_id: (u32, u16),
) -> (d: lopdf::Dictionary)
    requires
        original_len + SIGNATURE_CAPACITY <= i64::MAX,
    ensures
        dict_view(d) == sig_dict_model(signer_of(name_b@, reason_b@, location_b@, contact_b@), timestamp@, opt_view(certificate), padded@, original_len as int, (ap_id.0 as int, ap_id.1 as int)),
{
    let mut d = new_dictionary();
    dict_set(&mut d, "Type", obj_name("Sig"));
    dict_set(&mut d, "Filter", obj_name("Adobe.PPKLite"));
    dict_set(&mut d, "SubFilter", obj_name("adbe.pkcs7.detached"));
    dict_set(&mut d, "Name", obj_literal_string(name_b));
    dict_set(&mut d, "M", obj_literal_string(timestamp));
    dict_set(&mut d, "Reason", obj_literal_string(reason_b));
    if location_b.len() > 0 {
        dict_set(&mut d, "Location", obj_literal_string(location_b));
    }
    if contact_b.len() > 0 {
        dict_set(&mut d, "ContactInfo", obj_literal_string(contact_b));
    }
    match certificate {
        Option::Some(c) => {
            dict_set(&mut d, "Cert", obj_literal_string(c.clone()));
        },
        Option::None => {},
    }
    let ap = build_appearance_dict(ap_id);
    dict_set(&mut d, "AP", obj_dictionary(ap));
    dict_set(&mut d, "Contents", obj_hex_string(padded));
    let range_items: Vec<lopdf::Object> = vec![
        obj_int(0),
        obj_int(original_len as i64),
        obj_int(original_len as i64 + SIGNATURE_CAPACITY as i64),
        obj_int(0),
    ];
    let range = obj_array(range_items);
    assert(obj_view(range) == Pv::Array(seq![Pv::Int(0), Pv::Int(original_len as int), Pv::Int(original_len as int + SIGNATURE_CAPACITY), Pv::Int(0)])) by {
        assert(crate::model::as_array(obj_view(range)) =~= seq![Pv::Int(0), Pv::Int(original_len as int), Pv::Int(original_len as int + SIGNATURE_CAPACITY), Pv::Int(0)]);
    }
    dict_set(&mut d, "ByteRange", range);
    d
}

fn build_field_dict(sig_id: (u32, u16), ap_id: (u32, u16)) -> (d: lopdf::Dictionary)
    ensures
        dict_view(d) == field_dict_model((sig_id.0 as int, sig_id.1 as int), (ap_id.0 as int, ap_id.1 as int)),
{
    let mut d = new_dictionary();
    dict_set(&mut d, "Type", obj_name("Annot"));
    dict_set(&mut d, "Subtype", obj_name("Widget"));
    dict_set(&mut d, "FT", obj_name("Sig"));
    let field_name: Vec<u8> = vec![0x53u8, 0x69, 0x67, 0x6e, 0x61, 0x74, 0x75, 0x72, 0x65, 0x31];
    assert(field_name@ =~= signature_field_name());
    dict_set(&mut d, "T", obj_literal_string(field_name));
    dict_set(&mut d, "F", obj_int(4));
    dict_set(&mut d, "V", obj_reference(sig_id));
    let ap = build_appearance_dict(ap_id);
    dict_set(&mut d, "AP", obj_dictionary(ap));
    let rect_items: Vec<lopdf::Object> = vec![obj_int(100), obj_int(650), obj_int(300), obj_int(700)];
    let rect = obj_array(rect_items);
    assert(obj_view(rect) == Pv::Array(seq![Pv::Int(100), Pv::Int(650), Pv::Int(300), Pv::Int(700)])) by {
        assert(crate::model::as_array(obj_view(rect)) =~= seq![Pv::Int(100), Pv::Int(650), Pv::Int(300), Pv::Int(700)]);
    }
    dict_set(&mut d, "Rect", rect);
    dict_set(&mut d, "P", obj_reference((2u32, 0u16)));
    d
}

fn build_acroform(field_id: (u32, u16)) -> (d: lopdf::Dictionary)
    ensures
        dict_view(d) == acroform_model((field_id.0 as int, field_id.1 as int)),
{
    let mut d = new_dictionary();
    dict_set(&mut d, "SigFlags", obj_int(3));
    let da: Vec<u8> = vec![0x2fu8, 0x46, 0x31, 0x20, 0x30, 0x20, 0x54, 0x66, 0x20, 0x30, 0x20, 0x30, 0x20, 0x30, 0x20, 0x72, 0x67];
    assert(da@ =~= default_appearance_bytes());
    dict_set(&mut d, "DA", obj_literal_string(da));
    let fields_items: Vec<lopdf::Object> = vec![obj_reference(field_id)];
    let fields = obj_array(fields_items);
    assert(obj_view(fields) == Pv::Array(seq![Pv::Ref(field_id.0 as int, field_id.1 as int)])) by {
        assert(crate::model::as_array(obj_view(fields)) =~= seq![Pv::Ref(field_id.0 as int, field_id.1 as int)]);
    }
    dict_set(&mut d, "Fields", fields);
    d
}

/// Embeds the signature into the object graph: adds the appearance
/// stream, the signature dictionary, the widget annotation and the
/// AcroForm, points the catalog at the AcroForm, and appends the widget
/// to the first page's annotations. A document without a catalog
/// dictionary at (1, 0), or without a first-page dictionary at (2, 0),
/// is reported and the graph is to be discarded.
pub fn embed_signature(
    doc: &mut lopdf::Document,
    padded: Vec<u8>,
    certificate: &Option<Vec<u8>>,
    name_b: Vec<u8>,
    reason_b: Vec<u8>,
    location_b: Vec<u8>,
    contact_b: Vec<u8>,
    timestamp: Vec<u8>,
    original_len: usize,
) -> (r: Result<(), SignError>)
    requires
        doc_ids_bounded(*old(doc)),
        0 <= doc_max(*old(doc)),
        doc_max(*old(doc)) + 4 <= u32::MAX,
        original_len + SIGNATURE_CAPACITY <= i64::MAX,
    ensures
        r is Ok <==> cat_ok(doc_view(*old(doc))) && page_ok(doc_view(*old(doc))),
        r is Ok ==> doc_view(*final(doc)) == embed_model(doc_view(*old(doc)), doc_max(*old(doc)), padded@, opt_view(certificate), signer_of(name_b@, reason_b@, location_b@, contact_b@), timestamp@, original_len as int),
        r == Result::<(), SignError>::Err(SignError::MissingCatalog) <==> !cat_ok(doc_view(*old(doc))),
        r == Result::<(), SignError>::Err(SignError::MissingFirstPage) <==> cat_ok(doc_view(*old(doc))) && !page_ok(doc_view(*old(doc))),
        doc_max(*final(doc)) == doc_max(*old(doc)) + 4,
        doc_saveable(*final(doc)) == doc_saveable(*old(doc)),
{
    let ghost m0 = doc_view(*old(doc));
    let ghost base = doc_max(*old(doc));

    let ap_obj = build_appearance_stream();
    let ap_id = add_object(doc, ap_obj);

    let sig_dict = build_sig_dict(padded, certificate, name_b, reason_b, location_b, contact_b, timestamp, original_len, ap_id);
    let sig_id = add_object(doc, obj_dictionary(sig_dict));

    let field_dict = build_field_dict(sig_id, ap_id);
    let field_id = add_object(doc, obj_dictionary(field_dict));

    let acroform = build_acroform(field_id);
    let acro_id = add_object(doc, obj_dictionary(acroform));

    proof {
        if m0.contains_key((1int, 0int)) {
            assert(1 <= base);
        }
        if m0.contains_key((2int, 0int)) {
            assert(2 <= base);
        }
    }

    let ok_cat = set_dict_entry(doc, (1u32, 0u16), "AcroForm", obj_reference(acro_id));
    if !ok_cat {
        return Err(SignError::MissingCatalog);
    }
    let kind = dict_entry_kind(doc, (2u32, 0u16), "Annots");
    if kind == EntryKind::NoDict {
        return Err(SignError::MissingFirstPage);
    }
    if kind == EntryKind::ArrayEntry {
        let ok_push = push_ref_onto_array_entry(doc, (2u32, 0u16), "Annots", field_id);
        assert(ok_push);
    } else {
        let annots = obj_array(vec![obj_reference(field_id)]);
        assert(obj_view(annots) == Pv::Array(seq![Pv::Ref(field_id.0 as int, field_id.1 as int)])) by {
            assert(crate::model::as_array(obj_view(annots)) =~= seq![Pv::Ref(field_id.0 as int, field_id.1 as int)]);
        }
        let ok_set = set_dict_entry(doc, (2u32, 0u16), "Annots", annots);
        assert(ok_set);
    }
    Ok(())
}

/// Whether the object is a widget annotation: a dictionary whose
/// Subtype entry is the Widget name.
pub open spec fn is_widget(p: Pv) -> bool {
    is_dict(p) && as_dict(p).contains_key("Subtype"@) && as_dict(p)["Subtype"@] == Pv::Name("Widget"@)
}

/// Embedding adds exactly one widget annotation: the new field at id
/// base+3 is a widget whose V entry references the signature dictionary
/// at base+2, whose Type entry is the Sig name; the three other new
/// objects are no widgets; and every object of the original graph keeps
/// the widget status it had.
pub proof fn lemma_embed_adds_one_widget(m: Map<(int, int), Pv>, base: int, padded: Seq<u8>, cert: Option<Seq<u8>>, si: SignerInfo, ts: Seq<u8>, orig_len: int)
    requires
        map_ids_bounded(m, base),
        cat_ok(m),
        page_ok(m),
    ensures
        ({
            let r = embed_model(m, base, padded, cert, si, ts, orig_len);
            let sig = (base + 2, 0int);
            let field = (base + 3, 0int);
            &&& is_widget(r[field])
            &&& as_dict(r[field]).contains_key("V"@) && as_dict(r[field])["V"@] == Pv::Ref(sig.0, sig.1)
            &&& is_dict(r[sig]) && as_dict(r[sig]).contains_key("Type"@) && as_dict(r[sig])["Type"@] == Pv::Name("Sig"@)
            &&& !is_widget(r[(base + 1, 0int)]) && !is_widget(r[sig]) && !is_widget(r[(base + 4, 0int)])
            &&& forall|k: (int, int)| m.contains_key(k) ==> #[trigger] is_widget(r[k]) == is_widget(m[k])
        }),
{
    let r = embed_model(m, base, padded, cert, si, ts, orig_len);
    let ap = (base + 1, 0int);
    let sig = (base + 2, 0int);
    let field = (base + 3, 0int);
    let acro = (base + 4, 0int);
    assert(2 <= base);
    reveal_strlit("Subtype");
    reveal_strlit("Widget");
    reveal_strlit("Type");
    reveal_strlit("Filter");
    reveal_strlit("SubFilter");
    reveal_strlit("Name");
    reveal_strlit("M");
    reveal_strlit("Reason");
    reveal_strlit("Location");
    reveal_strlit("ContactInfo");
    reveal_strlit("Cert");
    reveal_strlit("AP");
    reveal_strlit("Contents");
    reveal_strlit("ByteRange");
    reveal_strlit("FT");
    reveal_strlit("T");
    reveal_strlit("F");
    reveal_strlit("V");
    reveal_strlit("Rect");
    reveal_strlit("P");
    reveal_strlit("SigFlags");
    reveal_strlit("DA");
    reveal_strlit("Fields");
    reveal_strlit("AcroForm");
    reveal_strlit("Annots");
    reveal_strlit("Sig");
    assert("Subtype"@.len() == 7 && "Type"@.len() == 4 && "Filter"@.len() == 6 && "SubFilter"@.len() == 9);
    assert("Name"@.len() == 4 && "M"@.len() == 1 && "Reason"@.len() == 6 && "Location"@.len() == 8);
    assert("ContactInfo"@.len() == 11 && "Cert"@.len() == 4 && "AP"@.len() == 2 && "Contents"@.len() == 8);
    assert("ByteRange"@.len() == 9 && "FT"@.len() == 2 && "T"@.len() == 1 && "F"@.len() == 1);
    assert("V"@.len() == 1 && "Rect"@.len() == 4 && "P"@.len() == 1 && "SigFlags"@.len() == 8);
    assert("DA"@.len() == 2 && "Fields"@.len() == 6 && "AcroForm"@.len() == 8 && "Annots"@.len() == 6);

    assert("V"@ != "P"@) by {
        assert("V"@[0] == 'V' && "P"@[0] == 'P');
    }
    assert("Type"@ != "Name"@) by {
        assert("Type"@[0] == 'T' && "Name"@[0] == 'N');
    }
    assert("Type"@ != "Cert"@) by {
        assert("Type"@[0] == 'T' && "Cert"@[0] == 'C');
    }
    assert(r[field] == Pv::Dict(field_dict_model(sig, ap)));
    assert(as_dict(r[field])["Subtype"@] == Pv::Name("Widget"@));
    assert(as_dict(r[field])["V"@] == Pv::Ref(sig.0, sig.1));
    assert(r[sig] == Pv::Dict(sig_dict_model(si, ts, cert, padded, orig_len, ap)));
    assert(as_dict(r[sig])["Type"@] == Pv::Name("Sig"@));
    assert(!sig_dict_model(si, ts, cert, padded, orig_len, ap).contains_key("Subtype"@));
    assert(r[ap] == appearance_stream_model());
    assert(r[acro] == Pv::Dict(acroform_model(field)));
    assert(!acroform_model(field).contains_key("Subtype"@));

    assert forall|k: (int, int)| m.contains_key(k) implies #[trigger] is_widget(r[k]) == is_widget(m[k]) by {
        assert(k.0 <= base);
        if k == (1int, 0int) {
            assert(as_dict(r[k]) == as_dict(m[k]).insert("AcroForm"@, Pv::Ref(acro.0, acro.1)));
        } else if k == (2int, 0int) {
            assert(as_dict(r[k]) == dict_with_ref_appended(as_dict(m[k]), "Annots"@, field));
        } else {
            assert(r[k] == m[k]);
        }
    }
}

/// Every object number of the map stays at or below `base`.
pub open spec fn map_ids_bounded(m: Map<(int, int), Pv>, base: int) -> bool {
    forall|k: (int, int)| #[trigger] m.contains_key(k) ==> k.0 <= base
}

/// Embedding the same placeholder, certificate and signer strings into
/// the same graph with another timestamp changes exactly the `M` entry
/// of the signature dictionary: the two results hold the same object
/// ids, every object but the signature dictionary is the same, and that
/// dictionary has the same entries everywhere but at `M`, where each
/// result carries its own timestamp.
pub proof fn lemma_embed_timestamp_only(m: Map<(int, int), Pv>, base: int, padded: Seq<u8>, cert: Option<Seq<u8>>, si: SignerInfo, ts1: Seq<u8>, ts2: Seq<u8>, orig_len: int)
    requires
        map_ids_bounded(m, base),
        cat_ok(m),
        page_ok(m),
    ensures
        ({
            let r1 = embed_model(m, base, padded, cert, si, ts1, orig_len);
            let r2 = embed_model(m, base, padded, cert, si, ts2, orig_len);
            let sig = (base + 2, 0int);
            &&& r1.dom() == r2.dom()
            &&& forall|k: (int, int)| #[trigger] r1.contains_key(k) && k != sig ==> r1[k] == r2[k]
            &&& is_dict(r1[sig]) && is_dict(r2[sig])
            &&& as_dict(r1[sig]).dom() == as_dict(r2[sig]).dom()
            &&& (forall|key: Seq<char>| #[trigger] as_dict(r1[sig]).contains_key(key) && key != "M"@ ==> as_dict(r1[sig])[key] == as_dict(r2[sig])[key])
            &&& as_dict(r1[sig])["M"@] == Pv::LitStr(ts1)
            &&& as_dict(r2[sig])["M"@] == Pv::LitStr(ts2)
        }),
{
    let r1 = embed_model(m, base, padded, cert, si, ts1, orig_len);
    let r2 = embed_model(m, base, padded, cert, si, ts2, orig_len);
    let ap = (base + 1, 0int);
    let sig = (base + 2, 0int);
    assert(2 <= base);
    assert(r1[sig] == Pv::Dict(sig_dict_model(si, ts1, cert, padded, orig_len, ap)));
    assert(r2[sig] == Pv::Dict(sig_dict_model(si, ts2, cert, padded, orig_len, ap)));
    assert(r1.dom() =~= r2.dom());
    let d1 = sig_dict_model(si, ts1, cert, padded, orig_len, ap);
    let d2 = sig_dict_model(si, ts2, cert, padded, orig_len, ap);
    assert(d1.dom() =~= d2.dom());
    reveal_strlit("M");
    reveal_strlit("Reason");
    reveal_strlit("Location");
    reveal_strlit("ContactInfo");
    reveal_strlit("Cert");
    reveal_strlit("AP");
    reveal_strlit("Contents");
    reveal_strlit("ByteRange");
    assert("M"@.len() == 1 && "Reason"@.len() == 6 && "Location"@.len() == 8 && "ContactInfo"@.len() == 11);
    assert("Cert"@.len() == 4 && "AP"@.len() == 2 && "Contents"@.len() == 8 && "ByteRange"@.len() == 9);
    assert(d1["M"@] == Pv::LitStr(ts1));
    assert(d2["M"@] == Pv::LitStr(ts2));
}

} // verus!
