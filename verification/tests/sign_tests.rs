use pdfsign::SignError;
use pdfsign::sign::PdfDate;
use pdfsign::sign::SignatureMetadata;
use pdfsign::sign::format_pdf_date;
use pdfsign::sign::sign_pdf;
use rand_core::RngCore;

fn minimal_pdf() -> Vec<u8> {
    let mut doc = lopdf::Document::with_version("1.5");
    let mut catalog = lopdf::Dictionary::new();
    catalog.set("Type", lopdf::Object::Name(b"Catalog".to_vec()));
    catalog.set("Pages", lopdf::Object::Reference((3, 0)));
    let mut page = lopdf::Dictionary::new();
    page.set("Type", lopdf::Object::Name(b"Page".to_vec()));
    page.set("Parent", lopdf::Object::Reference((3, 0)));
    page.set(
        "MediaBox",
        lopdf::Object::Array(vec![
            lopdf::Object::Integer(0),
            lopdf::Object::Integer(0),
            lopdf::Object::Integer(612),
            lopdf::Object::Integer(792),
        ]),
    );
    let mut pages = lopdf::Dictionary::new();
    pages.set("Type", lopdf::Object::Name(b"Pages".to_vec()));
    pages.set("Kids", lopdf::Object::Array(vec![lopdf::Object::Reference((2, 0))]));
    pages.set("Count", lopdf::Object::Integer(1));
    doc.objects.insert((1, 0), lopdf::Object::Dictionary(catalog));
    doc.objects.insert((2, 0), lopdf::Object::Dictionary(page));
    doc.objects.insert((3, 0), lopdf::Object::Dictionary(pages));
    doc.max_id = 3;
    doc.trailer.set("Root", lopdf::Object::Reference((1, 0)));
    let mut buf: Vec<u8> = Vec::new();
    doc.save_to(&mut buf).unwrap();
    buf
}

fn fresh_key() -> Vec<u8> {
    loop {
        let mut bytes = [0u8; 32];
        rand_core::OsRng.fill_bytes(&mut bytes);
        if p256::ecdsa::SigningKey::from_slice(&bytes).is_ok() {
            return bytes.to_vec();
        }
    }
}

fn metadata() -> SignatureMetadata {
    SignatureMetadata {
        name: String::from("pdfsign-cli"),
        reason: String::from("Digitally signed"),
        location: String::new(),
        contact_info: String::new(),
    }
}

fn date(second: u8) -> PdfDate {
    PdfDate { year: 2026, month: 1, day: 20, hour: 10, minute: 53, second }
}

fn count_sig_widgets(doc: &lopdf::Document) -> usize {
    let mut count = 0;
    for (_, o) in doc.objects.iter() {
        if let lopdf::Object::Dictionary(d) = o {
            if d.get(b"Subtype").ok() == Some(&lopdf::Object::Name(b"Widget".to_vec())) {
                if let Ok(lopdf::Object::Reference(vid)) = d.get(b"V") {
                    if let Some(lopdf::Object::Dictionary(sd)) = doc.objects.get(vid) {
                        if sd.get(b"Type").ok() == Some(&lopdf::Object::Name(b"Sig".to_vec())) {
                            count += 1;
                        }
                    }
                }
            }
        }
    }
    count
}

fn find_sig_dict_id(doc: &lopdf::Document) -> (u32, u16) {
    for (id, o) in doc.objects.iter() {
        if let lopdf::Object::Dictionary(d) = o {
            if d.get(b"Type").ok() == Some(&lopdf::Object::Name(b"Sig".to_vec())) {
                return *id;
            }
        }
    }
    panic!("no signature dictionary");
}

#[test]
fn timestamp_formats_as_pdf_date_string() {
    let d = PdfDate { year: 2026, month: 1, day: 20, hour: 10, minute: 53, second: 37 };
    assert_eq!(format_pdf_date(&d), b"D:20260120105337".to_vec());
}

#[test]
fn raw_signature_is_deterministic_der() {
    let key = fresh_key();
    let a = pdfsign::crypto::sign(b"some data", &key).unwrap();
    let b = pdfsign::crypto::sign(b"some data", &key).unwrap();
    assert_eq!(a, b);
    assert_eq!(a[0], 0x30);
}

#[test]
fn invalid_scalar_is_refused() {
    let zero_key = vec![0u8; 32];
    assert_eq!(pdfsign::crypto::sign(b"data", &zero_key), Err(SignError::InvalidKey));
}

#[test]
fn end_to_end_signing_minimal_pdf() {
    let input = minimal_pdf();
    let key = fresh_key();
    let out = sign_pdf(&input, &key, &None, &metadata(), &date(37)).unwrap();

    let in_doc = lopdf::Document::load_mem(&input).unwrap();
    let out_doc = lopdf::Document::load_mem(&out).unwrap();
    assert_eq!(count_sig_widgets(&in_doc), 0);
    assert_eq!(count_sig_widgets(&out_doc), 1);

    let catalog = out_doc.objects.get(&(1, 0)).unwrap().as_dict().unwrap();
    let acro_ref = catalog.get(b"AcroForm").unwrap().as_reference().unwrap();
    let acro = out_doc.objects.get(&acro_ref).unwrap().as_dict().unwrap();
    assert_eq!(acro.get(b"SigFlags").unwrap().as_i64().unwrap(), 3);
    assert_eq!(acro.get(b"Fields").unwrap().as_array().unwrap().len(), 1);

    let sig_id = find_sig_dict_id(&out_doc);
    let sig_dict = out_doc.objects.get(&sig_id).unwrap().as_dict().unwrap();
    match sig_dict.get(b"Contents").unwrap() {
        lopdf::Object::String(bytes, _) => assert_eq!(bytes.len(), 4096),
        _ => panic!("Contents is not a string"),
    }
    assert_eq!(
        sig_dict.get(b"M").unwrap(),
        &lopdf::Object::String(b"D:20260120105337".to_vec(), lopdf::StringFormat::Literal)
    );

    let page = out_doc.objects.get(&(2, 0)).unwrap().as_dict().unwrap();
    let annots = page.get(b"Annots").unwrap().as_array().unwrap();
    assert_eq!(annots.len(), 1);
}

#[test]
fn signing_twice_differs_only_in_timestamp() {
    let input = minimal_pdf();
    let key = fresh_key();
    let out1 = sign_pdf(&input, &key, &None, &metadata(), &date(37)).unwrap();
    let out2 = sign_pdf(&input, &key, &None, &metadata(), &date(38)).unwrap();

    let doc1 = lopdf::Document::load_mem(&out1).unwrap();
    let doc2 = lopdf::Document::load_mem(&out2).unwrap();
    let ids1: Vec<(u32, u16)> = doc1.objects.keys().cloned().collect();
    let ids2: Vec<(u32, u16)> = doc2.objects.keys().cloned().collect();
    assert_eq!(ids1, ids2);

    let sig_id = find_sig_dict_id(&doc1);
    assert_eq!(sig_id, find_sig_dict_id(&doc2));
    for id in ids1 {
        if id != sig_id {
            assert_eq!(doc1.objects.get(&id), doc2.objects.get(&id));
        }
    }
    let d1 = doc1.objects.get(&sig_id).unwrap().as_dict().unwrap();
    let d2 = doc2.objects.get(&sig_id).unwrap().as_dict().unwrap();
    let keys1: Vec<Vec<u8>> = d1.iter().map(|(k, _)| k.clone()).collect();
    let keys2: Vec<Vec<u8>> = d2.iter().map(|(k, _)| k.clone()).collect();
    assert_eq!(keys1, keys2);
    for (k, v) in d1.iter() {
        if k.as_slice() != b"M" {
            assert_eq!(Some(v), d2.get(k).ok());
        }
    }
    assert_eq!(d1.get(b"M").unwrap(), &lopdf::Object::String(b"D:20260120105337".to_vec(), lopdf::StringFormat::Literal));
    assert_eq!(d2.get(b"M").unwrap(), &lopdf::Object::String(b"D:20260120105338".to_vec(), lopdf::StringFormat::Literal));
}

#[test]
fn certificate_round_trips_through_the_document() {
    let input = minimal_pdf();
    let key = fresh_key();
    let cert: Vec<u8> = (0..200u32).map(|b| (b % 251) as u8).collect();
    let out = sign_pdf(&input, &key, &Some(cert.clone()), &metadata(), &date(37)).unwrap();

    let doc = lopdf::Document::load_mem(&out).unwrap();
    let sig_id = find_sig_dict_id(&doc);
    let sig_dict = doc.objects.get(&sig_id).unwrap().as_dict().unwrap();
    match sig_dict.get(b"Cert").unwrap() {
        lopdf::Object::String(bytes, _) => assert_eq!(bytes, &cert),
        _ => panic!("Cert is not a string"),
    }

    let contents = match sig_dict.get(b"Contents").unwrap() {
        lopdf::Object::String(bytes, _) => bytes.clone(),
        _ => panic!("Contents is not a string"),
    };
    assert_eq!(contents.len(), 4096);
    let total = if contents[1] < 128 {
        2 + contents[1] as usize
    } else {
        let k = (contents[1] - 128) as usize;
        let mut n: usize = 0;
        for &b in &contents[2..2 + k] {
            n = n * 256 + b as usize;
        }
        2 + k + n
    };
    assert_eq!(&contents[total - cert.len()..total], cert.as_slice());
}

#[test]
fn wrong_key_length_fails_before_output() {
    let input = minimal_pdf();
    let short_key = vec![7u8; 31];
    assert_eq!(sign_pdf(&input, &short_key, &None, &metadata(), &date(37)), Err(SignError::KeyLength));
}

#[test]
fn unparseable_input_is_refused() {
    let key = fresh_key();
    let not_a_pdf = b"this is not a pdf".to_vec();
    assert_eq!(sign_pdf(&not_a_pdf, &key, &None, &metadata(), &date(37)), Err(SignError::PdfParse));
}

#[test]
fn missing_catalog_is_reported() {
    let mut doc = lopdf::Document::with_version("1.5");
    let mut catalog = lopdf::Dictionary::new();
    catalog.set("Type", lopdf::Object::Name(b"Catalog".to_vec()));
    catalog.set("Pages", lopdf::Object::Reference((6, 0)));
    let mut page = lopdf::Dictionary::new();
    page.set("Type", lopdf::Object::Name(b"Page".to_vec()));
    page.set("Parent", lopdf::Object::Reference((6, 0)));
    let mut pages = lopdf::Dictionary::new();
    pages.set("Type", lopdf::Object::Name(b"Pages".to_vec()));
    pages.set("Kids", lopdf::Object::Array(vec![lopdf::Object::Reference((7, 0))]));
    pages.set("Count", lopdf::Object::Integer(1));
    doc.objects.insert((5, 0), lopdf::Object::Dictionary(catalog));
    doc.objects.insert((6, 0), lopdf::Object::Dictionary(pages));
    doc.objects.insert((7, 0), lopdf::Object::Dictionary(page));
    doc.max_id = 7;
    doc.trailer.set("Root", lopdf::Object::Reference((5, 0)));
    let mut buf: Vec<u8> = Vec::new();
    doc.save_to(&mut buf).unwrap();

    let key = fresh_key();
    assert_eq!(sign_pdf(&buf, &key, &None, &metadata(), &date(37)), Err(SignError::MissingCatalog));
}

#[test]
fn missing_first_page_is_reported() {
    let mut doc = lopdf::Document::with_version("1.5");
    let mut catalog = lopdf::Dictionary::new();
    catalog.set("Type", lopdf::Object::Name(b"Catalog".to_vec()));
    catalog.set("Pages", lopdf::Object::Reference((3, 0)));
    let mut pages = lopdf::Dictionary::new();
    pages.set("Type", lopdf::Object::Name(b"Pages".to_vec()));
    pages.set("Kids", lopdf::Object::Array(vec![lopdf::Object::Reference((4, 0))]));
    pages.set("Count", lopdf::Object::Integer(1));
    let mut page = lopdf::Dictionary::new();
    page.set("Type", lopdf::Object::Name(b"Page".to_vec()));
    page.set("Parent", lopdf::Object::Reference((3, 0)));
    doc.objects.insert((1, 0), lopdf::Object::Dictionary(catalog));
    doc.objects.insert((3, 0), lopdf::Object::Dictionary(pages));
    doc.objects.insert((4, 0), lopdf::Object::Dictionary(page));
    doc.max_id = 4;
    doc.trailer.set("Root", lopdf::Object::Reference((1, 0)));
    let mut buf: Vec<u8> = Vec::new();
    doc.save_to(&mut buf).unwrap();

    let key = fresh_key();
    assert_eq!(sign_pdf(&buf, &key, &None, &metadata(), &date(37)), Err(SignError::MissingFirstPage));
}

#[test]
fn optional_metadata_entries_follow_emptiness() {
    let input = minimal_pdf();
    let key = fresh_key();

    let out_plain = sign_pdf(&input, &key, &None, &metadata(), &date(37)).unwrap();
    let doc_plain = lopdf::Document::load_mem(&out_plain).unwrap();
    let sig_plain = doc_plain.objects.get(&find_sig_dict_id(&doc_plain)).unwrap().as_dict().unwrap();
    assert!(sig_plain.get(b"Location").is_err());
    assert!(sig_plain.get(b"ContactInfo").is_err());
    assert_eq!(
        sig_plain.get(b"Name").unwrap(),
        &lopdf::Object::String(b"pdfsign-cli".to_vec(), lopdf::StringFormat::Literal)
    );
    assert_eq!(
        sig_plain.get(b"Reason").unwrap(),
        &lopdf::Object::String(b"Digitally signed".to_vec(), lopdf::StringFormat::Literal)
    );

    let full = SignatureMetadata {
        name: String::from("A Signer"),
        reason: String::from("Approval"),
        location: String::from("Office"),
        contact_info: String::from("signer@example.test"),
    };
    let out_full = sign_pdf(&input, &key, &None, &full, &date(37)).unwrap();
    let doc_full = lopdf::Document::load_mem(&out_full).unwrap();
    let sig_full = doc_full.objects.get(&find_sig_dict_id(&doc_full)).unwrap().as_dict().unwrap();
    assert_eq!(
        sig_full.get(b"Location").unwrap(),
        &lopdf::Object::String(b"Office".to_vec(), lopdf::StringFormat::Literal)
    );
    assert_eq!(
        sig_full.get(b"ContactInfo").unwrap(),
        &lopdf::Object::String(b"signer@example.test".to_vec(), lopdf::StringFormat::Literal)
    );
}

fn minimal_pdf_with_annots(annots: lopdf::Object) -> Vec<u8> {
    let mut doc = lopdf::Document::with_version("1.5");
    let mut catalog = lopdf::Dictionary::new();
    catalog.set("Type", lopdf::Object::Name(b"Catalog".to_vec()));
    catalog.set("Pages", lopdf::Object::Reference((3, 0)));
    let mut page = lopdf::Dictionary::new();
    page.set("Type", lopdf::Object::Name(b"Page".to_vec()));
    page.set("Parent", lopdf::Object::Reference((3, 0)));
    page.set("Annots", annots);
    let mut pages = lopdf::Dictionary::new();
    pages.set("Type", lopdf::Object::Name(b"Pages".to_vec()));
    pages.set("Kids", lopdf::Object::Array(vec![lopdf::Object::Reference((2, 0))]));
    pages.set("Count", lopdf::Object::Integer(1));
    let mut dummy = lopdf::Dictionary::new();
    dummy.set("Type", lopdf::Object::Name(b"Annot".to_vec()));
    dummy.set("Subtype", lopdf::Object::Name(b"Link".to_vec()));
    doc.objects.insert((1, 0), lopdf::Object::Dictionary(catalog));
    doc.objects.insert((2, 0), lopdf::Object::Dictionary(page));
    doc.objects.insert((3, 0), lopdf::Object::Dictionary(pages));
    doc.objects.insert((4, 0), lopdf::Object::Dictionary(dummy));
    doc.max_id = 4;
    doc.trailer.set("Root", lopdf::Object::Reference((1, 0)));
    let mut buf: Vec<u8> = Vec::new();
    doc.save_to(&mut buf).unwrap();
    buf
}

#[test]
fn widget_is_appended_to_an_existing_annots_array() {
    let input = minimal_pdf_with_annots(lopdf::Object::Array(vec![lopdf::Object::Reference((4, 0))]));
    let key = fresh_key();
    let out = sign_pdf(&input, &key, &None, &metadata(), &date(37)).unwrap();

    let doc = lopdf::Document::load_mem(&out).unwrap();
    let page = doc.objects.get(&(2, 0)).unwrap().as_dict().unwrap();
    let annots = page.get(b"Annots").unwrap().as_array().unwrap();
    assert_eq!(annots.len(), 2);
    assert_eq!(annots[0], lopdf::Object::Reference((4, 0)));
    let widget_ref = annots[1].as_reference().unwrap();
    let widget = doc.objects.get(&widget_ref).unwrap().as_dict().unwrap();
    assert_eq!(
        widget.get(b"Subtype").ok(),
        Some(&lopdf::Object::Name(b"Widget".to_vec()))
    );
}

#[test]
fn non_array_annots_entry_is_replaced() {
    let input = minimal_pdf_with_annots(lopdf::Object::Integer(7));
    let key = fresh_key();
    let out = sign_pdf(&input, &key, &None, &metadata(), &date(37)).unwrap();

    let doc = lopdf::Document::load_mem(&out).unwrap();
    let page = doc.objects.get(&(2, 0)).unwrap().as_dict().unwrap();
    let annots = page.get(b"Annots").unwrap().as_array().unwrap();
    assert_eq!(annots.len(), 1);
    let widget_ref = annots[0].as_reference().unwrap();
    let widget = doc.objects.get(&widget_ref).unwrap().as_dict().unwrap();
    assert_eq!(
        widget.get(b"Subtype").ok(),
        Some(&lopdf::Object::Name(b"Widget".to_vec()))
    );
}

#[test]
fn oversized_certificate_is_refused() {
    let input = minimal_pdf();
    let key = fresh_key();
    let cert = vec![0x5Au8; 5000];
    assert_eq!(sign_pdf(&input, &key, &Some(cert), &metadata(), &date(37)), Err(SignError::TooLarge));
}
