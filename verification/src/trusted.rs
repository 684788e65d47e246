//! The trusted boundary around the three external collaborators: the
//! signature primitive (minisign), the metadata codec and archive loader
//! (gldf-rs), and the archive writer (zip).  Every item here is believed,
//! not proved; each doc comment names the outside function relied on.

use vstd::prelude::*;
use crate::text::{global_sig_line_ok, newline_free};
use crate::types::{GldfSignError, MetaInformation, PrimVerifyError, Property};

verus! {

/// Whether `minisign::PublicKey::from_base64` accepts this text as a
/// public key.  The parse is a deterministic function of the text.
pub uninterp spec fn pk_parses(pk_b64: Seq<char>) -> bool;

/// Whether `minisign::SignatureBox::from_string` accepts this text as a
/// serialized signature.  The parse is a deterministic function of the text.
pub uninterp spec fn sig_parses(sig_text: Seq<char>) -> bool;

/// Whether `minisign::verify` accepts the signature serialized as
/// `sig_text` for the message `content` under the public key encoded as
/// `pk_b64`, with the given legacy-compatibility setting.  The outcome is
/// a deterministic function of those inputs alone.
pub uninterp spec fn verify_ok(
    pk_b64: Seq<char>,
    sig_text: Seq<char>,
    content: Seq<u8>,
    allow_legacy: bool,
) -> bool;

/// The property list that the metadata codec reads out of these
/// metadata-carrier bytes, or `None` where they do not parse.  Relies on
/// `gldf_rs::gldf::meta_information::MetaInformation::from_xml` after a
/// lossy UTF-8 decode; a deterministic function of the bytes.
pub uninterp spec fn parsed_meta(content: Seq<u8>) -> Option<Seq<(Seq<char>, Seq<char>)>>;

/// The serialized form that the metadata codec
/// (`gldf_rs::gldf::meta_information::MetaInformation::to_xml`) gives this
/// property list; a deterministic function of the list.
pub uninterp spec fn meta_xml_of(props: Seq<(Seq<char>, Seq<char>)>) -> Seq<char>;

/// The ordered (path, content) records that the archive loader
/// (`gldf_rs::GldfProduct::load_gldf_from_buf_all`) reads out of these
/// container bytes, or `None` where they do not open as a container; a
/// deterministic function of the bytes.
pub uninterp spec fn parsed_archive(buf: Seq<u8>) -> Option<
    Seq<(Option<Seq<char>>, Option<Seq<u8>>)>,
>;

/// The entries written so far into an in-memory archive writer.
pub uninterp spec fn zip_written(w: ZipBuilder) -> Seq<(Seq<char>, Seq<u8>)>;

/// The container bytes that the archive writer produces for this entry
/// sequence.  Entries are stored uncompressed with a fixed timestamp and
/// a fixed origin-system marker, so the bytes are a deterministic
/// function of the entries alone.
pub uninterp spec fn zip_bytes_of(entries: Seq<(Seq<char>, Seq<u8>)>) -> Seq<u8>;

/// The secret key of the signature primitive, opaque to this library.
#[verifier::external_type_specification]
#[verifier::external_body]
pub struct ExSecretKey(minisign::SecretKey);

/// An in-memory archive writer of the zip crate.  Its declaration is
/// refused over the writer's std trait bounds, so the writer is held in a
/// hidden field instead; `zip_written` names what it holds.
#[verifier::external_body]
pub struct ZipBuilder {
    inner: zip::ZipWriter<std::io::Cursor<Vec<u8>>>,
}

/// The view of a parsed archive record: each field as its view.
pub open spec fn pair_view(p: (Option<String>, Option<Vec<u8>>)) -> (
    Option<Seq<char>>,
    Option<Seq<u8>>,
) {
    (
        match p.0 {
            Some(s) => Some(s@),
            None => None,
        },
        match p.1 {
            Some(c) => Some(c@),
            None => None,
        },
    )
}

/// The view of a list of parsed archive records.
pub open spec fn pairs_view(s: Seq<(Option<String>, Option<Vec<u8>>)>) -> Seq<
    (Option<Seq<char>>, Option<Seq<u8>>),
> {
    s.map_values(|p: (Option<String>, Option<Vec<u8>>)| pair_view(p))
}

/// Relies on `minisign::PublicKey::from_base64`: reports whether the text
/// decodes to a public key.
#[verifier::external_body]
pub fn pk_is_valid(pk_b64: &str) -> (r: bool)
    ensures
        r == pk_parses(pk_b64@),
{
    minisign::PublicKey::from_base64(pk_b64).is_ok()
}

/// Relies on `minisign::sign` with the supplied public key, which
/// self-checks the produced signature against that key, and on
/// `minisign::verify` being deterministic in the key, signature text and
/// message: before returning, the body re-parses the serialized signature
/// and verifies it under both legacy-compatibility settings, so a
/// returned signature text is one that verifies the signed content.  The
/// serializer writes the 64-byte global signature as the 88-character
/// padded fourth line, so a returned text has a full-length
/// global-signature line.  A line feed in a comment would shift the
/// serialized lines and let the re-parse feed a short global signature to
/// `minisign::verify`, which slices it to 64 bytes unchecked; the
/// `requires` leaves such comments out.
#[verifier::external_body]
pub fn sign_entry_raw(
    sk: &minisign::SecretKey,
    pk_b64: &str,
    content: &Vec<u8>,
    trusted_comment: &str,
    untrusted_comment: Option<&str>,
) -> (r: Result<String, ()>)
    requires
        newline_free(trusted_comment@),
        untrusted_comment matches Some(u) ==> newline_free(u@),
    ensures
        r is Ok ==> pk_parses(pk_b64@) && sig_parses(r->Ok_0@) && global_sig_line_ok(r->Ok_0@) && verify_ok(pk_b64@, r->Ok_0@, content@, false) && verify_ok(pk_b64@, r->Ok_0@, content@, true),
{
    let pk = minisign::PublicKey::from_base64(pk_b64).map_err(|_| ())?;
    let reader = std::io::Cursor::new(content.as_slice());
    let boxed = minisign::sign(Some(&pk), sk, reader, Some(trusted_comment), untrusted_comment)
        .map_err(|_| ())?;
    let text = boxed.into_string();
    let parsed = minisign::SignatureBox::from_string(&text).map_err(|_| ())?;
    minisign::verify(&pk, &parsed, std::io::Cursor::new(content.as_slice()), true, false, false)
        .map_err(|_| ())?;
    minisign::verify(&pk, &parsed, std::io::Cursor::new(content.as_slice()), true, false, true)
        .map_err(|_| ())?;
    Ok(text)
}

/// Relies on `minisign::verify`, with `minisign::PublicKey::from_base64`
/// and `minisign::SignatureBox::from_string` converting the textual
/// arguments; quiet mode, no data output.  The three failure cases are
/// told apart by which conversion or check refused.  `minisign::verify`
/// slices the decoded global signature to 64 bytes without a length
/// check, so the `requires` admits only texts whose global-signature line
/// is the full-length encoding; the parse decodes that line, so on every
/// admitted input the call returns instead of panicking.
#[verifier::external_body]
pub fn verify_entry_raw(
    pk_b64: &str,
    sig_text: &str,
    content: &Vec<u8>,
    allow_legacy: bool,
) -> (r: Result<(), PrimVerifyError>)
    requires
        global_sig_line_ok(sig_text@),
    ensures
        r is Ok ==> pk_parses(pk_b64@) && sig_parses(sig_text@) && verify_ok(pk_b64@, sig_text@, content@, allow_legacy),
        r is Ok <== pk_parses(pk_b64@) && sig_parses(sig_text@) && verify_ok(pk_b64@, sig_text@, content@, allow_legacy),
        r matches Err(PrimVerifyError::KeyDecode) <== !pk_parses(pk_b64@),
        r matches Err(PrimVerifyError::SigDecode) <== pk_parses(pk_b64@) && !sig_parses(sig_text@),
        r matches Err(PrimVerifyError::Rejected) <== pk_parses(pk_b64@) && sig_parses(sig_text@) && !verify_ok(pk_b64@, sig_text@, content@, allow_legacy),
{
    let pk = match minisign::PublicKey::from_base64(pk_b64) {
        Ok(pk) => pk,
        Err(_) => return Err(PrimVerifyError::KeyDecode),
    };
    let boxed = match minisign::SignatureBox::from_string(sig_text) {
        Ok(b) => b,
        Err(_) => return Err(PrimVerifyError::SigDecode),
    };
    let reader = std::io::Cursor::new(content.as_slice());
    match minisign::verify(&pk, &boxed, reader, true, false, allow_legacy) {
        Ok(()) => Ok(()),
        Err(_) => Err(PrimVerifyError::Rejected),
    }
}

/// Relies on `gldf_rs::gldf::meta_information::MetaInformation::from_xml`
/// after `String::from_utf8_lossy`; the body converts each parsed record
/// into this library's `Property`.
#[verifier::external_body]
pub fn parse_meta_raw(content: &Vec<u8>) -> (r: Option<MetaInformation>)
    ensures
        r is Some ==> parsed_meta(content@) is Some && r->Some_0@ == parsed_meta(content@)->Some_0,
        r is Some <== parsed_meta(content@) is Some,
{
    let text = String::from_utf8_lossy(content).to_string();
    match gldf_rs::gldf::meta_information::MetaInformation::from_xml(&text) {
        Ok(m) => Some(
            MetaInformation {
                property: m.property.into_iter().map(
                    |p| Property { name: p.name, property_text: p.property_text },
                ).collect(),
            },
        ),
        Err(_) => None,
    }
}

/// Relies on `gldf_rs::gldf::meta_information::MetaInformation::to_xml`;
/// the body converts this library's properties into the codec's records.
#[verifier::external_body]
pub fn meta_to_xml_raw(meta: &MetaInformation) -> (r: Result<String, GldfSignError>)
    ensures
        r is Ok ==> r->Ok_0@ == meta_xml_of(meta@),
        r is Err ==> r->Err_0 == GldfSignError::MetaSerialize,
{
    let property = meta.property.iter().map(
        |p| gldf_rs::gldf::meta_information::MetaProperty {
            name: p.name.clone(),
            property_text: p.property_text.clone(),
        },
    ).collect();
    match (gldf_rs::gldf::meta_information::MetaInformation { property }).to_xml() {
        Ok(s) => Ok(s),
        Err(_) => Err(GldfSignError::MetaSerialize),
    }
}

/// Relies on `gldf_rs::GldfProduct::load_gldf_from_buf_all`; the body
/// keeps of each record only its path and content fields.
#[verifier::external_body]
pub fn parse_archive_raw(buf: &Vec<u8>) -> (r: Option<Vec<(Option<String>, Option<Vec<u8>>)>>)
    ensures
        r is Some ==> parsed_archive(buf@) is Some && pairs_view(r->Some_0@) == parsed_archive(buf@)->Some_0,
        r is Some <== parsed_archive(buf@) is Some,
{
    match gldf_rs::GldfProduct::load_gldf_from_buf_all(buf.clone()) {
        Ok(fb) => Some(fb.files.into_iter().map(|f| (f.path, f.content)).collect()),
        Err(_) => None,
    }
}

/// Relies on `zip::ZipWriter::new` over a fresh in-memory cursor: a new
/// writer holds no entries.
#[verifier::external_body]
pub fn zip_new() -> (w: ZipBuilder)
    ensures
        zip_written(w) == Seq::<(Seq<char>, Seq<u8>)>::empty(),
{
    ZipBuilder { inner: zip::ZipWriter::new(std::io::Cursor::new(Vec::new())) }
}

/// Relies on `zip::ZipWriter::start_file` and `Write::write_all`: on
/// success the writer holds one more entry, stored uncompressed with the
/// fixed epoch timestamp and a fixed origin-system marker, so that the
/// output depends on the entries alone, on every machine.
#[verifier::external_body]
pub fn zip_add(w: &mut ZipBuilder, path: &String, content: &Vec<u8>) -> (r: Result<
    (),
    GldfSignError,
>)
    ensures
        r is Ok ==> zip_written(*final(w)) == zip_written(*old(w)).push((path@, content@)),
        r is Err ==> r->Err_0 == GldfSignError::ArchiveWrite,
{
    let options = zip::write::SimpleFileOptions::default().compression_method(
        zip::CompressionMethod::Stored,
    ).last_modified_time(zip::DateTime::DEFAULT).system(zip::System::Unix);
    if w.inner.start_file(path.as_str(), options).is_err() {
        return Err(GldfSignError::ArchiveWrite);
    }
    if std::io::Write::write_all(&mut w.inner, content.as_slice()).is_err() {
        return Err(GldfSignError::ArchiveWrite);
    }
    Ok(())
}

/// Relies on `zip::ZipWriter::finish`: the finished container bytes are a
/// deterministic function of the written entries.
#[verifier::external_body]
pub fn zip_finish(w: ZipBuilder) -> (r: Result<Vec<u8>, GldfSignError>)
    ensures
        r is Ok ==> r->Ok_0@ == zip_bytes_of(zip_written(w)),
        r is Err ==> r->Err_0 == GldfSignError::ArchiveWrite,
{
    match w.inner.finish() {
        Ok(cursor) => Ok(cursor.into_inner()),
        Err(_) => Err(GldfSignError::ArchiveWrite),
    }
}

} // verus!
