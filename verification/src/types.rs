//! The library's data model: archive entries, metadata properties, and the
//! error taxonomy shared by the signing and verification walks.

use vstd::prelude::*;

verus! {

/// One file inside the container: an archive-relative path and its bytes.
pub struct Entry {
    pub path: String,
    pub content: Vec<u8>,
}

impl View for Entry {
    type V = (Seq<char>, Seq<u8>);

    open spec fn view(&self) -> (Seq<char>, Seq<u8>) {
        (self.path@, self.content@)
    }
}

/// An in-memory container: the ordered list of its entries.
pub struct Archive {
    pub files: Vec<Entry>,
}

impl View for Archive {
    type V = Seq<(Seq<char>, Seq<u8>)>;

    open spec fn view(&self) -> Seq<(Seq<char>, Seq<u8>)> {
        self.files@.map_values(|e: Entry| e@)
    }
}

/// One (name, text) record of the metadata document.
pub struct Property {
    pub name: String,
    pub property_text: String,
}

impl View for Property {
    type V = (Seq<char>, Seq<char>);

    open spec fn view(&self) -> (Seq<char>, Seq<char>) {
        (self.name@, self.property_text@)
    }
}

/// The metadata document: an ordered list of properties, read as a
/// name-keyed mapping (first match wins on lookup).
pub struct MetaInformation {
    pub property: Vec<Property>,
}

impl View for MetaInformation {
    type V = Seq<(Seq<char>, Seq<char>)>;

    open spec fn view(&self) -> Seq<(Seq<char>, Seq<char>)> {
        self.property@.map_values(|p: Property| p@)
    }
}

/// Abstract form of `GldfSignError`: the same cases over character sequences.
pub enum ErrV {
    /// The container bytes do not parse as an archive.
    ArchiveLoad,
    /// A parsed archive record is missing its path or its content.
    ArchiveEntry,
    /// No metadata-carrier entry in the archive.
    MissingMeta,
    /// The metadata-carrier entry does not parse as a metadata document.
    MetaParse,
    /// The metadata document could not be serialized.
    MetaSerialize,
    /// No public-key property in the metadata document.
    MissingKey,
    /// The public-key property text does not decode to a public key.
    KeyDecode,
    /// No signature property for this non-excluded path.
    MissingSignature(Seq<char>),
    /// The signature property text for this path does not parse.
    SignatureDecode(Seq<char>),
    /// The signature for this path does not verify against its content.
    VerifyFailed(Seq<char>),
    /// The signature primitive failed to sign this path's content.
    SignFailed(Seq<char>),
    /// The rebuilt archive could not be encoded.
    ArchiveWrite,
}

/// Everything that can go wrong while signing or verifying a container.
#[derive(Debug)]
pub enum GldfSignError {
    ArchiveLoad,
    ArchiveEntry,
    MissingMeta,
    MetaParse,
    MetaSerialize,
    MissingKey,
    KeyDecode,
    MissingSignature(String),
    SignatureDecode(String),
    VerifyFailed(String),
    SignFailed(String),
    ArchiveWrite,
}

impl View for GldfSignError {
    type V = ErrV;

    open spec fn view(&self) -> ErrV {
        match self {
            GldfSignError::ArchiveLoad => ErrV::ArchiveLoad,
            GldfSignError::ArchiveEntry => ErrV::ArchiveEntry,
            GldfSignError::MissingMeta => ErrV::MissingMeta,
            GldfSignError::MetaParse => ErrV::MetaParse,
            GldfSignError::MetaSerialize => ErrV::MetaSerialize,
            GldfSignError::MissingKey => ErrV::MissingKey,
            GldfSignError::KeyDecode => ErrV::KeyDecode,
            GldfSignError::MissingSignature(p) => ErrV::MissingSignature(p@),
            GldfSignError::SignatureDecode(p) => ErrV::SignatureDecode(p@),
            GldfSignError::VerifyFailed(p) => ErrV::VerifyFailed(p@),
            GldfSignError::SignFailed(p) => ErrV::SignFailed(p@),
            GldfSignError::ArchiveWrite => ErrV::ArchiveWrite,
        }
    }
}

impl GldfSignError {
    /// A short description of the error, naming the offending path where
    /// one is known.
    pub fn message(&self) -> (r: String)
        ensures
            self matches GldfSignError::ArchiveLoad ==> r@ == "can't load the container as an archive"@,
            self matches GldfSignError::ArchiveEntry ==> r@ == "an archive record is missing its path or content"@,
            self matches GldfSignError::MissingMeta ==> r@ == "can't find meta-information.xml"@,
            self matches GldfSignError::MetaParse ==> r@ == "can't parse meta-information.xml"@,
            self matches GldfSignError::MetaSerialize ==> r@ == "can't serialize meta-information.xml"@,
            self matches GldfSignError::MissingKey ==> r@ == "can't find the public key property"@,
            self matches GldfSignError::KeyDecode ==> r@ == "can't decode the stored public key"@,
            self matches GldfSignError::MissingSignature(p) ==> r@ == "can't find signature for "@ + p@,
            self matches GldfSignError::SignatureDecode(p) ==> r@ == "could not read signature string for "@ + p@,
            self matches GldfSignError::VerifyFailed(p) ==> r@ == "could not verify signature for "@ + p@,
            self matches GldfSignError::SignFailed(p) ==> r@ == "could not sign "@ + p@,
            self matches GldfSignError::ArchiveWrite ==> r@ == "can't rebuild the archive"@,
    {
        match self {
            GldfSignError::ArchiveLoad => "can't load the container as an archive".to_owned(),
            GldfSignError::ArchiveEntry => "an archive record is missing its path or content"
                .to_owned(),
            GldfSignError::MissingMeta => "can't find meta-information.xml".to_owned(),
            GldfSignError::MetaParse => "can't parse meta-information.xml".to_owned(),
            GldfSignError::MetaSerialize => "can't serialize meta-information.xml".to_owned(),
            GldfSignError::MissingKey => "can't find the public key property".to_owned(),
            GldfSignError::KeyDecode => "can't decode the stored public key".to_owned(),
            GldfSignError::MissingSignature(p) => "can't find signature for ".to_owned().concat(
                p.as_str(),
            ),
            GldfSignError::SignatureDecode(p) => "could not read signature string for "
                .to_owned()
                .concat(p.as_str()),
            GldfSignError::VerifyFailed(p) => "could not verify signature for ".to_owned()
                .concat(p.as_str()),
            GldfSignError::SignFailed(p) => "could not sign ".to_owned().concat(p.as_str()),
            GldfSignError::ArchiveWrite => "can't rebuild the archive".to_owned(),
        }
    }
}

/// Outcome of one call of the signature primitive's verify operation,
/// before a path is attached to it.
pub enum PrimVerifyError {
    /// The public-key text does not decode.
    KeyDecode,
    /// The signature text does not parse.
    SigDecode,
    /// The signature does not verify against the message.
    Rejected,
}

} // verus!
