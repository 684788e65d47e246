//! The executable core: property lookup, the exclusion policy, loading an
//! archive from container bytes, extracting its metadata document, and the
//! signing and verification orchestrators.

use vstd::prelude::*;
use crate::model::{
    carrier_removed, cmd_verify_model, entries_from_pairs, find_meta_carrier, find_meta_from,
    is_excluded, lemma_carrier_removed_take_step, lemma_non_excluded_elems,
    lemma_non_excluded_take_step, lemma_pairs_bad, lookup_prop, meta_carrier_path, non_excluded,
    pk_prop_name, sig_name, sign_post, signed_entries, verify_model, verify_walk,
};
use crate::text::{global_sig_line_ok, newline_free, sig_global_line_ok, str_eq, str_starts_with};
use crate::trusted::{
    meta_to_xml_raw, meta_xml_of, pair_view, pairs_view, parse_archive_raw, parse_meta_raw,
    parsed_archive, parsed_meta, pk_is_valid, pk_parses, sig_parses, sign_entry_raw,
    verify_entry_raw, verify_ok, zip_add, zip_bytes_of, zip_finish, zip_new, zip_written,
};
use crate::types::{
    Archive, Entry, ErrV, GldfSignError, MetaInformation, PrimVerifyError, Property,
};

verus! {

/// Whether this path is skipped by both signing and verification: the
/// metadata-carrier entry itself and resource-fork entries.
pub fn check_ignore_path(path: &String) -> (r: bool)
    ensures
        r == is_excluded(path@),
{
    str_eq(path.as_str(), "meta-information.xml") || str_starts_with(path.as_str(), "__MACOSX")
}

/// The signature property name for an entry path: the fixed prefix
/// followed by the path.
pub fn make_sig_name(path: &String) -> (r: String)
    ensures
        r@ == sig_name(path@),
{
    "gldf_rs_file_".to_owned().concat(path.as_str())
}

/// First property with the given name, if any (the property list is a
/// name-keyed mapping; first match wins).
pub fn get_property(meta: &MetaInformation, name: &str) -> (r: Option<Property>)
    ensures
        r is Some ==> lookup_prop(meta@, name@) == Some(r->Some_0@),
        r is None ==> lookup_prop(meta@, name@) is None,
{
    let n = meta.property.len();
    let mut i: usize = 0;
    assert(meta@.skip(0) =~= meta@);
    while i < n
        invariant
            i <= n,
            n == meta.property.len(),
            meta@.len() == n,
            lookup_prop(meta@, name@) == lookup_prop(meta@.skip(i as int), name@),
            forall|k: int| 0 <= k < i ==> (#[trigger] meta@[k]).0 != name@,
        decreases n - i,
    {
        let p = &meta.property[i];
        assert(meta@[i as int] == p@);
        assert(meta@.skip(i as int)[0] == meta@[i as int]);
        if str_eq(p.name.as_str(), name) {
            return Some(Property { name: p.name.clone(), property_text: p.property_text.clone() });
        }
        assert(meta@.skip(i as int).drop_first() =~= meta@.skip(i + 1));
        i = i + 1;
    }
    assert(meta@.skip(n as int) =~= Seq::<(Seq<char>, Seq<char>)>::empty());
    None
}

/// Open container bytes into an in-memory archive: every record the
/// archive loader reads must carry both a path and a content.
pub fn get_gldf_buf_all(gldf_file_buf: &Vec<u8>) -> (r: Result<Archive, GldfSignError>)
    ensures
        r is Ok ==> parsed_archive(gldf_file_buf@) is Some && entries_from_pairs(
            parsed_archive(gldf_file_buf@)->Some_0,
        ) == Some(r->Ok_0@),
        r matches Err(GldfSignError::ArchiveLoad) <==> parsed_archive(gldf_file_buf@) is None,
        r matches Err(GldfSignError::ArchiveEntry) <==> parsed_archive(gldf_file_buf@) is Some
            && entries_from_pairs(parsed_archive(gldf_file_buf@)->Some_0) is None,
        r is Ok <== parsed_archive(gldf_file_buf@) is Some && entries_from_pairs(
            parsed_archive(gldf_file_buf@)->Some_0,
        ) is Some,
{
    let pairs = match parse_archive_raw(gldf_file_buf) {
        None => {
            return Err(GldfSignError::ArchiveLoad);
        },
        Some(pairs) => pairs,
    };
    let ghost pv = parsed_archive(gldf_file_buf@)->Some_0;
    assert(pv == pairs_view(pairs@));
    let mut files: Vec<Entry> = Vec::new();
    let n = pairs.len();
    let mut i: usize = 0;
    while i < n
        invariant
            i <= n,
            n == pairs.len(),
            pv == pairs_view(pairs@),
            pv.len() == n,
            parsed_archive(gldf_file_buf@) is Some,
            pv == parsed_archive(gldf_file_buf@)->Some_0,
            entries_from_pairs(pv.take(i as int)) == Some(
                files@.map_values(|e: Entry| e@),
            ),
        decreases n - i,
    {
        assert(pv[i as int] == pair_view(pairs@[i as int]));
        let (path, content) = match (&pairs[i].0, &pairs[i].1) {
            (Some(path), Some(content)) => (path.clone(), content.clone()),
            _ => {
                proof {
                    lemma_pairs_bad(pv, i as int);
                }
                return Err(GldfSignError::ArchiveEntry);
            },
        };
        let ghost old_files = files@;
        files.push(Entry { path, content });
        proof {
            assert(pv.take(i + 1).drop_last() =~= pv.take(i as int));
            assert(pv.take(i + 1).last() == pv[i as int]);
            assert(files@.map_values(|e: Entry| e@) =~= old_files.map_values(
                |e: Entry| e@,
            ).push(files@.last()@));
        }
        i = i + 1;
    }
    assert(pv.take(n as int) =~= pv);
    Ok(Archive { files })
}

/// Extract and parse the metadata document held by the archive's
/// metadata-carrier entry.
pub fn get_meta_information(gldf_file_buf: &Archive) -> (r: Result<
    MetaInformation,
    GldfSignError,
>)
    ensures
        r matches Err(GldfSignError::MissingMeta) <==> find_meta_carrier(gldf_file_buf@) is None,
        find_meta_carrier(gldf_file_buf@) matches Some(i) ==> (parsed_meta(
            gldf_file_buf@[i].1,
        ) is None <==> r matches Err(GldfSignError::MetaParse)),
        find_meta_carrier(gldf_file_buf@) matches Some(i) ==> (parsed_meta(
            gldf_file_buf@[i].1,
        ) matches Some(props) ==> r is Ok && r->Ok_0@ == props),
{
    let n = gldf_file_buf.files.len();
    let mut i: usize = 0;
    while i < n
        invariant
            i <= n,
            n == gldf_file_buf.files.len(),
            gldf_file_buf@.len() == n,
            find_meta_carrier(gldf_file_buf@) == find_meta_from(gldf_file_buf@, i as int),
        decreases n - i,
    {
        let e = &gldf_file_buf.files[i];
        assert(gldf_file_buf@[i as int] == e@);
        if str_eq(e.path.as_str(), "meta-information.xml") {
            assert(find_meta_carrier(gldf_file_buf@) == Some(i as int));
            match parse_meta_raw(&e.content) {
                None => {
                    return Err(GldfSignError::MetaParse);
                },
                Some(meta) => {
                    return Ok(meta);
                },
            }
        }
        i = i + 1;
    }
    Err(GldfSignError::MissingMeta)
}

/// Sign every non-excluded entry with the secret key and build the
/// replacement metadata document from scratch: one signature property per
/// entry, in entry order, then exactly one public-key property holding
/// `pk_b64`.  Prior metadata is never merged in.
pub fn sign_entries(
    gldf_file_buf: &Archive,
    sk: &minisign::SecretKey,
    pk_b64: &String,
    trusted_comment: &String,
    untrusted_comment: Option<&String>,
) -> (r: Result<MetaInformation, GldfSignError>)
    requires
        newline_free(trusted_comment@),
        untrusted_comment matches Some(u) ==> newline_free(u@),
    ensures
        r is Ok ==> sign_post(gldf_file_buf@, r->Ok_0@, pk_b64@),
        non_excluded(gldf_file_buf@).len() == 0 ==> r is Ok,
        r is Err ==> exists|j: int|
            0 <= j < gldf_file_buf@.len() && !is_excluded((#[trigger] gldf_file_buf@[j]).0)
                && r->Err_0@ == ErrV::SignFailed(gldf_file_buf@[j].0),
{
    let mut properties: Vec<Property> = Vec::new();
    let n = gldf_file_buf.files.len();
    let mut i: usize = 0;
    assert(gldf_file_buf@.take(0) =~= Seq::<(Seq<char>, Seq<u8>)>::empty());
    while i < n
        invariant
            i <= n,
            n == gldf_file_buf.files.len(),
            gldf_file_buf@.len() == n,
            newline_free(trusted_comment@),
            untrusted_comment matches Some(u) ==> newline_free(u@),
            ({
                let ne = non_excluded(gldf_file_buf@.take(i as int));
                let props = properties@.map_values(|p: Property| p@);
                &&& props.len() == ne.len()
                &&& forall|j: int|
                    0 <= j < ne.len() ==> {
                        &&& (#[trigger] props[j]).0 == sig_name(ne[j].0)
                        &&& sig_parses(props[j].1)
                        &&& global_sig_line_ok(props[j].1)
                        &&& verify_ok(pk_b64@, props[j].1, ne[j].1, false)
                        &&& verify_ok(pk_b64@, props[j].1, ne[j].1, true)
                    }
                &&& ne.len() >= 1 ==> pk_parses(pk_b64@)
            }),
        decreases n - i,
    {
        let e = &gldf_file_buf.files[i];
        assert(gldf_file_buf@[i as int] == e@);
        if !check_ignore_path(&e.path) {
            let uc = match untrusted_comment {
                Some(u) => Some(u.as_str()),
                None => None,
            };
            let text = match sign_entry_raw(
                sk,
                pk_b64.as_str(),
                &e.content,
                trusted_comment.as_str(),
                uc,
            ) {
                Ok(t) => t,
                Err(()) => {
                    proof {
                        assert(!is_excluded(gldf_file_buf@[i as int].0));
                        lemma_non_excluded_elems(gldf_file_buf@);
                        assert(gldf_file_buf@.contains(gldf_file_buf@[i as int]));
                        assert(non_excluded(gldf_file_buf@).contains(gldf_file_buf@[i as int]));
                    }
                    return Err(GldfSignError::SignFailed(e.path.clone()));
                },
            };
            let name = make_sig_name(&e.path);
            let ghost old_props = properties@.map_values(|p: Property| p@);
            properties.push(Property { name, property_text: text });
            proof {
                assert(properties@.map_values(|p: Property| p@) =~= old_props.push(
                    properties@.last()@,
                ));
            }
        }
        proof {
            lemma_non_excluded_take_step(gldf_file_buf@, i as int);
        }
        i = i + 1;
    }
    assert(gldf_file_buf@.take(n as int) =~= gldf_file_buf@);
    let ghost old_props = properties@.map_values(|p: Property| p@);
    properties.push(
        Property { name: "gldf_rs_file_public_key".to_owned(), property_text: pk_b64.clone() },
    );
    proof {
        assert(properties@.map_values(|p: Property| p@) =~= old_props.push(properties@.last()@));
        assert(properties@.last()@ == (pk_prop_name(), pk_b64@));
    }
    Ok(MetaInformation { property: properties })
}

/// Verify every non-excluded entry of the archive against the metadata
/// document, in stored order, stopping at the first failure: resolve the
/// embedded public key, then require for each entry a signature property
/// that parses and verifies the entry's content.
pub fn verify_entries(gldf_file_buf: &Archive, meta: &MetaInformation, allow_legacy: bool) -> (r:
    Result<(), GldfSignError>)
    ensures
        r is Ok ==> verify_model(gldf_file_buf@, meta@, allow_legacy) is Ok,
        r is Err ==> (verify_model(gldf_file_buf@, meta@, allow_legacy) matches Err(e) && e
            == r->Err_0@),
{
    let pk_prop = match get_property(meta, "gldf_rs_file_public_key") {
        None => {
            return Err(GldfSignError::MissingKey);
        },
        Some(p) => p,
    };
    assert(lookup_prop(meta@, pk_prop_name()) == Some(pk_prop@));
    if !pk_is_valid(pk_prop.property_text.as_str()) {
        return Err(GldfSignError::KeyDecode);
    }
    let ghost pkv = pk_prop@.1;
    let n = gldf_file_buf.files.len();
    let mut i: usize = 0;
    while i < n
        invariant
            i <= n,
            n == gldf_file_buf.files.len(),
            gldf_file_buf@.len() == n,
            pk_prop.property_text@ == pkv,
            lookup_prop(meta@, pk_prop_name()) is Some,
            lookup_prop(meta@, pk_prop_name())->Some_0.1 == pkv,
            pk_parses(pkv),
            verify_walk(gldf_file_buf@, meta@, pkv, allow_legacy, 0) == verify_walk(
                gldf_file_buf@,
                meta@,
                pkv,
                allow_legacy,
                i as int,
            ),
        decreases n - i,
    {
        let e = &gldf_file_buf.files[i];
        assert(gldf_file_buf@[i as int] == e@);
        if !check_ignore_path(&e.path) {
            let name = make_sig_name(&e.path);
            let prop = match get_property(meta, name.as_str()) {
                None => {
                    return Err(GldfSignError::MissingSignature(e.path.clone()));
                },
                Some(p) => p,
            };
            if !sig_global_line_ok(prop.property_text.as_str()) {
                return Err(GldfSignError::SignatureDecode(e.path.clone()));
            }
            match verify_entry_raw(
                pk_prop.property_text.as_str(),
                prop.property_text.as_str(),
                &e.content,
                allow_legacy,
            ) {
                Ok(()) => {},
                Err(PrimVerifyError::KeyDecode) => {
                    proof {
                        assert(false);
                    }
                    return Err(GldfSignError::KeyDecode);
                },
                Err(PrimVerifyError::SigDecode) => {
                    return Err(GldfSignError::SignatureDecode(e.path.clone()));
                },
                Err(PrimVerifyError::Rejected) => {
                    return Err(GldfSignError::VerifyFailed(e.path.clone()));
                },
            }
        }
        i = i + 1;
    }
    assert(verify_walk(gldf_file_buf@, meta@, pkv, allow_legacy, n as int) is Ok);
    Ok(())
}

/// The signing pass over an in-memory archive: build the replacement
/// metadata document, serialize it, and rebuild the container bytes with
/// the new metadata carrier first and every other original entry
/// verbatim, in order.  Nothing is produced unless every signature was
/// computed, so a failed pass leaves no output to write.  The trusted
/// comment is the supplied one, or the caller's default where none is
/// supplied.
pub fn cmd_signgldf(
    gldf_file_buf: &Archive,
    sk: &minisign::SecretKey,
    pk_b64: &String,
    trusted_comment: Option<&String>,
    untrusted_comment: Option<&String>,
    default_trusted_comment: &String,
) -> (r: Result<(MetaInformation, Vec<u8>), GldfSignError>)
    requires
        trusted_comment matches Some(t) ==> newline_free(t@),
        newline_free(default_trusted_comment@),
        untrusted_comment matches Some(u) ==> newline_free(u@),
    ensures
        r is Ok ==> sign_post(gldf_file_buf@, r->Ok_0.0@, pk_b64@),
        r is Ok ==> r->Ok_0.1@ == zip_bytes_of(
            signed_entries(gldf_file_buf@, meta_xml_of(r->Ok_0.0@)),
        ),
        r is Err ==> (exists|j: int|
            0 <= j < gldf_file_buf@.len() && !is_excluded((#[trigger] gldf_file_buf@[j]).0)
                && r->Err_0@ == ErrV::SignFailed(gldf_file_buf@[j].0)) || r->Err_0@
            == ErrV::MetaSerialize || r->Err_0@ == ErrV::ArchiveWrite,
{
    let tc = match trusted_comment {
        Some(t) => t.clone(),
        None => default_trusted_comment.clone(),
    };
    let meta = match sign_entries(gldf_file_buf, sk, pk_b64, &tc, untrusted_comment) {
        Ok(m) => m,
        Err(e) => {
            return Err(e);
        },
    };
    let xml = match meta_to_xml_raw(&meta) {
        Ok(x) => x,
        Err(e) => {
            return Err(e);
        },
    };
    let mut w = zip_new();
    let meta_path = "meta-information.xml".to_owned();
    let xml_bytes = xml.as_str().as_bytes_vec();
    match zip_add(&mut w, &meta_path, &xml_bytes) {
        Ok(()) => {},
        Err(e) => {
            return Err(e);
        },
    }
    proof {
        assert(gldf_file_buf@.take(0) =~= Seq::<(Seq<char>, Seq<u8>)>::empty());
        assert(zip_written(w) =~= seq![(meta_carrier_path(), vstd::utf8::encode_utf8(xml@))]
            + carrier_removed(gldf_file_buf@.take(0)));
    }
    let n = gldf_file_buf.files.len();
    let mut i: usize = 0;
    while i < n
        invariant
            i <= n,
            n == gldf_file_buf.files.len(),
            gldf_file_buf@.len() == n,
            sign_post(gldf_file_buf@, meta@, pk_b64@),
            xml@ == meta_xml_of(meta@),
            zip_written(w) == seq![(meta_carrier_path(), vstd::utf8::encode_utf8(xml@))]
                + carrier_removed(gldf_file_buf@.take(i as int)),
        decreases n - i,
    {
        let e = &gldf_file_buf.files[i];
        assert(gldf_file_buf@[i as int] == e@);
        if !str_eq(e.path.as_str(), "meta-information.xml") {
            let ghost before = zip_written(w);
            match zip_add(&mut w, &e.path, &e.content) {
                Ok(()) => {},
                Err(e) => {
                    return Err(e);
                },
            }
            proof {
                assert(zip_written(w) =~= seq![
                    (meta_carrier_path(), vstd::utf8::encode_utf8(xml@)),
                ] + carrier_removed(gldf_file_buf@.take(i as int)).push(gldf_file_buf@[i as int]));
            }
        }
        proof {
            lemma_carrier_removed_take_step(gldf_file_buf@, i as int);
        }
        i = i + 1;
    }
    assert(gldf_file_buf@.take(n as int) =~= gldf_file_buf@);
    let bytes = match zip_finish(w) {
        Ok(b) => b,
        Err(e) => {
            return Err(e);
        },
    };
    Ok((meta, bytes))
}

/// The whole verification pass over raw container bytes, self-contained:
/// open the container, extract its metadata document, and verify every
/// non-excluded entry against the embedded public key, failing fast.
pub fn cmd_verifygldf(gldf_file_buf: &Vec<u8>, allow_legacy: bool) -> (r: Result<
    (),
    GldfSignError,
>)
    ensures
        r is Ok ==> cmd_verify_model(gldf_file_buf@, allow_legacy) is Ok,
        r is Err ==> (cmd_verify_model(gldf_file_buf@, allow_legacy) matches Err(e) && e
            == r->Err_0@),
{
    let archive = match get_gldf_buf_all(gldf_file_buf) {
        Ok(a) => a,
        Err(e) => {
            return Err(e);
        },
    };
    let meta = match get_meta_information(&archive) {
        Ok(m) => m,
        Err(e) => {
            return Err(e);
        },
    };
    match verify_entries(&archive, &meta, allow_legacy) {
        Ok(()) => Ok(()),
        Err(e) => Err(e),
    }
}

} // verus!
