//! The laws of the embedding protocol, proved once and for all against the
//! model: a signed archive verifies; tampering is reported at the tampered
//! path; excluded entries are never signed nor demanded; re-signing
//! replaces rather than merges; and a missing key is told apart from a
//! missing signature.

use vstd::prelude::*;
use crate::model::{
    is_excluded, lemma_lookup_at, lemma_lookup_none, lemma_non_excluded_elems,
    lemma_non_excluded_unique, lemma_sig_name_injective, lookup_prop, non_excluded, pk_prop_name,
    sig_name, sig_prefix, sign_post, verify_model, verify_walk,
};
use crate::trusted::{pk_parses, sig_parses, verify_ok};
use crate::types::ErrV;

verus! {

/// The public-key property name is itself the signature property name of
/// the path `public_key`.
proof fn lemma_pk_name_is_sig_of_public_key()
    ensures
        pk_prop_name() == sig_name("public_key"@),
{
    reveal_strlit("gldf_rs_file_");
    reveal_strlit("gldf_rs_file_public_key");
    reveal_strlit("public_key");
    assert(pk_prop_name() =~= sig_prefix() + "public_key"@);
}

/// The path `public_key` is a signing target, not an excluded path.
proof fn lemma_public_key_path_not_excluded()
    ensures
        !is_excluded("public_key"@),
{
    reveal_strlit("public_key");
    reveal_strlit("meta-information.xml");
    reveal_strlit("__MACOSX");
    assert(!crate::text::seq_starts_with("public_key"@, "__MACOSX"@)) by {
        if crate::text::seq_starts_with("public_key"@, "__MACOSX"@) {
            assert("public_key"@.subrange(0, 8)[0] == "__MACOSX"@[0]);
        }
    }
}

/// An excluded path's signature property name is not the public-key
/// property name.
proof fn lemma_excluded_sig_not_pk(p: Seq<char>)
    requires
        is_excluded(p),
    ensures
        sig_name(p) != pk_prop_name(),
{
    if sig_name(p) == pk_prop_name() {
        lemma_pk_name_is_sig_of_public_key();
        lemma_sig_name_injective(p, "public_key"@);
        lemma_public_key_path_not_excluded();
    }
}

/// In the metadata of a successful sign pass, every non-excluded entry's
/// signature property is found by lookup, parses, and verifies that
/// entry's content under the embedded key, for either legacy setting.
proof fn lemma_lookup_of_entry(
    entries: Seq<(Seq<char>, Seq<u8>)>,
    props: Seq<(Seq<char>, Seq<char>)>,
    pk_b64: Seq<char>,
    i: int,
)
    requires
        sign_post(entries, props, pk_b64),
        forall|a: int, b: int|
            0 <= a < b < entries.len() ==> (#[trigger] entries[a]).0 != (#[trigger] entries[b]).0,
        0 <= i < entries.len(),
        !is_excluded(entries[i].0),
    ensures
        lookup_prop(props, sig_name(entries[i].0)) matches Some(p) && sig_parses(p.1)
            && crate::text::global_sig_line_ok(p.1) && verify_ok(pk_b64, p.1, entries[i].1, false)
            && verify_ok(pk_b64, p.1, entries[i].1, true),
{
    let ne = non_excluded(entries);
    lemma_non_excluded_elems(entries);
    lemma_non_excluded_unique(entries);
    assert(entries.contains(entries[i]));
    assert(ne.contains(entries[i]));
    let j = choose|j: int| 0 <= j < ne.len() && ne[j] == entries[i];
    assert(props[j].0 == sig_name(entries[i].0));
    assert forall|k: int| 0 <= k < j implies (#[trigger] props[k]).0 != sig_name(
        entries[i].0,
    ) by {
        if props[k].0 == sig_name(entries[i].0) {
            lemma_sig_name_injective(ne[k].0, entries[i].0);
            assert(ne[k].0 == ne[j].0);
        }
    }
    lemma_lookup_at(props, sig_name(entries[i].0), j);
}

/// From entry `i` on, the verification walk of a freshly signed archive
/// succeeds.
proof fn lemma_walk_all_ok(
    entries: Seq<(Seq<char>, Seq<u8>)>,
    props: Seq<(Seq<char>, Seq<char>)>,
    pk_b64: Seq<char>,
    allow_legacy: bool,
    i: int,
)
    requires
        sign_post(entries, props, pk_b64),
        forall|a: int, b: int|
            0 <= a < b < entries.len() ==> (#[trigger] entries[a]).0 != (#[trigger] entries[b]).0,
        0 <= i <= entries.len(),
    ensures
        verify_walk(entries, props, pk_b64, allow_legacy, i) is Ok,
    decreases entries.len() - i,
{
    if i < entries.len() {
        if !is_excluded(entries[i].0) {
            lemma_lookup_of_entry(entries, props, pk_b64, i);
        }
        lemma_walk_all_ok(entries, props, pk_b64, allow_legacy, i + 1);
    }
}

/// Round trip: for any archive with at least one non-excluded entry and
/// unique entry paths, none of which claims the reserved public-key
/// property name, the metadata document built by a successful sign pass
/// is accepted whole by the verification pass, under either legacy
/// setting.
pub proof fn lemma_sign_then_verify(
    entries: Seq<(Seq<char>, Seq<u8>)>,
    props: Seq<(Seq<char>, Seq<char>)>,
    pk_b64: Seq<char>,
    allow_legacy: bool,
)
    requires
        sign_post(entries, props, pk_b64),
        non_excluded(entries).len() >= 1,
        forall|a: int, b: int|
            0 <= a < b < entries.len() ==> (#[trigger] entries[a]).0 != (#[trigger] entries[b]).0,
        forall|k: int|
            0 <= k < entries.len() ==> sig_name((#[trigger] entries[k]).0) != pk_prop_name(),
    ensures
        verify_model(entries, props, allow_legacy) is Ok,
{
    let ne = non_excluded(entries);
    lemma_non_excluded_elems(entries);
    assert forall|k: int| 0 <= k < ne.len() implies (#[trigger] props[k]).0 != pk_prop_name() by {
        assert(ne.contains(ne[k]));
        let m = choose|m: int| 0 <= m < entries.len() && entries[m] == ne[k];
        assert(sig_name(entries[m].0) != pk_prop_name());
    }
    lemma_lookup_at(props, pk_prop_name(), ne.len() as int);
    lemma_walk_all_ok(entries, props, pk_b64, allow_legacy, 0);
}

/// Up to the tampered entry, the walk of a tampered archive proceeds as
/// for the signed one, and stops at that entry with a verification
/// failure naming its path.
proof fn lemma_walk_tamper(
    entries: Seq<(Seq<char>, Seq<u8>)>,
    props: Seq<(Seq<char>, Seq<char>)>,
    pk_b64: Seq<char>,
    allow_legacy: bool,
    k: int,
    content2: Seq<u8>,
    i: int,
)
    requires
        sign_post(entries, props, pk_b64),
        forall|a: int, b: int|
            0 <= a < b < entries.len() ==> (#[trigger] entries[a]).0 != (#[trigger] entries[b]).0,
        0 <= k < entries.len(),
        !is_excluded(entries[k].0),
        !verify_ok(
            pk_b64,
            lookup_prop(props, sig_name(entries[k].0))->Some_0.1,
            content2,
            allow_legacy,
        ),
        0 <= i <= k,
    ensures
        verify_walk(
            entries.update(k, (entries[k].0, content2)),
            props,
            pk_b64,
            allow_legacy,
            i,
        ) == Err::<(), ErrV>(ErrV::VerifyFailed(entries[k].0)),
    decreases k - i,
{
    let entries2 = entries.update(k, (entries[k].0, content2));
    assert(entries2.len() == entries.len());
    if i == k {
        lemma_lookup_of_entry(entries, props, pk_b64, k);
        assert(entries2[k].0 == entries[k].0);
        assert(entries2[k].1 == content2);
    } else {
        assert(entries2[i] == entries[i]);
        if !is_excluded(entries[i].0) {
            lemma_lookup_of_entry(entries, props, pk_b64, i);
        }
        lemma_walk_tamper(entries, props, pk_b64, allow_legacy, k, content2, i + 1);
    }
}

/// Tamper detection: change one non-excluded entry's content after a
/// successful sign pass; provided the signature primitive rejects the
/// stored signature for the new content, the verification pass fails
/// with a verification error naming exactly that entry's path — entries
/// after it are never reached.
pub proof fn lemma_tamper_detected(
    entries: Seq<(Seq<char>, Seq<u8>)>,
    props: Seq<(Seq<char>, Seq<char>)>,
    pk_b64: Seq<char>,
    allow_legacy: bool,
    k: int,
    content2: Seq<u8>,
)
    requires
        sign_post(entries, props, pk_b64),
        forall|a: int, b: int|
            0 <= a < b < entries.len() ==> (#[trigger] entries[a]).0 != (#[trigger] entries[b]).0,
        forall|m: int|
            0 <= m < entries.len() ==> sig_name((#[trigger] entries[m]).0) != pk_prop_name(),
        0 <= k < entries.len(),
        !is_excluded(entries[k].0),
        !verify_ok(
            pk_b64,
            lookup_prop(props, sig_name(entries[k].0))->Some_0.1,
            content2,
            allow_legacy,
        ),
    ensures
        verify_model(entries.update(k, (entries[k].0, content2)), props, allow_legacy) == Err::<
            (),
            ErrV,
        >(ErrV::VerifyFailed(entries[k].0)),
{
    let entries2 = entries.update(k, (entries[k].0, content2));
    let ne = non_excluded(entries);
    lemma_non_excluded_elems(entries);
    assert(entries.contains(entries[k]));
    assert(ne.contains(entries[k]));
    assert(ne.len() >= 1);
    assert forall|m: int| 0 <= m < ne.len() implies (#[trigger] props[m]).0 != pk_prop_name() by {
        assert(ne.contains(ne[m]));
        let q = choose|q: int| 0 <= q < entries.len() && entries[q] == ne[m];
        assert(sig_name(entries[q].0) != pk_prop_name());
    }
    lemma_lookup_at(props, pk_prop_name(), ne.len() as int);
    lemma_walk_tamper(entries, props, pk_b64, allow_legacy, k, content2, 0);
}

/// No signature property for a path outside the current non-excluded
/// entry set: lookup under that path's signature property name finds
/// nothing in the freshly built metadata.
proof fn lemma_no_sig_prop(
    entries: Seq<(Seq<char>, Seq<u8>)>,
    props: Seq<(Seq<char>, Seq<char>)>,
    pk_b64: Seq<char>,
    p: Seq<char>,
)
    requires
        sign_post(entries, props, pk_b64),
        forall|j: int|
            0 <= j < non_excluded(entries).len() ==> (#[trigger] non_excluded(entries)[j]).0 != p,
        sig_name(p) != pk_prop_name(),
    ensures
        lookup_prop(props, sig_name(p)) is None,
{
    let ne = non_excluded(entries);
    assert forall|m: int| 0 <= m < props.len() implies (#[trigger] props[m]).0 != sig_name(p) by {
        if m < ne.len() {
            if props[m].0 == sig_name(p) {
                lemma_sig_name_injective(ne[m].0, p);
            }
        } else {
            assert(props[m].0 == pk_prop_name());
        }
    }
    lemma_lookup_none(props, sig_name(p));
}

/// Exclusion invariant, signing side: the metadata built by a successful
/// sign pass holds no signature property for any excluded path — the
/// metadata carrier and resource-fork entries never receive one.
pub proof fn lemma_excluded_never_signed(
    entries: Seq<(Seq<char>, Seq<u8>)>,
    props: Seq<(Seq<char>, Seq<char>)>,
    pk_b64: Seq<char>,
    p: Seq<char>,
)
    requires
        sign_post(entries, props, pk_b64),
        is_excluded(p),
    ensures
        lookup_prop(props, sig_name(p)) is None,
{
    lemma_excluded_sig_not_pk(p);
    let ne = non_excluded(entries);
    lemma_non_excluded_elems(entries);
    assert forall|j: int| 0 <= j < ne.len() implies (#[trigger] ne[j]).0 != p by {
        assert(ne.contains(ne[j]));
    }
    lemma_no_sig_prop(entries, props, pk_b64, p);
}

/// Exclusion invariant, verification side: a missing-signature failure
/// only ever names a non-excluded path of the archive — excluded entries
/// are never demanded.
pub proof fn lemma_missing_signature_never_excluded(
    entries: Seq<(Seq<char>, Seq<u8>)>,
    props: Seq<(Seq<char>, Seq<char>)>,
    allow_legacy: bool,
)
    ensures
        verify_model(entries, props, allow_legacy) matches Err(ErrV::MissingSignature(p)) ==> {
            exists|i: int|
                0 <= i < entries.len() && (#[trigger] entries[i]).0 == p && !is_excluded(p)
        },
{
    match lookup_prop(props, pk_prop_name()) {
        Some(q) => {
            if pk_parses(q.1) {
                lemma_walk_missing(entries, props, q.1, allow_legacy, 0);
            }
        },
        None => {},
    }
}

/// The walk only reports a missing signature for a non-excluded entry of
/// the archive.
proof fn lemma_walk_missing(
    entries: Seq<(Seq<char>, Seq<u8>)>,
    props: Seq<(Seq<char>, Seq<char>)>,
    pk_b64: Seq<char>,
    allow_legacy: bool,
    i: int,
)
    ensures
        verify_walk(entries, props, pk_b64, allow_legacy, i) matches Err(
            ErrV::MissingSignature(p),
        ) ==> {
            exists|m: int|
                0 <= m < entries.len() && (#[trigger] entries[m]).0 == p && !is_excluded(p)
        },
    decreases entries.len() - i,
{
    if 0 <= i < entries.len() {
        lemma_walk_missing(entries, props, pk_b64, allow_legacy, i + 1);
        if !is_excluded(entries[i].0) {
            if lookup_prop(props, sig_name(entries[i].0)) is None {
                assert(0 <= i < entries.len() && entries[i].0 == entries[i].0 && !is_excluded(
                    entries[i].0,
                ));
            }
        }
    }
}

/// Replace, not merge: the metadata built by a successful sign pass holds
/// signatures only for the current entry set — for a path no current
/// entry has (say, one removed before re-signing, other than the reserved
/// path `public_key`), no stale signature property remains.
pub proof fn lemma_replace_not_merge(
    entries: Seq<(Seq<char>, Seq<u8>)>,
    props: Seq<(Seq<char>, Seq<char>)>,
    pk_b64: Seq<char>,
    p: Seq<char>,
)
    requires
        sign_post(entries, props, pk_b64),
        forall|i: int| 0 <= i < entries.len() ==> (#[trigger] entries[i]).0 != p,
        sig_name(p) != pk_prop_name(),
    ensures
        lookup_prop(props, sig_name(p)) is None,
{
    let ne = non_excluded(entries);
    lemma_non_excluded_elems(entries);
    assert forall|j: int| 0 <= j < ne.len() implies (#[trigger] ne[j]).0 != p by {
        assert(ne.contains(ne[j]));
        let m = choose|m: int| 0 <= m < entries.len() && entries[m] == ne[j];
        assert(entries[m].0 != p);
    }
    lemma_no_sig_prop(entries, props, pk_b64, p);
}

/// Missing-key distinctness: metadata without a public-key property fails
/// verification with the missing-key error, which no missing-signature
/// error equals, whatever path the latter names.
pub proof fn lemma_missing_key_distinct(
    entries: Seq<(Seq<char>, Seq<u8>)>,
    props: Seq<(Seq<char>, Seq<char>)>,
    allow_legacy: bool,
)
    requires
        lookup_prop(props, pk_prop_name()) is None,
    ensures
        verify_model(entries, props, allow_legacy) matches Err(e) && e == ErrV::MissingKey,
        forall|p: Seq<char>| ErrV::MissingKey != ErrV::MissingSignature(p),
{
}

} // verus!
