//! The mathematical model of the embedding protocol: the exclusion policy,
//! the property-naming convention, lookup in a property list, and the
//! fail-fast verification walk.

use vstd::prelude::*;
use crate::text::{global_sig_line_ok, seq_starts_with};
use crate::trusted::{pk_parses, sig_parses, verify_ok};
use crate::types::ErrV;

verus! {

/// The fixed prefix that turns an entry path into its signature property name.
pub open spec fn sig_prefix() -> Seq<char> {
    "gldf_rs_file_"@
}

/// The reserved name of the property that stores the public key.
pub open spec fn pk_prop_name() -> Seq<char> {
    "gldf_rs_file_public_key"@
}

/// The reserved path of the metadata-carrier entry.
pub open spec fn meta_carrier_path() -> Seq<char> {
    "meta-information.xml"@
}

/// The resource-fork directory convention of some archive-authoring tools.
pub open spec fn resource_fork_prefix() -> Seq<char> {
    "__MACOSX"@
}

/// Paths that are never signing or verification targets: the
/// metadata-carrier entry and resource-fork entries.
pub open spec fn is_excluded(path: Seq<char>) -> bool {
    path == meta_carrier_path() || seq_starts_with(path, resource_fork_prefix())
}

/// The signature property name for an entry path.
pub open spec fn sig_name(path: Seq<char>) -> Seq<char> {
    sig_prefix() + path
}

/// First property with the given name, if any (first match wins).
pub open spec fn lookup_prop(props: Seq<(Seq<char>, Seq<char>)>, name: Seq<char>) -> Option<
    (Seq<char>, Seq<char>),
>
    decreases props.len(),
{
    if props.len() == 0 {
        None
    } else if props[0].0 == name {
        Some(props[0])
    } else {
        lookup_prop(props.drop_first(), name)
    }
}

/// The subsequence of entries whose paths are signing targets, in order.
pub open spec fn non_excluded(entries: Seq<(Seq<char>, Seq<u8>)>) -> Seq<(Seq<char>, Seq<u8>)>
    decreases entries.len(),
{
    if entries.len() == 0 {
        Seq::empty()
    } else {
        let rest = non_excluded(entries.drop_last());
        if is_excluded(entries.last().0) {
            rest
        } else {
            rest.push(entries.last())
        }
    }
}

/// What a successful sign pass guarantees of the metadata properties it
/// built for `entries` under the public key `pk_b64`: one signature
/// property per non-excluded entry, in entry order, each of which parses
/// (with a full-length global-signature line) and verifies that entry's
/// content under `pk_b64` for either legacy setting, followed by exactly
/// one public-key property.
pub open spec fn sign_post(
    entries: Seq<(Seq<char>, Seq<u8>)>,
    props: Seq<(Seq<char>, Seq<char>)>,
    pk_b64: Seq<char>,
) -> bool {
    let ne = non_excluded(entries);
    &&& props.len() == ne.len() + 1
    &&& forall|j: int|
        0 <= j < ne.len() ==> {
            &&& (#[trigger] props[j]).0 == sig_name(ne[j].0)
            &&& sig_parses(props[j].1)
            &&& global_sig_line_ok(props[j].1)
            &&& verify_ok(pk_b64, props[j].1, ne[j].1, false)
            &&& verify_ok(pk_b64, props[j].1, ne[j].1, true)
        }
    &&& props[ne.len() as int] == (pk_prop_name(), pk_b64)
    &&& ne.len() >= 1 ==> pk_parses(pk_b64)
}

/// The fail-fast verification walk from entry `i` on, under an already
/// decoded public key: skip excluded entries; for each other entry require
/// its signature property, require that it parses with a full-length
/// global-signature line, and require that it verifies the entry's
/// content; stop at the first failure.
pub open spec fn verify_walk(
    entries: Seq<(Seq<char>, Seq<u8>)>,
    props: Seq<(Seq<char>, Seq<char>)>,
    pk_b64: Seq<char>,
    allow_legacy: bool,
    i: int,
) -> Result<(), ErrV>
    decreases entries.len() - i,
{
    if i < 0 || i >= entries.len() {
        Ok(())
    } else if is_excluded(entries[i].0) {
        verify_walk(entries, props, pk_b64, allow_legacy, i + 1)
    } else {
        match lookup_prop(props, sig_name(entries[i].0)) {
            None => Err(ErrV::MissingSignature(entries[i].0)),
            Some(p) => {
                if !global_sig_line_ok(p.1) || !sig_parses(p.1) {
                    Err(ErrV::SignatureDecode(entries[i].0))
                } else if !verify_ok(pk_b64, p.1, entries[i].1, allow_legacy) {
                    Err(ErrV::VerifyFailed(entries[i].0))
                } else {
                    verify_walk(entries, props, pk_b64, allow_legacy, i + 1)
                }
            },
        }
    }
}

/// The whole verification pass over an archive and its metadata
/// properties: resolve and decode the embedded public key, then walk the
/// entries in stored order.
pub open spec fn verify_model(
    entries: Seq<(Seq<char>, Seq<u8>)>,
    props: Seq<(Seq<char>, Seq<char>)>,
    allow_legacy: bool,
) -> Result<(), ErrV> {
    match lookup_prop(props, pk_prop_name()) {
        None => Err(ErrV::MissingKey),
        Some(p) => {
            if !pk_parses(p.1) {
                Err(ErrV::KeyDecode)
            } else {
                verify_walk(entries, props, p.1, allow_legacy, 0)
            }
        },
    }
}

/// The index of the first metadata-carrier candidate at or after `i`: the
/// first entry whose path is the reserved carrier path.
pub open spec fn find_meta_from(entries: Seq<(Seq<char>, Seq<u8>)>, i: int) -> Option<int>
    decreases entries.len() - i,
{
    if i < 0 || i >= entries.len() {
        None
    } else if entries[i].0 == meta_carrier_path() {
        Some(i)
    } else {
        find_meta_from(entries, i + 1)
    }
}

/// The index of the metadata-carrier entry, if the archive has one.
pub open spec fn find_meta_carrier(entries: Seq<(Seq<char>, Seq<u8>)>) -> Option<int> {
    find_meta_from(entries, 0)
}

/// The entries read out of the archive loader's records, or `None` where
/// any record is missing its path or its content.
pub open spec fn entries_from_pairs(pairs: Seq<(Option<Seq<char>>, Option<Seq<u8>>)>) -> Option<
    Seq<(Seq<char>, Seq<u8>)>,
>
    decreases pairs.len(),
{
    if pairs.len() == 0 {
        Some(Seq::empty())
    } else {
        match (entries_from_pairs(pairs.drop_last()), pairs.last().0, pairs.last().1) {
            (Some(rest), Some(p), Some(c)) => Some(rest.push((p, c))),
            _ => None,
        }
    }
}

/// The entries that a rebuilt archive keeps verbatim: every entry except
/// the metadata carrier being replaced.
pub open spec fn carrier_removed(entries: Seq<(Seq<char>, Seq<u8>)>) -> Seq<(Seq<char>, Seq<u8>)>
    decreases entries.len(),
{
    if entries.len() == 0 {
        Seq::empty()
    } else {
        let rest = carrier_removed(entries.drop_last());
        if entries.last().0 == meta_carrier_path() {
            rest
        } else {
            rest.push(entries.last())
        }
    }
}

/// The entry list of a freshly signed archive: the new metadata carrier
/// (the document serialized as `xml`, UTF-8 encoded) first, then every
/// original entry except the replaced carrier, in order.
pub open spec fn signed_entries(entries: Seq<(Seq<char>, Seq<u8>)>, xml: Seq<char>) -> Seq<
    (Seq<char>, Seq<u8>),
> {
    seq![(meta_carrier_path(), vstd::utf8::encode_utf8(xml))] + carrier_removed(entries)
}

/// The whole verification pass over raw container bytes: open the
/// container, read its entries, extract and parse the metadata carrier,
/// then verify.
pub open spec fn cmd_verify_model(buf: Seq<u8>, allow_legacy: bool) -> Result<(), ErrV> {
    match crate::trusted::parsed_archive(buf) {
        None => Err(ErrV::ArchiveLoad),
        Some(pairs) => match entries_from_pairs(pairs) {
            None => Err(ErrV::ArchiveEntry),
            Some(entries) => match find_meta_carrier(entries) {
                None => Err(ErrV::MissingMeta),
                Some(i) => match crate::trusted::parsed_meta(entries[i].1) {
                    None => Err(ErrV::MetaParse),
                    Some(props) => verify_model(entries, props, allow_legacy),
                },
            },
        },
    }
}

/// Taking one more entry extends the non-excluded subsequence exactly
/// when that entry is a signing target.
pub proof fn lemma_non_excluded_take_step(entries: Seq<(Seq<char>, Seq<u8>)>, i: int)
    requires
        0 <= i < entries.len(),
    ensures
        non_excluded(entries.take(i + 1)) == if is_excluded(entries[i].0) {
            non_excluded(entries.take(i))
        } else {
            non_excluded(entries.take(i)).push(entries[i])
        },
{
    assert(entries.take(i + 1).drop_last() =~= entries.take(i));
    assert(entries.take(i + 1).last() == entries[i]);
}

/// Taking one more entry extends the carrier-removed list exactly when
/// that entry is not the metadata carrier.
pub proof fn lemma_carrier_removed_take_step(entries: Seq<(Seq<char>, Seq<u8>)>, i: int)
    requires
        0 <= i < entries.len(),
    ensures
        carrier_removed(entries.take(i + 1)) == if entries[i].0 == meta_carrier_path() {
            carrier_removed(entries.take(i))
        } else {
            carrier_removed(entries.take(i)).push(entries[i])
        },
{
    assert(entries.take(i + 1).drop_last() =~= entries.take(i));
    assert(entries.take(i + 1).last() == entries[i]);
}

/// Reading the archive loader's records fails on the whole list as soon
/// as any record is missing a field.
pub proof fn lemma_pairs_bad(pairs: Seq<(Option<Seq<char>>, Option<Seq<u8>>)>, k: int)
    requires
        0 <= k < pairs.len(),
        pairs[k].0 is None || pairs[k].1 is None,
    ensures
        entries_from_pairs(pairs) is None,
    decreases pairs.len(),
{
    if k == pairs.len() - 1 {
        assert(pairs.last() == pairs[k]);
    } else {
        lemma_pairs_bad(pairs.drop_last(), k);
    }
}

/// A name found at position `j`, with no earlier occurrence, is what
/// lookup returns.
pub proof fn lemma_lookup_at(props: Seq<(Seq<char>, Seq<char>)>, name: Seq<char>, j: int)
    requires
        0 <= j < props.len(),
        props[j].0 == name,
        forall|k: int| 0 <= k < j ==> (#[trigger] props[k]).0 != name,
    ensures
        lookup_prop(props, name) == Some(props[j]),
    decreases j,
{
    if j > 0 {
        lemma_lookup_at(props.drop_first(), name, j - 1);
    }
}

/// A name that occurs nowhere is not found.
pub proof fn lemma_lookup_none(props: Seq<(Seq<char>, Seq<char>)>, name: Seq<char>)
    requires
        forall|k: int| 0 <= k < props.len() ==> (#[trigger] props[k]).0 != name,
    ensures
        lookup_prop(props, name) is None,
    decreases props.len(),
{
    if props.len() > 0 {
        lemma_lookup_none(props.drop_first(), name);
    }
}

/// Prefixing with the fixed signature prefix keeps paths apart.
pub proof fn lemma_sig_name_injective(a: Seq<char>, b: Seq<char>)
    requires
        sig_name(a) == sig_name(b),
    ensures
        a == b,
{
    assert(sig_name(a).len() == sig_prefix().len() + a.len());
    assert(sig_name(b).len() == sig_prefix().len() + b.len());
    assert(a.len() == b.len());
    assert forall|i: int| 0 <= i < a.len() implies a[i] == b[i] by {
        let n = sig_prefix().len() as int;
        assert(sig_name(a)[n + i] == a[i]);
        assert(sig_name(b)[n + i] == b[i]);
        assert(sig_name(a)[n + i] == sig_name(b)[n + i]);
    }
    assert(a =~= b);
}

/// The non-excluded subsequence holds exactly the non-excluded entries.
pub proof fn lemma_non_excluded_elems(entries: Seq<(Seq<char>, Seq<u8>)>)
    ensures
        forall|x: (Seq<char>, Seq<u8>)|
            #[trigger] non_excluded(entries).contains(x) ==> entries.contains(x) && !is_excluded(
                x.0,
            ),
        forall|x: (Seq<char>, Seq<u8>)|
            entries.contains(x) && !is_excluded(x.0) ==> #[trigger] non_excluded(
                entries,
            ).contains(x),
    decreases entries.len(),
{
    if entries.len() > 0 {
        let butlast = entries.drop_last();
        lemma_non_excluded_elems(butlast);
        assert forall|x: (Seq<char>, Seq<u8>)|
            #[trigger] non_excluded(entries).contains(x) implies entries.contains(x)
            && !is_excluded(x.0) by {
            if non_excluded(butlast).contains(x) {
                let i = choose|i: int| 0 <= i < butlast.len() && butlast[i] == x;
                assert(entries[i] == x);
            } else {
                assert(x == entries.last());
                assert(entries[entries.len() - 1] == x);
            }
        }
        assert forall|x: (Seq<char>, Seq<u8>)|
            entries.contains(x) && !is_excluded(x.0) implies #[trigger] non_excluded(
            entries,
        ).contains(x) by {
            let i = choose|i: int| 0 <= i < entries.len() && entries[i] == x;
            if i < entries.len() - 1 {
                assert(butlast[i] == x);
                assert(non_excluded(butlast).contains(x));
                if !is_excluded(entries.last().0) {
                    let j = choose|j: int|
                        0 <= j < non_excluded(butlast).len() && non_excluded(butlast)[j] == x;
                    assert(non_excluded(entries)[j] == x);
                }
            } else {
                assert(x == entries.last());
                assert(non_excluded(entries).last() == x);
            }
        }
    }
}

/// With unique paths in the archive, the non-excluded subsequence has
/// unique paths too.
pub proof fn lemma_non_excluded_unique(entries: Seq<(Seq<char>, Seq<u8>)>)
    requires
        forall|i: int, j: int|
            0 <= i < j < entries.len() ==> (#[trigger] entries[i]).0 != (#[trigger] entries[j]).0,
    ensures
        forall|i: int, j: int|
            0 <= i < j < non_excluded(entries).len() ==> (#[trigger] non_excluded(entries)[i]).0
                != (#[trigger] non_excluded(entries)[j]).0,
    decreases entries.len(),
{
    if entries.len() > 0 {
        let butlast = entries.drop_last();
        assert(forall|i: int, j: int|
            0 <= i < j < butlast.len() ==> (#[trigger] butlast[i]).0 != (#[trigger] butlast[j]).0);
        lemma_non_excluded_unique(butlast);
        if is_excluded(entries.last().0) {
            assert(non_excluded(entries) == non_excluded(butlast));
        } else {
            let ne = non_excluded(entries);
            let neb = non_excluded(butlast);
            lemma_non_excluded_elems(butlast);
            assert forall|i: int, j: int| 0 <= i < j < ne.len() implies (#[trigger] ne[i]).0
                != (#[trigger] ne[j]).0 by {
                if j == ne.len() - 1 {
                    assert(ne[j] == entries.last());
                    assert(ne[i] == neb[i]);
                    assert(neb.contains(neb[i]));
                    let k = choose|k: int| 0 <= k < butlast.len() && butlast[k] == neb[i];
                    assert(entries[k] == neb[i]);
                    assert(entries[k].0 != entries[entries.len() - 1].0);
                } else {
                    assert(ne[i] == neb[i] && ne[j] == neb[j]);
                }
            }
        }
    }
}

} // verus!
