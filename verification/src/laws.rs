//! The laws of the store, stated and proved over the same models that
//! the handlers' contracts use.

use vstd::prelude::*;

use crate::ident::media_id_of;
use crate::store::spec_probe;

verus! {

/// Deriving the identifier is deterministic: equal byte sequences
/// always yield the same identifier, in whatever order and however
/// often they are uploaded.
pub proof fn lemma_identifier_deterministic(b1: Seq<u8>, b2: Seq<u8>)
    requires
        b1 == b2,
    ensures
        media_id_of(b1) == media_id_of(b2),
{
}

/// Round trip: after a payload is stored under its identifier and an
/// allowed extension, probing the allowed extensions for that
/// identifier yields exactly the stored bytes. The premise that no
/// other allowed extension already holds that identifier is what a
/// collision-free identifier gives: a fresh payload's identifier is
/// stored nowhere else.
pub proof fn lemma_round_trip(
    m: Map<(Seq<char>, Seq<char>), Seq<u8>>,
    id: Seq<char>,
    ext: Seq<char>,
    data: Seq<u8>,
    exts: Seq<Seq<char>>,
)
    requires
        exts.contains(ext),
        forall|j: int| 0 <= j < exts.len() && exts[j] != ext ==> !m.contains_key((id, exts[j])),
    ensures
        spec_probe(m.insert((id, ext), data), id, exts) == Some((ext, data)),
    decreases exts.len(),
{
    let m2 = m.insert((id, ext), data);
    if exts[0] == ext {
        assert(m2.contains_key((id, exts[0])));
        assert(m2[(id, exts[0])] == data);
    } else {
        assert(!m.contains_key((id, exts[0])));
        assert(!m2.contains_key((id, exts[0])));
        let i = choose|i: int| 0 <= i < exts.len() && exts[i] == ext;
        assert(exts.skip(1)[i - 1] == ext);
        assert(exts.skip(1).contains(ext));
        assert(forall|j: int|
            0 <= j < exts.skip(1).len() && exts.skip(1)[j] != ext ==> !m.contains_key(
                (id, exts.skip(1)[j]),
            ));
        lemma_round_trip(m, id, ext, data, exts.skip(1));
    }
}

/// Idempotence of upload: storing the same bytes under the same
/// identifier and extension a second time leaves the store exactly as
/// the first write left it. Together with
/// `lemma_identifier_deterministic`, uploading the same payload twice
/// yields the same identifier both times and the second write does not
/// change the stored content.
pub proof fn lemma_upload_idempotent(
    m: Map<(Seq<char>, Seq<char>), Seq<u8>>,
    id: Seq<char>,
    ext: Seq<char>,
    data: Seq<u8>,
)
    ensures
        m.insert((id, ext), data).insert((id, ext), data) == m.insert((id, ext), data),
{
    assert(m.insert((id, ext), data).insert((id, ext), data) =~= m.insert((id, ext), data));
}

/// Not found: probing for an identifier that is stored under no
/// allowed extension yields no match, whatever else the store holds.
pub proof fn lemma_retrieve_not_found(
    m: Map<(Seq<char>, Seq<char>), Seq<u8>>,
    id: Seq<char>,
    exts: Seq<Seq<char>>,
)
    requires
        forall|j: int| 0 <= j < exts.len() ==> !m.contains_key((id, exts[j])),
    ensures
        spec_probe(m, id, exts) is None,
    decreases exts.len(),
{
    if exts.len() > 0 {
        assert(!m.contains_key((id, exts[0])));
        assert(forall|j: int|
            0 <= j < exts.skip(1).len() ==> !m.contains_key((id, exts.skip(1)[j])));
        lemma_retrieve_not_found(m, id, exts.skip(1));
    }
}

} // verus!
