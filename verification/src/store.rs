//! The media store: byte payloads keyed by identifier and extension.
//!
//! The store is modelled as a map from `(identifier, extension)` keys to
//! byte contents. A write idempotently overwrites the entry for its key;
//! retrieval probes the allowed extensions in configured order and
//! returns the first match, since the caller supplies only the
//! identifier and not the extension.

use vstd::prelude::*;

verus! {

/// One stored payload: the derived identifier, the extension it was
/// accepted under, and the bytes.
pub struct StoredMedia {
    pub id: String,
    pub ext: String,
    pub data: Vec<u8>,
}

/// The contents of a sequence of stored entries, later entries
/// shadowing earlier ones with the same key.
pub open spec fn map_of(files: Seq<StoredMedia>) -> Map<(Seq<char>, Seq<char>), Seq<u8>>
    decreases files.len(),
{
    if files.len() == 0 {
        Map::empty()
    } else {
        map_of(files.drop_last()).insert(
            (files.last().id@, files.last().ext@),
            files.last().data@,
        )
    }
}

/// The contents stored under a key, if any.
pub open spec fn lookup(
    m: Map<(Seq<char>, Seq<char>), Seq<u8>>,
    k: (Seq<char>, Seq<char>),
) -> Option<Seq<u8>> {
    if m.contains_key(k) {
        Some(m[k])
    } else {
        None
    }
}

/// The views of a list of extensions, in order.
pub open spec fn ext_views(exts: Seq<String>) -> Seq<Seq<char>> {
    exts.map_values(|s: String| s@)
}

/// The result of probing the extensions in order for the given
/// identifier: the first extension whose key is stored, with its bytes.
pub open spec fn spec_probe(
    m: Map<(Seq<char>, Seq<char>), Seq<u8>>,
    id: Seq<char>,
    exts: Seq<Seq<char>>,
) -> Option<(Seq<char>, Seq<u8>)>
    decreases exts.len(),
{
    if exts.len() <= 0 {
        None
    } else if m.contains_key((id, exts[0])) {
        Some((exts[0], m[(id, exts[0])]))
    } else {
        spec_probe(m, id, exts.skip(1))
    }
}

/// The store of media payloads.
pub struct MediaStore {
    pub files: Vec<StoredMedia>,
}

impl View for MediaStore {
    type V = Map<(Seq<char>, Seq<char>), Seq<u8>>;

    open spec fn view(&self) -> Self::V {
        map_of(self.files@)
    }
}

/// Copies a byte payload.
fn copy_bytes(v: &Vec<u8>) -> (r: Vec<u8>)
    ensures
        r@ == v@,
{
    let mut r: Vec<u8> = Vec::new();
    let mut i: usize = 0;
    while i < v.len()
        invariant
            i <= v.len(),
            r@ == v@.take(i as int),
        decreases v.len() - i,
    {
        r.push(v[i]);
        proof {
            assert(v@.take(i as int).push(v@[i as int]) =~= v@.take(i as int + 1));
        }
        i = i + 1;
    }
    proof {
        assert(v@.take(v@.len() as int) =~= v@);
    }
    r
}

impl MediaStore {
    /// An empty store.
    pub fn new() -> (r: Self)
        ensures
            r@ == Map::<(Seq<char>, Seq<char>), Seq<u8>>::empty(),
    {
        let r = MediaStore { files: Vec::new() };
        proof {
            assert(r.files@.len() == 0);
        }
        r
    }

    /// Creates, or idempotently overwrites, the entry for the given
    /// identifier and extension.
    pub fn write(&mut self, id: &str, ext: &str, data: Vec<u8>)
        ensures
            final(self)@ == old(self)@.insert((id@, ext@), data@),
    {
        let ghost pre = self.files@;
        let id_s: String = id.to_owned();
        let ext_s: String = ext.to_owned();
        self.files.push(StoredMedia { id: id_s, ext: ext_s, data });
        proof {
            assert(self.files@.drop_last() =~= pre);
        }
    }

    /// The bytes stored under the given identifier and extension, if any.
    fn get(&self, id: &String, ext: &String) -> (r: Option<Vec<u8>>)
        ensures
            match r {
                Some(d) => lookup(self@, (id@, ext@)) == Some(d@),
                None => lookup(self@, (id@, ext@)) is None,
            },
    {
        let ghost k = (id@, ext@);
        let mut i: usize = self.files.len();
        proof {
            assert(self.files@.take(i as int) =~= self.files@);
        }
        while i > 0
            invariant
                i <= self.files.len(),
                k == (id@, ext@),
                lookup(self@, k) == lookup(map_of(self.files@.take(i as int)), k),
            decreases i,
        {
            let entry = &self.files[i - 1];
            proof {
                assert(self.files@.take(i as int).drop_last() =~= self.files@.take(i as int - 1));
                assert(self.files@.take(i as int).last() == self.files@[i as int - 1]);
            }
            if entry.id == *id && entry.ext == *ext {
                return Some(copy_bytes(&entry.data));
            }
            i = i - 1;
        }
        proof {
            assert(self.files@.take(0).len() == 0);
        }
        None
    }

    /// Probes each allowed extension in the configured order for the
    /// given identifier, and returns the first stored match: its
    /// extension and its full byte contents. Reports no match as a
    /// legitimate not-found outcome.
    pub fn probe_and_read(&self, file_id: &str, allowed: &Vec<String>) -> (r: Option<
        (String, Vec<u8>),
    >)
        ensures
            match r {
                Some(found) => spec_probe(self@, file_id@, ext_views(allowed@)) == Some(
                    (found.0@, found.1@),
                ),
                None => spec_probe(self@, file_id@, ext_views(allowed@)) is None,
            },
    {
        let id_s: String = file_id.to_owned();
        let ghost exts = ext_views(allowed@);
        let mut i: usize = 0;
        proof {
            assert(exts.skip(0) =~= exts);
        }
        while i < allowed.len()
            invariant
                i <= allowed.len(),
                id_s@ == file_id@,
                exts == ext_views(allowed@),
                spec_probe(self@, file_id@, exts) == spec_probe(
                    self@,
                    file_id@,
                    exts.skip(i as int),
                ),
            decreases allowed.len() - i,
        {
            let ext = &allowed[i];
            proof {
                assert(exts.skip(i as int)[0] == exts[i as int]);
                assert(exts[i as int] == allowed@[i as int]@);
            }
            match self.get(&id_s, ext) {
                Some(data) => {
                    return Some((ext.clone(), data));
                },
                None => {
                    proof {
                        assert(exts.skip(i as int).skip(1) =~= exts.skip(i as int + 1));
                    }
                },
            }
            i = i + 1;
        }
        proof {
            assert(exts.skip(allowed@.len() as int).len() == 0);
        }
        None
    }
}

} // verus!
