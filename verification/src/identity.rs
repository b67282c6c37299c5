//! An index of the identities that a credential agent offers, keyed by the
//! SHA-256 digest of each identity's public key blob.

use vstd::prelude::*;
use sha2::Digest;

verus! {

/// An identity offered by a credential agent.
#[derive(Clone, Debug, PartialEq, Eq)]
pub struct Identity {
    /// The public key in its binary form.
    pub blob: Vec<u8>,
    /// The comment stored with the key.
    pub comment: String,
}

/// The SHA-256 digest of a byte string.
pub uninterp spec fn sha256_digest(data: Seq<u8>) -> Seq<u8>;

/// Calls `sha2::Sha256::digest`: the result is the SHA-256 digest of the
/// data, which depends on the data alone.
#[verifier::external_body]
fn sha256(data: &[u8]) -> (digest: Vec<u8>)
    ensures
        digest@ == sha256_digest(data@),
{
    sha2::Sha256::digest(data).as_slice().into()
}

/// Tells whether two byte strings are equal.
pub fn bytes_equal(a: &[u8], b: &[u8]) -> (same: bool)
    ensures
        same == (a@ == b@),
{
    if a.len() != b.len() {
        return false;
    }
    let mut i: usize = 0;
    while i < a.len()
        invariant
            a@.len() == b@.len(),
            i <= a@.len(),
            forall|j: int| 0 <= j < i ==> a@[j] == b@[j],
        decreases a@.len() - i,
    {
        if a[i] != b[i] {
            return false;
        }
        i += 1;
    }
    assert(a@ =~= b@);
    true
}

/// The index of a list of key blobs: each digest leads to the position of
/// the last blob with that digest.
pub open spec fn digest_index(blobs: Seq<Seq<u8>>) -> Map<Seq<u8>, nat>
    decreases blobs.len(),
{
    if blobs.len() == 0 {
        Map::empty()
    } else {
        digest_index(blobs.drop_last()).insert(
            sha256_digest(blobs.last()),
            (blobs.len() - 1) as nat,
        )
    }
}

/// The key blobs of a list of identities.
pub open spec fn blobs_of(identities: Seq<Identity>) -> Seq<Seq<u8>> {
    Seq::new(identities.len(), |i: int| identities[i].blob@)
}

/// A map from digests to positions in a list of identities. No digest is
/// held twice.
pub struct IdentityIndex {
    digests: Vec<Vec<u8>>,
    positions: Vec<usize>,
}

impl IdentityIndex {
    #[verifier::type_invariant]
    spec fn well_formed(&self) -> bool {
        &&& self.digests@.len() == self.positions@.len()
        &&& forall|i: int, j: int|
            0 <= i < j < self.digests@.len() ==> self.digests@[i]@ != self.digests@[j]@
    }

    spec fn slot_of(&self, digest: Seq<u8>) -> int {
        choose|i: int| 0 <= i < self.digests@.len() && self.digests@[i]@ == digest
    }

    /// The index as a map from digest to position.
    pub closed spec fn view(&self) -> Map<Seq<u8>, nat> {
        Map::new(
            |d: Seq<u8>| exists|i: int| 0 <= i < self.digests@.len() && self.digests@[i]@ == d,
            |d: Seq<u8>| self.positions@[self.slot_of(d)] as nat,
        )
    }

    /// Makes an empty index.
    pub fn new() -> (index: IdentityIndex)
        ensures
            index@ == Map::<Seq<u8>, nat>::empty(),
    {
        let index = IdentityIndex { digests: Vec::new(), positions: Vec::new() };
        assert(index@ =~= Map::<Seq<u8>, nat>::empty());
        index
    }

    fn find(&self, digest: &[u8]) -> (slot: Option<usize>)
        ensures
            match slot {
                Some(i) => i < self.digests@.len() && self.digests@[i as int]@ == digest@,
                None => forall|i: int|
                    0 <= i < self.digests@.len() ==> self.digests@[i]@ != digest@,
            },
    {
        let mut i: usize = 0;
        while i < self.digests.len()
            invariant
                i <= self.digests@.len(),
                forall|j: int| 0 <= j < i ==> self.digests@[j]@ != digest@,
            decreases self.digests@.len() - i,
        {
            if bytes_equal(self.digests[i].as_slice(), digest) {
                return Some(i);
            }
            i += 1;
        }
        None
    }

    /// Looks a digest up.
    pub fn get(&self, digest: &[u8]) -> (position: Option<usize>)
        ensures
            position is Some <==> self@.contains_key(digest@),
            position is Some ==> position->0 == self@[digest@],
    {
        proof {
            use_type_invariant(self);
        }
        match self.find(digest) {
            Some(i) => {
                assert(self.slot_of(digest@) == i);
                Some(self.positions[i])
            },
            None => None,
        }
    }

    /// Records a position under a digest, in place of the position recorded
    /// under that digest before, if any.
    pub fn insert(self, digest: Vec<u8>, position: usize) -> (next: IdentityIndex)
        ensures
            next@ == self@.insert(digest@, position as nat),
    {
        proof {
            use_type_invariant(&self);
        }
        let found = self.find(digest.as_slice());
        let ghost before = self;
        let IdentityIndex { digests, positions } = self;
        let mut digests = digests;
        let mut positions = positions;
        match found {
            Some(i) => {
                positions.set(i, position);
            },
            None => {
                digests.push(digest);
                positions.push(position);
            },
        }
        let next = IdentityIndex { digests, positions };
        proof {
            assert forall|d: Seq<u8>| #[trigger]
                next@.contains_key(d) == before@.insert(digest@, position as nat).contains_key(
                    d,
                ) by {
                if before@.contains_key(d) {
                    let k = before.slot_of(d);
                    assert(next.digests@[k]@ == d);
                }
                if next@.contains_key(d) && d != digest@ {
                    let k = next.slot_of(d);
                    assert(before.digests@[k]@ == d);
                }
                if d == digest@ {
                    match found {
                        Some(i) => {
                            assert(next.digests@[i as int]@ == d);
                        },
                        None => {
                            assert(next.digests@[before.digests@.len() as int]@ == d);
                        },
                    }
                }
            }
            assert forall|d: Seq<u8>| next@.contains_key(d) implies #[trigger] next@[d]
                == before@.insert(digest@, position as nat)[d] by {
                let k = next.slot_of(d);
                if d != digest@ {
                    assert(before.digests@[k]@ == d);
                    assert(before.slot_of(d) == k);
                }
            }
            assert(next@ =~= before@.insert(digest@, position as nat));
        }
        next
    }
}

/// Indexes the identities of a list by the SHA-256 digest of their key
/// blobs. Of several identities with one digest the last is kept.
pub fn get_identities(identities: &[Identity]) -> (keys: IdentityIndex)
    ensures
        keys@ == digest_index(blobs_of(identities@)),
{
    let mut keys = IdentityIndex::new();
    let mut i: usize = 0;
    while i < identities.len()
        invariant
            i <= identities@.len(),
            keys@ == digest_index(blobs_of(identities@).subrange(0, i as int)),
        decreases identities@.len() - i,
    {
        let digest = sha256(identities[i].blob.as_slice());
        keys = keys.insert(digest, i);
        proof {
            let blobs = blobs_of(identities@);
            let upto = blobs.subrange(0, i + 1);
            assert(upto.drop_last() =~= blobs.subrange(0, i as int));
            assert(upto.last() == identities@[i as int].blob@);
        }
        i += 1;
    }
    assert(blobs_of(identities@).subrange(0, i as int) =~= blobs_of(identities@));
    keys
}

} // verus!
