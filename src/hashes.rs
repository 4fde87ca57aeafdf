use sha1::{Digest, Sha1};
use sha2::{Sha224, Sha256, Sha384, Sha512};
use vstd::prelude::*;
use vstd::string::*;

verus! {

/// The SHA-1 digest of a byte sequence.
pub uninterp spec fn sha1_of(data: Seq<u8>) -> Seq<u8>;

/// The SHA-224 digest of a byte sequence.
pub uninterp spec fn sha224_of(data: Seq<u8>) -> Seq<u8>;

/// The SHA-256 digest of a byte sequence.
pub uninterp spec fn sha256_of(data: Seq<u8>) -> Seq<u8>;

/// The SHA-384 digest of a byte sequence.
pub uninterp spec fn sha384_of(data: Seq<u8>) -> Seq<u8>;

/// The SHA-512 digest of a byte sequence.
pub uninterp spec fn sha512_of(data: Seq<u8>) -> Seq<u8>;

/// Lowercase hexadecimal digit for a value below 16.
pub open spec fn hex_digit(n: u8) -> char {
    if n < 10 {
        if n == 0 { '0' } else if n == 1 { '1' } else if n == 2 { '2' } else if n == 3 { '3' }
        else if n == 4 { '4' } else if n == 5 { '5' } else if n == 6 { '6' } else if n == 7 { '7' }
        else if n == 8 { '8' } else { '9' }
    } else {
        if n == 10 { 'a' } else if n == 11 { 'b' } else if n == 12 { 'c' } else if n == 13 { 'd' }
        else if n == 14 { 'e' } else { 'f' }
    }
}

/// Lowercase hexadecimal text of a byte sequence: for each byte its high
/// nibble, then its low nibble.
pub open spec fn hex_of(b: Seq<u8>) -> Seq<char> {
    Seq::new(
        2 * b.len(),
        |i: int|
            if i % 2 == 0 {
                hex_digit(b[i / 2] / 16)
            } else {
                hex_digit(b[i / 2] % 16)
            },
    )
}

/// Relies on hex::encode: two lowercase digits per byte, high nibble first.
#[verifier::external_body]
fn hex_encode(b: &[u8]) -> (r: String)
    ensures
        r@ == hex_of(b@),
{
    hex::encode(b)
}

/// Relies on sha1's `Sha1::digest`: the 20-byte SHA-1 digest.
#[verifier::external_body]
fn sha1_digest(data: &[u8]) -> (r: Vec<u8>)
    ensures
        r@ == sha1_of(data@),
        r@.len() == 20,
{
    Sha1::digest(data).to_vec()
}

/// Relies on sha2's `Sha224::digest`: the 28-byte SHA-224 digest.
#[verifier::external_body]
fn sha224_digest(data: &[u8]) -> (r: Vec<u8>)
    ensures
        r@ == sha224_of(data@),
        r@.len() == 28,
{
    Sha224::digest(data).to_vec()
}

/// Relies on sha2's `Sha256::digest`: the 32-byte SHA-256 digest.
#[verifier::external_body]
fn sha256_digest(data: &[u8]) -> (r: Vec<u8>)
    ensures
        r@ == sha256_of(data@),
        r@.len() == 32,
{
    Sha256::digest(data).to_vec()
}

/// Relies on sha2's `Sha384::digest`: the 48-byte SHA-384 digest.
#[verifier::external_body]
fn sha384_digest(data: &[u8]) -> (r: Vec<u8>)
    ensures
        r@ == sha384_of(data@),
        r@.len() == 48,
{
    Sha384::digest(data).to_vec()
}

/// Relies on sha2's `Sha512::digest`: the 64-byte SHA-512 digest.
#[verifier::external_body]
fn sha512_digest(data: &[u8]) -> (r: Vec<u8>)
    ensures
        r@ == sha512_of(data@),
        r@.len() == 64,
{
    Sha512::digest(data).to_vec()
}

/// The digest algorithms a download can be checked against.
#[derive(Debug, Clone, Copy, PartialEq, Eq, Structural)]
pub enum DLHashType {
    SHA1,
    SHA256,
    SHA224,
    SHA384,
    SHA512,
}

/// Raw digest of `data` under algorithm `t`.
pub open spec fn digest_of(t: DLHashType, data: Seq<u8>) -> Seq<u8> {
    match t {
        DLHashType::SHA1 => sha1_of(data),
        DLHashType::SHA256 => sha256_of(data),
        DLHashType::SHA224 => sha224_of(data),
        DLHashType::SHA384 => sha384_of(data),
        DLHashType::SHA512 => sha512_of(data),
    }
}

/// Hexadecimal digest of `data` under algorithm `t`.
pub open spec fn digest_hex(t: DLHashType, data: Seq<u8>) -> Seq<char> {
    hex_of(digest_of(t, data))
}

/// Length in hex digits of a digest of algorithm `t`.
pub open spec fn hex_len(t: DLHashType) -> nat {
    match t {
        DLHashType::SHA1 => 40,
        DLHashType::SHA224 => 56,
        DLHashType::SHA256 => 64,
        DLHashType::SHA384 => 96,
        DLHashType::SHA512 => 128,
    }
}

impl DLHashType {
    /// Hex digest of `data` under this algorithm.
    pub fn compute(&self, data: &[u8]) -> (r: String)
        ensures
            r@ == digest_hex(*self, data@),
            r@.len() == hex_len(*self),
    {
        let d = match self {
            DLHashType::SHA1 => sha1_digest(data),
            DLHashType::SHA256 => sha256_digest(data),
            DLHashType::SHA224 => sha224_digest(data),
            DLHashType::SHA384 => sha384_digest(data),
            DLHashType::SHA512 => sha512_digest(data),
        };
        hex_encode(d.as_slice())
    }

    /// Whether a computed digest equals the expected one.
    pub fn matches_digest(computed: &String, expected: &str) -> (r: bool)
        ensures
            r == (computed@ == expected@),
    {
        let e = expected.to_owned();
        *computed == e
    }

    /// Whether the digest of `data` equals `hash`.
    pub fn verify_data(&self, data: &[u8], hash: &str) -> (r: bool)
        ensures
            r == (digest_hex(*self, data@) == hash@),
    {
        let computed = self.compute(data);
        Self::matches_digest(&computed, hash)
    }

    /// Whether the digest of the UTF-8 bytes of `data` equals `hash`.
    pub fn verify_str(&self, data: &str, hash: &str) -> (r: bool)
        ensures
            r == (digest_hex(*self, data.spec_bytes()) == hash@),
    {
        self.verify_data(data.as_bytes(), hash)
    }
}

/// Whether one configured `(algorithm, expected hex)` pair matches `data`.
pub open spec fn hash_matches(h: (DLHashType, Seq<char>), data: Seq<u8>) -> bool {
    digest_hex(h.0, data) == h.1
}

/// The verification policy: no configured hash means nothing to check;
/// otherwise any single configured hash that matches is enough.
pub open spec fn hashes_accept(hs: Seq<(DLHashType, Seq<char>)>, data: Seq<u8>) -> bool {
    hs.len() == 0 || exists|i: int| 0 <= i < hs.len() && #[trigger] hash_matches(hs[i], data)
}

/// The same policy over digests already computed, one per configured hash.
pub open spec fn digests_accept(
    hs: Seq<(DLHashType, Seq<char>)>,
    digests: Seq<Seq<char>>,
) -> bool {
    hs.len() == 0 || exists|i: int| 0 <= i < hs.len() && #[trigger] digests[i] == hs[i].1
}

/// The ordered list of digests a download is checked against.
#[derive(Debug, Clone)]
pub struct DLHashes {
    pub hashes: Vec<(DLHashType, String)>,
}

impl View for DLHashes {
    type V = Seq<(DLHashType, Seq<char>)>;

    open spec fn view(&self) -> Seq<(DLHashType, Seq<char>)> {
        self.hashes@.map_values(|h: (DLHashType, String)| (h.0, h.1@))
    }
}

impl DLHashes {
    /// An empty list.
    pub fn new() -> (r: Self)
        ensures
            r@ == Seq::<(DLHashType, Seq<char>)>::empty(),
    {
        let r = DLHashes { hashes: Vec::new() };
        assert(r@ =~= Seq::<(DLHashType, Seq<char>)>::empty());
        r
    }

    /// Appends a hash of the given algorithm.
    pub fn add_hash(self, hash_type: DLHashType, hash_value: String) -> (r: Self)
        ensures
            r@ == self@.push((hash_type, hash_value@)),
    {
        let mut r = self;
        r.hashes.push((hash_type, hash_value));
        assert(r@ =~= self@.push((hash_type, hash_value@)));
        r
    }

    /// Appends a SHA-1 hash.
    pub fn sha1(self, hash: &str) -> (r: Self)
        ensures
            r@ == self@.push((DLHashType::SHA1, hash@)),
    {
        self.add_hash(DLHashType::SHA1, hash.to_owned())
    }

    /// Appends a SHA-256 hash.
    pub fn sha256(self, hash: &str) -> (r: Self)
        ensures
            r@ == self@.push((DLHashType::SHA256, hash@)),
    {
        self.add_hash(DLHashType::SHA256, hash.to_owned())
    }

    /// Appends a SHA-384 hash.
    pub fn sha384(self, hash: &str) -> (r: Self)
        ensures
            r@ == self@.push((DLHashType::SHA384, hash@)),
    {
        self.add_hash(DLHashType::SHA384, hash.to_owned())
    }

    /// Appends a SHA-512 hash.
    pub fn sha512(self, hash: &str) -> (r: Self)
        ensures
            r@ == self@.push((DLHashType::SHA512, hash@)),
    {
        self.add_hash(DLHashType::SHA512, hash.to_owned())
    }

    /// Appends a SHA-224 hash.
    pub fn sha224(self, hash: &str) -> (r: Self)
        ensures
            r@ == self@.push((DLHashType::SHA224, hash@)),
    {
        self.add_hash(DLHashType::SHA224, hash.to_owned())
    }

    /// Number of configured hashes.
    pub fn len(&self) -> (r: usize)
        ensures
            r == self@.len(),
    {
        self.hashes.len()
    }

    /// Applies the verification policy to digests computed elsewhere,
    /// `digests[i]` being the digest for the `i`-th configured algorithm.
    pub fn verify_digests(&self, digests: &Vec<String>) -> (r: bool)
        requires
            digests@.len() == self@.len(),
        ensures
            r == digests_accept(self@, digests@.map_values(|d: String| d@)),
    {
        let ghost ds = digests@.map_values(|d: String| d@);
        if self.hashes.len() == 0 {
            return true;
        }
        let mut i: usize = 0;
        while i < self.hashes.len()
            invariant
                0 <= i <= self.hashes@.len(),
                digests@.len() == self.hashes@.len(),
                ds == digests@.map_values(|d: String| d@),
                forall|j: int| 0 <= j < i ==> ds[j] != #[trigger] self@[j].1,
            decreases self.hashes@.len() - i,
        {
            if digests[i] == self.hashes[i].1 {
                assert(ds[i as int] == self@[i as int].1);
                return true;
            }
            i = i + 1;
        }
        false
    }

    /// Checks `data` against the configured hashes, stopping at the first
    /// one that matches.
    pub fn verify_data(&self, data: &[u8]) -> (r: bool)
        ensures
            r == hashes_accept(self@, data@),
    {
        if self.hashes.len() == 0 {
            return true;
        }
        let mut i: usize = 0;
        while i < self.hashes.len()
            invariant
                0 <= i <= self.hashes@.len(),
                forall|j: int| 0 <= j < i ==> !#[trigger] hash_matches(self@[j], data@),
            decreases self.hashes@.len() - i,
        {
            let (t, expected) = &self.hashes[i];
            if t.verify_data(data, expected.as_str()) {
                assert(hash_matches(self@[i as int], data@));
                return true;
            }
            i = i + 1;
        }
        false
    }

    /// Checks the UTF-8 bytes of `data` against the configured hashes.
    pub fn verify_str(&self, data: &str) -> (r: bool)
        ensures
            r == hashes_accept(self@, data.spec_bytes()),
    {
        self.verify_data(data.as_bytes())
    }
}

/// With two configured hashes, a download is accepted exactly when its
/// content matches the first or the second; it is refused only when it
/// matches neither.
pub proof fn lemma_either_hash_suffices(
    hs: Seq<(DLHashType, Seq<char>)>,
    data: Seq<u8>,
)
    requires
        hs.len() == 2,
    ensures
        hashes_accept(hs, data) <==> (hash_matches(hs[0], data) || hash_matches(hs[1], data)),
{
    if hash_matches(hs[0], data) {
        assert(hashes_accept(hs, data));
    }
    if hash_matches(hs[1], data) {
        assert(hashes_accept(hs, data));
    }
}

} // verus!
