//! Integrity of the parameter files that the provers load at start-up.
//!
//! A checksum manifest maps the name of each parameter file to the BLAKE3
//! digest of its contents. The bytes of a file, however they were fetched,
//! are handed to a prover only if their digest is the one the manifest gives.

use vstd::prelude::*;

verus! {

/// A BLAKE3 digest.
pub type Digest = [u8; 32];

/// The BLAKE3 digest of `data`, as `blake3::hash` computes it.
pub uninterp spec fn blake3_digest(data: Seq<u8>) -> Seq<u8>;

/// `blake3::hash`, read through `Hash::as_bytes`: the 32 bytes of the
/// BLAKE3 digest of `data` in its default mode, unkeyed. The digest is a
/// function of the bytes alone.
#[verifier::external_body]
fn blake3_hash(data: &[u8]) -> (r: Digest)
    ensures
        r@ == blake3_digest(data@),
{
    *blake3::hash(data).as_bytes()
}

/// One line of a checksum manifest.
#[derive(Debug, Clone, PartialEq, Eq)]
pub struct ChecksumEntry {
    pub name: String,
    pub hash: Digest,
}

/// The map that a list of manifest lines stands for: a later line replaces an
/// earlier one of the same name.
pub open spec fn entries_map(entries: Seq<ChecksumEntry>) -> Map<Seq<char>, Seq<u8>>
    decreases entries.len(),
{
    if entries.len() == 0 {
        Map::empty()
    } else {
        entries_map(entries.drop_last()).insert(entries.last().name@, entries.last().hash@)
    }
}

/// A checksum manifest: the expected digest of each parameter file, by name.
#[derive(Debug, Clone, PartialEq, Eq)]
pub struct ChecksumManifest {
    entries: Vec<ChecksumEntry>,
}

impl View for ChecksumManifest {
    type V = Map<Seq<char>, Seq<u8>>;

    closed spec fn view(&self) -> Map<Seq<char>, Seq<u8>> {
        entries_map(self.entries@)
    }
}

impl ChecksumManifest {
    /// The manifest that names no file.
    pub fn new() -> (r: Self)
        ensures
            r@ == Map::<Seq<char>, Seq<u8>>::empty(),
    {
        Self { entries: Vec::new() }
    }

    /// Records the digest of a file. A digest recorded before under the same
    /// name is replaced.
    pub fn insert(&mut self, name: String, hash: Digest)
        ensures
            final(self)@ == old(self)@.insert(name@, hash@),
    {
        let ghost before = self.entries@;
        self.entries.push(ChecksumEntry { name, hash });
        proof {
            assert(self.entries@.drop_last() =~= before);
        }
    }

    /// The digest that the manifest gives for a file.
    pub fn get(&self, name: &str) -> (r: Option<Digest>)
        ensures
            match r {
                Some(hash) => self@.contains_key(name@) && self@[name@] == hash@,
                None => !self@.contains_key(name@),
            },
    {
        let mut i: usize = self.entries.len();
        proof {
            assert(self.entries@.take(i as int) =~= self.entries@);
        }
        while i > 0
            invariant
                i <= self.entries@.len(),
                self@.contains_key(name@) == entries_map(self.entries@.take(i as int)).contains_key(
                    name@,
                ),
                self@.contains_key(name@) ==> self@[name@] == entries_map(
                    self.entries@.take(i as int),
                )[name@],
            decreases i,
        {
            proof {
                assert(self.entries@.take(i as int).drop_last() =~= self.entries@.take(i - 1));
            }
            i = i - 1;
            if same_name(self.entries[i].name.as_str(), name) {
                return Some(self.entries[i].hash);
            }
        }
        None
    }
}

/// Whether two names are the same.
fn same_name(a: &str, b: &str) -> (r: bool)
    ensures
        r == (a@ == b@),
{
    a.to_owned() == b.to_owned()
}

/// Whether two digests are the same.
pub fn same_digest(a: &Digest, b: &Digest) -> (r: bool)
    ensures
        r == (a@ == b@),
{
    let mut i: usize = 0;
    while i < 32
        invariant
            i <= 32,
            forall|j: int| 0 <= j < i ==> a@[j] == b@[j],
        decreases 32 - i,
    {
        if a[i] != b[i] {
            return false;
        }
        i = i + 1;
    }
    assert(a@ =~= b@);
    true
}

/// Why the bytes of a parameter file are not accepted.
#[derive(Debug, Clone, PartialEq, Eq)]
pub enum ParamsError {
    /// The manifest gives no digest for the file.
    NotListed,
    /// The digest of the bytes is not the one that the manifest gives.
    Mismatch { expected: Digest, found: Digest },
}

/// The bytes of a parameter file whose digest the manifest confirmed.
#[derive(Debug, Clone, PartialEq, Eq)]
pub struct VerifiedParams {
    file: String,
    digest: Digest,
    bytes: Vec<u8>,
}

impl VerifiedParams {
    /// Name of the file.
    pub closed spec fn spec_file(&self) -> Seq<char> {
        self.file@
    }

    /// Digest under which the bytes were accepted.
    pub closed spec fn spec_digest(&self) -> Seq<u8> {
        self.digest@
    }

    /// The accepted bytes.
    pub closed spec fn spec_bytes(&self) -> Seq<u8> {
        self.bytes@
    }

    pub fn file(&self) -> (r: &str)
        ensures
            r@ == self.spec_file(),
    {
        self.file.as_str()
    }

    pub fn digest(&self) -> (r: Digest)
        ensures
            r@ == self.spec_digest(),
    {
        self.digest
    }

    pub fn bytes(&self) -> (r: &Vec<u8>)
        ensures
            r@ == self.spec_bytes(),
    {
        &self.bytes
    }
}

/// What `check_digest` returns for a file named `file` whose bytes have the
/// digest `digest`: nothing where the bytes are accepted, else the reason.
pub open spec fn refusal(manifest: Map<Seq<char>, Seq<u8>>, file: Seq<char>, digest: Seq<u8>)
    -> Option<ParamsErrorView> {
    if !manifest.contains_key(file) {
        Some(ParamsErrorView::NotListed)
    } else if manifest[file] != digest {
        Some(ParamsErrorView::Mismatch { expected: manifest[file], found: digest })
    } else {
        None
    }
}

/// A `ParamsError` as a mathematical value.
pub enum ParamsErrorView {
    NotListed,
    Mismatch { expected: Seq<u8>, found: Seq<u8> },
}

impl View for ParamsError {
    type V = ParamsErrorView;

    open spec fn view(&self) -> ParamsErrorView {
        match self {
            ParamsError::NotListed => ParamsErrorView::NotListed,
            ParamsError::Mismatch { expected, found } => ParamsErrorView::Mismatch {
                expected: expected@,
                found: found@,
            },
        }
    }
}

/// Whether `r` is the right answer on the bytes `bytes` of the file `file`,
/// whose digest is `digest`: the bytes, under the name and the digest, where
/// the manifest gives that digest for the file, else the reason of the
/// refusal.
pub open spec fn accepted_as(
    r: Result<VerifiedParams, ParamsError>,
    manifest: Map<Seq<char>, Seq<u8>>,
    file: Seq<char>,
    digest: Seq<u8>,
    bytes: Seq<u8>,
) -> bool {
    match r {
        Ok(params) => {
            &&& refusal(manifest, file, digest) is None
            &&& params.spec_file() == file
            &&& params.spec_digest() == digest
            &&& params.spec_bytes() == bytes
        },
        Err(error) => refusal(manifest, file, digest) == Some(error@),
    }
}

/// Accepts the bytes of the file `file` if `digest`, the digest of the bytes,
/// is the one that the manifest gives for the file. The bytes are returned
/// only then.
pub fn check_digest(file: &str, bytes: Vec<u8>, digest: Digest, manifest: &ChecksumManifest) -> (r:
    Result<VerifiedParams, ParamsError>)
    ensures
        accepted_as(r, manifest@, file@, digest@, bytes@),
{
    match manifest.get(file) {
        None => Err(ParamsError::NotListed),
        Some(expected) => {
            if same_digest(&expected, &digest) {
                Ok(VerifiedParams { file: file.to_owned(), digest, bytes })
            } else {
                Err(ParamsError::Mismatch { expected, found: digest })
            }
        },
    }
}

/// Accepts the bytes of the file `file` if their BLAKE3 digest is the one
/// that the manifest gives for the file. Corrupted bytes are never returned.
pub fn verify_params(file: &str, bytes: Vec<u8>, manifest: &ChecksumManifest) -> (r: Result<
    VerifiedParams,
    ParamsError,
>)
    ensures
        accepted_as(r, manifest@, file@, blake3_digest(bytes@), bytes@),
{
    let digest = blake3_hash(bytes.as_slice());
    check_digest(file, bytes, digest, manifest)
}

} // verus!
