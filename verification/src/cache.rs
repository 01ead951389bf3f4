//! The binary cache of the index: the fingerprint of the source data, the
//! framing of a cache artifact, and the rule by which a stored artifact is
//! accepted or rejected.
//!
//! An artifact is one blob: a format version, the fingerprint of the source
//! data it was built from, the time it was made, and the serialised snapshot.
//! The snapshot is opaque here; this module frames it and guards it.

use sha2::{Digest, Sha256};
use vstd::bytes::{
    lemma_auto_spec_u32_to_from_le_bytes, lemma_auto_spec_u64_to_from_le_bytes,
    spec_u32_from_le_bytes, spec_u32_to_le_bytes, spec_u64_from_le_bytes, spec_u64_to_le_bytes,
    u32_from_le_bytes, u32_to_le_bytes, u64_from_le_bytes, u64_to_le_bytes,
};
use crate::spatial::SpatialIndex;
use vstd::prelude::*;
use vstd::slice::{slice_subrange, slice_to_vec};
use vstd::string::StringExecFns;

verus! {

/// The version of the artifact layout that this library writes and accepts.
pub const FORMAT_VERSION: u32 = 1;

/// The length of a fingerprint in bytes.
pub const DIGEST_LEN: usize = 32;

/// The length of everything in an artifact that precedes the snapshot.
pub const HEADER_LEN: usize = 52;

/// One file of source data: what it holds and when it was last modified, in
/// seconds since the epoch.
#[derive(Debug, Clone)]
pub struct SourceFile {
    pub contents: Vec<u8>,
    pub modified: u64,
}

/// The source data that a snapshot is built from. A file that does not exist
/// is absent.
#[derive(Debug, Clone)]
pub struct SourceData {
    pub starmap: Option<SourceFile>,
    pub labels: Option<SourceFile>,
}

/// Why a stored artifact was not accepted.
#[derive(Debug, Clone, Copy, PartialEq, Eq, Structural)]
pub enum CacheError {
    /// The blob is shorter than a header.
    Truncated,
    /// The length that the header declares for the snapshot is not the length
    /// of what follows the header.
    LengthMismatch,
    /// The blob was written in another layout.
    VersionMismatch,
    /// The blob was built from other source data.
    Stale,
}

/// A cache artifact, taken apart.
#[derive(Debug, Clone)]
pub struct CacheArtifact {
    pub format_version: u32,
    pub fingerprint: Vec<u8>,
    pub created_at: u64,
    pub snapshot: Vec<u8>,
}

/// An artifact as plain values.
pub struct ArtifactView {
    pub format_version: u32,
    pub fingerprint: Seq<u8>,
    pub created_at: u64,
    pub snapshot: Seq<u8>,
}

impl View for CacheArtifact {
    type V = ArtifactView;

    open spec fn view(&self) -> ArtifactView {
        ArtifactView {
            format_version: self.format_version,
            fingerprint: self.fingerprint@,
            created_at: self.created_at,
            snapshot: self.snapshot@,
        }
    }
}

/// The SHA-256 digest of a message.
pub uninterp spec fn sha256_digest(message: Seq<u8>) -> Seq<u8>;

/// The contents of a file, or nothing if it is absent.
pub open spec fn file_bytes(file: Option<SourceFile>) -> Seq<u8> {
    match file {
        Some(f) => f.contents@,
        None => Seq::empty(),
    }
}

/// The modification time of a file as eight bytes, least significant first,
/// or nothing if the file is absent.
pub open spec fn file_stamp(file: Option<SourceFile>) -> Seq<u8> {
    match file {
        Some(f) => spec_u64_to_le_bytes(f.modified),
        None => Seq::empty(),
    }
}

/// The message whose digest is the fingerprint: the contents of both files,
/// then the modification times of both.
pub open spec fn fingerprint_message(sources: SourceData) -> Seq<u8> {
    file_bytes(sources.starmap) + file_bytes(sources.labels) + file_stamp(sources.starmap)
        + file_stamp(sources.labels)
}

/// The lower-case hex digit of a value below sixteen.
pub open spec fn hex_digit(nibble: int) -> char {
    if nibble < 10 {
        (48 + nibble) as char
    } else {
        (87 + nibble) as char
    }
}

/// The lower-case hex form of a byte string, two digits per byte.
pub open spec fn hex(bytes: Seq<u8>) -> Seq<char> {
    Seq::new(
        2 * bytes.len(),
        |i: int|
            if i % 2 == 0 {
                hex_digit(bytes[i / 2] as int / 16)
            } else {
                hex_digit(bytes[i / 2] as int % 16)
            },
    )
}

/// An artifact that can be written: its fingerprint has the length of a
/// digest, and the length of its snapshot fits the header field.
pub open spec fn well_formed(a: ArtifactView) -> bool {
    &&& a.fingerprint.len() == DIGEST_LEN
    &&& a.snapshot.len() <= u64::MAX
}

/// The bytes of an artifact: version, fingerprint, creation time and snapshot
/// length, each integer least significant byte first, then the snapshot.
pub open spec fn encoding(a: ArtifactView) -> Seq<u8> {
    spec_u32_to_le_bytes(a.format_version) + a.fingerprint + spec_u64_to_le_bytes(a.created_at)
        + spec_u64_to_le_bytes(a.snapshot.len() as u64) + a.snapshot
}

/// What a blob holds, read as an artifact.
pub open spec fn decoding(bytes: Seq<u8>) -> Result<ArtifactView, CacheError> {
    if bytes.len() < HEADER_LEN {
        Err(CacheError::Truncated)
    } else if spec_u64_from_le_bytes(bytes.subrange(44, 52)) != bytes.len() - HEADER_LEN {
        Err(CacheError::LengthMismatch)
    } else {
        Ok(
            ArtifactView {
                format_version: spec_u32_from_le_bytes(bytes.subrange(0, 4)),
                fingerprint: bytes.subrange(4, 36),
                created_at: spec_u64_from_le_bytes(bytes.subrange(36, 44)),
                snapshot: bytes.subrange(52, bytes.len() as int),
            },
        )
    }
}

/// The rule for a stored blob, given the fingerprint of the source data as it
/// is now: the snapshot is handed out if the blob reads as an artifact of this
/// layout with that fingerprint, and rejected otherwise.
pub open spec fn accepted(bytes: Seq<u8>, current: Seq<u8>) -> Result<Seq<u8>, CacheError> {
    match decoding(bytes) {
        Err(e) => Err(e),
        Ok(a) => if a.format_version != FORMAT_VERSION {
            Err(CacheError::VersionMismatch)
        } else if a.fingerprint != current {
            Err(CacheError::Stale)
        } else {
            Ok(a.snapshot)
        },
    }
}

/// The artifact that is written for a snapshot.
pub open spec fn fresh_artifact(snapshot: Seq<u8>, fingerprint: Seq<u8>, now: u64) -> ArtifactView {
    ArtifactView { format_version: FORMAT_VERSION, fingerprint, created_at: now, snapshot }
}

/// The outcome of a load as plain values.
pub open spec fn outcome_view(r: Result<Vec<u8>, CacheError>) -> Result<Seq<u8>, CacheError> {
    match r {
        Ok(snapshot) => Ok(snapshot@),
        Err(e) => Err(e),
    }
}

/// The outcome of a decoding as plain values.
pub open spec fn artifact_view(r: Result<CacheArtifact, CacheError>) -> Result<
    ArtifactView,
    CacheError,
> {
    match r {
        Ok(a) => Ok(a@),
        Err(e) => Err(e),
    }
}

/// Reading back what was written gives the artifact that was written.
pub proof fn lemma_decoding_of_encoding(a: ArtifactView)
    requires
        well_formed(a),
    ensures
        decoding(encoding(a)) == Ok::<ArtifactView, CacheError>(a),
{
    lemma_auto_spec_u32_to_from_le_bytes();
    lemma_auto_spec_u64_to_from_le_bytes();
    let bytes = encoding(a);
    let n = a.snapshot.len() as u64;
    assert(bytes.len() == HEADER_LEN + a.snapshot.len());
    assert(bytes.subrange(0, 4) =~= spec_u32_to_le_bytes(a.format_version));
    assert(bytes.subrange(4, 36) =~= a.fingerprint);
    assert(bytes.subrange(36, 44) =~= spec_u64_to_le_bytes(a.created_at));
    assert(bytes.subrange(44, 52) =~= spec_u64_to_le_bytes(n));
    assert(bytes.subrange(52, bytes.len() as int) =~= a.snapshot);
}

/// A blob that reads as an artifact is the encoding of that artifact, which
/// can be written again.
pub proof fn lemma_encoding_of_decoding(bytes: Seq<u8>)
    requires
        decoding(bytes) is Ok,
    ensures
        well_formed(decoding(bytes)->Ok_0),
        encoding(decoding(bytes)->Ok_0) == bytes,
{
    lemma_auto_spec_u32_to_from_le_bytes();
    lemma_auto_spec_u64_to_from_le_bytes();
    let a = decoding(bytes)->Ok_0;
    assert(spec_u32_to_le_bytes(a.format_version) == bytes.subrange(0, 4));
    assert(spec_u64_to_le_bytes(a.created_at) == bytes.subrange(36, 44));
    assert(spec_u64_to_le_bytes(a.snapshot.len() as u64) == bytes.subrange(44, 52));
    assert(encoding(a) =~= bytes);
}

/// Cache round trip: the artifact written for a snapshot is accepted, and
/// yields that snapshot, as long as the source data has the fingerprint it
/// had when the artifact was written.
pub proof fn lemma_round_trip(snapshot: Seq<u8>, fingerprint: Seq<u8>, now: u64)
    requires
        fingerprint.len() == DIGEST_LEN,
        snapshot.len() <= u64::MAX,
    ensures
        accepted(encoding(fresh_artifact(snapshot, fingerprint, now)), fingerprint) == Ok::<
            Seq<u8>,
            CacheError,
        >(snapshot),
{
    lemma_decoding_of_encoding(fresh_artifact(snapshot, fingerprint, now));
}

/// Cache invalidation: the artifact written for a snapshot is rejected as
/// stale exactly when the source data no longer has the fingerprint it had
/// when the artifact was written.
pub proof fn lemma_stale_iff_fingerprint_differs(
    snapshot: Seq<u8>,
    written: Seq<u8>,
    current: Seq<u8>,
    now: u64,
)
    requires
        written.len() == DIGEST_LEN,
        snapshot.len() <= u64::MAX,
    ensures
        written != current <==> accepted(
            encoding(fresh_artifact(snapshot, written, now)),
            current,
        ) == Err::<Seq<u8>, CacheError>(CacheError::Stale),
{
    lemma_decoding_of_encoding(fresh_artifact(snapshot, written, now));
}

/// A change to a byte of a source file or to a modification time changes the
/// message that is digested: two descriptions of the source data in which the
/// same files are present with the same lengths have the same message only if
/// they hold the same bytes and the same times.
pub proof fn lemma_message_tells_sources_apart(a: SourceData, b: SourceData)
    requires
        a.starmap is Some <==> b.starmap is Some,
        a.labels is Some <==> b.labels is Some,
        file_bytes(a.starmap).len() == file_bytes(b.starmap).len(),
        file_bytes(a.labels).len() == file_bytes(b.labels).len(),
        fingerprint_message(a) == fingerprint_message(b),
    ensures
        file_bytes(a.starmap) == file_bytes(b.starmap),
        file_bytes(a.labels) == file_bytes(b.labels),
        a.starmap is Some ==> a.starmap->Some_0.modified == b.starmap->Some_0.modified,
        a.labels is Some ==> a.labels->Some_0.modified == b.labels->Some_0.modified,
{
    lemma_auto_spec_u64_to_from_le_bytes();
    let ma = fingerprint_message(a);
    let mb = fingerprint_message(b);
    let n1 = file_bytes(a.starmap).len() as int;
    let n2 = file_bytes(a.labels).len() as int;
    let s1 = file_stamp(a.starmap).len() as int;
    assert(file_stamp(b.starmap).len() == s1);
    assert(file_stamp(a.labels).len() == file_stamp(b.labels).len());
    assert(ma.subrange(0, n1) =~= file_bytes(a.starmap));
    assert(mb.subrange(0, n1) =~= file_bytes(b.starmap));
    assert(ma.subrange(n1, n1 + n2) =~= file_bytes(a.labels));
    assert(mb.subrange(n1, n1 + n2) =~= file_bytes(b.labels));
    assert(ma.subrange(n1 + n2, n1 + n2 + s1) =~= file_stamp(a.starmap));
    assert(mb.subrange(n1 + n2, n1 + n2 + s1) =~= file_stamp(b.starmap));
    assert(ma.subrange(n1 + n2 + s1, ma.len() as int) =~= file_stamp(a.labels));
    assert(mb.subrange(n1 + n2 + s1, mb.len() as int) =~= file_stamp(b.labels));
    if a.starmap is Some {
        let x = a.starmap->Some_0.modified;
        let y = b.starmap->Some_0.modified;
        assert(spec_u64_from_le_bytes(spec_u64_to_le_bytes(x)) == x);
        assert(spec_u64_from_le_bytes(spec_u64_to_le_bytes(y)) == y);
    }
    if a.labels is Some {
        let x = a.labels->Some_0.modified;
        let y = b.labels->Some_0.modified;
        assert(spec_u64_from_le_bytes(spec_u64_to_le_bytes(x)) == x);
        assert(spec_u64_from_le_bytes(spec_u64_to_le_bytes(y)) == y);
    }
}

/// Digests a message with `Sha256::digest`.
///
/// Trusted: the result is the SHA-256 digest of the message, a function of
/// the message alone, and is 32 bytes long.
#[verifier::external_body]
fn sha256(message: &Vec<u8>) -> (digest: Vec<u8>)
    ensures
        digest@ == sha256_digest(message@),
        digest@.len() == DIGEST_LEN,
{
    Sha256::digest(message).to_vec()
}

/// The one-character text of a hex digit.
fn hex_text(nibble: u8) -> (text: &'static str)
    requires
        nibble < 16,
    ensures
        text@ == seq![hex_digit(nibble as int)],
{
    proof {
        reveal_strlit("0");
        reveal_strlit("1");
        reveal_strlit("2");
        reveal_strlit("3");
        reveal_strlit("4");
        reveal_strlit("5");
        reveal_strlit("6");
        reveal_strlit("7");
        reveal_strlit("8");
        reveal_strlit("9");
        reveal_strlit("a");
        reveal_strlit("b");
        reveal_strlit("c");
        reveal_strlit("d");
        reveal_strlit("e");
        reveal_strlit("f");
    }
    let text = if nibble == 0 {
        "0"
    } else if nibble == 1 {
        "1"
    } else if nibble == 2 {
        "2"
    } else if nibble == 3 {
        "3"
    } else if nibble == 4 {
        "4"
    } else if nibble == 5 {
        "5"
    } else if nibble == 6 {
        "6"
    } else if nibble == 7 {
        "7"
    } else if nibble == 8 {
        "8"
    } else if nibble == 9 {
        "9"
    } else if nibble == 10 {
        "a"
    } else if nibble == 11 {
        "b"
    } else if nibble == 12 {
        "c"
    } else if nibble == 13 {
        "d"
    } else if nibble == 14 {
        "e"
    } else {
        "f"
    };
    assert(text@ =~= seq![hex_digit(nibble as int)]);
    text
}

/// Writes a byte string in lower-case hex, as fingerprints are shown.
pub fn to_hex(bytes: &Vec<u8>) -> (text: String)
    ensures
        text@ == hex(bytes@),
{
    let mut out = String::new();
    let mut i: usize = 0;
    assert(out@ =~= hex(bytes@.take(0)));
    while i < bytes.len()
        invariant
            i <= bytes.len(),
            out@ == hex(bytes@.take(i as int)),
        decreases bytes.len() - i,
    {
        let byte = bytes[i];
        let ghost before = out@;
        out.append(hex_text(byte / 16));
        out.append(hex_text(byte % 16));
        proof {
            let next = hex(bytes@.take(i + 1));
            assert(out@.len() == next.len());
            assert forall|j: int| 0 <= j < next.len() implies out@[j] == next[j] by {
                if j < 2 * i {
                    assert(out@[j] == before[j]);
                    assert(bytes@.take(i as int)[j / 2] == bytes@.take(i + 1)[j / 2]);
                } else {
                    assert(j / 2 == i);
                    assert(bytes@.take(i + 1)[j / 2] == byte);
                }
            }
            assert(out@ =~= next);
        }
        i = i + 1;
    }
    assert(bytes@.take(bytes.len() as int) =~= bytes@);
    out
}

/// Whether two byte strings are the same.
pub fn bytes_equal(a: &Vec<u8>, b: &Vec<u8>) -> (same: bool)
    ensures
        same == (a@ == b@),
{
    if a.len() != b.len() {
        return false;
    }
    let mut i: usize = 0;
    while i < a.len()
        invariant
            i <= a.len(),
            a.len() == b.len(),
            a@.take(i as int) == b@.take(i as int),
        decreases a.len() - i,
    {
        if a[i] != b[i] {
            return false;
        }
        assert(a@.take(i + 1) =~= a@.take(i as int).push(a@[i as int]));
        assert(b@.take(i + 1) =~= b@.take(i as int).push(b@[i as int]));
        i = i + 1;
    }
    assert(a@.take(a.len() as int) =~= a@);
    assert(b@.take(b.len() as int) =~= b@);
    true
}

/// Appends a copy of `tail` to `out`.
fn push_all(out: &mut Vec<u8>, tail: &Vec<u8>)
    ensures
        final(out)@ == old(out)@ + tail@,
{
    let mut i: usize = 0;
    while i < tail.len()
        invariant
            i <= tail.len(),
            out@ == old(out)@ + tail@.take(i as int),
        decreases tail.len() - i,
    {
        out.push(tail[i]);
        assert(tail@.take(i + 1) =~= tail@.take(i as int).push(tail@[i as int]));
        assert(out@ =~= old(out)@ + tail@.take(i + 1));
        i = i + 1;
    }
    assert(tail@.take(tail.len() as int) =~= tail@);
}

impl SourceData {
    /// The message whose digest is the fingerprint of this source data.
    pub fn message(&self) -> (bytes: Vec<u8>)
        ensures
            bytes@ == fingerprint_message(*self),
    {
        let mut out: Vec<u8> = Vec::new();
        match &self.starmap {
            Some(file) => push_all(&mut out, &file.contents),
            None => {},
        }
        match &self.labels {
            Some(file) => push_all(&mut out, &file.contents),
            None => {},
        }
        match &self.starmap {
            Some(file) => {
                let stamp = u64_to_le_bytes(file.modified);
                push_all(&mut out, &stamp);
            },
            None => {},
        }
        match &self.labels {
            Some(file) => {
                let stamp = u64_to_le_bytes(file.modified);
                push_all(&mut out, &stamp);
            },
            None => {},
        }
        assert(out@ =~= fingerprint_message(*self));
        out
    }
}

/// The fingerprint of the source data: the SHA-256 digest of its contents
/// and modification times. It depends on nothing else.
pub fn compute_data_fingerprint(sources: &SourceData) -> (fingerprint: Vec<u8>)
    ensures
        fingerprint@ == sha256_digest(fingerprint_message(*sources)),
        fingerprint@.len() == DIGEST_LEN,
{
    let message = sources.message();
    sha256(&message)
}

impl CacheArtifact {
    /// The bytes of this artifact.
    pub fn encode(&self) -> (bytes: Vec<u8>)
        requires
            self.fingerprint@.len() == DIGEST_LEN,
        ensures
            bytes@ == encoding(self@),
    {
        let mut out = u32_to_le_bytes(self.format_version);
        push_all(&mut out, &self.fingerprint);
        let created = u64_to_le_bytes(self.created_at);
        push_all(&mut out, &created);
        let length = u64_to_le_bytes(self.snapshot.len() as u64);
        push_all(&mut out, &length);
        push_all(&mut out, &self.snapshot);
        out
    }

    /// Takes a blob apart. The blob is an artifact if it is at least a header
    /// long and the snapshot length in its header is the length of the rest.
    pub fn decode(bytes: &Vec<u8>) -> (artifact: Result<CacheArtifact, CacheError>)
        ensures
            artifact_view(artifact) == decoding(bytes@),
    {
        if bytes.len() < HEADER_LEN {
            return Err(CacheError::Truncated);
        }
        let all = bytes.as_slice();
        let declared = u64_from_le_bytes(slice_subrange(all, 44, 52));
        if declared != (bytes.len() - HEADER_LEN) as u64 {
            return Err(CacheError::LengthMismatch);
        }
        let format_version = u32_from_le_bytes(slice_subrange(all, 0, 4));
        let fingerprint = slice_to_vec(slice_subrange(all, 4, 36));
        let created_at = u64_from_le_bytes(slice_subrange(all, 36, 44));
        let snapshot = slice_to_vec(slice_subrange(all, 52, bytes.len()));
        Ok(CacheArtifact { format_version, fingerprint, created_at, snapshot })
    }
}

/// Decides on a stored blob, given the fingerprint of the source data as it
/// is now. The snapshot is handed out only from an artifact of this layout
/// whose fingerprint is `current`.
pub fn check_artifact(bytes: &Vec<u8>, current: &Vec<u8>) -> (outcome: Result<
    Vec<u8>,
    CacheError,
>)
    ensures
        outcome_view(outcome) == accepted(bytes@, current@),
{
    match CacheArtifact::decode(bytes) {
        Err(e) => Err(e),
        Ok(artifact) => {
            if artifact.format_version != FORMAT_VERSION {
                Err(CacheError::VersionMismatch)
            } else if !bytes_equal(&artifact.fingerprint, current) {
                Err(CacheError::Stale)
            } else {
                Ok(artifact.snapshot)
            }
        },
    }
}

/// What the loader has just learnt.
#[derive(Debug, Clone, Copy, PartialEq, Eq, Structural)]
pub enum LoadEvent {
    /// Loading begins.
    Begin,
    /// A cache artifact exists.
    CacheFound,
    /// No cache artifact exists.
    CacheMissing,
    /// The artifact was accepted and its snapshot restored.
    CacheLoaded,
    /// The artifact could not be read, was rejected, or its snapshot could
    /// not be restored.
    CacheRejected,
    /// The index was built from the catalogue store.
    Built,
    /// The catalogue store could not be reached.
    BuildFailed,
    /// The artifact was written.
    Saved,
    /// The artifact could not be written.
    SaveFailed,
}

/// What the loader is to do next.
#[derive(Debug, Clone, Copy, PartialEq, Eq, Structural)]
pub enum LoadAction {
    /// Look whether a cache artifact exists.
    ProbeCache,
    /// Read the artifact and try to restore the snapshot.
    ReadCache,
    /// Build the index from the catalogue store.
    BuildFromSource,
    /// Write an artifact for the index just built.
    WriteCache,
    /// Publish the index that was restored from the cache.
    ServeCached,
    /// Publish the index that was built.
    ServeBuilt,
    /// Give up: there is no index.
    Abort,
}

/// The course of a load: the cache is tried first; whatever goes wrong with
/// it leads to a build; a build that succeeds is served whether or not the
/// artifact could be written; only a build that fails ends the load.
pub open spec fn next_action(event: LoadEvent) -> LoadAction {
    match event {
        LoadEvent::Begin => LoadAction::ProbeCache,
        LoadEvent::CacheFound => LoadAction::ReadCache,
        LoadEvent::CacheMissing => LoadAction::BuildFromSource,
        LoadEvent::CacheLoaded => LoadAction::ServeCached,
        LoadEvent::CacheRejected => LoadAction::BuildFromSource,
        LoadEvent::Built => LoadAction::WriteCache,
        LoadEvent::BuildFailed => LoadAction::Abort,
        LoadEvent::Saved => LoadAction::ServeBuilt,
        LoadEvent::SaveFailed => LoadAction::ServeBuilt,
    }
}

impl SpatialIndex {
    /// Frames a serialised snapshot as a cache artifact for the source data
    /// it was built from. As long as the source data keeps its fingerprint,
    /// the artifact is accepted and yields the snapshot again.
    pub fn save_to_binary(snapshot: Vec<u8>, sources: &SourceData, now: u64) -> (bytes: Vec<u8>)
        ensures
            bytes@ == encoding(
                fresh_artifact(snapshot@, sha256_digest(fingerprint_message(*sources)), now),
            ),
            outcome_view(Ok(snapshot)) == accepted(
                bytes@,
                sha256_digest(fingerprint_message(*sources)),
            ),
    {
        let fingerprint = compute_data_fingerprint(sources);
        let length = snapshot.len();
        proof {
            assert(length <= u64::MAX);
            lemma_round_trip(snapshot@, fingerprint@, now);
        }
        let artifact = CacheArtifact {
            format_version: FORMAT_VERSION,
            fingerprint,
            created_at: now,
            snapshot,
        };
        artifact.encode()
    }

    /// Hands out the serialised snapshot of a stored artifact if the artifact
    /// was built from the source data as it is now.
    pub fn load_from_binary(bytes: &Vec<u8>, sources: &SourceData) -> (outcome: Result<
        Vec<u8>,
        CacheError,
    >)
        ensures
            outcome_view(outcome) == accepted(
                bytes@,
                sha256_digest(fingerprint_message(*sources)),
            ),
    {
        let current = compute_data_fingerprint(sources);
        check_artifact(bytes, &current)
    }

    /// The next step of a load, given what the last step brought.
    pub fn load_with_cache(event: LoadEvent) -> (action: LoadAction)
        ensures
            action == next_action(event),
            action == LoadAction::Abort <==> event == LoadEvent::BuildFailed,
    {
        match event {
            LoadEvent::Begin => LoadAction::ProbeCache,
            LoadEvent::CacheFound => LoadAction::ReadCache,
            LoadEvent::CacheMissing | LoadEvent::CacheRejected => LoadAction::BuildFromSource,
            LoadEvent::CacheLoaded => LoadAction::ServeCached,
            LoadEvent::Built => LoadAction::WriteCache,
            LoadEvent::BuildFailed => LoadAction::Abort,
            LoadEvent::Saved | LoadEvent::SaveFailed => LoadAction::ServeBuilt,
        }
    }
}

} // verus!
