use vstd::bytes::*;
use vstd::prelude::*;

verus! {

/// The persisted artifacts of the lifecycle.
#[derive(Clone, Copy, Debug, PartialEq, Eq, Structural)]
pub enum ArtifactKind {
    ProvingKey,
    VerifyingKey,
    Proof,
}

/// Why a persisted artifact was refused.
#[derive(Clone, Copy, Debug, PartialEq, Eq, Structural)]
pub enum CodecError {
    /// Shorter than the header.
    Truncated,
    /// The stream does not start with the artifact signature.
    BadMagic,
    /// Written by another format version.
    UnsupportedVersion,
    /// Holds another kind of artifact than the one asked for.
    WrongKind,
    /// The body's length differs from the one the header records.
    LengthMismatch,
}

pub const MAGIC_0: u8 = 0x5a;
pub const MAGIC_1: u8 = 0x4b;
pub const MAGIC_2: u8 = 0x41;
pub const MAGIC_3: u8 = 0x46;
pub const FORMAT_VERSION: u8 = 1;
pub const HEADER_LEN: usize = 14;

pub open spec fn kind_tag(kind: ArtifactKind) -> u8 {
    match kind {
        ArtifactKind::ProvingKey => 0,
        ArtifactKind::VerifyingKey => 1,
        ArtifactKind::Proof => 2,
    }
}

pub open spec fn magic() -> Seq<u8> {
    seq![MAGIC_0, MAGIC_1, MAGIC_2, MAGIC_3]
}

/// The header: signature, format version, artifact kind, and the body's
/// length as eight little-endian bytes.
pub open spec fn header(kind: ArtifactKind, len: u64) -> Seq<u8> {
    magic() + seq![FORMAT_VERSION, kind_tag(kind)] + spec_u64_to_le_bytes(len)
}

/// The persisted form of an artifact whose serialized body is `body`.
pub open spec fn framed(kind: ArtifactKind, body: Seq<u8>) -> Seq<u8> {
    header(kind, body.len() as u64) + body
}

/// What reading a persisted artifact of the given kind yields.
pub open spec fn unframed(kind: ArtifactKind, bytes: Seq<u8>) -> Result<Seq<u8>, CodecError> {
    if bytes.len() < HEADER_LEN {
        Err(CodecError::Truncated)
    } else if bytes.subrange(0, 4) != magic() {
        Err(CodecError::BadMagic)
    } else if bytes[4] != FORMAT_VERSION {
        Err(CodecError::UnsupportedVersion)
    } else if bytes[5] != kind_tag(kind) {
        Err(CodecError::WrongKind)
    } else if spec_u64_from_le_bytes(bytes.subrange(6, 14)) != bytes.len() - HEADER_LEN {
        Err(CodecError::LengthMismatch)
    } else {
        Ok(bytes.subrange(HEADER_LEN as int, bytes.len() as int))
    }
}

fn tag_of(kind: ArtifactKind) -> (r: u8)
    ensures
        r == kind_tag(kind),
{
    match kind {
        ArtifactKind::ProvingKey => 0,
        ArtifactKind::VerifyingKey => 1,
        ArtifactKind::Proof => 2,
    }
}

fn append(dst: &mut Vec<u8>, src: &[u8])
    ensures
        final(dst)@ == old(dst)@ + src@,
{
    let mut i: usize = 0;
    while i < src.len()
        invariant
            i <= src@.len(),
            dst@ == old(dst)@ + src@.subrange(0, i as int),
        decreases src@.len() - i,
    {
        dst.push(src[i]);
        i = i + 1;
        assert(dst@ =~= old(dst)@ + src@.subrange(0, i as int));
    }
    assert(src@.subrange(0, src@.len() as int) =~= src@);
}

/// Frames a serialized artifact body for storage.
pub fn encode_artifact(kind: ArtifactKind, body: &[u8]) -> (r: Vec<u8>)
    ensures
        r@ == framed(kind, body@),
{
    let mut out: Vec<u8> = Vec::new();
    out.push(MAGIC_0);
    out.push(MAGIC_1);
    out.push(MAGIC_2);
    out.push(MAGIC_3);
    out.push(FORMAT_VERSION);
    out.push(tag_of(kind));
    let len = u64_to_le_bytes(body.len() as u64);
    append(&mut out, len.as_slice());
    append(&mut out, body);
    assert(out@ =~= framed(kind, body@));
    out
}

/// Checks the header of a persisted artifact of the given kind and returns
/// its body.
pub fn decode_artifact(kind: ArtifactKind, bytes: &[u8]) -> (r: Result<Vec<u8>, CodecError>)
    ensures
        unframed(kind, bytes@) matches Ok(b) ==> (r matches Ok(v) && v@ == b),
        unframed(kind, bytes@) matches Err(e) ==> r == Err::<Vec<u8>, CodecError>(e),
{
    let n = bytes.len();
    if n < HEADER_LEN {
        return Err(CodecError::Truncated);
    }
    if bytes[0] != MAGIC_0 || bytes[1] != MAGIC_1 || bytes[2] != MAGIC_2 || bytes[3] != MAGIC_3 {
        assert(bytes@.subrange(0, 4) != magic()) by {
            if bytes@.subrange(0, 4) == magic() {
                assert(bytes@.subrange(0, 4)[0] == bytes@[0]);
                assert(bytes@.subrange(0, 4)[1] == bytes@[1]);
                assert(bytes@.subrange(0, 4)[2] == bytes@[2]);
                assert(bytes@.subrange(0, 4)[3] == bytes@[3]);
            }
        }
        return Err(CodecError::BadMagic);
    }
    assert(bytes@.subrange(0, 4) =~= magic());
    if bytes[4] != FORMAT_VERSION {
        return Err(CodecError::UnsupportedVersion);
    }
    if bytes[5] != tag_of(kind) {
        return Err(CodecError::WrongKind);
    }
    let mut len_bytes: Vec<u8> = Vec::new();
    let mut i: usize = 6;
    while i < HEADER_LEN
        invariant
            6 <= i <= HEADER_LEN,
            bytes@.len() == n,
            n >= HEADER_LEN,
            len_bytes@ == bytes@.subrange(6, i as int),
        decreases HEADER_LEN - i,
    {
        len_bytes.push(bytes[i]);
        i = i + 1;
        assert(len_bytes@ =~= bytes@.subrange(6, i as int));
    }
    let recorded = u64_from_le_bytes(len_bytes.as_slice());
    if recorded != (n - HEADER_LEN) as u64 {
        return Err(CodecError::LengthMismatch);
    }
    let mut body: Vec<u8> = Vec::new();
    let mut j: usize = HEADER_LEN;
    while j < n
        invariant
            HEADER_LEN <= j <= n,
            bytes@.len() == n,
            body@ == bytes@.subrange(HEADER_LEN as int, j as int),
        decreases n - j,
    {
        body.push(bytes[j]);
        j = j + 1;
        assert(body@ =~= bytes@.subrange(HEADER_LEN as int, j as int));
    }
    Ok(body)
}

/// Reading back what was written yields the same body.
pub proof fn lemma_codec_round_trip(kind: ArtifactKind, body: Seq<u8>)
    requires
        body.len() <= u64::MAX,
    ensures
        unframed(kind, framed(kind, body)) == Ok::<Seq<u8>, CodecError>(body),
{
    lemma_auto_spec_u64_to_from_le_bytes();
    let f = framed(kind, body);
    let len = body.len() as u64;
    assert(spec_u64_to_le_bytes(len).len() == 8);
    assert(f.subrange(0, 4) =~= magic());
    assert(f.subrange(6, 14) =~= spec_u64_to_le_bytes(len));
    assert(f.subrange(HEADER_LEN as int, f.len() as int) =~= body);
}

/// An artifact read back as another kind than it was written as is refused.
pub proof fn lemma_codec_kind_checked(written: ArtifactKind, read: ArtifactKind, body: Seq<u8>)
    requires
        written != read,
    ensures
        unframed(read, framed(written, body)) == Err::<Seq<u8>, CodecError>(CodecError::WrongKind),
{
    lemma_auto_spec_u64_to_from_le_bytes();
    let f = framed(written, body);
    assert(spec_u64_to_le_bytes(body.len() as u64).len() == 8);
    assert(f.subrange(0, 4) =~= magic());
}

/// Changing any one header byte of a persisted artifact makes it unreadable.
pub proof fn lemma_header_change_detected(kind: ArtifactKind, body: Seq<u8>, i: int, b: u8)
    requires
        body.len() <= u64::MAX,
        0 <= i < HEADER_LEN,
        b != framed(kind, body)[i],
    ensures
        unframed(kind, framed(kind, body).update(i, b)) is Err,
{
    lemma_auto_spec_u64_to_from_le_bytes();
    let len = body.len() as u64;
    let f = framed(kind, body);
    let g = f.update(i, b);
    assert(spec_u64_to_le_bytes(len).len() == 8);
    assert(f.subrange(0, 4) =~= magic());
    assert(f.subrange(6, 14) =~= spec_u64_to_le_bytes(len));
    if i < 4 {
        assert(g.subrange(0, 4)[i] != magic()[i]);
    } else if 6 <= i {
        let sub = g.subrange(6, 14);
        if spec_u64_from_le_bytes(sub) == g.len() - HEADER_LEN {
            assert(spec_u64_from_le_bytes(sub) == len);
            assert(spec_u64_to_le_bytes(spec_u64_from_le_bytes(sub)) == sub);
            assert(sub[i - 6] != f.subrange(6, 14)[i - 6]);
        }
    }
}

} // verus!
