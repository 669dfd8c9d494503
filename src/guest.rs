use vstd::bytes::*;
use vstd::prelude::*;
use vstd::slice::slice_to_vec;
use vstd::utf8::*;
use vstd::string::StringSliceAdditionalSpecFns;

use crate::lifecycle::LifecycleError;
use crate::witness::witness_stream;

verus! {

/// Why a guest run stopped without committing an output.
#[derive(Clone, Copy, Debug, PartialEq, Eq, Structural)]
pub enum GuestError {
    /// A read asked for a segment past the end of the witness stream.
    StreamExhausted,
    /// The parameter segment is not exactly four bytes long.
    BadFixedWidth,
    /// The payload segment is not valid UTF-8.
    InvalidUtf8,
    /// The evaluator rejected the transition.
    Evaluation,
    /// An output was already committed.
    AlreadyCommitted,
}

/// Relies on String::from_utf8: it accepts exactly the valid UTF-8 byte
/// strings, and the string it returns holds the characters they encode.
#[verifier::external_body]
fn utf8_to_string(bytes: Vec<u8>) -> (r: Option<String>)
    ensures
        r is Some <==> valid_utf8(bytes@),
        r matches Some(s) ==> s@ == decode_utf8(bytes@),
{
    String::from_utf8(bytes).ok()
}

/// The execution context of the guest program: the witness stream it reads
/// in order, and its public output, which can be written once.
pub struct GuestContext {
    segments: Vec<Vec<u8>>,
    next: usize,
    output: Option<u64>,
}

/// What the guest reads from a whole witness stream: the parameter and the
/// payload text, or the first error met on the way.
pub open spec fn decode_witness(s: Seq<Seq<u8>>) -> Result<(u32, Seq<char>), GuestError> {
    if s.len() == 0 {
        Err(GuestError::StreamExhausted)
    } else if s[0].len() != 4 {
        Err(GuestError::BadFixedWidth)
    } else if s.len() < 2 {
        Err(GuestError::StreamExhausted)
    } else if !valid_utf8(s[1]) {
        Err(GuestError::InvalidUtf8)
    } else {
        Ok((spec_u32_from_le_bytes(s[0]), decode_utf8(s[1])))
    }
}

impl GuestContext {
    pub closed spec fn stream(&self) -> Seq<Seq<u8>> {
        self.segments.deep_view()
    }

    pub closed spec fn position(&self) -> nat {
        self.next as nat
    }

    pub closed spec fn committed(&self) -> Option<u64> {
        self.output
    }

    pub closed spec fn wf(&self) -> bool {
        self.next <= self.segments@.len()
    }

    /// A context at the start of the given witness stream, with nothing committed.
    pub fn new(segments: Vec<Vec<u8>>) -> (r: GuestContext)
        ensures
            r.wf(),
            r.stream() == segments.deep_view(),
            r.position() == 0,
            r.committed() is None,
    {
        GuestContext { segments, next: 0, output: None }
    }

    /// Reads the next segment as a four-byte little-endian number.
    pub fn read_fixed(&mut self) -> (r: Result<u32, GuestError>)
        requires
            old(self).wf(),
        ensures
            final(self).wf(),
            final(self).stream() == old(self).stream(),
            final(self).committed() == old(self).committed(),
            old(self).position() >= old(self).stream().len() ==> r == Err::<u32, GuestError>(
                GuestError::StreamExhausted,
            ) && final(self).position() == old(self).position(),
            old(self).position() < old(self).stream().len() && old(self).stream()[old(self).position() as int].len() != 4 ==> r == Err::<u32, GuestError>(GuestError::BadFixedWidth)
                && final(self).position() == old(self).position(),
            old(self).position() < old(self).stream().len() && old(self).stream()[old(self).position() as int].len() == 4 ==> r == Ok::<u32, GuestError>(
                spec_u32_from_le_bytes(old(self).stream()[old(self).position() as int]),
            ) && final(self).position() == old(self).position() + 1,
    {
        if self.next >= self.segments.len() {
            return Err(GuestError::StreamExhausted);
        }
        let seg = &self.segments[self.next];
        proof {
            assert(seg.deep_view() =~= seg@);
        }
        if seg.len() != 4 {
            return Err(GuestError::BadFixedWidth);
        }
        let value = u32_from_le_bytes(seg.as_slice());
        self.next = self.next + 1;
        Ok(value)
    }

    /// Reads the next segment as raw bytes.
    pub fn read_segment(&mut self) -> (r: Result<Vec<u8>, GuestError>)
        requires
            old(self).wf(),
        ensures
            final(self).wf(),
            final(self).stream() == old(self).stream(),
            final(self).committed() == old(self).committed(),
            old(self).position() >= old(self).stream().len() ==> r is Err && r == Err::<
                Vec<u8>,
                GuestError,
            >(GuestError::StreamExhausted) && final(self).position() == old(self).position(),
            old(self).position() < old(self).stream().len() ==> (r matches Ok(b) && b@ == old(self).stream()[old(self).position() as int] && final(self).position() == old(self).position() + 1),
    {
        if self.next >= self.segments.len() {
            return Err(GuestError::StreamExhausted);
        }
        let seg = slice_to_vec(self.segments[self.next].as_slice());
        proof {
            assert(self.segments@[self.next as int].deep_view() =~= seg@);
        }
        self.next = self.next + 1;
        Ok(seg)
    }

    /// Writes the public output; a second commit is refused.
    pub fn commit_once(&mut self, value: u64) -> (r: Result<(), GuestError>)
        requires
            old(self).wf(),
        ensures
            final(self).wf(),
            final(self).stream() == old(self).stream(),
            final(self).position() == old(self).position(),
            old(self).committed() is None ==> r is Ok && final(self).committed() == Some(value),
            old(self).committed() is Some ==> r == Err::<(), GuestError>(GuestError::AlreadyCommitted)
                && final(self).committed() == old(self).committed(),
    {
        if self.output.is_some() {
            return Err(GuestError::AlreadyCommitted);
        }
        self.output = Some(value);
        Ok(())
    }

    pub fn public_output(&self) -> (r: Option<u64>)
        ensures
            r == self.committed(),
    {
        self.output
    }

    /// The bytes of the public-output channel: the committed value as eight
    /// little-endian bytes, or nothing before a commit.
    pub fn public_values(&self) -> (r: Vec<u8>)
        ensures
            self.committed() is None ==> r@.len() == 0,
            self.committed() matches Some(v) ==> r@ == spec_u64_to_le_bytes(v),
    {
        match self.output {
            Some(v) => u64_to_le_bytes(v),
            None => Vec::new(),
        }
    }
}

/// The input handed to the evaluator.
pub struct EvalRequest {
    pub parameter: u32,
    pub json: String,
}

/// Reads the parameter and then the payload from a fresh context, and checks
/// that the payload is UTF-8 text.
pub fn read_request(ctx: &mut GuestContext) -> (r: Result<EvalRequest, GuestError>)
    requires
        old(ctx).wf(),
        old(ctx).position() == 0,
    ensures
        final(ctx).wf(),
        final(ctx).stream() == old(ctx).stream(),
        final(ctx).committed() == old(ctx).committed(),
        decode_witness(old(ctx).stream()) matches Err(e) ==> r == Err::<EvalRequest, GuestError>(e),
        decode_witness(old(ctx).stream()) matches Ok((p, t)) ==> r matches Ok(q) && q.parameter
            == p && q.json@ == t,
{
    let parameter = match ctx.read_fixed() {
        Ok(p) => p,
        Err(e) => return Err(e),
    };
    let bytes = match ctx.read_segment() {
        Ok(b) => b,
        Err(e) => return Err(e),
    };
    match utf8_to_string(bytes) {
        Some(json) => Ok(EvalRequest { parameter, json }),
        None => Err(GuestError::InvalidUtf8),
    }
}

/// Takes the evaluator's answer: an answer is committed as the public
/// output, a rejection stops the run with nothing committed.
pub fn conclude(ctx: &mut GuestContext, answer: Option<u64>) -> (r: Result<u64, GuestError>)
    requires
        old(ctx).wf(),
    ensures
        final(ctx).wf(),
        final(ctx).stream() == old(ctx).stream(),
        final(ctx).position() == old(ctx).position(),
        answer is None ==> r == Err::<u64, GuestError>(GuestError::Evaluation) && final(ctx).committed() == old(ctx).committed(),
        answer matches Some(v) ==> (old(ctx).committed() is None ==> r == Ok::<u64, GuestError>(v)
            && final(ctx).committed() == Some(v)),
        answer is Some && old(ctx).committed() is Some ==> r == Err::<u64, GuestError>(
            GuestError::AlreadyCommitted,
        ) && final(ctx).committed() == old(ctx).committed(),
{
    match answer {
        None => Err(GuestError::Evaluation),
        Some(v) => match ctx.commit_once(v) {
            Ok(()) => Ok(v),
            Err(e) => Err(e),
        },
    }
}

/// The native state-transition evaluator behind the guest's foreign-call
/// boundary: `None` when it rejects the transition. Its answer depends on
/// the parameter and the text alone.
pub trait Evaluator {
    /// The answer for a parameter and a JSON text.
    spec fn spec_evaluate(&self, parameter: u32, json: Seq<char>) -> Option<u64>;

    fn evaluate(&self, parameter: u32, json: &str) -> (r: Option<u64>)
        ensures
            r == self.spec_evaluate(parameter, json@),
    ;
}

/// The answer recorded first for a parameter and the UTF-8 bytes of a text.
pub open spec fn replay_lookup(entries: Seq<(u32, Seq<u8>, u64)>, parameter: u32, bytes: Seq<u8>) -> Option<u64>
    decreases entries.len(),
{
    if entries.len() == 0 {
        None
    } else if entries[0].0 == parameter && entries[0].1 == bytes {
        Some(entries[0].2)
    } else {
        replay_lookup(entries.drop_first(), parameter, bytes)
    }
}

/// An evaluator that answers from recorded evaluations and rejects every
/// input it has no record of.
pub struct ReplayEvaluator {
    entries: Vec<(u32, Vec<u8>, u64)>,
}

fn bytes_equal(a: &[u8], b: &[u8]) -> (r: bool)
    ensures
        r == (a@ == b@),
{
    if a.len() != b.len() {
        return false;
    }
    let mut i: usize = 0;
    while i < a.len()
        invariant
            i <= a@.len(),
            a@.len() == b@.len(),
            a@.subrange(0, i as int) == b@.subrange(0, i as int),
        decreases a@.len() - i,
    {
        if a[i] != b[i] {
            assert(a@.subrange(0, i as int + 1)[i as int] != b@.subrange(0, i as int + 1)[i as int]);
            return false;
        }
        assert(a@.subrange(0, i as int + 1) =~= a@.subrange(0, i as int).push(a@[i as int]));
        assert(b@.subrange(0, i as int + 1) =~= b@.subrange(0, i as int).push(b@[i as int]));
        i = i + 1;
    }
    assert(a@.subrange(0, a@.len() as int) =~= a@);
    assert(b@.subrange(0, b@.len() as int) =~= b@);
    true
}

impl ReplayEvaluator {
    pub closed spec fn records(&self) -> Seq<(u32, Seq<u8>, u64)> {
        self.entries@.map_values(|e: (u32, Vec<u8>, u64)| (e.0, e.1@, e.2))
    }

    pub fn new() -> (r: ReplayEvaluator)
        ensures
            r.records() == Seq::<(u32, Seq<u8>, u64)>::empty(),
    {
        let r = ReplayEvaluator { entries: Vec::new() };
        assert(r.records() =~= Seq::<(u32, Seq<u8>, u64)>::empty());
        r
    }

    /// Records the answer for a parameter and a text, after the earlier records.
    pub fn insert(&mut self, parameter: u32, json: &str, answer: u64)
        ensures
            final(self).records() == old(self).records().push((parameter, json.spec_bytes(), answer)),
    {
        let bytes = slice_to_vec(json.as_bytes());
        self.entries.push((parameter, bytes, answer));
        assert(self.records() =~= old(self).records().push((parameter, json.spec_bytes(), answer)));
    }
}

impl Evaluator for ReplayEvaluator {
    open spec fn spec_evaluate(&self, parameter: u32, json: Seq<char>) -> Option<u64> {
        replay_lookup(self.records(), parameter, encode_utf8(json))
    }

    fn evaluate(&self, parameter: u32, json: &str) -> (r: Option<u64>) {
        let bytes = json.as_bytes();
        assert(self.records().subrange(0, self.records().len() as int) =~= self.records());
        let mut i: usize = 0;
        while i < self.entries.len()
            invariant
                i <= self.entries@.len(),
                bytes@ == encode_utf8(json@),
                replay_lookup(self.records(), parameter, bytes@) == replay_lookup(
                    self.records().subrange(i as int, self.records().len() as int),
                    parameter,
                    bytes@,
                ),
            decreases self.entries@.len() - i,
        {
            let entry = &self.entries[i];
            let ghost rest = self.records().subrange(i as int, self.records().len() as int);
            assert(rest[0] == (entry.0, entry.1@, entry.2));
            if entry.0 == parameter && bytes_equal(entry.1.as_slice(), bytes) {
                return Some(entry.2);
            }
            assert(rest.drop_first() =~= self.records().subrange(i as int + 1, self.records().len() as int));
            i = i + 1;
        }
        assert(self.records().subrange(i as int, self.records().len() as int) =~= Seq::<(u32, Seq<u8>, u64)>::empty());
        None
    }
}

/// What a guest run over a witness stream returns: the first decoding
/// error, or else the evaluator's answer, a rejection being an evaluation
/// error.
pub open spec fn guest_outcome<E: Evaluator>(evaluator: &E, s: Seq<Seq<u8>>) -> Result<u64, GuestError> {
    match decode_witness(s) {
        Err(e) => Err(e),
        Ok((p, t)) => match evaluator.spec_evaluate(p, t) {
            Some(v) => Ok(v),
            None => Err(GuestError::Evaluation),
        },
    }
}

/// One guest run over a fresh context: read the witness, evaluate, commit.
/// The output is committed exactly when the run succeeds.
pub fn run_guest<E: Evaluator>(ctx: &mut GuestContext, evaluator: &E) -> (r: Result<u64, GuestError>)
    requires
        old(ctx).wf(),
        old(ctx).position() == 0,
        old(ctx).committed() is None,
    ensures
        final(ctx).wf(),
        final(ctx).stream() == old(ctx).stream(),
        r == guest_outcome(evaluator, old(ctx).stream()),
        r matches Ok(v) ==> final(ctx).committed() == Some(v),
        r is Err ==> final(ctx).committed() is None,
{
    let request = match read_request(ctx) {
        Ok(q) => q,
        Err(e) => return Err(e),
    };
    let answer = evaluator.evaluate(request.parameter, request.json.as_str());
    conclude(ctx, answer)
}

/// Two runs of the guest over the witness built from the same parameter and
/// JSON payload, with the same evaluator, end alike: both commit the
/// evaluator's answer on that parameter and payload, or both stop with the
/// same error. Whether the run is a dry run or a proving run plays no part.
pub proof fn lemma_guest_outcome_determined<E: Evaluator>(evaluator: &E, parameter: u32, payload: Seq<char>)
    ensures
        guest_outcome(evaluator, witness_stream(parameter, payload)) == (match evaluator.spec_evaluate(parameter, payload) {
            Some(v) => Ok::<u64, GuestError>(v),
            None => Err::<u64, GuestError>(GuestError::Evaluation),
        }),
{
    lemma_witness_stream_round_trip(parameter, payload);
}

/// Reads the public output back from the public-output channel: exactly one
/// 64-bit value.
pub fn read_public_output(bytes: &[u8]) -> (r: Result<u64, LifecycleError>)
    ensures
        bytes@.len() == 8 ==> r == Ok::<u64, LifecycleError>(spec_u64_from_le_bytes(bytes@)),
        bytes@.len() != 8 ==> r == Err::<u64, LifecycleError>(LifecycleError::Decode),
{
    if bytes.len() != 8 {
        return Err(LifecycleError::Decode);
    }
    Ok(u64_from_le_bytes(bytes))
}

/// The guest reads back exactly the parameter and payload that the witness
/// builder wrote.
pub proof fn lemma_witness_stream_round_trip(parameter: u32, payload: Seq<char>)
    ensures
        decode_witness(witness_stream(parameter, payload)) == Ok::<(u32, Seq<char>), GuestError>(
            (parameter, payload),
        ),
{
    lemma_auto_spec_u32_to_from_le_bytes();
    encode_utf8_valid_utf8(payload);
    encode_utf8_decode_utf8(payload);
}

/// What the public-output channel holds after a commit reads back as the
/// committed value.
pub proof fn lemma_public_output_round_trip(value: u64)
    ensures
        spec_u64_to_le_bytes(value).len() == 8,
        spec_u64_from_le_bytes(spec_u64_to_le_bytes(value)) == value,
{
    lemma_auto_spec_u64_to_from_le_bytes();
}

} // verus!
