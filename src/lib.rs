//! Orchestration of a zero-knowledge proof lifecycle: mode selection, the
//! witness stream handed to the guest program, the guest's own execution
//! steps, and the framing of persisted keys and proofs.

pub mod codec;
pub mod guest;
pub mod lifecycle;
pub mod witness;

pub use lifecycle::{exactly_one_true, plan, select_mode, Action, Event, LifecycleError, Mode, Session, Step};
pub use witness::{build_witness, witness_stream, minified_json, Witness};
pub use guest::{conclude, decode_witness, guest_outcome, read_public_output, read_request, run_guest, EvalRequest, Evaluator, GuestContext, GuestError, ReplayEvaluator};
pub use codec::{decode_artifact, encode_artifact, ArtifactKind, CodecError};
