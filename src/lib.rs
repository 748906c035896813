//! Cross-platform construction of anonymous, connected, bidirectional
//! endpoint pairs.
//!
//! The operating-system calls live with the caller; this crate holds the
//! decisions around them, each with a proved contract: which kernel
//! facility a request maps to, the private name under which a duplex pair is
//! synthesized from a named pipe, and the steps of that synthesis.
pub mod pipe_name;
pub mod plan;
pub mod stream;
pub mod synth;

pub use pipe_name::{pipe_name_text, pipe_path, wide_nul};
pub use plan::{plan_pair, Backend, Construction, PairError, PairKind};
pub use stream::peek_request_len;
pub use synth::{is_name_collision, PipePairSynth, SynthEvent, SynthPhase, ERROR_ACCESS_DENIED};
