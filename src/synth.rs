//! Synthesis of a duplex pair from a named pipe.
//!
//! The caller performs each system call that the current phase asks for and
//! reports its outcome with `PipePairSynth::step`:
//!
//! 1. `CreatingServer`: create a duplex, byte-mode, single-instance pipe
//!    server under `path()`, refusing remote clients. A name already taken
//!    is a collision: the synthesis moves to a fresh token and tries again.
//!    Any other refusal ends it with that error.
//! 2. `OpeningClient`: open `path()` for reading and writing. A refusal ends
//!    the synthesis; the server end is released by its owner.
//! 3. `Connected`: the two handles are the pair. The name is never shown to
//!    the pair's users.
use vstd::prelude::*;
use crate::pipe_name::{pipe_path, pipe_path_of};

verus! {

/// `ERROR_ACCESS_DENIED`, the code with which `CreateNamedPipeW` refuses a
/// first instance under a name that is already taken.
pub const ERROR_ACCESS_DENIED: i32 = 5;

/// A refusal to create the server end means that the name is taken.
pub open spec fn collision(code: i32) -> bool {
    code == ERROR_ACCESS_DENIED
}

/// Whether a refusal to create the server end is a name collision.
pub fn is_name_collision(code: i32) -> (r: bool)
    ensures
        r == collision(code),
{
    code == ERROR_ACCESS_DENIED
}

/// Where a synthesis stands.
#[derive(Clone, Copy, Debug, PartialEq, Eq, Structural)]
pub enum SynthPhase {
    /// The server end is to be created under the current name.
    CreatingServer,
    /// The server end exists; the client end of the same name is to be opened.
    OpeningClient,
    /// Both ends are open.
    Connected,
    /// A call was refused with this system error code.
    Failed { code: i32 },
}

/// The outcome of the call that the current phase asked for.
#[derive(Clone, Copy, Debug)]
pub enum SynthEvent {
    /// The server end was created.
    ServerCreated,
    /// Creating the server end was refused with `code`; `fresh` is a new
    /// random token, used if the refusal is a name collision.
    ServerRefused { code: i32, fresh: [u8; 16] },
    /// The client end was opened.
    ClientOpened,
    /// Opening the client end was refused with `code`.
    ClientRefused { code: i32 },
}

/// The abstract state of a synthesis: its phase and the token that names
/// its pipe.
pub struct SynthView {
    pub phase: SynthPhase,
    pub token: Seq<u8>,
}

/// The state a synthesis starts in.
pub open spec fn start(token: Seq<u8>) -> SynthView {
    SynthView { phase: SynthPhase::CreatingServer, token }
}

/// The synthesis has ended, with a pair or with an error.
pub open spec fn finished(phase: SynthPhase) -> bool {
    phase is Connected || phase is Failed
}

/// One step. An outcome that does not answer the current phase's call
/// changes nothing.
pub open spec fn next(v: SynthView, e: SynthEvent) -> SynthView {
    match (v.phase, e) {
        (SynthPhase::CreatingServer, SynthEvent::ServerCreated) => SynthView {
            phase: SynthPhase::OpeningClient,
            token: v.token,
        },
        (SynthPhase::CreatingServer, SynthEvent::ServerRefused { code, fresh }) => if collision(
            code,
        ) {
            start(fresh@)
        } else {
            SynthView { phase: SynthPhase::Failed { code }, token: v.token }
        },
        (SynthPhase::OpeningClient, SynthEvent::ClientOpened) => SynthView {
            phase: SynthPhase::Connected,
            token: v.token,
        },
        (SynthPhase::OpeningClient, SynthEvent::ClientRefused { code }) => SynthView {
            phase: SynthPhase::Failed { code },
            token: v.token,
        },
        _ => v,
    }
}

/// The state after a sequence of outcomes, in order.
pub open spec fn run(v: SynthView, es: Seq<SynthEvent>) -> SynthView
    decreases es.len(),
{
    if es.len() == 0 {
        v
    } else {
        run(next(v, es[0]), es.drop_first())
    }
}

/// An ended synthesis stays as it is, whatever is reported after.
pub proof fn lemma_finished_is_final(v: SynthView, es: Seq<SynthEvent>)
    requires
        finished(v.phase),
    ensures
        run(v, es) == v,
    decreases es.len(),
{
    if es.len() > 0 {
        lemma_finished_is_final(next(v, es[0]), es.drop_first());
    }
}

/// Once the server end exists, the name stays fixed: the client end is
/// opened under the very name the server end was created with.
pub proof fn lemma_name_fixed_after_server(v: SynthView, es: Seq<SynthEvent>)
    requires
        !(v.phase is CreatingServer),
    ensures
        run(v, es).token == v.token,
    decreases es.len(),
{
    if es.len() > 0 {
        lemma_name_fixed_after_server(next(v, es[0]), es.drop_first());
    }
}

/// A synthesis fails only with the code of a refusal that was reported to
/// it, and never with a name collision from creating the server end: those
/// are retried under a new name.
pub proof fn lemma_failure_is_reported_refusal(v: SynthView, es: Seq<SynthEvent>, code: i32)
    requires
        !(v.phase is Failed),
        run(v, es).phase == (SynthPhase::Failed { code }),
    ensures
        exists|i: int|
            0 <= i < es.len() && (es[i] == (SynthEvent::ClientRefused { code }) || (
            es[i] is ServerRefused && es[i]->ServerRefused_code == code && !collision(code))),
    decreases es.len(),
{
    if es.len() == 0 {
    } else {
        let w = next(v, es[0]);
        if w.phase is Failed {
            lemma_finished_is_final(w, es.drop_first());
            assert(0 <= 0 < es.len());
        } else {
            lemma_failure_is_reported_refusal(w, es.drop_first(), code);
            let i = choose|i: int|
                0 <= i < es.drop_first().len() && (es.drop_first()[i] == (SynthEvent::ClientRefused {
                    code,
                }) || (es.drop_first()[i] is ServerRefused && es.drop_first()[i]->ServerRefused_code
                    == code && !collision(code)));
            assert(es[i + 1] == es.drop_first()[i]);
        }
    }
}

/// A synthesis of a duplex pair from a named pipe.
pub struct PipePairSynth {
    phase: SynthPhase,
    token: [u8; 16],
    path: Vec<u16>,
}

impl View for PipePairSynth {
    type V = SynthView;

    closed spec fn view(&self) -> SynthView {
        SynthView { phase: self.phase, token: self.token@ }
    }
}

impl PipePairSynth {
    #[verifier::type_invariant]
    closed spec fn inv(&self) -> bool {
        self.path@ == pipe_path_of(self.token@)
    }

    /// Starts a synthesis whose pipe is named by `token`, a random value.
    pub fn new(token: [u8; 16]) -> (s: Self)
        ensures
            s@ == start(token@),
    {
        PipePairSynth { phase: SynthPhase::CreatingServer, token, path: pipe_path(token) }
    }

    /// The current phase, which says which call to make next.
    pub fn phase(&self) -> (r: SynthPhase)
        ensures
            r == self@.phase,
    {
        self.phase
    }

    /// The NUL-terminated UTF-16 path of the pipe for the current token.
    pub fn path(&self) -> (r: &[u16])
        ensures
            r@ == pipe_path_of(self@.token),
    {
        proof {
            use_type_invariant(self);
        }
        self.path.as_slice()
    }

    /// Records the outcome of the call the current phase asked for.
    pub fn step(&mut self, e: SynthEvent)
        ensures
            final(self)@ == next(old(self)@, e),
    {
        proof {
            use_type_invariant(&*self);
        }
        match (self.phase, e) {
            (SynthPhase::CreatingServer, SynthEvent::ServerCreated) => {
                self.phase = SynthPhase::OpeningClient;
            },
            (SynthPhase::CreatingServer, SynthEvent::ServerRefused { code, fresh }) => {
                if is_name_collision(code) {
                    *self = PipePairSynth::new(fresh);
                } else {
                    self.phase = SynthPhase::Failed { code };
                }
            },
            (SynthPhase::OpeningClient, SynthEvent::ClientOpened) => {
                self.phase = SynthPhase::Connected;
            },
            (SynthPhase::OpeningClient, SynthEvent::ClientRefused { code }) => {
                self.phase = SynthPhase::Failed { code };
            },
            _ => {},
        }
    }
}

} // verus!
