//! Which kernel facility builds a pair, and with which flags.
use vstd::prelude::*;

verus! {

/// The delivery semantics asked of a pair.
#[derive(Clone, Copy, Debug, PartialEq, Eq, Structural)]
pub enum PairKind {
    /// A boundary-less byte stream.
    Stream,
    /// Message-oriented delivery: each write is read back as one message.
    SeqPacket,
}

/// What the target offers for building a connected pair. One value per
/// target, chosen when the program is built.
#[derive(Clone, Copy, Debug, PartialEq, Eq, Structural)]
pub enum Backend {
    /// `socketpair(2)` over `AF_UNIX`.
    UnixSocketpair {
        /// The call takes `SOCK_CLOEXEC`, so both ends are created
        /// close-on-exec at once.
        atomic_cloexec: bool,
        /// The kernel offers `SOCK_SEQPACKET` for `AF_UNIX`.
        seqpacket: bool,
    },
    /// No anonymous duplex primitive: a pair is synthesized from a
    /// single-instance duplex named pipe.
    NamedPipe,
}

/// The steps that build a pair.
#[derive(Clone, Copy, Debug, PartialEq, Eq, Structural)]
pub enum Construction {
    /// One `socketpair(2)` call.
    Socketpair {
        kind: PairKind,
        /// Pass `SOCK_CLOEXEC` to the call.
        cloexec_flag: bool,
        /// Mark each end close-on-exec right after the call. Between the
        /// call and this step a concurrent `exec` may inherit the ends: a
        /// known, narrow race on targets without `SOCK_CLOEXEC`.
        cloexec_after: bool,
    },
    /// The named-pipe synthesis of `PipePairSynth`.
    NamedPipe,
}

/// Why a pair could not be built.
#[derive(Clone, Copy, Debug, PartialEq, Eq, Structural)]
pub enum PairError {
    /// The target cannot provide the requested kind of pair.
    Unsupported,
    /// The system refused a call; the code is its own, unchanged.
    Os { code: i32 },
}

/// The target can build a pair of this kind.
pub open spec fn supported(backend: Backend, kind: PairKind) -> bool {
    match kind {
        PairKind::Stream => true,
        PairKind::SeqPacket => match backend {
            Backend::UnixSocketpair { seqpacket, .. } => seqpacket,
            Backend::NamedPipe => false,
        },
    }
}

/// Chooses how to build a pair of `kind` on `backend`.
///
/// A kind the target lacks is refused, never served by another kind. A
/// socketpair always ends with both ends close-on-exec, atomically where the
/// call allows it.
pub fn plan_pair(backend: Backend, kind: PairKind) -> (r: Result<Construction, PairError>)
    ensures
        !supported(backend, kind) <==> r == Err::<Construction, PairError>(PairError::Unsupported),
        supported(backend, kind) ==> match backend {
            Backend::UnixSocketpair { atomic_cloexec, .. } => r == Ok::<Construction, PairError>(
                Construction::Socketpair {
                    kind,
                    cloexec_flag: atomic_cloexec,
                    cloexec_after: !atomic_cloexec,
                },
            ),
            Backend::NamedPipe => r == Ok::<Construction, PairError>(Construction::NamedPipe),
        },
{
    match backend {
        Backend::UnixSocketpair { atomic_cloexec, seqpacket } => {
            match kind {
                PairKind::SeqPacket if !seqpacket => Err(PairError::Unsupported),
                _ => Ok(
                    Construction::Socketpair {
                        kind,
                        cloexec_flag: atomic_cloexec,
                        cloexec_after: !atomic_cloexec,
                    },
                ),
            }
        },
        Backend::NamedPipe => match kind {
            PairKind::Stream => Ok(Construction::NamedPipe),
            PairKind::SeqPacket => Err(PairError::Unsupported),
        },
    }
}

} // verus!
