//! The persistence discipline: every state-advancing operation counts up the sequence number
//! once, before it changes anything, and asks for one blob to be pushed at that number.

use vstd::prelude::*;
use super::error::{Result, TwoMlsPqError};
use super::state::{BlobKind, Push, TwoMlsPqSession};

verus! {

/// The sequence number after one more operation. It never wraps.
pub open spec fn seq_after(seq: u64) -> u64 {
    if seq < u64::MAX {
        (seq + 1) as u64
    } else {
        seq
    }
}

/// The session once a state-advancing operation has begun: counted, with the push it wants
/// noted if a hook is attached. At the end of the numbers the operation runs unpersisted.
pub open spec fn begun(s: TwoMlsPqSession, kind: BlobKind) -> TwoMlsPqSession {
    TwoMlsPqSession {
        state_seq: seq_after(s.state_seq),
        push: if s.sink_installed && s.state_seq < u64::MAX {
            Some(Push { seq: seq_after(s.state_seq), kind })
        } else {
            None
        },
        ..s
    }
}

/// The session once a parked frame was taken out: counted, with a core blob to be pushed if
/// a hook is attached.
pub open spec fn taken(s: TwoMlsPqSession) -> TwoMlsPqSession {
    TwoMlsPqSession {
        state_seq: seq_after(s.state_seq),
        push: if s.sink_installed {
            Some(Push { seq: seq_after(s.state_seq), kind: BlobKind::Core })
        } else {
            None
        },
        ..s
    }
}

/// The sequence number never goes back, and goes on with every operation until the end of
/// the numbers.
pub proof fn law_seq_is_monotone(s: TwoMlsPqSession, kind: BlobKind)
    ensures
        begun(s, kind).state_seq >= s.state_seq,
        taken(s).state_seq >= s.state_seq,
        s.state_seq < u64::MAX ==> begun(s, kind).state_seq == s.state_seq + 1,
        s.state_seq < u64::MAX ==> taken(s).state_seq == s.state_seq + 1,
{
}

impl TwoMlsPqSession {
    /// Begin a state-advancing operation whose blob is of this kind.
    pub(crate) fn begin_mutation(&mut self, kind: BlobKind)
        ensures
            *final(self) == begun(*old(self), kind),
            old(self).wf() ==> final(self).wf(),
            old(self).sound() ==> final(self).sound(),
            old(self).live() ==> final(self).live(),
            old(self).wf() ==> final(self).since(*old(self)),
            old(self).side_band_settled() ==> final(self).side_band_settled(),
    {
        if self.state_seq < u64::MAX {
            self.state_seq = self.state_seq + 1;
            self.push = if self.sink_installed {
                Some(Push { seq: self.state_seq, kind })
            } else {
                None
            };
        } else {
            self.push = None;
        }
    }

    /// Count the taking of a parked frame.
    pub(crate) fn count_take(&mut self)
        ensures
            *final(self) == taken(*old(self)),
            old(self).wf() ==> final(self).wf(),
            old(self).sound() ==> final(self).sound(),
            old(self).live() ==> final(self).live(),
            old(self).wf() ==> final(self).since(*old(self)),
            old(self).side_band_settled() ==> final(self).side_band_settled(),
    {
        if self.state_seq < u64::MAX {
            self.state_seq = self.state_seq + 1;
        }
        self.push = if self.sink_installed {
            Some(Push { seq: self.state_seq, kind: BlobKind::Core })
        } else {
            None
        };
    }

    /// The push that the last operation wants, which is then no longer pending.
    pub fn take_push(&mut self) -> (r: Option<Push>)
        ensures
            r == old(self).push,
            *final(self) == (TwoMlsPqSession { push: None, ..*old(self) }),
            old(self).wf() ==> final(self).wf(),
            old(self).sound() ==> final(self).sound(),
            old(self).live() ==> final(self).live(),
            old(self).wf() ==> final(self).since(*old(self)),
            old(self).side_band_settled() ==> final(self).side_band_settled(),
    {
        let r = self.push;
        self.push = None;
        r
    }

    /// Attach the persistence hook and ask for a baseline checkpoint at the current sequence
    /// number. Once only: a second hook would orphan the first.
    pub fn install_sink(&mut self) -> (r: Result<()>)
        ensures
            old(self).sink_installed ==> r == Err::<(), TwoMlsPqError>(
                TwoMlsPqError::SinkAlreadyInstalled,
            ) && *final(self) == *old(self),
            !old(self).sink_installed ==> r is Ok && *final(self) == (TwoMlsPqSession {
                sink_installed: true,
                push: Some(Push { seq: old(self).state_seq, kind: BlobKind::Checkpoint }),
                ..*old(self)
            }),
            old(self).wf() ==> final(self).wf(),
            old(self).sound() ==> final(self).sound(),
            old(self).live() ==> final(self).live(),
            old(self).wf() ==> final(self).since(*old(self)),
            old(self).side_band_settled() && r is Ok ==> final(self).side_band_settled(),
    {
        if self.sink_installed {
            return Err(TwoMlsPqError::SinkAlreadyInstalled);
        }
        self.sink_installed = true;
        self.push = Some(Push { seq: self.state_seq, kind: BlobKind::Checkpoint });
        Ok(())
    }

    /// The current sequence number.
    pub fn state_seq(&self) -> (r: u64)
        ensures
            r == self.state_seq,
    {
        self.state_seq
    }
}

/// What a persisted operation reports: its own outcome, unless it succeeded and its blob
/// could not be encoded, which is then what is reported.
pub fn persisted_outcome<T>(result: Result<T>, encoded: Result<()>) -> (r: Result<T>)
    ensures
        r == match (result, encoded) {
            (Ok(_), Err(e)) => Err(e),
            (other, _) => other,
        },
{
    match (result, encoded) {
        (Ok(_), Err(e)) => Err(e),
        (other, _) => other,
    }
}

} // verus!
