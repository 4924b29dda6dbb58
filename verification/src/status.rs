use vstd::prelude::*;

verus! {

/// The appointment lifecycle: a closed set of four states forming a strict
/// total order `Waiting -> Ready -> WaitingForPrescription -> Completed`.
/// `Waiting` is the only initial state and `Completed` is terminal.
#[derive(Default, Debug, Clone, Copy, PartialEq, Eq, Structural)]
pub enum AppointmentStatus {
    #[default]
    Waiting,
    Ready,
    WaitingForPrescription,
    Completed,
}

impl AppointmentStatus {
    /// Position of a status along the lifecycle chain.
    pub open spec fn position(self) -> int {
        match self {
            AppointmentStatus::Waiting => 0,
            AppointmentStatus::Ready => 1,
            AppointmentStatus::WaitingForPrescription => 2,
            AppointmentStatus::Completed => 3,
        }
    }

    /// The single state a ledger transition may move to from `self`;
    /// `None` from the terminal state.
    pub open spec fn next_status(self) -> Option<AppointmentStatus> {
        match self {
            AppointmentStatus::Waiting => Some(AppointmentStatus::Ready),
            AppointmentStatus::Ready => Some(AppointmentStatus::WaitingForPrescription),
            AppointmentStatus::WaitingForPrescription => Some(AppointmentStatus::Completed),
            AppointmentStatus::Completed => None,
        }
    }

    /// The stable string token each state is persisted and displayed as.
    pub open spec fn token(self) -> Seq<char> {
        match self {
            AppointmentStatus::Waiting => "Waiting"@,
            AppointmentStatus::Ready => "Ready"@,
            AppointmentStatus::WaitingForPrescription => "WaitingForPrescription"@,
            AppointmentStatus::Completed => "Completed"@,
        }
    }

    /// String token of this status, used both for persistence comparisons
    /// and for human-readable responses.
    pub fn to_token(&self) -> (s: String)
        ensures
            s@ == self.token(),
    {
        match self {
            AppointmentStatus::Waiting => "Waiting".to_owned(),
            AppointmentStatus::Ready => "Ready".to_owned(),
            AppointmentStatus::WaitingForPrescription => "WaitingForPrescription".to_owned(),
            AppointmentStatus::Completed => "Completed".to_owned(),
        }
    }
}

/// The string encoding is faithful: distinct states have distinct tokens,
/// so comparing persisted tokens is the same as comparing states.
pub proof fn lemma_token_injective(a: AppointmentStatus, b: AppointmentStatus)
    ensures
        a.token() == b.token() ==> a == b,
{
    reveal_strlit("Waiting");
    reveal_strlit("Ready");
    reveal_strlit("WaitingForPrescription");
    reveal_strlit("Completed");
    assert("Waiting"@.len() == 7);
    assert("Ready"@.len() == 5);
    assert("WaitingForPrescription"@.len() == 22);
    assert("Completed"@.len() == 9);
}

/// The lifecycle is a strict chain with no skips and no backward edges:
/// a transition permitted out of `s` lands exactly one position further on.
pub proof fn lemma_lifecycle_strict_chain(s: AppointmentStatus)
    ensures
        s.next_status() is Some ==> s.next_status()->0.position() == s.position() + 1,
        s.next_status() is None ==> s == AppointmentStatus::Completed,
{
}

} // verus!
