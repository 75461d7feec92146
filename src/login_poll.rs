use vstd::prelude::*;

verus! {

/// Attempts of the standard polling policy.
pub const DEFAULT_MAX_ATTEMPTS: u32 = 60;

/// Seconds between polls of the standard polling policy.
pub const DEFAULT_INTERVAL_SECS: u64 = 2;

/// A status that the login status endpoint reports for a QR code.
#[derive(Debug, Clone, Copy, PartialEq, Eq, Structural)]
pub enum QrStatus {
    /// Not scanned yet.
    New,
    /// Scanned, waiting for confirmation on the phone.
    Scanned,
    /// Confirmed: the login succeeded.
    Confirmed,
    /// The code expired.
    Expired,
    /// A status this client does not know.
    Unknown,
}

pub open spec fn status_of(s: Seq<char>) -> QrStatus {
    if s == "NEW"@ {
        QrStatus::New
    } else if s == "SCANED"@ {
        QrStatus::Scanned
    } else if s == "CONFIRMED"@ {
        QrStatus::Confirmed
    } else if s == "EXPIRED"@ {
        QrStatus::Expired
    } else {
        QrStatus::Unknown
    }
}

impl QrStatus {
    /// Reads the `qrcodeStatus` discriminant of a status answer.
    pub fn parse(s: &str) -> (r: QrStatus)
        ensures
            r == status_of(s@),
    {
        let s = String::from_str(s);
        if s == String::from_str("NEW") {
            QrStatus::New
        } else if s == String::from_str("SCANED") {
            QrStatus::Scanned
        } else if s == String::from_str("CONFIRMED") {
            QrStatus::Confirmed
        } else if s == String::from_str("EXPIRED") {
            QrStatus::Expired
        } else {
            QrStatus::Unknown
        }
    }

    pub open spec fn is_terminal_spec(self) -> bool {
        self == QrStatus::Confirmed || self == QrStatus::Expired
    }

    /// Confirmed and Expired end the login.
    pub fn is_terminal(self) -> (r: bool)
        ensures
            r == self.is_terminal_spec(),
    {
        match self {
            QrStatus::Confirmed | QrStatus::Expired => true,
            _ => false,
        }
    }
}

/// How a login attempt ended.
#[derive(Debug, Clone, Copy, PartialEq, Eq, Structural)]
pub enum LoginOutcome {
    Confirmed,
    Expired,
    /// The attempts ran out before a terminal status.
    TimedOut,
}

/// What the caller does next.
#[derive(Debug, Clone, Copy, PartialEq, Eq, Structural)]
pub enum PollStep {
    /// Sleep this many seconds, then poll.
    Wait(u64),
    /// Poll again at once.
    PollNow,
    /// Stop: the login ended so.
    Done(LoginOutcome),
}

/// How often and how long to poll.
#[derive(Debug, Clone, Copy, PartialEq, Eq, Structural)]
pub struct PollPolicy {
    pub max_attempts: u32,
    pub interval_secs: u64,
}

impl PollPolicy {
    /// Sixty polls, two seconds apart.
    pub fn standard() -> (r: PollPolicy)
        ensures
            r.max_attempts == DEFAULT_MAX_ATTEMPTS,
            r.interval_secs == DEFAULT_INTERVAL_SECS,
    {
        PollPolicy { max_attempts: DEFAULT_MAX_ATTEMPTS, interval_secs: DEFAULT_INTERVAL_SECS }
    }
}

/// The step after the `polls`-th observation, which was `status`.
pub open spec fn step_after(policy: PollPolicy, polls: nat, status: QrStatus) -> PollStep {
    match status {
        QrStatus::Confirmed => PollStep::Done(LoginOutcome::Confirmed),
        QrStatus::Expired => PollStep::Done(LoginOutcome::Expired),
        _ => if polls >= policy.max_attempts {
            PollStep::Done(LoginOutcome::TimedOut)
        } else if status == QrStatus::Unknown {
            PollStep::PollNow
        } else {
            PollStep::Wait(policy.interval_secs)
        },
    }
}

/// The state of one login attempt's polling: polls made, delays asked for,
/// and the outcome once there is one.
pub struct PollSession {
    pub policy: PollPolicy,
    pub polls: u32,
    pub delays: u32,
    pub outcome: Option<LoginOutcome>,
}

impl PollSession {
    /// Polls stay within the policy, each delay follows a poll, and a
    /// session without an outcome has attempts left.
    pub open spec fn wf(&self) -> bool {
        &&& self.polls <= self.policy.max_attempts
        &&& self.delays <= self.polls
        &&& self.outcome is None ==> self.polls < self.policy.max_attempts
    }

    /// A session before its first poll; with no attempts allowed it has
    /// timed out already.
    pub fn new(policy: PollPolicy) -> (r: PollSession)
        ensures
            r.wf(),
            r.policy == policy,
            r.polls == 0,
            r.delays == 0,
            r.outcome == (if policy.max_attempts == 0 {
                Some(LoginOutcome::TimedOut)
            } else {
                None::<LoginOutcome>
            }),
    {
        let outcome = if policy.max_attempts == 0 {
            Some(LoginOutcome::TimedOut)
        } else {
            None
        };
        PollSession { policy, polls: 0, delays: 0, outcome }
    }

    /// What to do before any status is seen.
    pub fn first_step(&self) -> (r: PollStep)
        ensures
            r == (match self.outcome {
                Some(o) => PollStep::Done(o),
                None => PollStep::PollNow,
            }),
    {
        match self.outcome {
            Some(o) => PollStep::Done(o),
            None => PollStep::PollNow,
        }
    }

    /// Records one poll's status and says what to do next.
    pub fn observe(&mut self, status: QrStatus) -> (r: PollStep)
        requires
            old(self).wf(),
            old(self).outcome is None,
        ensures
            final(self).wf(),
            final(self).policy == old(self).policy,
            final(self).polls == old(self).polls + 1,
            r == step_after(old(self).policy, final(self).polls as nat, status),
            final(self).delays == old(self).delays + (if r is Wait {
                1int
            } else {
                0int
            }),
            final(self).outcome == (match r {
                PollStep::Done(o) => Some(o),
                _ => None::<LoginOutcome>,
            }),
    {
        self.polls = self.polls + 1;
        let step = match status {
            QrStatus::Confirmed => PollStep::Done(LoginOutcome::Confirmed),
            QrStatus::Expired => PollStep::Done(LoginOutcome::Expired),
            _ => if self.polls >= self.policy.max_attempts {
                PollStep::Done(LoginOutcome::TimedOut)
            } else if status == QrStatus::Unknown {
                PollStep::PollNow
            } else {
                PollStep::Wait(self.policy.interval_secs)
            },
        };
        match step {
            PollStep::Wait(_) => {
                self.delays = self.delays + 1;
            },
            PollStep::Done(o) => {
                self.outcome = Some(o);
            },
            PollStep::PollNow => {},
        }
        step
    }
}

/// Confirmed and Expired end a session whatever attempts are left; any
/// other status ends it only when the attempts are used up, and then as a
/// timeout.
pub proof fn lemma_terminal_statuses(policy: PollPolicy, polls: nat, status: QrStatus)
    ensures
        status.is_terminal_spec() ==> step_after(policy, polls, status) is Done,
        step_after(policy, polls, status) == PollStep::Done(LoginOutcome::TimedOut) ==> !status.is_terminal_spec()
            && polls >= policy.max_attempts,
        !status.is_terminal_spec() && polls < policy.max_attempts ==> !(step_after(
            policy,
            polls,
            status,
        ) is Done),
{
}

} // verus!
