//! The association supervisor: owns the station-mode association sequence and
//! exposes a non-blocking snapshot of the connection state.
//!
//! The asynchronous handshake itself is hardware work done by the radio
//! collaborator; its completion reaches the supervisor as a plain event
//! (`handshake_succeeded` / `handshake_failed`), and every state transition
//! taken on such an event is verified against the transition relation
//! `next_state`.

use vstd::prelude::*;

verus! {

/// Why an association handshake failed.
#[derive(Clone, Copy, PartialEq, Eq, Structural, Debug)]
pub enum FailureKind {
    /// The handshake did not complete within the radio's deadline.
    Timeout,
    /// The access point rejected the credential.
    AuthenticationRejected,
    /// No access point with the configured network name was found.
    NetworkNotFound,
    /// The radio reported an internal fault.
    RadioFault,
}

/// The connection state of the station. Written only by the supervisor's own
/// sequence; read concurrently, as a snapshot, by any number of reporters.
#[derive(Clone, Copy, PartialEq, Eq, Structural, Debug)]
pub enum AssociationState {
    Disconnected,
    Connecting,
    Connected,
    Failed(FailureKind),
}

/// An observation the association state machine steps on: an explicit new
/// association request, or the completion of the asynchronous handshake.
#[derive(Clone, Copy, PartialEq, Eq, Structural, Debug)]
pub enum AssociationEvent {
    Requested,
    HandshakeSucceeded,
    HandshakeFailed(FailureKind),
}

/// The transition relation of the association state machine.
///
/// A new request moves any settled state to `Connecting` (an explicit call is
/// the only way out of `Failed` or `Connected`); a handshake completion moves
/// `Connecting` to `Connected` or `Failed` and is ignored in any other state,
/// where no handshake is in flight.
pub open spec fn next_state(s: AssociationState, ev: AssociationEvent) -> AssociationState {
    match ev {
        AssociationEvent::Requested => {
            if s is Connecting {
                s
            } else {
                AssociationState::Connecting
            }
        },
        AssociationEvent::HandshakeSucceeded => {
            if s is Connecting {
                AssociationState::Connected
            } else {
                s
            }
        },
        AssociationEvent::HandshakeFailed(k) => {
            if s is Connecting {
                AssociationState::Failed(k)
            } else {
                s
            }
        },
    }
}

/// Network association parameters, fixed constants in the field but modeled
/// as explicit configuration input.
#[derive(PartialEq, Eq, Debug)]
pub struct WifiConfig {
    /// Network name; non-empty, at most `MAX_SSID_LEN` bytes.
    pub ssid: Vec<u8>,
    /// Pre-shared credential; at most `MAX_PASSWORD_LEN` bytes.
    pub password: Vec<u8>,
    /// Fixed radio channel, or `None` to let the handshake negotiate one.
    pub channel: Option<u8>,
}

/// Longest accepted network name, in bytes.
pub const MAX_SSID_LEN: usize = 32;

/// Longest accepted pre-shared credential, in bytes.
pub const MAX_PASSWORD_LEN: usize = 64;

/// Lowest valid fixed radio channel.
pub const MIN_CHANNEL: u8 = 1;

/// Highest valid fixed radio channel.
pub const MAX_CHANNEL: u8 = 14;

impl WifiConfig {
    /// A configuration the supervisor accepts: non-empty name within bounds,
    /// credential within bounds, and any fixed channel within the radio's
    /// range.
    pub open spec fn valid(&self) -> bool {
        &&& 0 < self.ssid@.len() <= MAX_SSID_LEN
        &&& self.password@.len() <= MAX_PASSWORD_LEN
        &&& (self.channel matches Some(c) ==> MIN_CHANNEL <= c <= MAX_CHANNEL)
    }
}

/// Rejection causes for `AssociationSupervisor::configure`.
#[derive(Clone, Copy, PartialEq, Eq, Structural, Debug)]
pub enum ConfigError {
    EmptySsid,
    SsidTooLong,
    PasswordTooLong,
    InvalidChannel,
    AlreadyStarted,
}

/// Rejection causes for `AssociationSupervisor::start`.
#[derive(Clone, Copy, PartialEq, Eq, Structural, Debug)]
pub enum StartError {
    NotConfigured,
    AlreadyStarted,
}

/// Rejection causes for `AssociationSupervisor::request_association`.
#[derive(Clone, Copy, PartialEq, Eq, Structural, Debug)]
pub enum AssociationError {
    NotStarted,
    HandshakeInProgress,
}

/// The outcome `configure` owes for a given configuration before start: the
/// first violated constraint, checked in a fixed order, else acceptance.
pub open spec fn configure_verdict(cfg: &WifiConfig) -> Result<(), ConfigError> {
    if cfg.ssid@.len() == 0 {
        Err(ConfigError::EmptySsid)
    } else if cfg.ssid@.len() > MAX_SSID_LEN {
        Err(ConfigError::SsidTooLong)
    } else if cfg.password@.len() > MAX_PASSWORD_LEN {
        Err(ConfigError::PasswordTooLong)
    } else if cfg.channel matches Some(c) && !(MIN_CHANNEL <= c <= MAX_CHANNEL) {
        Err(ConfigError::InvalidChannel)
    } else {
        Ok(())
    }
}

/// Drives the station association sequence. Created once at startup and alive
/// for the whole process; there is no shutdown path.
pub struct AssociationSupervisor {
    /// The applied configuration, once `configure` has accepted one.
    pub config: Option<WifiConfig>,
    /// Whether the radio has been activated in station mode.
    pub started: bool,
    /// The current connection state; the latest snapshot readers observe.
    pub state: AssociationState,
}

impl AssociationSupervisor {
    /// Internal consistency: configuration precedes start, and no association
    /// activity precedes start.
    pub open spec fn wf(&self) -> bool {
        &&& (self.started ==> self.config is Some)
        &&& (self.config matches Some(c) ==> c.valid())
        &&& (!self.started ==> self.state is Disconnected)
    }

    /// A fresh supervisor: unconfigured, not started, disconnected.
    pub fn new() -> (r: Self)
        ensures
            r.wf(),
            r.config is None,
            !r.started,
            r.state is Disconnected,
    {
        AssociationSupervisor {
            config: None,
            started: false,
            state: AssociationState::Disconnected,
        }
    }

    /// Applies a configuration. Accepted exactly when the supervisor has not
    /// started yet and the configuration is within bounds; the error reports
    /// the first violated constraint. Rejection leaves the supervisor
    /// unchanged.
    pub fn configure(&mut self, cfg: WifiConfig) -> (r: Result<(), ConfigError>)
        requires
            old(self).wf(),
        ensures
            final(self).wf(),
            old(self).started ==> r == Err::<(), ConfigError>(ConfigError::AlreadyStarted),
            !old(self).started ==> r == configure_verdict(&cfg),
            r is Ok <==> !old(self).started && cfg.valid(),
            r is Ok ==> final(self).config == Some(cfg),
            r is Err ==> final(self).config == old(self).config,
            final(self).started == old(self).started,
            final(self).state == old(self).state,
    {
        if self.started {
            return Err(ConfigError::AlreadyStarted);
        }
        if cfg.ssid.len() == 0 {
            return Err(ConfigError::EmptySsid);
        }
        if cfg.ssid.len() > MAX_SSID_LEN {
            return Err(ConfigError::SsidTooLong);
        }
        if cfg.password.len() > MAX_PASSWORD_LEN {
            return Err(ConfigError::PasswordTooLong);
        }
        if let Some(c) = cfg.channel {
            if c < MIN_CHANNEL || c > MAX_CHANNEL {
                return Err(ConfigError::InvalidChannel);
            }
        }
        self.config = Some(cfg);
        Ok(())
    }

    /// Activates the radio in station mode. Accepted exactly when a
    /// configuration has been applied and the supervisor is not started yet;
    /// the state stays `Disconnected` until an association is requested.
    pub fn start(&mut self) -> (r: Result<(), StartError>)
        requires
            old(self).wf(),
        ensures
            final(self).wf(),
            r is Ok <==> !old(self).started && old(self).config is Some,
            old(self).started ==> r == Err::<(), StartError>(StartError::AlreadyStarted),
            !old(self).started && old(self).config is None ==> r == Err::<(), StartError>(
                StartError::NotConfigured,
            ),
            r is Ok ==> final(self).started,
            r is Err ==> final(self).started == old(self).started,
            final(self).config == old(self).config,
            final(self).state == old(self).state,
    {
        if self.started {
            return Err(StartError::AlreadyStarted);
        }
        if self.config.is_none() {
            return Err(StartError::NotConfigured);
        }
        self.started = true;
        Ok(())
    }

    /// Begins a new asynchronous association handshake. Accepted exactly when
    /// the supervisor has started and no handshake is already in flight; on
    /// acceptance the state steps to `Connecting` and progress is observed
    /// only through `current_state` polling.
    pub fn request_association(&mut self) -> (r: Result<(), AssociationError>)
        requires
            old(self).wf(),
        ensures
            final(self).wf(),
            r is Ok <==> old(self).started && !(old(self).state is Connecting),
            !old(self).started ==> r == Err::<(), AssociationError>(AssociationError::NotStarted),
            old(self).started && old(self).state is Connecting ==> r == Err::<(
            ), AssociationError>(AssociationError::HandshakeInProgress),
            r is Ok ==> final(self).state == next_state(
                old(self).state,
                AssociationEvent::Requested,
            ) && final(self).state is Connecting,
            r is Err ==> final(self).state == old(self).state,
            final(self).config == old(self).config,
            final(self).started == old(self).started,
    {
        if !self.started {
            return Err(AssociationError::NotStarted);
        }
        if self.state == AssociationState::Connecting {
            return Err(AssociationError::HandshakeInProgress);
        }
        self.state = AssociationState::Connecting;
        Ok(())
    }

    /// Records that the radio collaborator completed the handshake
    /// successfully. Steps the state machine: `Connecting` becomes
    /// `Connected`; in any other state no handshake is in flight and the
    /// report is ignored.
    pub fn handshake_succeeded(&mut self)
        requires
            old(self).wf(),
        ensures
            final(self).wf(),
            final(self).state == next_state(old(self).state, AssociationEvent::HandshakeSucceeded),
            final(self).config == old(self).config,
            final(self).started == old(self).started,
    {
        if self.state == AssociationState::Connecting {
            self.state = AssociationState::Connected;
        }
    }

    /// Records that the radio collaborator reported handshake failure or
    /// timeout. Steps the state machine: `Connecting` becomes `Failed(kind)`;
    /// in any other state no handshake is in flight and the report is
    /// ignored. No automatic re-association follows: leaving `Failed` takes
    /// an explicit new `request_association`.
    pub fn handshake_failed(&mut self, kind: FailureKind)
        requires
            old(self).wf(),
        ensures
            final(self).wf(),
            final(self).state == next_state(
                old(self).state,
                AssociationEvent::HandshakeFailed(kind),
            ),
            final(self).config == old(self).config,
            final(self).started == old(self).started,
    {
        if self.state == AssociationState::Connecting {
            self.state = AssociationState::Failed(kind);
        }
    }

    /// The latest connection-state snapshot. Never blocks — it suspends on
    /// nothing and returns immediately — and always returns one of the four
    /// defined values.
    pub fn current_state(&self) -> (r: AssociationState)
        ensures
            r == self.state,
            r is Disconnected || r is Connecting || r is Connected || r is Failed,
    {
        self.state
    }
}

/// A short human-readable description of a failure kind; never empty, so a
/// `Failed` state always carries a non-empty reason.
pub fn failure_reason(kind: FailureKind) -> (r: &'static str)
    ensures
        r@.len() > 0,
{
    match kind {
        FailureKind::Timeout => {
            proof {
                reveal_strlit("handshake timed out");
            }
            "handshake timed out"
        },
        FailureKind::AuthenticationRejected => {
            proof {
                reveal_strlit("credential rejected");
            }
            "credential rejected"
        },
        FailureKind::NetworkNotFound => {
            proof {
                reveal_strlit("network not found");
            }
            "network not found"
        },
        FailureKind::RadioFault => {
            proof {
                reveal_strlit("radio fault");
            }
            "radio fault"
        },
    }
}

/// Law: the association sequence never skips `Connecting`. Any step of the
/// state machine that ends in `Connected` either started from `Connecting`
/// and was the successful handshake completion, or was already `Connected`
/// and did not transition at all. Together with `request_association`'s
/// contract (acceptance lands in `Connecting`), a successful association runs
/// `Disconnected -> Connecting -> Connected` in exactly that order.
pub proof fn lemma_connected_only_from_connecting(s: AssociationState, ev: AssociationEvent)
    ensures
        next_state(s, ev) is Connected ==> (s is Connecting && ev is HandshakeSucceeded) || (
        s is Connected && !(ev is Requested)),
{
}

/// The state of the association machine after the first `i` of the events
/// in `evs`, starting from `s0`.
pub open spec fn state_after(
    s0: AssociationState,
    evs: Seq<AssociationEvent>,
    i: int,
) -> AssociationState
    decreases i,
{
    if i <= 0 {
        s0
    } else {
        next_state(state_after(s0, evs, i - 1), evs[i - 1])
    }
}

/// Law: over whole runs, `Connecting` is never skipped. Whatever sequence of
/// requests and handshake completions a run from a not-yet-connected state
/// observes, if it ends in `Connected` then at some step the machine stood
/// in `Connecting` and entered `Connected` on the successful handshake
/// completion.
pub proof fn lemma_run_passes_through_connecting(
    s0: AssociationState,
    evs: Seq<AssociationEvent>,
    i: int,
)
    requires
        !(s0 is Connected),
        0 <= i <= evs.len(),
        state_after(s0, evs, i) is Connected,
    ensures
        exists|j: int|
            0 <= j < i && #[trigger] state_after(s0, evs, j) is Connecting && evs[j]
                is HandshakeSucceeded && state_after(s0, evs, j + 1) is Connected,
    decreases i,
{
    if i <= 0 {
        assert(state_after(s0, evs, i) == s0);
    } else {
        let prev = state_after(s0, evs, i - 1);
        if prev is Connected {
            lemma_run_passes_through_connecting(s0, evs, i - 1);
        } else {
            lemma_connected_only_from_connecting(prev, evs[i - 1]);
            assert(0 <= i - 1 < i && state_after(s0, evs, i - 1) is Connecting && evs[i - 1]
                is HandshakeSucceeded && state_after(s0, evs, i - 1 + 1) is Connected);
        }
    }
}

/// Law: a successful association runs `Disconnected -> Connecting ->
/// Connected` in exactly that order: the request lands in `Connecting`, the
/// successful handshake completion moves `Connecting` to `Connected`, and no
/// single event takes `Disconnected` to `Connected` directly.
pub proof fn lemma_successful_association_order()
    ensures
        next_state(AssociationState::Disconnected, AssociationEvent::Requested)
            == AssociationState::Connecting,
        next_state(AssociationState::Connecting, AssociationEvent::HandshakeSucceeded)
            == AssociationState::Connected,
        forall|ev: AssociationEvent|
            #[trigger] next_state(AssociationState::Disconnected, ev)
                != AssociationState::Connected,
{
}

/// Law: a failed handshake never transitions into `Connected`. From
/// `Connecting` it lands in `Failed` carrying the reported kind — whose
/// reason text `failure_reason` guarantees non-empty — and from any state not
/// already `Connected` the failure event cannot produce `Connected`.
pub proof fn lemma_failure_never_connects(s: AssociationState, kind: FailureKind)
    ensures
        s is Connecting ==> next_state(s, AssociationEvent::HandshakeFailed(kind))
            == AssociationState::Failed(kind),
        !(s is Connected) ==> !(next_state(s, AssociationEvent::HandshakeFailed(kind))
            is Connected),
{
}

} // verus!
