//! Supervision of the wireless association.
use vstd::prelude::*;

use crate::policy::{Role, JOIN_STATUS_REPORT_LIMIT, LINK_RETRY_BACKOFF_MS, RADIO_CHANNEL};

verus! {

/// Where the association stands.
#[derive(Clone, Copy, Debug, PartialEq, Eq, Structural)]
pub enum LinkState {
    NotStarted,
    Starting,
    Connected,
    Disconnected,
}

/// What the radio reported after the last action.
#[derive(Clone, Copy, Debug, PartialEq, Eq, Structural)]
pub enum LinkEvent {
    /// The radio was configured and brought up.
    RadioStarted,
    /// The association attempt succeeded.
    Joined,
    /// The association attempt failed with the driver's status code.
    JoinFailed(u32),
    /// The access point dropped the association.
    LinkLost,
    /// A requested sleep ended.
    BackoffElapsed,
}

/// What the caller is to do next.
#[derive(Clone, Copy, Debug, PartialEq, Eq, Structural)]
pub enum LinkAction {
    /// Configure network name, passphrase and this channel, and start the radio.
    StartRadio { channel: u8 },
    /// Try to associate.
    Join,
    /// Suspend until the association is lost.
    WaitForLinkLoss,
    /// Sleep for the given number of milliseconds.
    Sleep(u64),
}

/// One decision: the action, an optional new level of the indicator, and
/// whether the failure that led to it is to be logged.
#[derive(Clone, Copy, Debug, PartialEq, Eq, Structural)]
pub struct LinkStep {
    pub action: LinkAction,
    pub indicator: Option<bool>,
    pub report: bool,
}

/// The association supervisor. It never gives up: every path leads back to
/// another join attempt. `indicator` is the level it last wrote to the
/// indicator.
#[derive(Clone, Copy, Debug, PartialEq, Eq, Structural)]
pub struct LinkManager {
    pub role: Role,
    pub state: LinkState,
    pub radio_started: bool,
    pub indicator: bool,
}

/// The action that brings the radio up if it is not, else joins.
pub open spec fn join_or_start(radio_started: bool) -> LinkAction {
    if radio_started {
        LinkAction::Join
    } else {
        LinkAction::StartRadio { channel: RADIO_CHANNEL }
    }
}

/// Whether a join failure with this status is reported (and toggles the
/// indicator) rather than retried silently.
pub open spec fn join_status_reported(status: u32) -> bool {
    status < JOIN_STATUS_REPORT_LIMIT
}

/// The action the manager waits on in a given state.
pub open spec fn link_pending(m: LinkManager) -> LinkAction {
    match m.state {
        LinkState::Connected => LinkAction::WaitForLinkLoss,
        LinkState::Disconnected => LinkAction::Sleep(LINK_RETRY_BACKOFF_MS),
        _ => join_or_start(m.radio_started),
    }
}

/// A step that changes no indicator and reports nothing.
pub open spec fn quiet(action: LinkAction) -> LinkStep {
    LinkStep { action, indicator: None, report: false }
}

/// The first decision: drive the indicator off, then bring the radio up, or
/// join if it is already up.
pub open spec fn link_begin(m: LinkManager) -> (LinkManager, LinkStep) {
    (
        LinkManager { state: LinkState::Starting, indicator: false, ..m },
        LinkStep { action: join_or_start(m.radio_started), indicator: Some(false), report: false },
    )
}

/// The transition of the supervisor on one event.
///
/// The initiator waits out a fixed backoff after a failed join; the
/// responder retries at once, reporting and toggling the indicator only for
/// statuses below the limit. A successful join drives the indicator on;
/// losing the link drives it off and waits the backoff before joining again.
/// An event that the current state does not expect leaves the state as it is
/// and repeats its action.
pub open spec fn link_next(m: LinkManager, ev: LinkEvent) -> (LinkManager, LinkStep) {
    match (m.state, ev) {
        (LinkState::NotStarted, _) => link_begin(m),
        (LinkState::Starting, LinkEvent::RadioStarted) => {
            (LinkManager { radio_started: true, ..m }, quiet(LinkAction::Join))
        },
        (LinkState::Starting, LinkEvent::Joined) => {
            let n = LinkManager { state: LinkState::Connected, indicator: true, ..m };
            (n, LinkStep { action: LinkAction::WaitForLinkLoss, indicator: Some(true), report: false })
        },
        (LinkState::Starting, LinkEvent::JoinFailed(status)) => {
            match m.role {
                Role::Initiator => (
                    m,
                    LinkStep {
                        action: LinkAction::Sleep(LINK_RETRY_BACKOFF_MS),
                        indicator: None,
                        report: true,
                    },
                ),
                Role::Responder => if join_status_reported(status) {
                    (
                        LinkManager { indicator: !m.indicator, ..m },
                        LinkStep { action: LinkAction::Join, indicator: Some(!m.indicator), report: true },
                    )
                } else {
                    (m, quiet(LinkAction::Join))
                },
            }
        },
        (LinkState::Connected, LinkEvent::LinkLost) => {
            let n = LinkManager { state: LinkState::Disconnected, indicator: false, ..m };
            (
                n,
                LinkStep {
                    action: LinkAction::Sleep(LINK_RETRY_BACKOFF_MS),
                    indicator: Some(false),
                    report: true,
                },
            )
        },
        (LinkState::Disconnected, LinkEvent::BackoffElapsed) => {
            let n = LinkManager { state: LinkState::Starting, ..m };
            (n, quiet(join_or_start(m.radio_started)))
        },
        _ => (m, quiet(link_pending(m))),
    }
}

/// A responder's failed join is retried at once whatever the status: below
/// the reporting limit the failure is logged and the indicator toggled, at or
/// above it nothing is logged and the indicator is left alone.
pub proof fn lemma_join_failure_policy(m: LinkManager, status: u32)
    requires
        m.role == Role::Responder,
        m.state == LinkState::Starting,
    ensures
        ({
            let (n, st) = link_next(m, LinkEvent::JoinFailed(status));
            &&& st.action == LinkAction::Join
            &&& n.state == LinkState::Starting
            &&& status < JOIN_STATUS_REPORT_LIMIT ==> {
                &&& st.indicator == Some(!m.indicator)
                &&& n.indicator == !m.indicator
                &&& st.report
            }
            &&& status >= JOIN_STATUS_REPORT_LIMIT ==> {
                &&& st.indicator.is_none()
                &&& !st.report
                &&& n == m
            }
        }),
{
}

/// The supervisor's `indicator` field is always the level last written, and
/// the radio is always started on the configured channel.
pub proof fn lemma_link_indicator_tracked(m: LinkManager, ev: LinkEvent)
    ensures
        ({
            let (n, st) = link_next(m, ev);
            &&& st.indicator matches Some(level) ==> n.indicator == level
            &&& st.indicator is None ==> n.indicator == m.indicator
            &&& st.action is StartRadio ==> st.action == (LinkAction::StartRadio { channel: RADIO_CHANNEL })
        }),
{
}

impl LinkManager {
    /// A supervisor that has not touched the radio yet.
    pub fn new(role: Role) -> (r: LinkManager)
        ensures
            r == (LinkManager { role, state: LinkState::NotStarted, radio_started: false, indicator: false }),
    {
        LinkManager { role, state: LinkState::NotStarted, radio_started: false, indicator: false }
    }

    /// The first decision: see `link_begin`.
    pub fn begin(&mut self) -> (r: LinkStep)
        ensures
            (*final(self), r) == link_begin(*old(self)),
    {
        self.state = LinkState::Starting;
        self.indicator = false;
        LinkStep { action: self.join_or_start(), indicator: Some(false), report: false }
    }

    fn join_or_start(&self) -> (r: LinkAction)
        ensures
            r == join_or_start(self.radio_started),
    {
        if self.radio_started {
            LinkAction::Join
        } else {
            LinkAction::StartRadio { channel: RADIO_CHANNEL }
        }
    }

    fn pending(&self) -> (r: LinkAction)
        ensures
            r == link_pending(*self),
    {
        match self.state {
            LinkState::Connected => LinkAction::WaitForLinkLoss,
            LinkState::Disconnected => LinkAction::Sleep(LINK_RETRY_BACKOFF_MS),
            _ => self.join_or_start(),
        }
    }

    /// Feeds the outcome of the last action in and returns the next decision.
    pub fn step(&mut self, ev: LinkEvent) -> (r: LinkStep)
        ensures
            (*final(self), r) == link_next(*old(self), ev),
    {
        let none: Option<bool> = None;
        match (self.state, ev) {
            (LinkState::NotStarted, _) => self.begin(),
            (LinkState::Starting, LinkEvent::RadioStarted) => {
                self.radio_started = true;
                LinkStep { action: LinkAction::Join, indicator: none, report: false }
            },
            (LinkState::Starting, LinkEvent::Joined) => {
                self.state = LinkState::Connected;
                self.indicator = true;
                LinkStep { action: LinkAction::WaitForLinkLoss, indicator: Some(true), report: false }
            },
            (LinkState::Starting, LinkEvent::JoinFailed(status)) => {
                match self.role {
                    Role::Initiator => LinkStep {
                        action: LinkAction::Sleep(LINK_RETRY_BACKOFF_MS),
                        indicator: none,
                        report: true,
                    },
                    Role::Responder => if status < JOIN_STATUS_REPORT_LIMIT {
                        let level = !self.indicator;
                        self.indicator = level;
                        LinkStep { action: LinkAction::Join, indicator: Some(level), report: true }
                    } else {
                        LinkStep { action: LinkAction::Join, indicator: none, report: false }
                    },
                }
            },
            (LinkState::Connected, LinkEvent::LinkLost) => {
                self.state = LinkState::Disconnected;
                self.indicator = false;
                LinkStep {
                    action: LinkAction::Sleep(LINK_RETRY_BACKOFF_MS),
                    indicator: Some(false),
                    report: true,
                }
            },
            (LinkState::Disconnected, LinkEvent::BackoffElapsed) => {
                self.state = LinkState::Starting;
                LinkStep { action: self.pending(), indicator: none, report: false }
            },
            _ => LinkStep { action: self.pending(), indicator: none, report: false },
        }
    }
}

} // verus!
