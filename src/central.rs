//! The central role: finding the game controller, connecting and securing
//! the link, subscribing to its input reports, and starting over whenever
//! anything fails or the link drops.
//!
//! The radio work is done by the caller; after each result it reports an
//! event, and `CentralState::step` says what to do next.

use crate::errors::BleError;
use crate::indications::IndicationStyle;
use crate::types::{JoystickData, BUTTON_RB};
use vstd::prelude::*;

verus! {

/// How long one scan for the controller lasts.
pub const SCAN_TIMEOUT_MS: u64 = 10_000;
/// How long to wait after a failed scan before scanning again.
pub const SCAN_RETRY_DELAY_MS: u64 = 100;

/// Accepts every bonding request, and only observes a completed bonding.
#[derive(Clone, Copy, Debug, PartialEq, Eq, Structural)]
pub struct Bonder {}

impl Default for Bonder {
    fn default() -> (r: Bonder)
        ensures
            r == (Bonder {}),
    {
        Bonder {}
    }
}

impl Bonder {
    /// Whether bonding keys of a peer may be stored: always.
    pub fn can_bond(&self) -> (r: bool)
        ensures
            r,
    {
        true
    }

    /// Called once a peer is bonded; there is nothing to decide.
    pub fn on_bonded(&self) {
    }
}

/// The address of a peer that advertised as the controller.
#[derive(Clone, Copy, Debug, PartialEq, Eq)]
pub struct PeerAddress {
    pub addr: [u8; 6],
}

/// Where the central role stands.
#[derive(Clone, Copy, Debug, PartialEq, Eq, Structural)]
pub enum CentralState {
    Idle,
    /// Scanning; the scan gives up at `deadline_ms`.
    Scanning { deadline_ms: u64 },
    /// Pausing after a failed scan; the scan still gives up at `deadline_ms`.
    ScanBackoff { deadline_ms: u64 },
    Connecting,
    Encrypting,
    Pairing,
    Discovering,
    EnablingNotifications,
    Subscribed,
}

/// Why encrypting the link failed.
#[derive(Clone, Copy, Debug, PartialEq, Eq, Structural)]
pub enum EncryptFailure {
    /// No bonding keys are stored for the peer.
    PeerKeysNotFound,
    Other,
}

/// A result of the radio work, or a timer.
#[derive(Clone, Copy, Debug, PartialEq, Eq)]
pub enum CentralEvent {
    Start,
    ScanFound(PeerAddress),
    ScanFailed,
    BackoffElapsed,
    ScanTimedOut,
    Connected,
    ConnectFailed,
    Encrypted,
    EncryptFailed(EncryptFailure),
    /// Pairing was requested; whether it worked is only logged.
    PairingDone,
    Discovered,
    DiscoverFailed,
    NotificationsEnabled,
    EnableNotificationsFailed,
    /// A decoded input report.
    Report(JoystickData),
    Disconnected,
}

/// The radio work to do next.
#[derive(Clone, Copy, Debug, PartialEq, Eq)]
pub enum CentralOp {
    /// Scan for the controller until `until_ms`.
    Scan { until_ms: u64 },
    /// Sleep for `ms`, then report `BackoffElapsed`.
    Wait { ms: u64 },
    /// Connect to this address only.
    Connect(PeerAddress),
    Encrypt,
    RequestPairing,
    Discover,
    EnableNotifications,
    /// Go on receiving input reports.
    Receive,
    /// Keep waiting on the work in progress.
    Continue,
    /// Reset the device at once.
    Reset,
}

/// One decision: the next state and work, and what to tell the rest of the
/// system.
#[derive(Clone, Copy, Debug, PartialEq, Eq)]
pub struct CentralStep {
    pub state: CentralState,
    pub op: CentralOp,
    /// New LED style, if it changes.
    pub indication: Option<IndicationStyle>,
    /// New controller-link-present fact to publish, if it changes.
    pub link_present: Option<bool>,
    /// Input sample to publish.
    pub sample: Option<JoystickData>,
    /// Error to record.
    pub error: Option<BleError>,
}

/// When a scan started at `now_ms` gives up (saturating at the end of time).
pub open spec fn scan_deadline(now_ms: u64) -> u64 {
    if now_ms as int + SCAN_TIMEOUT_MS as int <= u64::MAX as int {
        (now_ms + SCAN_TIMEOUT_MS) as u64
    } else {
        u64::MAX
    }
}

/// A step with nothing to tell.
pub open spec fn quiet(state: CentralState, op: CentralOp) -> CentralStep {
    CentralStep { state, op, indication: None, link_present: None, sample: None, error: None }
}

/// Starting a new scan at `now_ms`, after taking the link down if it was up,
/// and recording `error` if any.
pub open spec fn rescan(now_ms: u64, link_was_up: bool, error: Option<BleError>) -> CentralStep {
    CentralStep {
        state: CentralState::Scanning { deadline_ms: scan_deadline(now_ms) },
        op: CentralOp::Scan { until_ms: scan_deadline(now_ms) },
        indication: Some(IndicationStyle::BlinkFast),
        link_present: if link_was_up {
            Some(false)
        } else {
            None
        },
        sample: None,
        error,
    }
}

/// The panic button is held.
pub open spec fn panic_pressed(j: JoystickData) -> bool {
    j.buttons.spec_bits() & BUTTON_RB == BUTTON_RB
}

/// Scanning, or pausing between scans.
pub open spec fn is_scanning(s: CentralState) -> bool {
    s is Scanning || s is ScanBackoff
}

/// The link is up: encrypted or paired, and not yet lost.
pub open spec fn link_up(s: CentralState) -> bool {
    s is Discovering || s is EnablingNotifications || s is Subscribed
}

/// The decision of the central role on event `e` at time `now_ms` in state `s`.
pub open spec fn central_next(s: CentralState, e: CentralEvent, now_ms: u64) -> CentralStep {
    let unchanged = quiet(s, CentralOp::Continue);
    match s {
        CentralState::Idle => match e {
            CentralEvent::Start => rescan(now_ms, false, None),
            _ => unchanged,
        },
        CentralState::Scanning { deadline_ms } => match e {
            CentralEvent::ScanFound(addr) => CentralStep {
                indication: Some(IndicationStyle::BlinkSlow),
                ..quiet(CentralState::Connecting, CentralOp::Connect(addr))
            },
            CentralEvent::ScanFailed => if now_ms >= deadline_ms {
                rescan(now_ms, false, None)
            } else {
                quiet(
                    CentralState::ScanBackoff { deadline_ms },
                    CentralOp::Wait { ms: SCAN_RETRY_DELAY_MS },
                )
            },
            CentralEvent::ScanTimedOut => if now_ms >= deadline_ms {
                rescan(now_ms, false, None)
            } else {
                unchanged
            },
            _ => unchanged,
        },
        CentralState::ScanBackoff { deadline_ms } => match e {
            CentralEvent::BackoffElapsed | CentralEvent::ScanTimedOut => if now_ms >= deadline_ms {
                rescan(now_ms, false, None)
            } else if e is BackoffElapsed {
                CentralStep {
                    indication: Some(IndicationStyle::BlinkFast),
                    ..quiet(
                        CentralState::Scanning { deadline_ms },
                        CentralOp::Scan { until_ms: deadline_ms },
                    )
                }
            } else {
                unchanged
            },
            _ => unchanged,
        },
        CentralState::Connecting => match e {
            CentralEvent::Connected => quiet(CentralState::Encrypting, CentralOp::Encrypt),
            CentralEvent::ConnectFailed => rescan(now_ms, false, Some(BleError::ConnectError)),
            CentralEvent::Disconnected => rescan(now_ms, false, Some(BleError::ConnectError)),
            _ => unchanged,
        },
        CentralState::Encrypting => match e {
            CentralEvent::Encrypted => CentralStep {
                link_present: Some(true),
                ..quiet(CentralState::Discovering, CentralOp::Discover)
            },
            CentralEvent::EncryptFailed(EncryptFailure::PeerKeysNotFound) => quiet(
                CentralState::Pairing,
                CentralOp::RequestPairing,
            ),
            CentralEvent::EncryptFailed(EncryptFailure::Other) => rescan(
                now_ms,
                false,
                Some(BleError::Encryption),
            ),
            CentralEvent::Disconnected => rescan(now_ms, false, Some(BleError::Encryption)),
            _ => unchanged,
        },
        CentralState::Pairing => match e {
            CentralEvent::PairingDone => CentralStep {
                link_present: Some(true),
                ..quiet(CentralState::Discovering, CentralOp::Discover)
            },
            CentralEvent::Disconnected => rescan(now_ms, false, Some(BleError::Encryption)),
            _ => unchanged,
        },
        CentralState::Discovering => match e {
            CentralEvent::Discovered => quiet(
                CentralState::EnablingNotifications,
                CentralOp::EnableNotifications,
            ),
            CentralEvent::DiscoverFailed => rescan(now_ms, true, Some(BleError::DiscoveryError)),
            CentralEvent::Disconnected => rescan(now_ms, true, None),
            _ => unchanged,
        },
        CentralState::EnablingNotifications => match e {
            CentralEvent::NotificationsEnabled => CentralStep {
                indication: Some(IndicationStyle::Disabled),
                ..quiet(CentralState::Subscribed, CentralOp::Receive)
            },
            CentralEvent::EnableNotificationsFailed => rescan(
                now_ms,
                true,
                Some(BleError::WriteError),
            ),
            CentralEvent::Disconnected => rescan(now_ms, true, None),
            _ => unchanged,
        },
        CentralState::Subscribed => match e {
            CentralEvent::Report(j) => if panic_pressed(j) {
                quiet(CentralState::Subscribed, CentralOp::Reset)
            } else {
                CentralStep {
                    sample: Some(j),
                    ..quiet(CentralState::Subscribed, CentralOp::Receive)
                }
            },
            CentralEvent::Disconnected => rescan(now_ms, true, None),
            _ => unchanged,
        },
    }
}

fn deadline_from(now_ms: u64) -> (r: u64)
    ensures
        r == scan_deadline(now_ms),
{
    if now_ms <= u64::MAX - SCAN_TIMEOUT_MS {
        now_ms + SCAN_TIMEOUT_MS
    } else {
        u64::MAX
    }
}

fn quiet_step(state: CentralState, op: CentralOp) -> (r: CentralStep)
    ensures
        r == quiet(state, op),
{
    CentralStep { state, op, indication: None, link_present: None, sample: None, error: None }
}

fn rescan_step(now_ms: u64, link_was_up: bool, error: Option<BleError>) -> (r: CentralStep)
    ensures
        r == rescan(now_ms, link_was_up, error),
{
    let deadline_ms = deadline_from(now_ms);
    CentralStep {
        state: CentralState::Scanning { deadline_ms },
        op: CentralOp::Scan { until_ms: deadline_ms },
        indication: Some(IndicationStyle::BlinkFast),
        link_present: if link_was_up {
            Some(false)
        } else {
            None
        },
        sample: None,
        error,
    }
}

impl CentralState {
    /// What to publish when the role is abandoned in this state, say
    /// because the battery ran low: the link goes down if it was up.
    pub fn on_abandon(&self) -> (r: Option<bool>)
        ensures
            r == if link_up(*self) {
                Some(false)
            } else {
                None
            },
    {
        match self {
            CentralState::Discovering | CentralState::EnablingNotifications
            | CentralState::Subscribed => Some(false),
            _ => None,
        }
    }

    /// What to do on event `e`, reported at time `now_ms`.
    ///
    /// A scan runs until its deadline, `SCAN_TIMEOUT_MS` after it started;
    /// a failed scan is retried after `SCAN_RETRY_DELAY_MS` within the same
    /// deadline. A found controller is connected to by its address alone;
    /// the link is then encrypted, or paired when no keys are stored, and
    /// any other encryption failure drops it. Once the link is up its input
    /// reports are published, and the panic button resets the device. Every
    /// failure, and every loss of the link, starts a new scan; the link is
    /// published as down when it had been published as up.
    pub fn step(&self, e: CentralEvent, now_ms: u64) -> (r: CentralStep)
        ensures
            r == central_next(*self, e, now_ms),
    {
        let unchanged = quiet_step(*self, CentralOp::Continue);
        match *self {
            CentralState::Idle => match e {
                CentralEvent::Start => rescan_step(now_ms, false, None),
                _ => unchanged,
            },
            CentralState::Scanning { deadline_ms } => match e {
                CentralEvent::ScanFound(addr) => CentralStep {
                    indication: Some(IndicationStyle::BlinkSlow),
                    ..quiet_step(CentralState::Connecting, CentralOp::Connect(addr))
                },
                CentralEvent::ScanFailed => if now_ms >= deadline_ms {
                    rescan_step(now_ms, false, None)
                } else {
                    quiet_step(
                        CentralState::ScanBackoff { deadline_ms },
                        CentralOp::Wait { ms: SCAN_RETRY_DELAY_MS },
                    )
                },
                CentralEvent::ScanTimedOut => if now_ms >= deadline_ms {
                    rescan_step(now_ms, false, None)
                } else {
                    unchanged
                },
                _ => unchanged,
            },
            CentralState::ScanBackoff { deadline_ms } => match e {
                CentralEvent::BackoffElapsed => if now_ms >= deadline_ms {
                    rescan_step(now_ms, false, None)
                } else {
                    CentralStep {
                        indication: Some(IndicationStyle::BlinkFast),
                        ..quiet_step(
                            CentralState::Scanning { deadline_ms },
                            CentralOp::Scan { until_ms: deadline_ms },
                        )
                    }
                },
                CentralEvent::ScanTimedOut => if now_ms >= deadline_ms {
                    rescan_step(now_ms, false, None)
                } else {
                    unchanged
                },
                _ => unchanged,
            },
            CentralState::Connecting => match e {
                CentralEvent::Connected => quiet_step(CentralState::Encrypting, CentralOp::Encrypt),
                CentralEvent::ConnectFailed | CentralEvent::Disconnected => rescan_step(
                    now_ms,
                    false,
                    Some(BleError::ConnectError),
                ),
                _ => unchanged,
            },
            CentralState::Encrypting => match e {
                CentralEvent::Encrypted => CentralStep {
                    link_present: Some(true),
                    ..quiet_step(CentralState::Discovering, CentralOp::Discover)
                },
                CentralEvent::EncryptFailed(EncryptFailure::PeerKeysNotFound) => quiet_step(
                    CentralState::Pairing,
                    CentralOp::RequestPairing,
                ),
                CentralEvent::EncryptFailed(EncryptFailure::Other)
                | CentralEvent::Disconnected => rescan_step(
                    now_ms,
                    false,
                    Some(BleError::Encryption),
                ),
                _ => unchanged,
            },
            CentralState::Pairing => match e {
                CentralEvent::PairingDone => CentralStep {
                    link_present: Some(true),
                    ..quiet_step(CentralState::Discovering, CentralOp::Discover)
                },
                CentralEvent::Disconnected => rescan_step(
                    now_ms,
                    false,
                    Some(BleError::Encryption),
                ),
                _ => unchanged,
            },
            CentralState::Discovering => match e {
                CentralEvent::Discovered => quiet_step(
                    CentralState::EnablingNotifications,
                    CentralOp::EnableNotifications,
                ),
                CentralEvent::DiscoverFailed => rescan_step(
                    now_ms,
                    true,
                    Some(BleError::DiscoveryError),
                ),
                CentralEvent::Disconnected => rescan_step(now_ms, true, None),
                _ => unchanged,
            },
            CentralState::EnablingNotifications => match e {
                CentralEvent::NotificationsEnabled => CentralStep {
                    indication: Some(IndicationStyle::Disabled),
                    ..quiet_step(CentralState::Subscribed, CentralOp::Receive)
                },
                CentralEvent::EnableNotificationsFailed => rescan_step(
                    now_ms,
                    true,
                    Some(BleError::WriteError),
                ),
                CentralEvent::Disconnected => rescan_step(now_ms, true, None),
                _ => unchanged,
            },
            CentralState::Subscribed => match e {
                CentralEvent::Report(j) => if j.buttons.contains(BUTTON_RB) {
                    quiet_step(CentralState::Subscribed, CentralOp::Reset)
                } else {
                    CentralStep {
                        sample: Some(j),
                        ..quiet_step(CentralState::Subscribed, CentralOp::Receive)
                    }
                },
                CentralEvent::Disconnected => rescan_step(now_ms, true, None),
                _ => unchanged,
            },
        }
    }
}

/// The deadline of the scan in progress.
pub open spec fn deadline_of(s: CentralState) -> u64 {
    match s {
        CentralState::Scanning { deadline_ms } => deadline_ms,
        CentralState::ScanBackoff { deadline_ms } => deadline_ms,
        _ => 0,
    }
}

/// The state after a sequence of events, each with the time it was reported.
pub open spec fn central_run(s: CentralState, evs: Seq<(CentralEvent, u64)>) -> CentralState
    decreases evs.len(),
{
    if evs.len() == 0 {
        s
    } else {
        central_run(central_next(s, evs[0].0, evs[0].1).state, evs.drop_first())
    }
}

/// While no controller is found, scanning never ends: each event either
/// keeps the scan in progress, with its deadline, or, once the deadline has
/// passed, gives the scan up and starts a new one whose deadline lies
/// `SCAN_TIMEOUT_MS` later (saturating). A scan is given up only at or after
/// its deadline.
pub proof fn lemma_scan_restarts_after_timeout(s: CentralState, e: CentralEvent, now_ms: u64)
    requires
        is_scanning(s),
        !(e is ScanFound),
    ensures
        is_scanning(central_next(s, e, now_ms).state),
        deadline_of(central_next(s, e, now_ms).state) != deadline_of(s) ==> now_ms >= deadline_of(s),
        now_ms >= deadline_of(s) && (e is ScanTimedOut || (s is Scanning && e is ScanFailed) || (
        s is ScanBackoff && e is BackoffElapsed)) ==> central_next(s, e, now_ms) == rescan(now_ms, false, None),
        now_ms < deadline_of(s) ==> deadline_of(central_next(s, e, now_ms).state) == deadline_of(s),
        central_next(s, e, now_ms).op != CentralOp::Reset,
        now_ms as int + SCAN_TIMEOUT_MS as int <= u64::MAX as int ==> scan_deadline(now_ms)
            == now_ms + SCAN_TIMEOUT_MS,
{
}

/// A run of events in which no controller is found never leaves scanning.
pub proof fn lemma_scanning_never_ends(s: CentralState, evs: Seq<(CentralEvent, u64)>)
    requires
        is_scanning(s),
        forall|k: int| 0 <= k < evs.len() ==> !((#[trigger] evs[k]).0 is ScanFound),
    ensures
        is_scanning(central_run(s, evs)),
    decreases evs.len(),
{
    if evs.len() > 0 {
        let rest = evs.drop_first();
        lemma_scan_restarts_after_timeout(s, evs[0].0, evs[0].1);
        assert forall|k: int| 0 <= k < rest.len() implies !((#[trigger] rest[k]).0 is ScanFound) by {
            assert(rest[k] == evs[k + 1]);
        }
        lemma_scanning_never_ends(central_next(s, evs[0].0, evs[0].1).state, rest);
    }
}

/// Only the panic button resets the device; every other event leads to more
/// radio work or to waiting, so the role never stops by itself.
pub proof fn lemma_only_panic_button_resets(s: CentralState, e: CentralEvent, now_ms: u64)
    ensures
        central_next(s, e, now_ms).op == CentralOp::Reset <==> (s is Subscribed && e is Report
            && panic_pressed(e->Report_0)),
{
}

} // verus!
