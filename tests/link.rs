use tcp_node::{
    LinkAction, LinkEvent, LinkManager, LinkState, LinkStep, Role, JOIN_STATUS_REPORT_LIMIT,
    LINK_RETRY_BACKOFF_MS, RADIO_CHANNEL,
};

fn started(role: Role) -> LinkManager {
    let mut m = LinkManager::new(role);
    let first = m.begin();
    assert_eq!(first.action, LinkAction::StartRadio { channel: 5 });
    assert_eq!(first.indicator, Some(false));
    assert_eq!(RADIO_CHANNEL, 5);
    let next = m.step(LinkEvent::RadioStarted);
    assert_eq!(next.action, LinkAction::Join);
    m
}

#[test]
fn responder_low_status_is_reported_and_toggles_indicator() {
    let mut m = started(Role::Responder);
    let r = m.step(LinkEvent::JoinFailed(1));
    assert_eq!(r, LinkStep { action: LinkAction::Join, indicator: Some(true), report: true });
    assert!(m.indicator);
    let r = m.step(LinkEvent::JoinFailed(15));
    assert_eq!(r, LinkStep { action: LinkAction::Join, indicator: Some(false), report: true });
    let r = m.step(LinkEvent::JoinFailed(0));
    assert_eq!(r, LinkStep { action: LinkAction::Join, indicator: Some(true), report: true });
    assert_eq!(m.state, LinkState::Starting);
}

#[test]
fn responder_high_status_is_retried_silently() {
    let mut m = started(Role::Responder);
    let before = m;
    for status in [JOIN_STATUS_REPORT_LIMIT, 17, 255, u32::MAX] {
        let r = m.step(LinkEvent::JoinFailed(status));
        assert_eq!(r, LinkStep { action: LinkAction::Join, indicator: None, report: false });
        assert_eq!(m, before);
    }
}

#[test]
fn initiator_waits_after_failed_join() {
    let mut m = started(Role::Initiator);
    let r = m.step(LinkEvent::JoinFailed(0));
    assert_eq!(r.action, LinkAction::Sleep(5000));
    assert!(r.report);
    assert_eq!(r.indicator, None);
    let r = m.step(LinkEvent::BackoffElapsed);
    assert_eq!(r.action, LinkAction::Join);
    assert_eq!(m.state, LinkState::Starting);
}

#[test]
fn link_loss_leads_back_to_join() {
    let mut m = started(Role::Initiator);
    let r = m.step(LinkEvent::Joined);
    assert_eq!(r.action, LinkAction::WaitForLinkLoss);
    assert_eq!(r.indicator, Some(true));
    assert!(m.indicator);
    assert_eq!(m.state, LinkState::Connected);
    let r = m.step(LinkEvent::LinkLost);
    assert_eq!(r.action, LinkAction::Sleep(LINK_RETRY_BACKOFF_MS));
    assert_eq!(r.indicator, Some(false));
    assert_eq!(m.state, LinkState::Disconnected);
    let r = m.step(LinkEvent::BackoffElapsed);
    assert_eq!(r.action, LinkAction::Join);
    assert_eq!(m.state, LinkState::Starting);
    assert!(m.radio_started);
}

#[test]
fn unexpected_event_repeats_pending_action() {
    let mut m = started(Role::Responder);
    m.step(LinkEvent::Joined);
    let r = m.step(LinkEvent::Joined);
    assert_eq!(r, LinkStep { action: LinkAction::WaitForLinkLoss, indicator: None, report: false });
    assert_eq!(m.state, LinkState::Connected);
}

#[test]
fn first_event_on_fresh_manager_starts_radio() {
    let mut m = LinkManager::new(Role::Responder);
    let r = m.step(LinkEvent::BackoffElapsed);
    assert_eq!(r.action, LinkAction::StartRadio { channel: RADIO_CHANNEL });
    assert_eq!(r.indicator, Some(false));
    assert_eq!(m.state, LinkState::Starting);
}

#[test]
fn silent_failures_do_not_disturb_toggle() {
    let mut m = started(Role::Responder);
    assert_eq!(m.step(LinkEvent::JoinFailed(2)).indicator, Some(true));
    assert_eq!(m.step(LinkEvent::JoinFailed(40)).indicator, None);
    assert_eq!(m.step(LinkEvent::JoinFailed(2)).indicator, Some(false));
}
