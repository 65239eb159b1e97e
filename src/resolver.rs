//! Waiting for the network configuration that DHCP assigns.
use vstd::prelude::*;

use crate::policy::DHCP_POLL_INTERVAL_MS;

verus! {

/// The assigned configuration: address and prefix length, gateway and
/// name servers, each IPv4 address a big-endian `u32`.
#[derive(Debug, PartialEq, Eq)]
pub struct NetworkConfig {
    pub address: u32,
    pub prefix_len: u8,
    pub gateway: Option<u32>,
    pub dns_servers: Vec<u32>,
}

/// What the caller is to do after a poll.
#[derive(Clone, Copy, Debug, PartialEq, Eq, Structural)]
pub enum ResolverAction {
    /// Sleep this many milliseconds, then poll again.
    Sleep(u64),
    /// The configuration is up: stop polling.
    Ready,
}

/// Polls the stack's readiness on a fixed interval and keeps the snapshot
/// read once it is ready. A missing snapshot is not an error: the session
/// loop goes ahead and its attempts fail until the network is configured.
#[derive(Debug)]
pub struct AddressResolver {
    pub waited_ms: u64,
    pub ready: bool,
    pub config: Option<NetworkConfig>,
}

/// One poll. Until the configuration is up, each poll asks for one more
/// interval of sleep and counts it as waited (saturating at `u64::MAX`);
/// once it is up the resolver is ready for good.
pub open spec fn poll_next(waited_ms: u64, ready: bool, config_up: bool) -> (u64, bool, ResolverAction) {
    if ready || config_up {
        (waited_ms, true, ResolverAction::Ready)
    } else {
        let w = if waited_ms + DHCP_POLL_INTERVAL_MS <= u64::MAX {
            (waited_ms + DHCP_POLL_INTERVAL_MS) as u64
        } else {
            u64::MAX
        };
        (w, false, ResolverAction::Sleep(DHCP_POLL_INTERVAL_MS))
    }
}

/// Waited time and readiness after a run of polls that saw `ups` in turn.
pub open spec fn after_polls(waited_ms: u64, ready: bool, ups: Seq<bool>) -> (u64, bool)
    decreases ups.len(),
{
    if ups.len() == 0 {
        (waited_ms, ready)
    } else {
        let (w, r, _) = poll_next(waited_ms, ready, ups[0]);
        after_polls(w, r, ups.drop_first())
    }
}

/// `n` polls that find the configuration down followed by one that finds it up.
pub open spec fn down_then_up(n: nat) -> Seq<bool> {
    Seq::new(n, |i: int| false).push(true)
}

proof fn lemma_down_then_up_from(w: u64, n: nat)
    requires
        w + n * DHCP_POLL_INTERVAL_MS <= u64::MAX,
    ensures
        after_polls(w, false, down_then_up(n)) == ((w + n * DHCP_POLL_INTERVAL_MS) as u64, true),
    decreases n,
{
    if n > 0 {
        let w1 = (w + DHCP_POLL_INTERVAL_MS) as u64;
        assert(down_then_up(n).drop_first() =~= down_then_up((n - 1) as nat));
        assert(down_then_up(n)[0] == false);
        assert(w + DHCP_POLL_INTERVAL_MS <= w + n * DHCP_POLL_INTERVAL_MS) by (nonlinear_arith)
            requires
                n > 0,
        ;
        assert(w1 + (n - 1) * DHCP_POLL_INTERVAL_MS == w + n * DHCP_POLL_INTERVAL_MS) by (nonlinear_arith)
            requires
                w1 == w + DHCP_POLL_INTERVAL_MS,
                n > 0,
        ;
        lemma_down_then_up_from(w1, (n - 1) as nat);
    } else {
        assert(down_then_up(0)[0]);
        assert(down_then_up(0).drop_first() =~= Seq::<bool>::empty());
        assert(after_polls(w, true, Seq::<bool>::empty()) == (w, true));
    }
}

/// A fresh resolver whose stack reports the configuration down for `n` polls
/// and then up has waited exactly `n` poll intervals when it turns ready.
pub proof fn lemma_wait_for_config(n: nat)
    requires
        n * DHCP_POLL_INTERVAL_MS <= u64::MAX,
    ensures
        after_polls(0, false, down_then_up(n)) == ((n * DHCP_POLL_INTERVAL_MS) as u64, true),
{
    lemma_down_then_up_from(0, n);
}

impl AddressResolver {
    /// A resolver that has not polled yet.
    pub fn new() -> (r: AddressResolver)
        ensures
            r.waited_ms == 0,
            !r.ready,
            r.config.is_none(),
    {
        AddressResolver { waited_ms: 0, ready: false, config: None }
    }

    /// One poll of the readiness predicate: see `poll_next`.
    pub fn poll(&mut self, config_up: bool) -> (r: ResolverAction)
        ensures
            final(self).config == old(self).config,
            (final(self).waited_ms, final(self).ready, r) == poll_next(
                old(self).waited_ms,
                old(self).ready,
                config_up,
            ),
    {
        if self.ready || config_up {
            self.ready = true;
            ResolverAction::Ready
        } else {
            self.waited_ms = self.waited_ms.saturating_add(DHCP_POLL_INTERVAL_MS);
            ResolverAction::Sleep(DHCP_POLL_INTERVAL_MS)
        }
    }

    /// Keeps the snapshot read from the stack, present or not.
    pub fn record_config(&mut self, config: Option<NetworkConfig>)
        ensures
            final(self).config == config,
            final(self).ready == old(self).ready,
            final(self).waited_ms == old(self).waited_ms,
    {
        self.config = config;
    }

    /// The snapshot last recorded, or `None`.
    pub fn get_config(&self) -> (r: &Option<NetworkConfig>)
        ensures
            *r == self.config,
    {
        &self.config
    }
}

} // verus!
