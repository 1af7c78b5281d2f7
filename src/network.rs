//! Network supervision: the parameters the network worker is built from,
//! the bridge from transaction-pool imports to network propagation, and the
//! telemetry records that describe the node.
use crate::config::{Configuration, Role};
use crate::status_sinks::{open_channel, try_deliver, Slot, StatusSinks};
use sp_utils::mpsc::{TracingUnboundedReceiver, TracingUnboundedSender};
use vstd::prelude::*;

verus! {

/// A 256-bit hash of a block or a transaction.
pub type Hash = [u8; 32];

/// The protocol identifier used when the chain spec names none.
pub const DEFAULT_PROTOCOL_ID: &'static str = "sup";

/// Interval, in milliseconds, at which node status is forwarded to telemetry.
pub const TELEMETRY_STATUS_INTERVAL_MS: u64 = 5000;

/// Interval, in milliseconds, at which the network state is forwarded to
/// telemetry.
pub const NETWORK_STATE_INTERVAL_MS: u64 = 30000;

/// The block-announce validator the network is given.
#[derive(Clone, Copy, PartialEq, Eq, Debug)]
pub enum AnnounceValidator {
    /// The one the integrator's builder makes from the client.
    Custom,
    /// The permissive default.
    Default,
}

/// What the network worker is built from.
#[derive(Clone, Debug)]
pub struct NetworkPlan {
    pub role: Role,
    pub protocol_id: String,
    /// Whether the pool adapter accepts transactions announced by peers.
    pub imports_external_transactions: bool,
    pub block_announce_validator: AnnounceValidator,
    pub has_bootnodes: bool,
    pub announce_block: bool,
    pub with_metrics: bool,
    pub with_on_demand: bool,
    pub with_finality_proof_provider: bool,
    pub with_finality_proof_request_builder: bool,
}

pub open spec fn spec_protocol_id(configured: Option<String>) -> Seq<char> {
    match configured {
        Some(p) => p@,
        None => DEFAULT_PROTOCOL_ID@,
    }
}

/// The protocol identifier: the chain spec's, else the default. The flag says
/// whether the default was taken, which deserves a warning.
pub fn resolve_protocol_id(configured: &Option<String>) -> (r: (String, bool))
    ensures
        r.0@ == spec_protocol_id(*configured),
        r.1 == configured.is_none(),
{
    match configured {
        Some(p) => (p.clone(), false),
        None => (String::from_str(DEFAULT_PROTOCOL_ID), true),
    }
}

/// Facts about the assembled parts that the network plan depends on.
#[derive(Clone, Copy, PartialEq, Eq, Debug)]
pub struct NetworkInputs {
    pub custom_block_announce_validator: bool,
    pub with_on_demand: bool,
    pub with_finality_proof_provider: bool,
    pub with_finality_proof_request_builder: bool,
}

pub open spec fn spec_network_plan(c: Configuration, i: NetworkInputs, protocol_id: String) -> NetworkPlan {
    NetworkPlan {
        role: c.role,
        protocol_id,
        imports_external_transactions: !c.role.spec_is_light(),
        block_announce_validator: if i.custom_block_announce_validator {
            AnnounceValidator::Custom
        } else {
            AnnounceValidator::Default
        },
        has_bootnodes: c.boot_nodes@.len() > 0,
        announce_block: c.announce_block,
        with_metrics: c.prometheus_config.is_some(),
        with_on_demand: i.with_on_demand,
        with_finality_proof_provider: i.with_finality_proof_provider,
        with_finality_proof_request_builder: i.with_finality_proof_request_builder,
    }
}

/// The parameters of the network worker. The second result says whether the
/// default protocol identifier was taken.
pub fn network_plan(config: &Configuration, inputs: NetworkInputs) -> (r: (NetworkPlan, bool))
    ensures
        r.0 == spec_network_plan(*config, inputs, r.0.protocol_id),
        r.0.protocol_id@ == spec_protocol_id(config.protocol_id),
        r.1 == config.protocol_id.is_none(),
{
    let (protocol_id, defaulted) = resolve_protocol_id(&config.protocol_id);
    let plan = NetworkPlan {
        role: config.role,
        protocol_id,
        imports_external_transactions: !config.role.is_light(),
        block_announce_validator: if inputs.custom_block_announce_validator {
            AnnounceValidator::Custom
        } else {
            AnnounceValidator::Default
        },
        has_bootnodes: config.boot_nodes.len() > 0,
        announce_block: config.announce_block,
        with_metrics: config.prometheus_config.is_some(),
        with_on_demand: inputs.with_on_demand,
        with_finality_proof_provider: inputs.with_finality_proof_provider,
        with_finality_proof_request_builder: inputs.with_finality_proof_request_builder,
    };
    (plan, defaulted)
}

/// What the bridge from the pool to the network does, in order.
#[derive(Clone, Copy, PartialEq, Eq, Debug)]
pub enum BridgeAction {
    /// Ask the network to gossip the transaction with this hash.
    Propagate(Hash),
    /// Report the pool's ready and future counts to telemetry.
    ReportPoolStatus,
}

pub open spec fn spec_on_imported(hash: Hash) -> Seq<BridgeAction> {
    seq![BridgeAction::Propagate(hash), BridgeAction::ReportPoolStatus]
}

/// The actions for one import notification of the pool.
pub fn on_transaction_imported(hash: Hash) -> (r: Vec<BridgeAction>)
    ensures
        r@ == spec_on_imported(hash),
{
    let mut r: Vec<BridgeAction> = Vec::new();
    r.push(BridgeAction::Propagate(hash));
    r.push(BridgeAction::ReportPoolStatus);
    proof {
        assert(r@ =~= spec_on_imported(hash));
    }
    r
}

pub open spec fn spec_bridge(hashes: Seq<Hash>) -> Seq<BridgeAction>
    decreases hashes.len(),
{
    if hashes.len() == 0 {
        Seq::empty()
    } else {
        spec_bridge(hashes.drop_last()) + spec_on_imported(hashes.last())
    }
}

/// The hashes that a run of bridge actions propagates, in order.
pub open spec fn propagated(actions: Seq<BridgeAction>) -> Seq<Hash>
    decreases actions.len(),
{
    if actions.len() == 0 {
        Seq::empty()
    } else {
        let rest = propagated(actions.drop_last());
        match actions.last() {
            BridgeAction::Propagate(h) => rest.push(h),
            BridgeAction::ReportPoolStatus => rest,
        }
    }
}

/// The actions for a run of import notifications, one after another.
pub fn transaction_notifications(hashes: &Vec<Hash>) -> (r: Vec<BridgeAction>)
    ensures
        r@ == spec_bridge(hashes@),
{
    let mut r: Vec<BridgeAction> = Vec::new();
    let mut i: usize = 0;
    while i < hashes.len()
        invariant
            i <= hashes@.len(),
            r@ == spec_bridge(hashes@.take(i as int)),
        decreases hashes@.len() - i,
    {
        let step = on_transaction_imported(hashes[i]);
        r.push(step[0]);
        r.push(step[1]);
        proof {
            let t = hashes@.take(i as int + 1);
            assert(t.drop_last() =~= hashes@.take(i as int));
            assert(r@ =~= spec_bridge(hashes@.take(i as int)) + spec_on_imported(hashes@[i as int]));
        }
        i = i + 1;
    }
    proof {
        assert(hashes@.take(hashes@.len() as int) =~= hashes@);
    }
    r
}

proof fn lemma_propagated_concat(a: Seq<BridgeAction>, b: Seq<BridgeAction>)
    ensures
        propagated(a + b) == propagated(a) + propagated(b),
    decreases b.len(),
{
    if b.len() == 0 {
        assert(a + b =~= a);
        assert(propagated(a) + propagated(b) =~= propagated(a));
    } else {
        lemma_propagated_concat(a, b.drop_last());
        assert((a + b).drop_last() =~= a + b.drop_last());
        assert((a + b).last() == b.last());
        match b.last() {
            BridgeAction::Propagate(h) => {
                assert(propagated(a) + propagated(b) =~= (propagated(a) + propagated(
                    b.drop_last(),
                )).push(h));
            },
            BridgeAction::ReportPoolStatus => {},
        }
    }
}

/// The bridge propagates exactly the notified hashes, each once per
/// notification, in the order the pool reported them.
pub proof fn lemma_bridge_propagates_in_order(hashes: Seq<Hash>)
    ensures
        propagated(spec_bridge(hashes)) == hashes,
    decreases hashes.len(),
{
    if hashes.len() > 0 {
        lemma_bridge_propagates_in_order(hashes.drop_last());
        lemma_propagated_concat(spec_bridge(hashes.drop_last()), spec_on_imported(hashes.last()));
        let one = spec_on_imported(hashes.last());
        let first = seq![BridgeAction::Propagate(hashes.last())];
        assert(one.drop_last() =~= first);
        assert(first.drop_last() =~= Seq::<BridgeAction>::empty());
        assert(first.last() == BridgeAction::Propagate(hashes.last()));
        assert(propagated(first.drop_last()) == Seq::<Hash>::empty());
        assert(propagated(first) =~= seq![hashes.last()]);
        assert(propagated(one) =~= seq![hashes.last()]);
        assert(hashes.drop_last().push(hashes.last()) =~= hashes);
    }
}

/// Subscribes the periodic status report to telemetry, every
/// `TELEMETRY_STATUS_INTERVAL_MS` from `now_ms`.
pub fn telemetry_periodic_send<T: Clone>(
    sinks: &mut StatusSinks<T>,
    now_ms: u64,
    sender: TracingUnboundedSender<T>,
)
    ensures
        final(sinks)@ == old(sinks)@.push(
            Slot { interval_ms: TELEMETRY_STATUS_INTERVAL_MS, last_ms: now_ms },
        ),
{
    sinks.push_at(TELEMETRY_STATUS_INTERVAL_MS, now_ms, sender);
}

/// Subscribes the periodic network-state report to telemetry, every
/// `NETWORK_STATE_INTERVAL_MS` from `now_ms`.
pub fn telemetry_periodic_network_state<T: Clone>(
    sinks: &mut StatusSinks<T>,
    now_ms: u64,
    sender: TracingUnboundedSender<T>,
)
    ensures
        final(sinks)@ == old(sinks)@.push(
            Slot { interval_ms: NETWORK_STATE_INTERVAL_MS, last_ms: now_ms },
        ),
{
    sinks.push_at(NETWORK_STATE_INTERVAL_MS, now_ms, sender);
}

/// Interval, in milliseconds, at which the informant shows node status.
pub const INFORMANT_INTERVAL_MS: u64 = 5000;

/// The receiving ends of the node's standing status subscriptions.
#[verifier::reject_recursive_types(T)]
pub struct StatusReceivers<T> {
    pub telemetry: TracingUnboundedReceiver<T>,
    pub network_state: TracingUnboundedReceiver<T>,
    pub informant: TracingUnboundedReceiver<T>,
}

pub open spec fn spec_standing_subscriptions() -> Seq<Slot> {
    seq![
        Slot { interval_ms: TELEMETRY_STATUS_INTERVAL_MS, last_ms: 0 },
        Slot { interval_ms: NETWORK_STATE_INTERVAL_MS, last_ms: 0 },
        Slot { interval_ms: INFORMANT_INTERVAL_MS, last_ms: 0 },
    ]
}

/// The node's one network-status registry, which the network worker
/// updates: from its creation on, telemetry receives status every
/// `TELEMETRY_STATUS_INTERVAL_MS`, the network state every
/// `NETWORK_STATE_INTERVAL_MS`, and the informant every
/// `INFORMANT_INTERVAL_MS`.
pub fn network_status_sinks<T: Clone>() -> (r: (StatusSinks<T>, StatusReceivers<T>))
    ensures
        r.0@ == spec_standing_subscriptions(),
{
    let mut sinks: StatusSinks<T> = StatusSinks::new();
    let (telemetry_tx, telemetry) = open_channel("mpsc_netstat1");
    let (state_tx, network_state) = open_channel("mpsc_netstat2");
    let (informant_tx, informant) = open_channel("mpsc_informant");
    telemetry_periodic_send(&mut sinks, 0, telemetry_tx);
    telemetry_periodic_network_state(&mut sinks, 0, state_tx);
    sinks.push_at(INFORMANT_INTERVAL_MS, 0, informant_tx);
    proof {
        assert(sinks@ =~= spec_standing_subscriptions());
    }
    (sinks, StatusReceivers { telemetry, network_state, informant })
}

/// The record sent to telemetry when a connection is established.
#[derive(Clone, Debug)]
pub struct SystemConnected {
    pub name: String,
    pub implementation: String,
    pub version: String,
    pub config: String,
    pub chain: String,
    pub genesis_hash: Hash,
    pub authority: bool,
    pub startup_time: u128,
    pub network_id: String,
}

pub open spec fn spec_system_connected(
    c: Configuration,
    genesis_hash: Hash,
    startup_time: Option<u128>,
    network_id: String,
    config_text: String,
) -> SystemConnected {
    SystemConnected {
        name: c.node_name,
        implementation: c.impl_name,
        version: c.impl_version,
        config: config_text,
        chain: c.chain_name,
        genesis_hash,
        authority: c.role.spec_is_authority(),
        startup_time: match startup_time {
            Some(t) => t,
            None => 0,
        },
        network_id,
    }
}

/// The connection record of this node. A genesis hash the client could not
/// give becomes all zeros; a clock that could not be read gives a startup time
/// of zero.
pub fn system_connected(
    config: &Configuration,
    genesis_hash: Option<Hash>,
    startup_time: Option<u128>,
    network_id: String,
) -> (r: SystemConnected)
    ensures
        r == spec_system_connected(*config, r.genesis_hash, startup_time, network_id, r.config),
        genesis_hash is Some ==> r.genesis_hash == genesis_hash.unwrap(),
        genesis_hash is None ==> r.genesis_hash@ == Seq::new(32, |i: int| 0u8),
        r.config@.len() == 0,
{
    SystemConnected {
        name: config.node_name.clone(),
        implementation: config.impl_name.clone(),
        version: config.impl_version.clone(),
        config: String::new(),
        chain: config.chain_name.clone(),
        genesis_hash: match genesis_hash {
            Some(h) => h,
            None => [0u8; 32],
        },
        authority: config.role.is_authority(),
        startup_time: match startup_time {
            Some(t) => t,
            None => 0,
        },
        network_id,
    }
}

/// The elements of `s` whose mark in `kept` is set, in order.
pub open spec fn retained<A>(s: Seq<A>, kept: Seq<bool>) -> Seq<A>
    decreases s.len(),
{
    if s.len() == 0 {
        Seq::empty()
    } else {
        let rest = retained(s.drop_last(), kept.take(s.len() - 1));
        if kept[s.len() - 1] {
            rest.push(s.last())
        } else {
            rest
        }
    }
}

/// Keeps the sinks whose mark in `send_ok` is set, in order: a connection
/// subscriber stays exactly when the notification to it went through.
pub fn retain_reachable(
    sinks: &mut Vec<TracingUnboundedSender<()>>,
    send_ok: &Vec<bool>,
)
    requires
        send_ok@.len() == old(sinks)@.len(),
    ensures
        final(sinks)@ == retained(old(sinks)@, send_ok@),
{
    let ghost orig = sinks@;
    let mut pending: Vec<TracingUnboundedSender<()>> = Vec::new();
    std::mem::swap(&mut pending, sinks);
    let n = send_ok.len();
    let mut i: usize = 0;
    proof {
        assert(orig.take(0) =~= Seq::<TracingUnboundedSender<()>>::empty());
        assert(sinks@ =~= Seq::<TracingUnboundedSender<()>>::empty());
    }
    while pending.len() > 0
        invariant
            i + pending@.len() == orig.len(),
            send_ok@.len() == orig.len(),
            n == send_ok@.len(),
            pending@ == orig.skip(i as int),
            sinks@ == retained(orig.take(i as int), send_ok@.take(i as int)),
        decreases pending@.len(),
    {
        let sink = pending.remove(0);
        assert(sink == orig[i as int]);
        if send_ok[i] {
            sinks.push(sink);
        }
        proof {
            assert(pending@ =~= orig.skip(i + 1));
            assert(orig.take(i + 1).drop_last() =~= orig.take(i as int));
            assert(orig.take(i + 1).last() == orig[i as int]);
            assert(send_ok@.take(i + 1).take(i as int) =~= send_ok@.take(i as int));
        }
        i = i + 1;
    }
    proof {
        assert(orig.take(orig.len() as int) =~= orig);
        assert(send_ok@.take(orig.len() as int) =~= send_ok@);
    }
}

/// Tells every connection subscriber that telemetry connected, and keeps
/// exactly those the notification reached. The result marks, for each
/// subscriber before the call, whether the send to it succeeded.
pub fn notify_connected(sinks: &mut Vec<TracingUnboundedSender<()>>) -> (send_ok: Vec<bool>)
    ensures
        send_ok@.len() == old(sinks)@.len(),
        final(sinks)@ == retained(old(sinks)@, send_ok@),
{
    let mut send_ok: Vec<bool> = Vec::new();
    let mut i: usize = 0;
    while i < sinks.len()
        invariant
            i <= sinks@.len(),
            send_ok@.len() == i,
        decreases sinks@.len() - i,
    {
        send_ok.push(try_deliver(&sinks[i], ()));
        i = i + 1;
    }
    retain_reachable(sinks, &send_ok);
    send_ok
}

} // verus!
