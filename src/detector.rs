//! The hysteresis detector: one stream state per CPU core and one for memory,
//! advanced together on every snapshot.
use vstd::prelude::*;
use vstd::string::StringExecFns;
use crate::config::Config;
use crate::stream::{StreamState, fresh_state, step_state, step_alerts, run, alert_at};
use crate::text::{decimal, tenths, push_decimal, push_tenths};

verus! {

/// A monitored metric.
#[derive(Clone, Copy, Debug, PartialEq, Eq, Structural)]
pub enum StreamId {
    Cpu(usize),
    Memory,
}

/// The readings of one tick.
#[derive(Clone, Debug, PartialEq, Eq)]
pub struct Snapshot {
    pub timestamp: String,
    pub hostname: String,
    /// Usage of each core in tenths of a percent, by core index.
    pub cpu_usages: Vec<u32>,
    pub memory_used: u64,
    pub memory_total: u64,
}

/// One alert raised by the detector.
#[derive(Clone, Debug, PartialEq, Eq)]
pub struct AlertEvent {
    pub stream_id: StreamId,
    pub timestamp: String,
    pub hostname: String,
    /// The core's usage in tenths of a percent, or the used memory.
    pub measured_value: u64,
    pub message: String,
}

/// Why a snapshot was not taken in.
#[derive(Clone, Copy, Debug, PartialEq, Eq)]
pub enum DetectError {
    /// The snapshot has another number of cores than the detector tracks.
    CoreCountChanged,
}

/// Relies on chrono's `Utc::now` and `DateTime::format`: the current UTC time
/// written as month-day-year and time of day. Nothing is claimed of the text.
#[verifier::external_body]
fn utc_timestamp() -> (r: String) {
    chrono::Utc::now().format("%m-%d-%y %T UTC").to_string()
}

impl Snapshot {
    /// A snapshot of the given readings, stamped with the current UTC time.
    pub fn taken_now(hostname: String, cpu_usages: Vec<u32>, memory_used: u64, memory_total: u64) -> (r: Snapshot)
        ensures
            r.hostname@ == hostname@,
            r.cpu_usages@ == cpu_usages@,
            r.memory_used == memory_used,
            r.memory_total == memory_total,
    {
        Snapshot { timestamp: utc_timestamp(), hostname, cpu_usages, memory_used, memory_total }
    }
}

/// Whether a core's usage breaches the CPU threshold.
pub open spec fn cpu_breaches(usage: u32, threshold: u32) -> bool {
    usage > threshold
}

/// Whether used memory is above `percent` percent of the total.
pub open spec fn mem_breaches(used: u64, total: u64, percent: u64) -> bool {
    used * 100 > total * percent
}

/// Whether a core's usage, in tenths of a percent, breaches the threshold.
pub fn cpu_breach(usage: u32, threshold: u32) -> (r: bool)
    ensures
        r == cpu_breaches(usage, threshold),
{
    usage > threshold
}

/// Whether used memory is above `percent` percent of the total, in exact
/// integer arithmetic.
pub fn mem_breach(used: u64, total: u64, percent: u64) -> (r: bool)
    ensures
        r == mem_breaches(used, total, percent),
{
    let t = total as u128;
    let p = percent as u128;
    proof {
        assert(t * p <= 0xffff_ffff_ffff_ffffu128 * 0xffff_ffff_ffff_ffffu128) by (nonlinear_arith)
            requires
                t <= 0xffff_ffff_ffff_ffffu128,
                p <= 0xffff_ffff_ffff_ffffu128,
        ;
    }
    (used as u128) * 100 > t * p
}

pub open spec fn cpu_message_text(ts: Seq<char>, host: Seq<char>, core: nat, usage: nat) -> Seq<char> {
    ts + " "@ + host + ": High CPU"@ + decimal(core) + " usage: "@ + tenths(usage) + "%"@
}

pub open spec fn mem_message_text(ts: Seq<char>, host: Seq<char>, percent: nat) -> Seq<char> {
    ts + " "@ + host + ": High memory usage: >"@ + decimal(percent) + "%"@
}

/// The value an alert of stream `id` reports for `snap`.
pub open spec fn measured(snap: Snapshot, id: StreamId) -> u64 {
    match id {
        StreamId::Cpu(i) => snap.cpu_usages@[i as int] as u64,
        StreamId::Memory => snap.memory_used,
    }
}

/// The message an alert of stream `id` carries for `snap`.
pub open spec fn message_text(snap: Snapshot, cfg: Config, id: StreamId) -> Seq<char> {
    match id {
        StreamId::Cpu(i) => cpu_message_text(
            snap.timestamp@,
            snap.hostname@,
            i as nat,
            snap.cpu_usages@[i as int] as nat,
        ),
        StreamId::Memory => mem_message_text(
            snap.timestamp@,
            snap.hostname@,
            cfg.mem_usage_threshold_percent as nat,
        ),
    }
}

/// The fields of an alert of stream `e.stream_id` raised on `snap`.
pub open spec fn event_fits(e: AlertEvent, snap: Snapshot, cfg: Config) -> bool {
    &&& e.timestamp@ == snap.timestamp@
    &&& e.hostname@ == snap.hostname@
    &&& e.measured_value == measured(snap, e.stream_id)
    &&& e.message@ == message_text(snap, cfg, e.stream_id)
}

/// The core streams after observing `usages`.
pub open spec fn next_cpus(cpus: Seq<StreamState>, usages: Seq<u32>, cfg: Config) -> Seq<StreamState> {
    Seq::new(
        cpus.len(),
        |i: int|
            step_state(
                cpus[i],
                cpu_breaches(usages[i], cfg.cpu_usage_threshold),
                cfg.cycles_for_alert,
                cfg.cycles_between_alert,
            ),
    )
}

/// The memory stream after observing `snap`.
pub open spec fn next_memory(mem: StreamState, snap: Snapshot, cfg: Config) -> StreamState {
    step_state(
        mem,
        mem_breaches(snap.memory_used, snap.memory_total, cfg.mem_usage_threshold_percent),
        cfg.cycles_for_alert,
        cfg.cycles_between_alert,
    )
}

/// The cores among the first `n` that alert on `usages`, by ascending index.
pub open spec fn cpu_alert_ids(cpus: Seq<StreamState>, usages: Seq<u32>, cfg: Config, n: int) -> Seq<
    StreamId,
>
    decreases n,
{
    if n <= 0 {
        seq![]
    } else {
        cpu_alert_ids(cpus, usages, cfg, n - 1) + if step_alerts(
            cpus[n - 1],
            cpu_breaches(usages[n - 1], cfg.cpu_usage_threshold),
            cfg.cycles_for_alert,
            cfg.cycles_between_alert,
        ) {
            seq![StreamId::Cpu((n - 1) as usize)]
        } else {
            seq![]
        }
    }
}

/// The streams that alert on `snap`: cores by ascending index, then memory.
pub open spec fn alert_ids(cpus: Seq<StreamState>, mem: StreamState, snap: Snapshot, cfg: Config) -> Seq<
    StreamId,
> {
    cpu_alert_ids(cpus, snap.cpu_usages@, cfg, cpus.len() as int) + if step_alerts(
        mem,
        mem_breaches(snap.memory_used, snap.memory_total, cfg.mem_usage_threshold_percent),
        cfg.cycles_for_alert,
        cfg.cycles_between_alert,
    ) {
        seq![StreamId::Memory]
    } else {
        seq![]
    }
}

/// The stream ids of a list of alerts.
pub open spec fn ids_of(events: Seq<AlertEvent>) -> Seq<StreamId> {
    events.map_values(|e: AlertEvent| e.stream_id)
}

/// `post` and `events` are what a detector in state `pre` becomes and raises
/// when it takes in `snap`.
pub open spec fn observed(pre: Detector, snap: Snapshot, post: Detector, events: Vec<AlertEvent>) -> bool {
    &&& post.config == pre.config
    &&& post.cpus@ == next_cpus(pre.cpus@, snap.cpu_usages@, pre.config)
    &&& post.memory == next_memory(pre.memory, snap, pre.config)
    &&& ids_of(events@) == alert_ids(pre.cpus@, pre.memory, snap, pre.config)
    &&& forall|k: int| 0 <= k < events@.len() ==> event_fits(#[trigger] events@[k], snap, pre.config)
}

/// The detector's state.
pub struct Detector {
    pub config: Config,
    pub cpus: Vec<StreamState>,
    pub memory: StreamState,
}

fn cpu_message(ts: &String, host: &String, core: usize, usage: u32) -> (r: String)
    ensures
        r@ == cpu_message_text(ts@, host@, core as nat, usage as nat),
{
    proof {
        reveal_strlit(" ");
        reveal_strlit(": High CPU");
        reveal_strlit(" usage: ");
        reveal_strlit("%");
    }
    let mut s = ts.clone();
    s.append(" ");
    s.append(host.as_str());
    s.append(": High CPU");
    push_decimal(&mut s, core as u64);
    s.append(" usage: ");
    push_tenths(&mut s, usage as u64);
    s.append("%");
    s
}

fn mem_message(ts: &String, host: &String, percent: u64) -> (r: String)
    ensures
        r@ == mem_message_text(ts@, host@, percent as nat),
{
    proof {
        reveal_strlit(" ");
        reveal_strlit(": High memory usage: >");
        reveal_strlit("%");
    }
    let mut s = ts.clone();
    s.append(" ");
    s.append(host.as_str());
    s.append(": High memory usage: >");
    push_decimal(&mut s, percent);
    s.append("%");
    s
}

impl Detector {
    /// A detector for `cpu_count` cores whose streams have observed nothing.
    pub fn new(config: Config, cpu_count: usize) -> (r: Detector)
        ensures
            r.config == config,
            r.cpus@ == Seq::new(cpu_count as nat, |i: int| fresh_state(config.cycles_between_alert)),
            r.memory == fresh_state(config.cycles_between_alert),
    {
        let mut cpus: Vec<StreamState> = Vec::new();
        let mut i: usize = 0;
        while i < cpu_count
            invariant
                i <= cpu_count,
                cpus@ == Seq::new(i as nat, |j: int| fresh_state(config.cycles_between_alert)),
            decreases cpu_count - i,
        {
            cpus.push(StreamState::fresh(config.cycles_between_alert));
            i = i + 1;
            assert(cpus@ =~= Seq::new(i as nat, |j: int| fresh_state(config.cycles_between_alert)));
        }
        Detector { config, cpus, memory: StreamState::fresh(config.cycles_between_alert) }
    }

    /// Advances every stream by one tick of `snap` and returns the alerts
    /// raised, cores by ascending index and then memory. A snapshot with
    /// another core count is refused and changes nothing.
    pub fn observe(&mut self, snap: &Snapshot) -> (r: Result<Vec<AlertEvent>, DetectError>)
        ensures
            snap.cpu_usages@.len() != old(self).cpus@.len() ==> r == Err::<Vec<AlertEvent>, DetectError>(
                DetectError::CoreCountChanged,
            ) && *final(self) == *old(self),
            snap.cpu_usages@.len() == old(self).cpus@.len() ==> r is Ok && observed(
                *old(self),
                *snap,
                *final(self),
                r->Ok_0,
            ),
    {
        if snap.cpu_usages.len() != self.cpus.len() {
            return Err(DetectError::CoreCountChanged);
        }
        let ghost pre = *self;
        let cfg = self.config;
        let n = self.cpus.len();
        let mut events: Vec<AlertEvent> = Vec::new();
        let mut i: usize = 0;
        while i < n
            invariant
                n == self.cpus@.len(),
                n == snap.cpu_usages@.len(),
                n == pre.cpus@.len(),
                i <= n,
                cfg == pre.config,
                self.config == pre.config,
                self.memory == pre.memory,
                forall|j: int|
                    0 <= j < i ==> #[trigger] self.cpus@[j] == next_cpus(pre.cpus@, snap.cpu_usages@, cfg)[j],
                forall|j: int| i <= j < n ==> #[trigger] self.cpus@[j] == pre.cpus@[j],
                ids_of(events@) == cpu_alert_ids(pre.cpus@, snap.cpu_usages@, cfg, i as int),
                forall|k: int| 0 <= k < events@.len() ==> event_fits(#[trigger] events@[k], *snap, cfg),
            decreases n - i,
        {
            let usage = snap.cpu_usages[i];
            let mut st = self.cpus[i];
            let alert = st.step(
                cpu_breach(usage, cfg.cpu_usage_threshold),
                cfg.cycles_for_alert,
                cfg.cycles_between_alert,
            );
            self.cpus[i] = st;
            let ghost before = events@;
            if alert {
                let msg = cpu_message(&snap.timestamp, &snap.hostname, i, usage);
                events.push(
                    AlertEvent {
                        stream_id: StreamId::Cpu(i),
                        timestamp: snap.timestamp.clone(),
                        hostname: snap.hostname.clone(),
                        measured_value: usage as u64,
                        message: msg,
                    },
                );
            }
            assert(ids_of(events@) =~= cpu_alert_ids(pre.cpus@, snap.cpu_usages@, cfg, i + 1)) by {
                assert(ids_of(before) =~= cpu_alert_ids(pre.cpus@, snap.cpu_usages@, cfg, i as int));
            }
            i = i + 1;
        }
        assert(self.cpus@ =~= next_cpus(pre.cpus@, snap.cpu_usages@, cfg));
        let ghost before = events@;
        let mut mem = self.memory;
        let alert = mem.step(
            mem_breach(snap.memory_used, snap.memory_total, cfg.mem_usage_threshold_percent),
            cfg.cycles_for_alert,
            cfg.cycles_between_alert,
        );
        self.memory = mem;
        if alert {
            let msg = mem_message(&snap.timestamp, &snap.hostname, cfg.mem_usage_threshold_percent);
            events.push(
                AlertEvent {
                    stream_id: StreamId::Memory,
                    timestamp: snap.timestamp.clone(),
                    hostname: snap.hostname.clone(),
                    measured_value: snap.memory_used,
                    message: msg,
                },
            );
        }
        assert(ids_of(events@) =~= alert_ids(pre.cpus@, pre.memory, *snap, cfg)) by {
            assert(ids_of(before) =~= cpu_alert_ids(pre.cpus@, snap.cpu_usages@, cfg, n as int));
        }
        Ok(events)
    }
}


/// The core and memory states reached from `(cpus, mem)` after the snapshots
/// `snaps`; a snapshot with another core count is passed over.
pub open spec fn model_after(cpus: Seq<StreamState>, mem: StreamState, cfg: Config, snaps: Seq<Snapshot>) -> (
    Seq<StreamState>,
    StreamState,
)
    decreases snaps.len(),
{
    if snaps.len() == 0 {
        (cpus, mem)
    } else {
        let (c, m) = model_after(cpus, mem, cfg, snaps.drop_last());
        let snap = snaps.last();
        if snap.cpu_usages@.len() == c.len() {
            (next_cpus(c, snap.cpu_usages@, cfg), next_memory(m, snap, cfg))
        } else {
            (c, m)
        }
    }
}

/// The streams that alert on tick `k` when the snapshots `snaps` are fed to a
/// detector in state `(cpus, mem)`.
pub open spec fn replay_ids(cpus: Seq<StreamState>, mem: StreamState, cfg: Config, snaps: Seq<Snapshot>, k: int) -> Seq<
    StreamId,
> {
    let (c, m) = model_after(cpus, mem, cfg, snaps.take(k));
    if snaps[k].cpu_usages@.len() == c.len() {
        alert_ids(c, m, snaps[k], cfg)
    } else {
        seq![]
    }
}

/// Feeds `snaps` in order to a fresh detector for `cpu_count` cores and
/// returns the alerts of each tick. The result depends on the configuration,
/// the core count and the snapshots alone, so replaying the same sequence
/// always yields the same alerts in the same order.
pub fn replay(config: Config, cpu_count: usize, snaps: &Vec<Snapshot>) -> (r: Vec<Vec<AlertEvent>>)
    ensures
        r@.len() == snaps@.len(),
        forall|k: int|
            0 <= k < r@.len() ==> ids_of(#[trigger] r@[k]@) == replay_ids(
                Seq::new(cpu_count as nat, |i: int| fresh_state(config.cycles_between_alert)),
                fresh_state(config.cycles_between_alert),
                config,
                snaps@,
                k,
            ),
        forall|k: int, e: int|
            0 <= k < r@.len() && 0 <= e < r@[k]@.len() ==> event_fits(
                #[trigger] r@[k]@[e],
                snaps@[k],
                config,
            ),
{
    let mut d = Detector::new(config, cpu_count);
    let ghost c0 = d.cpus@;
    let ghost m0 = d.memory;
    let mut out: Vec<Vec<AlertEvent>> = Vec::new();
    let mut k: usize = 0;
    while k < snaps.len()
        invariant
            k <= snaps@.len(),
            out@.len() == k,
            d.config == config,
            c0 == Seq::new(cpu_count as nat, |i: int| fresh_state(config.cycles_between_alert)),
            m0 == fresh_state(config.cycles_between_alert),
            (d.cpus@, d.memory) == model_after(c0, m0, config, snaps@.take(k as int)),
            forall|j: int| 0 <= j < k ==> ids_of(#[trigger] out@[j]@) == replay_ids(c0, m0, config, snaps@, j),
            forall|j: int, e: int|
                0 <= j < k && 0 <= e < out@[j]@.len() ==> event_fits(#[trigger] out@[j]@[e], snaps@[j], config),
        decreases snaps@.len() - k,
    {
        assert(snaps@.take(k + 1).drop_last() =~= snaps@.take(k as int));
        match d.observe(&snaps[k]) {
            Ok(events) => {
                out.push(events);
            },
            Err(_) => {
                out.push(Vec::new());
                assert(ids_of(out@[k as int]@) =~= seq![]);
            },
        }
        k = k + 1;
    }
    out
}

/// Whether core `i` breached on each snapshot of `snaps`.
pub open spec fn cpu_history(snaps: Seq<Snapshot>, i: int, cfg: Config) -> Seq<bool> {
    Seq::new(snaps.len(), |k: int| cpu_breaches(snaps[k].cpu_usages@[i], cfg.cpu_usage_threshold))
}

/// Whether memory breached on each snapshot of `snaps`.
pub open spec fn mem_history(snaps: Seq<Snapshot>, cfg: Config) -> Seq<bool> {
    Seq::new(
        snaps.len(),
        |k: int| mem_breaches(snaps[k].memory_used, snaps[k].memory_total, cfg.mem_usage_threshold_percent),
    )
}

/// Every snapshot of `snaps` reports `n` cores.
pub open spec fn uniform(snaps: Seq<Snapshot>, n: nat) -> bool {
    forall|k: int| 0 <= k < snaps.len() ==> (#[trigger] snaps[k]).cpu_usages@.len() == n
}

/// A fresh detector's state after `snaps` holds, for each stream, the state
/// that stream reaches over its own breach history.
proof fn lemma_model_tracks_streams(cfg: Config, n: nat, snaps: Seq<Snapshot>)
    requires
        uniform(snaps, n),
    ensures
        ({
            let (c, m) = model_after(
                Seq::new(n, |i: int| fresh_state(cfg.cycles_between_alert)),
                fresh_state(cfg.cycles_between_alert),
                cfg,
                snaps,
            );
            &&& c.len() == n
            &&& forall|i: int|
                0 <= i < n ==> #[trigger] c[i] == run(
                    fresh_state(cfg.cycles_between_alert),
                    cpu_history(snaps, i, cfg),
                    cfg.cycles_for_alert,
                    cfg.cycles_between_alert,
                )
            &&& m == run(
                fresh_state(cfg.cycles_between_alert),
                mem_history(snaps, cfg),
                cfg.cycles_for_alert,
                cfg.cycles_between_alert,
            )
        }),
    decreases snaps.len(),
{
    if snaps.len() > 0 {
        let prev = snaps.drop_last();
        assert(uniform(prev, n)) by {
            assert forall|k: int| 0 <= k < prev.len() implies (#[trigger] prev[k]).cpu_usages@.len() == n by {
                assert(prev[k] == snaps[k]);
            }
        }
        lemma_model_tracks_streams(cfg, n, prev);
        assert(snaps.last() == snaps[snaps.len() - 1]);
        assert(mem_history(snaps, cfg).drop_last() =~= mem_history(prev, cfg));
        assert forall|i: int| 0 <= i < n implies #[trigger] cpu_history(snaps, i, cfg).drop_last()
            =~= cpu_history(prev, i, cfg) by {}
    }
}

/// Core `i` is among the first `n` alert ids exactly when it alerts, and the
/// memory stream never is.
proof fn lemma_cpu_alert_ids_member(cpus: Seq<StreamState>, usages: Seq<u32>, cfg: Config, n: int, i: usize)
    requires
        0 <= n <= cpus.len(),
        n <= usages.len(),
        n <= usize::MAX,
    ensures
        cpu_alert_ids(cpus, usages, cfg, n).contains(StreamId::Cpu(i)) <==> (i < n && step_alerts(
            cpus[i as int],
            cpu_breaches(usages[i as int], cfg.cpu_usage_threshold),
            cfg.cycles_for_alert,
            cfg.cycles_between_alert,
        )),
        !cpu_alert_ids(cpus, usages, cfg, n).contains(StreamId::Memory),
    decreases n,
{
    if n > 0 {
        lemma_cpu_alert_ids_member(cpus, usages, cfg, n - 1, i);
        let prev = cpu_alert_ids(cpus, usages, cfg, n - 1);
        let all = cpu_alert_ids(cpus, usages, cfg, n);
        if all.contains(StreamId::Cpu(i)) {
            let j = choose|j: int| 0 <= j < all.len() && all[j] == StreamId::Cpu(i);
            if j < prev.len() {
                assert(prev[j] == all[j]);
                assert(prev.contains(StreamId::Cpu(i)));
            } else {
                assert(all[j] == StreamId::Cpu((n - 1) as usize));
                assert(i == n - 1);
            }
        }
        if prev.contains(StreamId::Cpu(i)) {
            let j = choose|j: int| 0 <= j < prev.len() && prev[j] == StreamId::Cpu(i);
            assert(all[j] == prev[j]);
            assert(all.contains(StreamId::Cpu(i)));
        }
        if i == n - 1 && step_alerts(
            cpus[i as int],
            cpu_breaches(usages[i as int], cfg.cpu_usage_threshold),
            cfg.cycles_for_alert,
            cfg.cycles_between_alert,
        ) {
            assert(all[prev.len() as int] == StreamId::Cpu(i));
            assert(all.contains(StreamId::Cpu(i)));
        }
        if all.contains(StreamId::Memory) {
            let j = choose|j: int| 0 <= j < all.len() && all[j] == StreamId::Memory;
            if j < prev.len() {
                assert(prev[j] == all[j]);
            }
        }
    }
}

/// Over snapshots that all report `n` cores, a replayed detector raises an
/// alert for a stream on tick `k` exactly when that stream, run alone over its
/// own breach history, alerts on tick `k`. The laws of a single stream thus
/// hold of every stream of the detector.
pub proof fn lemma_replay_follows_streams(cfg: Config, n: usize, snaps: Seq<Snapshot>, k: int, i: usize)
    requires
        uniform(snaps, n as nat),
        0 <= k < snaps.len(),
        i < n,
    ensures
        replay_ids(
            Seq::new(n as nat, |j: int| fresh_state(cfg.cycles_between_alert)),
            fresh_state(cfg.cycles_between_alert),
            cfg,
            snaps,
            k,
        ).contains(StreamId::Cpu(i)) <==> alert_at(
            cpu_history(snaps, i as int, cfg),
            k,
            cfg.cycles_for_alert,
            cfg.cycles_between_alert,
        ),
        replay_ids(
            Seq::new(n as nat, |j: int| fresh_state(cfg.cycles_between_alert)),
            fresh_state(cfg.cycles_between_alert),
            cfg,
            snaps,
            k,
        ).contains(StreamId::Memory) <==> alert_at(
            mem_history(snaps, cfg),
            k,
            cfg.cycles_for_alert,
            cfg.cycles_between_alert,
        ),
{
    let c0 = Seq::new(n as nat, |j: int| fresh_state(cfg.cycles_between_alert));
    let m0 = fresh_state(cfg.cycles_between_alert);
    let prefix = snaps.take(k);
    assert(uniform(prefix, n as nat)) by {
        assert forall|t: int| 0 <= t < prefix.len() implies (#[trigger] prefix[t]).cpu_usages@.len() == n by {
            assert(prefix[t] == snaps[t]);
        }
    }
    lemma_model_tracks_streams(cfg, n as nat, prefix);
    let (c, m) = model_after(c0, m0, cfg, prefix);
    assert(cpu_history(prefix, i as int, cfg) =~= cpu_history(snaps, i as int, cfg).take(k));
    assert(mem_history(prefix, cfg) =~= mem_history(snaps, cfg).take(k));
    assert(snaps[k].cpu_usages@.len() == n);
    let snap = snaps[k];
    lemma_cpu_alert_ids_member(c, snap.cpu_usages@, cfg, c.len() as int, i);
    let cpu_ids = cpu_alert_ids(c, snap.cpu_usages@, cfg, c.len() as int);
    let mem_alerts = step_alerts(
        m,
        mem_breaches(snap.memory_used, snap.memory_total, cfg.mem_usage_threshold_percent),
        cfg.cycles_for_alert,
        cfg.cycles_between_alert,
    );
    let ids = alert_ids(c, m, snap, cfg);
    assert(ids == replay_ids(c0, m0, cfg, snaps, k));
    if ids.contains(StreamId::Cpu(i)) {
        let j = choose|j: int| 0 <= j < ids.len() && ids[j] == StreamId::Cpu(i);
        if j < cpu_ids.len() {
            assert(cpu_ids[j] == ids[j]);
        }
    }
    if cpu_ids.contains(StreamId::Cpu(i)) {
        let j = choose|j: int| 0 <= j < cpu_ids.len() && cpu_ids[j] == StreamId::Cpu(i);
        assert(ids[j] == cpu_ids[j]);
    }
    if ids.contains(StreamId::Memory) {
        let j = choose|j: int| 0 <= j < ids.len() && ids[j] == StreamId::Memory;
        if j < cpu_ids.len() {
            assert(cpu_ids[j] == ids[j]);
        }
    }
    if mem_alerts {
        assert(ids[cpu_ids.len() as int] == StreamId::Memory);
    }
}

} // verus!
