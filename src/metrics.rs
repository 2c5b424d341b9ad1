use vstd::prelude::*;

verus! {

/// Seconds the sampler waits between two measurements.
pub const SAMPLE_INTERVAL_SECS: u64 = 10;

/// Bytes in one kibibyte: memory is measured in kibibytes and published in bytes.
pub const BYTES_PER_KIB: u64 = 1024;

/// A moment as whole seconds since the Unix epoch plus the nanoseconds past them.
#[derive(Clone, Copy, Debug, PartialEq, Eq, Structural)]
pub struct StartTime {
    pub secs: u64,
    pub nanos: u32,
}

impl StartTime {
    /// The nanosecond part stays below one second.
    pub open spec fn wf(&self) -> bool {
        self.nanos < 1_000_000_000
    }

    /// The moment `secs` seconds and `nanos` nanoseconds after the epoch, or
    /// `None` when `nanos` is a whole second or more.
    pub fn new(secs: u64, nanos: u32) -> (r: Option<StartTime>)
        ensures
            r is Some <==> nanos < 1_000_000_000,
            r is Some ==> r->Some_0 == (StartTime { secs, nanos }),
    {
        if nanos < 1_000_000_000 {
            Some(StartTime { secs, nanos })
        } else {
            None
        }
    }
}

/// What the registry holds: the memory gauge, the start-time gauge, and how
/// many times the memory gauge has been written.
pub ghost struct RegistryModel {
    pub memory_usage_bytes: int,
    pub start_time: StartTime,
    pub writes: nat,
}

/// The process-wide gauges. The start time is fixed when the registry is
/// made; only the sampler writes the memory gauge.
pub struct MetricsRegistry {
    memory_usage_bytes: i64,
    start_time: StartTime,
    writes: u64,
}

impl View for MetricsRegistry {
    type V = RegistryModel;

    closed spec fn view(&self) -> RegistryModel {
        RegistryModel {
            memory_usage_bytes: self.memory_usage_bytes as int,
            start_time: self.start_time,
            writes: self.writes as nat,
        }
    }
}

/// Gauges of a well-formed registry: memory is never negative, the start
/// time is a valid moment, and the write count fits its counter.
pub open spec fn model_wf(m: RegistryModel) -> bool {
    &&& 0 <= m.memory_usage_bytes <= i64::MAX
    &&& m.start_time.wf()
    &&& m.writes <= u64::MAX
}

impl MetricsRegistry {
    pub open spec fn wf(&self) -> bool {
        model_wf(self@)
    }

    /// A registry whose start time is `start_time` and whose memory gauge
    /// reads zero and has not been written yet.
    pub fn new(start_time: StartTime) -> (r: MetricsRegistry)
        requires
            start_time.wf(),
        ensures
            r@ == (RegistryModel { memory_usage_bytes: 0, start_time, writes: 0 }),
            r.wf(),
    {
        MetricsRegistry { memory_usage_bytes: 0, start_time, writes: 0 }
    }

    /// The memory gauge, in bytes.
    pub fn memory_usage_bytes(&self) -> (r: i64)
        ensures
            r == self@.memory_usage_bytes,
    {
        self.memory_usage_bytes
    }

    /// The start-time gauge.
    pub fn start_time_seconds(&self) -> (r: StartTime)
        ensures
            r == self@.start_time,
    {
        self.start_time
    }

    /// How many times the memory gauge has been written.
    pub fn write_count(&self) -> (r: u64)
        ensures
            r == self@.writes as int,
    {
        self.writes
    }
}

/// What the sampler learned in one interval.
#[derive(Clone, Copy, Debug, PartialEq, Eq, Structural)]
pub enum SamplerEvent {
    /// Resident memory was read, in kibibytes.
    Measured(u64),
    /// Memory statistics could not be read this time.
    MeasureFailed,
    /// The sampler is asked to end.
    Cancelled,
}

/// What the sampler's driver does next.
#[derive(Clone, Copy, Debug, PartialEq, Eq, Structural)]
pub enum SamplerAction {
    /// Wait this many seconds, then measure again.
    Sleep(u64),
    /// End the sampling loop.
    Stop,
}

/// A reading in kibibytes as bytes, when that fits the gauge.
pub open spec fn kib_to_bytes(kib: u64) -> Option<int> {
    if kib * BYTES_PER_KIB <= i64::MAX {
        Some(kib * BYTES_PER_KIB)
    } else {
        None
    }
}

/// The registry after one event: a measurement that fits overwrites the
/// memory gauge and counts a write (the count stops at its maximum); a failed
/// or unrepresentable measurement, or a cancellation, leaves it unchanged.
pub open spec fn step_model(m: RegistryModel, event: SamplerEvent) -> RegistryModel {
    match event {
        SamplerEvent::Measured(kib) => match kib_to_bytes(kib) {
            Some(bytes) => RegistryModel {
                memory_usage_bytes: bytes,
                writes: if m.writes < u64::MAX { m.writes + 1 } else { m.writes },
                ..m
            },
            None => m,
        },
        _ => m,
    }
}

/// The action after one event: stop when cancelled, otherwise wait one
/// interval, whether or not the measurement succeeded.
pub open spec fn action_of(event: SamplerEvent) -> SamplerAction {
    match event {
        SamplerEvent::Cancelled => SamplerAction::Stop,
        _ => SamplerAction::Sleep(SAMPLE_INTERVAL_SECS),
    }
}

/// The registry after the events, oldest first.
pub open spec fn run_model(m: RegistryModel, events: Seq<SamplerEvent>) -> RegistryModel
    decreases events.len(),
{
    if events.len() == 0 {
        m
    } else {
        step_model(run_model(m, events.drop_last()), events.last())
    }
}

/// One interval of the memory sampler: publish what was measured, then say
/// whether to wait for the next interval or stop.
pub fn sampler_step(registry: &mut MetricsRegistry, event: SamplerEvent) -> (action: SamplerAction)
    requires
        old(registry).wf(),
    ensures
        final(registry)@ == step_model(old(registry)@, event),
        final(registry).wf(),
        action == action_of(event),
{
    match event {
        SamplerEvent::Measured(kib) => {
            if kib <= (i64::MAX as u64) / BYTES_PER_KIB {
                registry.memory_usage_bytes = (kib * BYTES_PER_KIB) as i64;
                if registry.writes < u64::MAX {
                    registry.writes = registry.writes + 1;
                }
            }
            SamplerAction::Sleep(SAMPLE_INTERVAL_SECS)
        },
        SamplerEvent::MeasureFailed => SamplerAction::Sleep(SAMPLE_INTERVAL_SECS),
        SamplerEvent::Cancelled => SamplerAction::Stop,
    }
}

/// Every event keeps a well-formed registry well-formed: in particular the
/// memory gauge never goes negative.
pub proof fn lemma_run_keeps_wf(m: RegistryModel, events: Seq<SamplerEvent>)
    requires
        model_wf(m),
    ensures
        model_wf(run_model(m, events)),
    decreases events.len(),
{
    if events.len() > 0 {
        lemma_run_keeps_wf(m, events.drop_last());
    }
}

/// After N intervals whose measurements all succeed, the memory gauge has
/// been written N more times and is not negative.
pub proof fn lemma_sampler_liveness(m: RegistryModel, events: Seq<SamplerEvent>)
    requires
        model_wf(m),
        m.writes + events.len() <= u64::MAX,
        forall|i: int|
            0 <= i < events.len() ==> match #[trigger] events[i] {
                SamplerEvent::Measured(kib) => kib_to_bytes(kib) is Some,
                _ => false,
            },
    ensures
        run_model(m, events).writes == m.writes + events.len(),
        run_model(m, events).memory_usage_bytes >= 0,
    decreases events.len(),
{
    lemma_run_keeps_wf(m, events);
    if events.len() > 0 {
        let prefix = events.drop_last();
        assert forall|i: int| 0 <= i < prefix.len() implies match #[trigger] prefix[i] {
            SamplerEvent::Measured(kib) => kib_to_bytes(kib) is Some,
            _ => false,
        } by {
            assert(prefix[i] == events[i]);
        }
        lemma_sampler_liveness(m, prefix);
        assert(events[events.len() - 1] == events.last());
    }
}

/// No sequence of sampler events changes the start time.
pub proof fn lemma_start_time_fixed(m: RegistryModel, events: Seq<SamplerEvent>)
    ensures
        run_model(m, events).start_time == m.start_time,
    decreases events.len(),
{
    if events.len() > 0 {
        lemma_start_time_fixed(m, events.drop_last());
    }
}

} // verus!
