//! The collection cycle: device identity, metric naming and labeling, and
//! the aggregation of per-device fetch outcomes into gauge writes.
//!
//! Transport is kept outside: callers hand these functions the outcome of
//! each remote query as plain values (`None` for a failed query), and get
//! back the exact list of gauge writes the cycle owes the metrics sink.
//! Gauge values are `f32` on the wire; the library carries each value as
//! its raw bit pattern (`u32`) and never computes on it.

use vstd::prelude::*;

verus! {

/// One accelerator device as the daemon reports it. `dev_id` is the vendor
/// model code used only to resolve the card family name; `uuid` is the
/// stable per-unit identifier; `name` is the display name.
#[derive(Clone, Debug)]
pub struct Device {
    pub dev_id: String,
    pub uuid: String,
    pub name: String,
}

/// The five metric kinds a device reports.
#[derive(Clone, Copy, Debug, PartialEq, Eq, Structural)]
pub enum RBLNMetric {
    Temperature,
    Power,
    DramTotal,
    DramUsed,
    Utilization,
}

/// The gauge name each metric kind is published under.
pub open spec fn spec_metric_name(m: RBLNMetric) -> Seq<char> {
    match m {
        RBLNMetric::Temperature => "RBLN_DEVICE_STATUS:TEMPERATURE"@,
        RBLNMetric::Power => "RBLN_DEVICE_STATUS:CARD_POWER"@,
        RBLNMetric::DramTotal => "RBLN_DEVICE_STATUS:DRAM_TOTAL"@,
        RBLNMetric::DramUsed => "RBLN_DEVICE_STATUS:DRAM_USED"@,
        RBLNMetric::Utilization => "RBLN_DEVICE_STATUS:UTILIZATION"@,
    }
}

impl RBLNMetric {
    /// The gauge name for this metric kind. The mapping is total over the
    /// five kinds: a new kind without a name fails to build.
    pub fn metric_name(&self) -> (r: String)
        ensures
            r@ == spec_metric_name(*self),
    {
        match self {
            RBLNMetric::Temperature => "RBLN_DEVICE_STATUS:TEMPERATURE".to_owned(),
            RBLNMetric::Power => "RBLN_DEVICE_STATUS:CARD_POWER".to_owned(),
            RBLNMetric::DramTotal => "RBLN_DEVICE_STATUS:DRAM_TOTAL".to_owned(),
            RBLNMetric::DramUsed => "RBLN_DEVICE_STATUS:DRAM_USED".to_owned(),
            RBLNMetric::Utilization => "RBLN_DEVICE_STATUS:UTILIZATION".to_owned(),
        }
    }
}

/// Every metric name is drawn from the same fixed five-element set,
/// whatever the kind.
pub proof fn lemma_metric_names_fixed(m: RBLNMetric)
    ensures
        spec_metric_name(m) == "RBLN_DEVICE_STATUS:TEMPERATURE"@
            || spec_metric_name(m) == "RBLN_DEVICE_STATUS:CARD_POWER"@
            || spec_metric_name(m) == "RBLN_DEVICE_STATUS:DRAM_TOTAL"@
            || spec_metric_name(m) == "RBLN_DEVICE_STATUS:DRAM_USED"@
            || spec_metric_name(m) == "RBLN_DEVICE_STATUS:UTILIZATION"@,
{
}

/// The card family table: the human-readable family for each known vendor
/// model code, `None` for a code outside the table.
pub open spec fn spec_card_family(id: Seq<char>) -> Option<Seq<char>> {
    if id == "1020"@ || id == "1021"@ {
        Some("RBLN-CA02"@)
    } else if id == "1120"@ || id == "1121"@ {
        Some("RBLN-CA12"@)
    } else if id == "1150"@ {
        Some("RBLN-CA15"@)
    } else if id == "1220"@ || id == "1221"@ {
        Some("RBLN-CA22"@)
    } else if id == "1250"@ {
        Some("RBLN-CA25"@)
    } else {
        None
    }
}

/// Look a vendor model code up in the card family table. An unknown code
/// is an explicit `None`, never a panic: the caller drops that sample and
/// carries on.
pub fn card_family(dev_id: &String) -> (r: Option<String>)
    ensures
        (r is Some) == (spec_card_family(dev_id@) is Some),
        r matches Some(f) ==> spec_card_family(dev_id@) == Some(f@),
{
    if *dev_id == "1020".to_owned() || *dev_id == "1021".to_owned() {
        Some("RBLN-CA02".to_owned())
    } else if *dev_id == "1120".to_owned() || *dev_id == "1121".to_owned() {
        Some("RBLN-CA12".to_owned())
    } else if *dev_id == "1150".to_owned() {
        Some("RBLN-CA15".to_owned())
    } else if *dev_id == "1220".to_owned() || *dev_id == "1221".to_owned() {
        Some("RBLN-CA22".to_owned())
    } else if *dev_id == "1250".to_owned() {
        Some("RBLN-CA25".to_owned())
    } else {
        None
    }
}

/// One gauge write owed to the metrics sink: a name, an ordered label set,
/// and the value's raw `f32` bit pattern.
#[derive(Clone, Debug)]
pub struct GaugeWrite {
    pub name: String,
    pub labels: Vec<(String, String)>,
    pub value_bits: u32,
}

/// The mathematical shape of one gauge write.
#[verifier::ext_equal]
pub struct WriteModel {
    pub name: Seq<char>,
    pub labels: Seq<(Seq<char>, Seq<char>)>,
    pub value_bits: u32,
}

impl View for GaugeWrite {
    type V = WriteModel;

    open spec fn view(&self) -> WriteModel {
        WriteModel {
            name: self.name@,
            labels: Seq::new(self.labels@.len(), |i: int| (self.labels@[i].0@, self.labels@[i].1@)),
            value_bits: self.value_bits,
        }
    }
}

/// The models of a list of gauge writes, in order.
pub open spec fn write_views(s: Seq<GaugeWrite>) -> Seq<WriteModel> {
    Seq::new(s.len(), |i: int| s[i]@)
}

/// The label set of every published sample: exactly the keys `card`,
/// `uuid` and `device`, in that order.
pub open spec fn spec_device_labels(d: Device, family: Seq<char>) -> Seq<(Seq<char>, Seq<char>)> {
    seq![("card"@, family), ("uuid"@, d.uuid@), ("device"@, d.name@)]
}

/// The one write a successfully fetched sample turns into.
pub open spec fn spec_write(m: RBLNMetric, bits: u32, d: Device, family: Seq<char>) -> WriteModel {
    WriteModel { name: spec_metric_name(m), labels: spec_device_labels(d, family), value_bits: bits }
}

/// The writes one sample contributes: one write when the device's model
/// code is in the card family table, none when it is not.
pub open spec fn spec_sample_writes(m: RBLNMetric, bits: u32, d: Device) -> Seq<WriteModel> {
    match spec_card_family(d.dev_id@) {
        Some(family) => seq![spec_write(m, bits, d, family)],
        None => Seq::<WriteModel>::empty(),
    }
}

/// What one hardware/thermal query returns: temperature and power draw,
/// each as an `f32` bit pattern.
#[derive(Clone, Copy, Debug, PartialEq, Eq, Structural)]
pub struct HwInfo {
    pub temperature_bits: u32,
    pub watt_bits: u32,
}

/// What one memory query returns: total and used DRAM, each as an `f32`
/// bit pattern.
#[derive(Clone, Copy, Debug, PartialEq, Eq, Structural)]
pub struct MemoryInfo {
    pub total_mem_bits: u32,
    pub used_mem_bits: u32,
}

/// What one utilization query returns, as an `f32` bit pattern.
#[derive(Clone, Copy, Debug, PartialEq, Eq, Structural)]
pub struct UtilizationInfo {
    pub utilization_bits: u32,
}

/// How the three fetchers for one device settled: `None` marks a query
/// that failed and contributes no writes.
#[derive(Clone, Copy, Debug, PartialEq, Eq, Structural)]
pub struct DeviceOutcome {
    pub hw: Option<HwInfo>,
    pub mem: Option<MemoryInfo>,
    pub util: Option<UtilizationInfo>,
}

/// One device together with how its three fetchers settled.
#[derive(Clone, Debug)]
pub struct DeviceReport {
    pub device: Device,
    pub outcome: DeviceOutcome,
}

/// The collector: holds the daemon endpoint the caller connects to.
#[derive(Clone, Debug)]
pub struct RBLNMetricsCollector {
    pub daemon_url: String,
}

impl RBLNMetricsCollector {
    pub fn new(daemon_url: &str) -> (c: RBLNMetricsCollector)
        ensures
            c.daemon_url@ == daemon_url@,
    {
        RBLNMetricsCollector { daemon_url: daemon_url.to_owned() }
    }

    /// The daemon endpoint this collector was built with.
    pub fn daemon_url(&self) -> (r: &str)
        ensures
            r@ == self.daemon_url@,
    {
        self.daemon_url.as_str()
    }

    /// The label set for a device: `card` resolved through the card family
    /// table, `uuid` and `device` taken from the device itself. `None`
    /// exactly when the model code is unknown; that sample is then dropped.
    pub fn get_device_labels(device: &Device) -> (r: Option<Vec<(String, String)>>)
        ensures
            (r is Some) == (spec_card_family(device.dev_id@) is Some),
            r matches Some(labels) ==> (spec_card_family(device.dev_id@) matches Some(family)
                && Seq::new(labels@.len(), |i: int| (labels@[i].0@, labels@[i].1@))
                    == spec_device_labels(*device, family)),
    {
        match card_family(&device.dev_id) {
            Some(family) => {
                let labels: Vec<(String, String)> = vec![
                    ("card".to_owned(), family),
                    ("uuid".to_owned(), device.uuid.clone()),
                    ("device".to_owned(), device.name.clone()),
                ];
                proof {
                    let family_v = spec_card_family(device.dev_id@)->Some_0;
                    assert(Seq::new(labels@.len(), |i: int| (labels@[i].0@, labels@[i].1@))
                        =~= spec_device_labels(*device, family_v));
                }
                Some(labels)
            },
            None => None,
        }
    }

    /// Map one fetched sample to its gauge write: the name from the metric
    /// kind, the labels from the device. An unknown model code drops the
    /// sample (`None`) and must not disturb anything else.
    pub fn report_metric(metric: RBLNMetric, value_bits: u32, device: &Device) -> (r: Option<
        GaugeWrite,
    >)
        ensures
            (r is Some) == (spec_card_family(device.dev_id@) is Some),
            r matches Some(w) ==> (spec_card_family(device.dev_id@) matches Some(family) && w@
                == spec_write(metric, value_bits, *device, family)),
            r matches Some(w) ==> spec_sample_writes(metric, value_bits, *device) == seq![w@],
            r is None ==> spec_sample_writes(metric, value_bits, *device)
                == Seq::<WriteModel>::empty(),
    {
        match Self::get_device_labels(device) {
            Some(labels) => {
                let w = GaugeWrite { name: metric.metric_name(), labels, value_bits };
                proof {
                    let family_v = spec_card_family(device.dev_id@)->Some_0;
                    assert(w@ =~= spec_write(metric, value_bits, *device, family_v));
                }
                Some(w)
            },
            None => None,
        }
    }
}

/// The writes the hardware/thermal fetcher contributes for one device:
/// temperature then power on success, nothing on failure.
pub open spec fn spec_hw_writes(d: Device, fetched: Option<HwInfo>) -> Seq<WriteModel> {
    match fetched {
        Some(h) => spec_sample_writes(RBLNMetric::Temperature, h.temperature_bits, d)
            + spec_sample_writes(RBLNMetric::Power, h.watt_bits, d),
        None => Seq::<WriteModel>::empty(),
    }
}

/// The writes the memory fetcher contributes for one device: DRAM total
/// then DRAM used on success, nothing on failure.
pub open spec fn spec_memory_writes(d: Device, fetched: Option<MemoryInfo>) -> Seq<WriteModel> {
    match fetched {
        Some(m) => spec_sample_writes(RBLNMetric::DramTotal, m.total_mem_bits, d)
            + spec_sample_writes(RBLNMetric::DramUsed, m.used_mem_bits, d),
        None => Seq::<WriteModel>::empty(),
    }
}

/// The write the utilization fetcher contributes for one device.
pub open spec fn spec_utilization_writes(d: Device, fetched: Option<UtilizationInfo>) -> Seq<
    WriteModel,
> {
    match fetched {
        Some(u) => spec_sample_writes(RBLNMetric::Utilization, u.utilization_bits, d),
        None => Seq::<WriteModel>::empty(),
    }
}

/// All writes one device contributes in a cycle: the three fetcher groups
/// in order, each a function of that group's own outcome alone.
pub open spec fn spec_device_writes(r: DeviceReport) -> Seq<WriteModel> {
    spec_hw_writes(r.device, r.outcome.hw) + spec_memory_writes(r.device, r.outcome.mem)
        + spec_utilization_writes(r.device, r.outcome.util)
}

/// All writes a cycle performs: each device's contribution in device order.
pub open spec fn spec_cycle_writes(rs: Seq<DeviceReport>) -> Seq<WriteModel>
    decreases rs.len(),
{
    if rs.len() == 0 {
        Seq::<WriteModel>::empty()
    } else {
        spec_device_writes(rs[0]) + spec_cycle_writes(rs.skip(1))
    }
}

impl RBLNMetricsCollector {
    /// Turn a settled hardware/thermal query into its gauge writes. A
    /// failed query, like an unknown model code, yields no writes and
    /// nothing else.
    pub fn hw_info_writes(device: &Device, fetched: Option<HwInfo>) -> (r: Vec<GaugeWrite>)
        ensures
            write_views(r@) == spec_hw_writes(*device, fetched),
    {
        let mut writes: Vec<GaugeWrite> = Vec::new();
        match fetched {
            Some(h) => {
                if let Some(w) = Self::report_metric(RBLNMetric::Temperature, h.temperature_bits, device) {
                    writes.push(w);
                }
                if let Some(w) = Self::report_metric(RBLNMetric::Power, h.watt_bits, device) {
                    writes.push(w);
                }
                proof {
                    assert(write_views(writes@) =~= spec_hw_writes(*device, fetched));
                }
            },
            None => {
                proof {
                    assert(write_views(writes@) =~= spec_hw_writes(*device, fetched));
                }
            },
        }
        writes
    }

    /// Turn a settled memory query into its gauge writes.
    pub fn memory_info_writes(device: &Device, fetched: Option<MemoryInfo>) -> (r: Vec<GaugeWrite>)
        ensures
            write_views(r@) == spec_memory_writes(*device, fetched),
    {
        let mut writes: Vec<GaugeWrite> = Vec::new();
        match fetched {
            Some(m) => {
                if let Some(w) = Self::report_metric(RBLNMetric::DramTotal, m.total_mem_bits, device) {
                    writes.push(w);
                }
                if let Some(w) = Self::report_metric(RBLNMetric::DramUsed, m.used_mem_bits, device) {
                    writes.push(w);
                }
                proof {
                    assert(write_views(writes@) =~= spec_memory_writes(*device, fetched));
                }
            },
            None => {
                proof {
                    assert(write_views(writes@) =~= spec_memory_writes(*device, fetched));
                }
            },
        }
        writes
    }

    /// Turn a settled utilization query into its gauge write.
    pub fn utilization_writes(device: &Device, fetched: Option<UtilizationInfo>) -> (r: Vec<
        GaugeWrite,
    >)
        ensures
            write_views(r@) == spec_utilization_writes(*device, fetched),
    {
        let mut writes: Vec<GaugeWrite> = Vec::new();
        match fetched {
            Some(u) => {
                if let Some(w) = Self::report_metric(RBLNMetric::Utilization, u.utilization_bits, device) {
                    writes.push(w);
                }
                proof {
                    assert(write_views(writes@) =~= spec_utilization_writes(*device, fetched));
                }
            },
            None => {
                proof {
                    assert(write_views(writes@) =~= spec_utilization_writes(*device, fetched));
                }
            },
        }
        writes
    }

    /// All writes one device contributes: the three fetcher groups joined
    /// in order.
    pub fn device_writes(report: &DeviceReport) -> (r: Vec<GaugeWrite>)
        ensures
            write_views(r@) == spec_device_writes(*report),
    {
        let mut writes = Self::hw_info_writes(&report.device, report.outcome.hw);
        let mut mem = Self::memory_info_writes(&report.device, report.outcome.mem);
        let mut util = Self::utilization_writes(&report.device, report.outcome.util);
        writes.append(&mut mem);
        writes.append(&mut util);
        proof {
            assert(write_views(writes@) =~= spec_device_writes(*report));
        }
        writes
    }
}

/// Extending a cycle by one device appends exactly that device's writes.
pub proof fn lemma_cycle_writes_snoc(rs: Seq<DeviceReport>, i: int)
    requires
        0 <= i < rs.len(),
    ensures
        spec_cycle_writes(rs.take(i + 1)) == spec_cycle_writes(rs.take(i)) + spec_device_writes(
            rs[i],
        ),
    decreases i,
{
    if i == 0 {
        assert(rs.take(1) =~= seq![rs[0]]);
        assert(rs.take(1).skip(1) =~= Seq::<DeviceReport>::empty());
        assert(rs.take(0) =~= Seq::<DeviceReport>::empty());
        assert(spec_cycle_writes(rs.take(1)) =~= spec_cycle_writes(rs.take(0)) + spec_device_writes(
            rs[0],
        ));
    } else {
        lemma_cycle_writes_snoc(rs.skip(1), i - 1);
        assert(rs.take(i + 1).skip(1) =~= rs.skip(1).take(i));
        assert(rs.take(i).skip(1) =~= rs.skip(1).take(i - 1));
        assert(rs.take(i + 1)[0] == rs[0]);
        assert(rs.skip(1)[i - 1] == rs[i]);
        assert(spec_cycle_writes(rs.take(i + 1)) == spec_device_writes(rs[0]) + (spec_cycle_writes(
            rs.skip(1).take(i - 1),
        ) + spec_device_writes(rs[i])));
        assert(spec_device_writes(rs[0]) + (spec_cycle_writes(rs.skip(1).take(i - 1))
            + spec_device_writes(rs[i])) =~= (spec_device_writes(rs[0]) + spec_cycle_writes(
            rs.skip(1).take(i - 1),
        )) + spec_device_writes(rs[i]));
    }
}

/// How one collection cycle went up to the point where telemetry is in
/// hand: the connection failed, the device directory query failed, or the
/// daemon was polled and each device's fetchers settled as reported.
#[derive(Clone, Debug)]
pub enum CycleInput {
    ConnectFailed,
    DirectoryFailed,
    Polled(Vec<DeviceReport>),
}

impl RBLNMetricsCollector {
    /// The device directory policy: a failed directory query degrades to
    /// an empty device list for this cycle, never to a crash.
    pub fn resolve_devices(listed: Option<Vec<Device>>) -> (r: Vec<Device>)
        ensures
            listed matches Some(v) ==> r == v,
            listed is None ==> r@.len() == 0,
    {
        match listed {
            Some(v) => v,
            None => Vec::new(),
        }
    }

    /// Every gauge write one cycle performs, in order. A cycle whose
    /// connection or directory query failed performs none at all and still
    /// completes; otherwise each device contributes exactly the writes its
    /// settled fetchers owe.
    pub fn cycle_writes(input: &CycleInput) -> (r: Vec<GaugeWrite>)
        ensures
            input is ConnectFailed ==> r@.len() == 0,
            input is DirectoryFailed ==> r@.len() == 0,
            input matches CycleInput::Polled(reports) ==> write_views(r@) == spec_cycle_writes(
                reports@,
            ),
    {
        match input {
            CycleInput::ConnectFailed => Vec::new(),
            CycleInput::DirectoryFailed => Vec::new(),
            CycleInput::Polled(reports) => {
                let mut all: Vec<GaugeWrite> = Vec::new();
                let mut i: usize = 0;
                proof {
                    assert(reports@.take(0) =~= Seq::<DeviceReport>::empty());
                }
                while i < reports.len()
                    invariant
                        i <= reports@.len(),
                        write_views(all@) == spec_cycle_writes(reports@.take(i as int)),
                    decreases reports@.len() - i,
                {
                    let mut w = Self::device_writes(&reports[i]);
                    let ghost prev = all@;
                    all.append(&mut w);
                    proof {
                        lemma_cycle_writes_snoc(reports@, i as int);
                        assert(write_views(all@) =~= write_views(prev) + spec_device_writes(
                            reports@[i as int],
                        ));
                    }
                    i = i + 1;
                }
                proof {
                    assert(reports@.take(reports@.len() as int) =~= reports@);
                }
                all
            },
        }
    }
}

/// A cycle's writes decompose around any one device: what stands before
/// it, its own contribution, and what stands after it. Each segment is a
/// function of its own reports alone, so no device's outcome can disturb
/// another's writes.
pub proof fn lemma_cycle_writes_decompose(rs: Seq<DeviceReport>, i: int)
    requires
        0 <= i < rs.len(),
    ensures
        spec_cycle_writes(rs) == spec_cycle_writes(rs.take(i)) + spec_device_writes(rs[i])
            + spec_cycle_writes(rs.skip(i + 1)),
    decreases rs.len(),
{
    assert(rs.take(rs.len() as int) =~= rs);
    lemma_cycle_writes_snoc(rs, rs.len() - 1);
    if i == rs.len() - 1 {
        assert(rs.skip(i + 1) =~= Seq::<DeviceReport>::empty());
        assert(spec_cycle_writes(rs.take(i)) + spec_device_writes(rs[i]) + spec_cycle_writes(
            rs.skip(i + 1),
        ) =~= spec_cycle_writes(rs.take(i)) + spec_device_writes(rs[i]));
    } else {
        lemma_cycle_writes_decompose(rs.take(rs.len() - 1), i);
        assert(rs.take(rs.len() - 1).take(i) =~= rs.take(i));
        assert(rs.take(rs.len() - 1)[i] == rs[i]);
        assert(rs.take(rs.len() - 1).skip(i + 1) =~= rs.skip(i + 1).take(rs.len() - 1 - (i + 1)));
        lemma_cycle_writes_snoc(rs.skip(i + 1), rs.len() - 1 - (i + 1));
        assert(rs.skip(i + 1).take(rs.len() - (i + 1)) =~= rs.skip(i + 1));
        assert(rs.skip(i + 1)[rs.len() - 1 - (i + 1)] == rs[rs.len() - 1]);
        assert(spec_cycle_writes(rs) == (spec_cycle_writes(rs.take(i)) + spec_device_writes(rs[i])
            + spec_cycle_writes(rs.skip(i + 1).take(rs.len() - 1 - (i + 1)))) + spec_device_writes(
            rs[rs.len() - 1],
        ));
        assert((spec_cycle_writes(rs.take(i)) + spec_device_writes(rs[i]) + spec_cycle_writes(
            rs.skip(i + 1).take(rs.len() - 1 - (i + 1)),
        )) + spec_device_writes(rs[rs.len() - 1]) =~= spec_cycle_writes(rs.take(i))
            + spec_device_writes(rs[i]) + (spec_cycle_writes(
            rs.skip(i + 1).take(rs.len() - 1 - (i + 1)),
        ) + spec_device_writes(rs[rs.len() - 1])));
    }
}

/// Two cycles whose reports agree everywhere but at one device produce the
/// same writes before and after that device: a failure at one device is
/// invisible to every other device's writes.
pub proof fn lemma_devices_independent(rs1: Seq<DeviceReport>, rs2: Seq<DeviceReport>, i: int)
    requires
        rs1.len() == rs2.len(),
        0 <= i < rs1.len(),
        forall|j: int| 0 <= j < rs1.len() && j != i ==> rs1[j] == rs2[j],
    ensures
        spec_cycle_writes(rs1) == spec_cycle_writes(rs1.take(i)) + spec_device_writes(rs1[i])
            + spec_cycle_writes(rs1.skip(i + 1)),
        spec_cycle_writes(rs2) == spec_cycle_writes(rs1.take(i)) + spec_device_writes(rs2[i])
            + spec_cycle_writes(rs1.skip(i + 1)),
{
    lemma_cycle_writes_decompose(rs1, i);
    lemma_cycle_writes_decompose(rs2, i);
    assert(rs1.take(i) =~= rs2.take(i));
    assert(rs1.skip(i + 1) =~= rs2.skip(i + 1));
}

/// The three fetchers for one device are independent: the device's writes
/// are the three groups' writes joined in order, each group a function of
/// its own outcome alone, and a failed group contributes nothing while the
/// other two still contribute in full.
pub proof fn lemma_fetchers_independent(r: DeviceReport)
    ensures
        spec_device_writes(r) == spec_hw_writes(r.device, r.outcome.hw) + spec_memory_writes(
            r.device,
            r.outcome.mem,
        ) + spec_utilization_writes(r.device, r.outcome.util),
        r.outcome.hw is None ==> spec_hw_writes(r.device, r.outcome.hw)
            == Seq::<WriteModel>::empty(),
        r.outcome.mem is None ==> spec_memory_writes(r.device, r.outcome.mem)
            == Seq::<WriteModel>::empty(),
        r.outcome.util is None ==> spec_utilization_writes(r.device, r.outcome.util)
            == Seq::<WriteModel>::empty(),
        (r.outcome.hw is Some && spec_card_family(r.device.dev_id@) is Some) ==> spec_hw_writes(
            r.device,
            r.outcome.hw,
        ).len() == 2,
        (r.outcome.mem is Some && spec_card_family(r.device.dev_id@) is Some)
            ==> spec_memory_writes(r.device, r.outcome.mem).len() == 2,
        (r.outcome.util is Some && spec_card_family(r.device.dev_id@) is Some)
            ==> spec_utilization_writes(r.device, r.outcome.util).len() == 1,
{
}

} // verus!
