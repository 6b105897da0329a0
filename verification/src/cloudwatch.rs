//! CloudWatch agent configuration model: the agent, log-collection and
//! metric-collection blocks, each with its documented default values.

use vstd::prelude::*;

verus! {

/// Default collection interval, in seconds, used by every metric block.
pub const DEFAULT_METRICS_COLLECTION_INTERVAL: u32 = 600;

/// Where the agent expects its configuration file.
pub fn default_config_file_path() -> (r: &'static str)
    ensures
        r@ == "/opt/aws/amazon-cloudwatch-agent/bin/config.json"@,
{
    "/opt/aws/amazon-cloudwatch-agent/bin/config.json"
}

/// Where the agent writes its own log.
pub fn default_logfile() -> (r: &'static str)
    ensures
        r@ == "/opt/aws/amazon-cloudwatch-agent/logs/amazon-cloudwatch-agent.log"@,
{
    "/opt/aws/amazon-cloudwatch-agent/logs/amazon-cloudwatch-agent.log"
}

/// Settings of the agent itself.
#[derive(Debug, Clone)]
pub struct Agent {
    pub metrics_collection_interval: u32,
    pub region: Option<String>,
    pub logfile: String,
    pub debug: Option<bool>,
}

/// The default agent block: default interval, no region, the default log
/// file, debugging off.
pub open spec fn is_default_agent(a: Agent) -> bool {
    &&& a.metrics_collection_interval == DEFAULT_METRICS_COLLECTION_INTERVAL
    &&& a.region is None
    &&& a.logfile@ == "/opt/aws/amazon-cloudwatch-agent/logs/amazon-cloudwatch-agent.log"@
    &&& a.debug == Some(false)
}

impl Default for Agent {
    fn default() -> (r: Self)
        ensures
            is_default_agent(r),
    {
        Agent {
            metrics_collection_interval: DEFAULT_METRICS_COLLECTION_INTERVAL,
            region: None,
            logfile: "/opt/aws/amazon-cloudwatch-agent/logs/amazon-cloudwatch-agent.log".to_owned(),
            debug: Some(false),
        }
    }
}

/// The log-collection block.
#[derive(Debug, Clone)]
pub struct Logs {
    pub logs_collected: Option<LogsCollected>,
    pub force_flush_interval: Option<u32>,
}

/// The sources logs are collected from.
#[derive(Debug, Clone)]
pub struct LogsCollected {
    pub files: Option<Files>,
}

/// The log files to watch.
#[derive(Debug, Clone)]
pub struct Files {
    pub collect_list: Option<Vec<Collect>>,
}

/// One watched log file and the log group and stream it is shipped to.
#[derive(Debug, Clone)]
pub struct Collect {
    pub log_group_name: String,
    pub log_stream_name: String,
    pub file_path: String,
    pub timestamp_format: Option<String>,
    pub timezone: Option<String>,
    pub auto_removal: Option<bool>,
    pub retention_in_days: Option<u16>,
}

/// The default collection entry: every name empty, every option unset.
pub open spec fn is_default_collect(c: Collect) -> bool {
    &&& c.log_group_name@ == Seq::<char>::empty()
    &&& c.log_stream_name@ == Seq::<char>::empty()
    &&& c.file_path@ == Seq::<char>::empty()
    &&& c.timestamp_format is None
    &&& c.timezone is None
    &&& c.auto_removal is None
    &&& c.retention_in_days is None
}

impl Default for Collect {
    fn default() -> (r: Self)
        ensures
            is_default_collect(r),
    {
        Collect {
            log_group_name: String::new(),
            log_stream_name: String::new(),
            file_path: String::new(),
            timestamp_format: None,
            timezone: None,
            auto_removal: None,
            retention_in_days: None,
        }
    }
}

/// CPU metrics to collect.
#[derive(Debug, Clone)]
pub struct Cpu {
    pub resources: Vec<String>,
    pub measurement: Vec<String>,
    pub metrics_collection_interval: u32,
}

/// The CPU block with default resources and measurements and the given
/// collection interval.
pub open spec fn cpu_shape(c: Cpu, interval: u32) -> bool {
    &&& c.resources@.len() == 1
    &&& c.resources@[0]@ == "*"@
    &&& c.measurement@.len() == 2
    &&& c.measurement@[0]@ == "usage_active"@
    &&& c.measurement@[1]@ == "usage_system"@
    &&& c.metrics_collection_interval == interval
}

impl Default for Cpu {
    fn default() -> (r: Self)
        ensures
            cpu_shape(r, DEFAULT_METRICS_COLLECTION_INTERVAL),
    {
        Cpu::new(DEFAULT_METRICS_COLLECTION_INTERVAL)
    }
}

impl Cpu {
    pub fn new(metrics_collection_interval_seconds: u32) -> (r: Self)
        ensures
            cpu_shape(r, metrics_collection_interval_seconds),
    {
        let mut resources: Vec<String> = Vec::new();
        resources.push("*".to_owned());
        let mut measurement: Vec<String> = Vec::new();
        measurement.push("usage_active".to_owned());
        measurement.push("usage_system".to_owned());
        Cpu { resources, measurement, metrics_collection_interval: metrics_collection_interval_seconds }
    }
}

/// Memory metrics to collect.
#[derive(Debug, Clone)]
pub struct Mem {
    pub measurement: Vec<String>,
    pub metrics_collection_interval: u32,
}

/// The memory block with default measurements and the given interval.
pub open spec fn mem_shape(m: Mem, interval: u32) -> bool {
    &&& m.measurement@.len() == 2
    &&& m.measurement@[0]@ == "mem_used"@
    &&& m.measurement@[1]@ == "mem_total"@
    &&& m.metrics_collection_interval == interval
}

impl Default for Mem {
    fn default() -> (r: Self)
        ensures
            mem_shape(r, DEFAULT_METRICS_COLLECTION_INTERVAL),
    {
        Mem::new(DEFAULT_METRICS_COLLECTION_INTERVAL)
    }
}

impl Mem {
    pub fn new(metrics_collection_interval_seconds: u32) -> (r: Self)
        ensures
            mem_shape(r, metrics_collection_interval_seconds),
    {
        let mut measurement: Vec<String> = Vec::new();
        measurement.push("mem_used".to_owned());
        measurement.push("mem_total".to_owned());
        Mem { measurement, metrics_collection_interval: metrics_collection_interval_seconds }
    }
}

/// Disk-usage metrics to collect.
#[derive(Debug, Clone)]
pub struct Disk {
    pub resources: Vec<String>,
    pub measurement: Vec<String>,
    pub ignore_file_system_types: Option<Vec<String>>,
    pub metrics_collection_interval: u32,
}

/// The disk block with the given resources and interval, and the default
/// measurements and ignored file-system types.
pub open spec fn disk_shape(d: Disk, resources: Seq<String>, interval: u32) -> bool {
    &&& d.resources@ == resources
    &&& d.measurement@.len() == 4
    &&& d.measurement@[0]@ == "used"@
    &&& d.measurement@[1]@ == "total"@
    &&& d.measurement@[2]@ == "inodes_used"@
    &&& d.measurement@[3]@ == "inodes_total"@
    &&& d.ignore_file_system_types matches Some(ig) && ig@.len() == 2 && ig@[0]@ == "sysfs"@
        && ig@[1]@ == "devtmpfs"@
    &&& d.metrics_collection_interval == interval
}

/// The default disk block watches the root file system alone.
pub open spec fn disk_default_resources(rs: Seq<String>) -> bool {
    rs.len() == 1 && rs[0]@ == "/"@
}

impl Default for Disk {
    fn default() -> (r: Self)
        ensures
            disk_shape(r, r.resources@, DEFAULT_METRICS_COLLECTION_INTERVAL),
            disk_default_resources(r.resources@),
    {
        Disk::new(DEFAULT_METRICS_COLLECTION_INTERVAL)
    }
}

impl Disk {
    pub fn new(metrics_collection_interval_seconds: u32) -> (r: Self)
        ensures
            disk_shape(r, r.resources@, metrics_collection_interval_seconds),
            disk_default_resources(r.resources@),
    {
        let mut resources: Vec<String> = Vec::new();
        resources.push("/".to_owned());
        let d = Disk::new_with_resources(resources, metrics_collection_interval_seconds);
        d
    }

    pub fn new_with_resources(resources: Vec<String>, metrics_collection_interval_seconds: u32) -> (r: Self)
        ensures
            disk_shape(r, resources@, metrics_collection_interval_seconds),
    {
        let mut measurement: Vec<String> = Vec::new();
        measurement.push("used".to_owned());
        measurement.push("total".to_owned());
        measurement.push("inodes_used".to_owned());
        measurement.push("inodes_total".to_owned());
        let mut ignore: Vec<String> = Vec::new();
        ignore.push("sysfs".to_owned());
        ignore.push("devtmpfs".to_owned());
        Disk {
            resources,
            measurement,
            ignore_file_system_types: Some(ignore),
            metrics_collection_interval: metrics_collection_interval_seconds,
        }
    }
}

/// Disk I/O metrics to collect.
#[derive(Debug, Clone)]
pub struct DiskIo {
    pub resources: Vec<String>,
    pub measurement: Vec<String>,
    pub metrics_collection_interval: u32,
}

/// The disk I/O block watches the first attached volume with the default
/// measurements and the given interval.
pub open spec fn diskio_shape(d: DiskIo, interval: u32) -> bool {
    &&& d.resources@.len() == 1
    &&& d.resources@[0]@ == "nvme1n1"@
    &&& d.measurement@.len() == 4
    &&& d.measurement@[0]@ == "reads"@
    &&& d.measurement@[1]@ == "writes"@
    &&& d.measurement@[2]@ == "read_time"@
    &&& d.measurement@[3]@ == "write_time"@
    &&& d.metrics_collection_interval == interval
}

impl Default for DiskIo {
    fn default() -> (r: Self)
        ensures
            diskio_shape(r, DEFAULT_METRICS_COLLECTION_INTERVAL),
    {
        DiskIo::new(DEFAULT_METRICS_COLLECTION_INTERVAL)
    }
}

impl DiskIo {
    pub fn new(metrics_collection_interval_seconds: u32) -> (r: Self)
        ensures
            diskio_shape(r, metrics_collection_interval_seconds),
    {
        let mut resources: Vec<String> = Vec::new();
        resources.push("nvme1n1".to_owned());
        let mut measurement: Vec<String> = Vec::new();
        measurement.push("reads".to_owned());
        measurement.push("writes".to_owned());
        measurement.push("read_time".to_owned());
        measurement.push("write_time".to_owned());
        DiskIo { resources, measurement, metrics_collection_interval: metrics_collection_interval_seconds }
    }
}

/// Network-interface metrics to collect.
#[derive(Debug, Clone)]
pub struct Net {
    pub resources: Vec<String>,
    pub measurement: Vec<String>,
    pub metrics_collection_interval: u32,
}

/// The network block with default resources and measurements and the given
/// interval.
pub open spec fn net_shape(n: Net, interval: u32) -> bool {
    &&& n.resources@.len() == 1
    &&& n.resources@[0]@ == "*"@
    &&& n.measurement@.len() == 4
    &&& n.measurement@[0]@ == "bytes_sent"@
    &&& n.measurement@[1]@ == "bytes_recv"@
    &&& n.measurement@[2]@ == "packets_sent"@
    &&& n.measurement@[3]@ == "packets_recv"@
    &&& n.metrics_collection_interval == interval
}

impl Default for Net {
    fn default() -> (r: Self)
        ensures
            net_shape(r, DEFAULT_METRICS_COLLECTION_INTERVAL),
    {
        Net::new(DEFAULT_METRICS_COLLECTION_INTERVAL)
    }
}

impl Net {
    pub fn new(metrics_collection_interval_seconds: u32) -> (r: Self)
        ensures
            net_shape(r, metrics_collection_interval_seconds),
    {
        let mut resources: Vec<String> = Vec::new();
        resources.push("*".to_owned());
        let mut measurement: Vec<String> = Vec::new();
        measurement.push("bytes_sent".to_owned());
        measurement.push("bytes_recv".to_owned());
        measurement.push("packets_sent".to_owned());
        measurement.push("packets_recv".to_owned());
        Net { resources, measurement, metrics_collection_interval: metrics_collection_interval_seconds }
    }
}

/// Connection-state metrics to collect.
#[derive(Debug, Clone)]
pub struct Netstat {
    pub measurement: Vec<String>,
    pub metrics_collection_interval: u32,
}

/// The connection-state block with default measurements and the given
/// interval.
pub open spec fn netstat_shape(n: Netstat, interval: u32) -> bool {
    &&& n.measurement@.len() == 2
    &&& n.measurement@[0]@ == "tcp_listen"@
    &&& n.measurement@[1]@ == "tcp_established"@
    &&& n.metrics_collection_interval == interval
}

impl Default for Netstat {
    fn default() -> (r: Self)
        ensures
            netstat_shape(r, DEFAULT_METRICS_COLLECTION_INTERVAL),
    {
        Netstat::new(DEFAULT_METRICS_COLLECTION_INTERVAL)
    }
}

impl Netstat {
    pub fn new(metrics_collection_interval_seconds: u32) -> (r: Self)
        ensures
            netstat_shape(r, metrics_collection_interval_seconds),
    {
        let mut measurement: Vec<String> = Vec::new();
        measurement.push("tcp_listen".to_owned());
        measurement.push("tcp_established".to_owned());
        Netstat { measurement, metrics_collection_interval: metrics_collection_interval_seconds }
    }
}

/// Which metric families are collected.
#[derive(Debug, Clone)]
pub struct MetricsCollected {
    pub cpu: Option<Cpu>,
    pub mem: Option<Mem>,
    pub disk: Option<Disk>,
    pub diskio: Option<DiskIo>,
    pub net: Option<Net>,
    pub netstat: Option<Netstat>,
}

/// Every family present, each with its default shape and the given interval.
pub open spec fn metrics_collected_shape(m: MetricsCollected, interval: u32) -> bool {
    &&& m.cpu matches Some(c) && cpu_shape(c, interval)
    &&& m.mem matches Some(x) && mem_shape(x, interval)
    &&& m.disk matches Some(d) && disk_shape(d, d.resources@, interval)
        && disk_default_resources(d.resources@)
    &&& m.diskio matches Some(d) && diskio_shape(d, interval)
    &&& m.net matches Some(n) && net_shape(n, interval)
    &&& m.netstat matches Some(n) && netstat_shape(n, interval)
}

impl Default for MetricsCollected {
    fn default() -> (r: Self)
        ensures
            metrics_collected_shape(r, DEFAULT_METRICS_COLLECTION_INTERVAL),
    {
        MetricsCollected::new(DEFAULT_METRICS_COLLECTION_INTERVAL)
    }
}

impl MetricsCollected {
    pub fn new(metrics_collection_interval_seconds: u32) -> (r: Self)
        ensures
            metrics_collected_shape(r, metrics_collection_interval_seconds),
    {
        MetricsCollected {
            cpu: Some(Cpu::new(metrics_collection_interval_seconds)),
            mem: Some(Mem::new(metrics_collection_interval_seconds)),
            disk: Some(Disk::new(metrics_collection_interval_seconds)),
            diskio: Some(DiskIo::new(metrics_collection_interval_seconds)),
            net: Some(Net::new(metrics_collection_interval_seconds)),
            netstat: Some(Netstat::new(metrics_collection_interval_seconds)),
        }
    }
}

/// The metrics block: a namespace, the collected families, the dimensions
/// appended to and aggregated over, and the flush interval.
#[derive(Debug, Clone)]
pub struct Metrics {
    pub namespace: String,
    pub metrics_collected: MetricsCollected,
    pub append_dimensions: Option<Vec<(String, String)>>,
    pub aggregation_dimensions: Option<Vec<Vec<String>>>,
    pub force_flush_interval: u32,
}

/// The metrics block around the given collected families: empty namespace,
/// the documented instance dimensions, and a 30-second flush.
pub open spec fn metrics_shape(m: Metrics, interval: u32) -> bool {
    &&& m.namespace@ == Seq::<char>::empty()
    &&& metrics_collected_shape(m.metrics_collected, interval)
    &&& m.append_dimensions matches Some(ad) && {
        &&& ad@.len() == 3
        &&& ad@[0].0@ == "InstanceId"@ && ad@[0].1@ == "${aws:InstanceId}"@
        &&& ad@[1].0@ == "InstanceType"@ && ad@[1].1@ == "${aws:InstanceType}"@
        &&& ad@[2].0@ == "AutoScalingGroupName"@ && ad@[2].1@ == "${aws:AutoScalingGroupName}"@
    }
    &&& m.aggregation_dimensions matches Some(ag) && {
        &&& ag@.len() == 2
        &&& ag@[0]@.len() == 1 && ag@[0]@[0]@ == "AutoScalingGroupName"@
        &&& ag@[1]@.len() == 2 && ag@[1]@[0]@ == "InstanceId"@ && ag@[1]@[1]@ == "InstanceType"@
    }
    &&& m.force_flush_interval == 30
}

impl Default for Metrics {
    fn default() -> (r: Self)
        ensures
            metrics_shape(r, DEFAULT_METRICS_COLLECTION_INTERVAL),
    {
        Metrics::new(DEFAULT_METRICS_COLLECTION_INTERVAL)
    }
}

impl Metrics {
    pub fn new(metrics_collection_interval_seconds: u32) -> (r: Self)
        ensures
            metrics_shape(r, metrics_collection_interval_seconds),
    {
        let mut append_dimensions: Vec<(String, String)> = Vec::new();
        append_dimensions.push(("InstanceId".to_owned(), "${aws:InstanceId}".to_owned()));
        append_dimensions.push(("InstanceType".to_owned(), "${aws:InstanceType}".to_owned()));
        append_dimensions.push((
            "AutoScalingGroupName".to_owned(),
            "${aws:AutoScalingGroupName}".to_owned(),
        ));
        let mut group_a: Vec<String> = Vec::new();
        group_a.push("AutoScalingGroupName".to_owned());
        let mut group_b: Vec<String> = Vec::new();
        group_b.push("InstanceId".to_owned());
        group_b.push("InstanceType".to_owned());
        let mut aggregation_dimensions: Vec<Vec<String>> = Vec::new();
        aggregation_dimensions.push(group_a);
        aggregation_dimensions.push(group_b);
        Metrics {
            namespace: String::new(),
            metrics_collected: MetricsCollected::new(metrics_collection_interval_seconds),
            append_dimensions: Some(append_dimensions),
            aggregation_dimensions: Some(aggregation_dimensions),
            force_flush_interval: 30,
        }
    }
}

/// The whole agent configuration.
#[derive(Debug, Clone)]
pub struct Config {
    pub agent: Option<Agent>,
    pub logs: Option<Logs>,
    pub metrics: Option<Metrics>,
}

impl Config {
    /// An empty configuration: no block set.
    pub fn new() -> (r: Self)
        ensures
            r.agent is None,
            r.logs is None,
            r.metrics is None,
    {
        Config { agent: None, logs: None, metrics: None }
    }

    /// The default configuration holds the default agent block alone; the
    /// metrics block is left unset because it would carry an empty namespace.
    pub fn default() -> (r: Self)
        ensures
            r.agent matches Some(a) && is_default_agent(a),
            r.logs is None,
            r.metrics is None,
    {
        let mut config = Config::new();
        config.agent = Some(Agent::default());
        config
    }

    /// Every constructible configuration is acceptable: validation never
    /// rejects one.
    pub fn validate(&self) -> (r: Result<(), ()>)
        ensures
            r is Ok,
    {
        Ok(())
    }
}

} // verus!
