use aws_manager::cloudwatch::{
    default_config_file_path, default_logfile, Agent, Collect, Config, Cpu, Disk, DiskIo, Mem,
    Metrics, MetricsCollected, Net, Netstat, DEFAULT_METRICS_COLLECTION_INTERVAL,
};

#[test]
fn default_agent_block() {
    let a = Agent::default();
    assert_eq!(a.metrics_collection_interval, DEFAULT_METRICS_COLLECTION_INTERVAL);
    assert_eq!(a.region, None);
    assert_eq!(a.logfile, default_logfile());
    assert_eq!(a.debug, Some(false));
    assert_eq!(
        default_config_file_path(),
        "/opt/aws/amazon-cloudwatch-agent/bin/config.json"
    );
}

#[test]
fn default_config_holds_the_agent_alone() {
    let c = Config::default();
    assert!(c.agent.is_some());
    assert!(c.logs.is_none());
    assert!(c.metrics.is_none());
    assert!(c.validate().is_ok());

    let empty = Config::new();
    assert!(empty.agent.is_none());
    assert!(empty.logs.is_none());
    assert!(empty.metrics.is_none());
}

#[test]
fn default_collect_entry_is_empty() {
    let c = Collect::default();
    assert_eq!(c.log_group_name, "");
    assert_eq!(c.log_stream_name, "");
    assert_eq!(c.file_path, "");
    assert!(c.timestamp_format.is_none());
    assert!(c.timezone.is_none());
    assert!(c.auto_removal.is_none());
    assert!(c.retention_in_days.is_none());
}

#[test]
fn metric_blocks_carry_the_interval() {
    let cpu = Cpu::new(30);
    assert_eq!(cpu.metrics_collection_interval, 30);
    assert_eq!(cpu.resources, vec!["*".to_string()]);
    assert_eq!(cpu.measurement, vec!["usage_active".to_string(), "usage_system".to_string()]);

    let mem = Mem::new(45);
    assert_eq!(mem.metrics_collection_interval, 45);
    assert_eq!(mem.measurement, vec!["mem_used".to_string(), "mem_total".to_string()]);

    let disk = Disk::new(60);
    assert_eq!(disk.resources, vec!["/".to_string()]);
    assert_eq!(
        disk.ignore_file_system_types,
        Some(vec!["sysfs".to_string(), "devtmpfs".to_string()])
    );
    let disk2 = Disk::new_with_resources(vec!["/data".to_string()], 60);
    assert_eq!(disk2.resources, vec!["/data".to_string()]);
    assert_eq!(
        disk2.measurement,
        vec![
            "used".to_string(),
            "total".to_string(),
            "inodes_used".to_string(),
            "inodes_total".to_string()
        ]
    );

    let diskio = DiskIo::new(90);
    assert_eq!(diskio.resources, vec!["nvme1n1".to_string()]);

    let net = Net::new(120);
    assert_eq!(
        net.measurement,
        vec![
            "bytes_sent".to_string(),
            "bytes_recv".to_string(),
            "packets_sent".to_string(),
            "packets_recv".to_string()
        ]
    );

    let netstat = Netstat::new(150);
    assert_eq!(
        netstat.measurement,
        vec!["tcp_listen".to_string(), "tcp_established".to_string()]
    );
    assert_eq!(netstat.metrics_collection_interval, 150);
}

#[test]
fn metrics_collected_propagates_the_interval() {
    let m = MetricsCollected::new(75);
    assert_eq!(m.cpu.unwrap().metrics_collection_interval, 75);
    assert_eq!(m.mem.unwrap().metrics_collection_interval, 75);
    assert_eq!(m.disk.unwrap().metrics_collection_interval, 75);
    assert_eq!(m.diskio.unwrap().metrics_collection_interval, 75);
    assert_eq!(m.net.unwrap().metrics_collection_interval, 75);
    assert_eq!(m.netstat.unwrap().metrics_collection_interval, 75);
}

#[test]
fn metrics_block_defaults() {
    let m = Metrics::new(600);
    assert_eq!(m.namespace, "");
    assert_eq!(m.force_flush_interval, 30);
    let dims = m.append_dimensions.unwrap();
    assert_eq!(
        dims,
        vec![
            ("InstanceId".to_string(), "${aws:InstanceId}".to_string()),
            ("InstanceType".to_string(), "${aws:InstanceType}".to_string()),
            (
                "AutoScalingGroupName".to_string(),
                "${aws:AutoScalingGroupName}".to_string()
            ),
        ]
    );
    let agg = m.aggregation_dimensions.unwrap();
    assert_eq!(
        agg,
        vec![
            vec!["AutoScalingGroupName".to_string()],
            vec!["InstanceId".to_string(), "InstanceType".to_string()],
        ]
    );

    let d = Metrics::default();
    assert_eq!(
        d.metrics_collected.cpu.unwrap().metrics_collection_interval,
        DEFAULT_METRICS_COLLECTION_INTERVAL
    );
}
