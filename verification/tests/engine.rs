use aws_manager::ec2::assemble::{Context, Generator, SelectionFlags, Step};
use aws_manager::ec2::plugins::{create, sort_by_rank, to_strings, Plugin};
use aws_manager::ec2::selection::{from_strings, resolve};
use aws_manager::ec2::validate::{validate, Error};
use aws_manager::ec2::{ArchType, OsType};

struct TestGen;

impl Generator for TestGen {
    fn generate(&self, step: &Step, _ctx: &Context, _flags: &SelectionFlags) -> Result<String, String> {
        match step {
            Step::Preamble => Ok("PREAMBLE".to_string()),
            Step::Fragment(p) => Ok(format!("FRAG[{}]", p.as_str())),
            Step::ProfileUpdate => Ok("PROFILE-UPDATE-FRAGMENT".to_string()),
            Step::Credentials => Ok("CREDENTIALS-FRAGMENT".to_string()),
            Step::PostInit => Ok(String::new()),
            Step::Marker => Ok(String::new()),
        }
    }
}

struct FailingGen;

impl Generator for FailingGen {
    fn generate(&self, step: &Step, _ctx: &Context, _flags: &SelectionFlags) -> Result<String, String> {
        match step {
            Step::Preamble => Ok("PREAMBLE".to_string()),
            _ => Err("generator broke".to_string()),
        }
    }
}

fn run_create<G: Generator>(
    gen: &G,
    arch: ArchType,
    names: &[&str],
    require_ip: bool,
    email: Option<&str>,
    creds: Option<(&str, &str)>,
    post_init: Option<&str>,
) -> Result<(Vec<Plugin>, String), Error> {
    let strings: Vec<String> = names.iter().map(|s| s.to_string()).collect();
    let (key_id, access_key) = match creds {
        Some((a, b)) => (Some(a.to_string()), Some(b.to_string())),
        None => (None, None),
    };
    create(
        gen,
        arch,
        OsType::Ubuntu2004,
        strings,
        require_ip,
        "bucket",
        "machine-a",
        "us-west-2",
        "gp3",
        300,
        3000,
        500,
        email.map(|s| s.to_string()),
        key_id,
        access_key,
        post_init.map(|s| s.to_string()),
    )
}

#[test]
fn test_sort() {
    let expected: Vec<Plugin> = vec![
        Plugin::Imds,
        Plugin::ProviderId,
        Plugin::Vercmp,
        Plugin::SetupLocalDisks,
        Plugin::MountBpfFs,
        Plugin::TimeSync,
        Plugin::SystemLimitBump,
        Plugin::AwsCli,
        Plugin::SsmAgent,
        Plugin::CloudwatchAgent,
        Plugin::Anaconda,
        Plugin::Go,
        Plugin::Docker,
        Plugin::Containerd,
        Plugin::Runc,
        Plugin::Ena,
        Plugin::NvidiaDriver,
        Plugin::DevBark,
        Plugin::EksWorkerNodeAmiReuse,
        Plugin::AmiInfo,
        Plugin::PostInitScript,
        Plugin::CleanupImagePackages,
        Plugin::CleanupImageTmpDir,
        Plugin::CleanupImageAwsCredentials,
        Plugin::CleanupImageSshKeys,
    ];

    let unsorted: Vec<Plugin> = vec![
        Plugin::NvidiaDriver,
        Plugin::EksWorkerNodeAmiReuse,
        Plugin::CloudwatchAgent,
        Plugin::CleanupImageSshKeys,
        Plugin::Runc,
        Plugin::CleanupImagePackages,
        Plugin::CleanupImageTmpDir,
        Plugin::PostInitScript,
        Plugin::CleanupImageAwsCredentials,
        Plugin::SsmAgent,
        Plugin::MountBpfFs,
        Plugin::Imds,
        Plugin::SystemLimitBump,
        Plugin::Containerd,
        Plugin::Vercmp,
        Plugin::DevBark,
        Plugin::ProviderId,
        Plugin::TimeSync,
        Plugin::Docker,
        Plugin::SetupLocalDisks,
        Plugin::Anaconda,
        Plugin::AmiInfo,
        Plugin::Go,
        Plugin::AwsCli,
        Plugin::Ena,
    ];
    let unsorted = sort_by_rank(unsorted);

    assert_eq!(expected, unsorted);
    assert_eq!(unsorted[0], Plugin::Imds);
}

#[test]
fn parse_round_trips_every_known_form() {
    for name in Plugin::all() {
        let p = Plugin::parse(name.as_str());
        assert!(!p.is_unknown(), "{name} parsed to the open variant");
        assert_eq!(p.as_str(), name.as_str());
    }
    assert_eq!(Plugin::parse("imds"), Plugin::Imds);
    assert_eq!(Plugin::parse("static-volume-provisioner"), Plugin::StaticVolumeProvisioner);
    assert_eq!(Plugin::parse("cleanup-image-ssh-keys"), Plugin::CleanupImageSshKeys);
}

#[test]
fn parse_passes_unknown_forms_through() {
    let p = Plugin::parse("some-future-capability");
    assert!(p.is_unknown());
    assert_eq!(p.as_str(), "some-future-capability");
    let q = plugin_from_empty();
    assert_eq!(q.as_str(), "");
}

fn plugin_from_empty() -> Plugin {
    Plugin::parse("")
}

#[test]
fn resolution_is_idempotent() {
    let names: Vec<String> = vec![
        "static-volume-provisioner".to_string(),
        "anaconda".to_string(),
        "python".to_string(),
        "imds".to_string(),
        "imds".to_string(),
        "mystery".to_string(),
    ];
    let set = from_strings(&names);
    let once = resolve(set, true, true, false);
    let members_once: Vec<bool> = Plugin::all()
        .iter()
        .map(|n| once.contains(&Plugin::parse(n)))
        .collect();
    assert!(once.contains(&Plugin::NvidiaDriver));
    assert!(once.contains(&Plugin::StaticIpProvisioner));
    assert!(once.contains(&Plugin::Anaconda));
    assert!(!once.contains(&Plugin::Python));
    assert!(once.contains(&Plugin::Unknown("mystery".to_string())));
    let twice = resolve(once, true, true, false);
    let members_twice: Vec<bool> = Plugin::all()
        .iter()
        .map(|n| twice.contains(&Plugin::parse(n)))
        .collect();
    assert_eq!(members_once, members_twice);
    assert!(twice.contains(&Plugin::Unknown("mystery".to_string())));
}

#[test]
fn sorting_twice_yields_identical_sequences() {
    let v = vec![
        Plugin::CleanupImageSshKeys,
        Plugin::Imds,
        Plugin::Terraform,
        Plugin::Anaconda,
        Plugin::Ena,
    ];
    let once = sort_by_rank(v);
    let copy: Vec<Plugin> = once.iter().map(|p| Plugin::parse(p.as_str())).collect();
    let twice = sort_by_rank(copy);
    assert_eq!(once, twice);
}

#[test]
fn conflicting_image_capabilities_fail_validation() {
    let r = run_create(
        &TestGen,
        ArchType::Amd64,
        &["eks-worker-node-ami-scratch", "eks-worker-node-ami-reuse"],
        false,
        None,
        None,
        None,
    );
    match r {
        Err(Error::ConflictingCapabilities { first, second }) => {
            assert_eq!(first, Plugin::EksWorkerNodeAmiScratch);
            assert_eq!(second, Plugin::EksWorkerNodeAmiReuse);
        }
        other => panic!("expected a conflict, got {other:?}"),
    }
}

#[test]
fn time_sync_requires_instance_metadata() {
    let r = run_create(&TestGen, ArchType::Amd64, &["time-sync"], false, None, None, None);
    match r {
        Err(Error::MissingRequiredCapability { plugin, required }) => {
            assert_eq!(plugin, Plugin::TimeSync);
            assert_eq!(required, Plugin::Imds);
        }
        other => panic!("expected a missing requirement, got {other:?}"),
    }

    let r = run_create(&TestGen, ArchType::Amd64, &["time-sync", "imds"], false, None, None, None);
    assert!(r.is_ok(), "adding instance metadata must make it pass: {r:?}");
}

#[test]
fn main_pass_emits_in_rank_order_and_updates_profile_once() {
    let r = run_create(
        &TestGen,
        ArchType::Amd64,
        &["ssm-agent", "time-sync", "imds"],
        false,
        None,
        None,
        None,
    )
    .unwrap();
    let (plugins, text) = r;
    assert_eq!(plugins, vec![Plugin::Imds, Plugin::TimeSync, Plugin::SsmAgent]);

    let imds = text.find("FRAG[imds]").unwrap();
    let time_sync = text.find("FRAG[time-sync]").unwrap();
    let agent = text.find("FRAG[ssm-agent]").unwrap();
    assert!(imds < time_sync && time_sync < agent, "main pass must follow rank order");

    assert_eq!(text.matches("PROFILE-UPDATE-FRAGMENT").count(), 1);
    let profile = text.find("PROFILE-UPDATE-FRAGMENT").unwrap();
    assert!(agent < profile, "without a trigger, the update comes in the epilogue");

    assert!(!text.contains("FRAG[ami-info]"));
    assert!(!text.contains("FRAG[cluster-info]"));
    assert!(!text.contains("FRAG[cleanup-image-packages]"));
    assert!(!text.contains("FRAG[cleanup-image-ssh-keys]"));
}

#[test]
fn ssh_key_cleanup_comes_strictly_after_the_marker() {
    let (_, text) = run_create(
        &TestGen,
        ArchType::Amd64,
        &["imds", "cleanup-image-packages", "cleanup-image-ssh-keys"],
        false,
        None,
        None,
        None,
    )
    .unwrap();
    let packages = text.find("FRAG[cleanup-image-packages]").unwrap();
    let marker = text.find("# INIT SCRIPT COMPLETE").unwrap();
    let ssh = text.find("FRAG[cleanup-image-ssh-keys]").unwrap();
    assert!(packages < marker, "package cleanup must precede the marker");
    assert!(marker < ssh, "SSH-key cleanup must follow the marker");
    assert!(text.contains("echo \"INIT SCRIPT COMPLETE\""));
}

#[test]
fn both_triggers_update_profile_once_after_the_lower_rank() {
    let (_, text) = run_create(
        &TestGen,
        ArchType::Amd64,
        &["static-volume-provisioner", "system-limit-bump"],
        false,
        None,
        None,
        None,
    )
    .unwrap();
    assert_eq!(text.matches("PROFILE-UPDATE-FRAGMENT").count(), 1);
    let bump = text.find("FRAG[system-limit-bump]").unwrap();
    let profile = text.find("PROFILE-UPDATE-FRAGMENT").unwrap();
    let volume = text.find("FRAG[static-volume-provisioner]").unwrap();
    assert!(bump < profile && profile < volume, "update must follow the lower-ranked trigger");
}

#[test]
fn unknown_capability_cannot_be_assembled() {
    let r = run_create(&TestGen, ArchType::Amd64, &["imds", "mystery-thing"], false, None, None, None);
    match r {
        Err(Error::UnknownCapability { plugin }) => {
            assert_eq!(plugin.as_str(), "mystery-thing");
        }
        other => panic!("expected an unknown capability, got {other:?}"),
    }
}

#[test]
fn generator_failure_aborts_assembly() {
    let r = run_create(&FailingGen, ArchType::Amd64, &["imds"], false, None, None, None);
    match r {
        Err(Error::GeneratorFailure { plugin, message }) => {
            assert_eq!(plugin, Some(Plugin::Imds));
            assert_eq!(message, "generator broke");
        }
        other => panic!("expected a generator failure, got {other:?}"),
    }
}

#[test]
fn cuda_toolkit_needs_accelerator_architecture_and_driver() {
    let r = run_create(&TestGen, ArchType::Amd64, &["nvidia-cuda-toolkit"], false, None, None, None);
    assert!(matches!(r, Err(Error::ArchitectureMismatch { plugin, .. }) if plugin == Plugin::NvidiaCudaToolkit));

    let r = run_create(&TestGen, ArchType::Amd64GpuNvidia, &["nvidia-cuda-toolkit"], false, None, None, None);
    assert!(r.is_ok(), "the accelerator architecture brings the driver in: {r:?}");
    let (plugins, _) = r.unwrap();
    assert!(plugins.contains(&Plugin::NvidiaDriver));
}

#[test]
fn keyed_ssh_capability_needs_the_email() {
    let r = run_create(&TestGen, ArchType::Amd64, &["ssh-key-with-email"], false, None, None, None);
    assert!(matches!(r, Err(Error::MissingRequiredInput { plugin }) if plugin == Plugin::SshKeyWithEmail));

    let r = run_create(
        &TestGen,
        ArchType::Amd64,
        &["ssh-key-with-email"],
        false,
        Some("dev@example.com"),
        None,
        None,
    );
    assert!(r.is_ok());
}

#[test]
fn stack_helper_needs_an_interpreter() {
    let r = run_create(&TestGen, ArchType::Amd64, &["aws-cfn-helper"], false, None, None, None);
    assert!(matches!(
        r,
        Err(Error::MissingRequiredCapability { plugin, .. }) if plugin == Plugin::AwsCfnHelper
    ));
    let r = run_create(&TestGen, ArchType::Amd64, &["aws-cfn-helper", "python"], false, None, None, None);
    assert!(r.is_ok());
}

#[test]
fn credential_provider_needs_its_runtime() {
    let r = run_create(&TestGen, ArchType::Amd64, &["ecr-credential-provider"], false, None, None, None);
    assert!(matches!(
        r,
        Err(Error::MissingRequiredCapability { plugin, required })
            if plugin == Plugin::EcrCredentialProvider && required == Plugin::Go
    ));
}

#[test]
fn developer_tooling_needs_the_static_volume() {
    let r = run_create(&TestGen, ArchType::Amd64, &["dev-bark"], false, None, None, None);
    assert!(matches!(
        r,
        Err(Error::MissingRequiredCapability { plugin, required })
            if plugin == Plugin::DevBark && required == Plugin::StaticVolumeProvisioner
    ));
}

#[test]
fn enhanced_networking_needs_instance_metadata() {
    let r = run_create(&TestGen, ArchType::Amd64, &["ena"], false, None, None, None);
    assert!(matches!(
        r,
        Err(Error::MissingRequiredCapability { plugin, required })
            if plugin == Plugin::Ena && required == Plugin::Imds
    ));
}

#[test]
fn full_distribution_overrides_minimal_interpreter() {
    let (plugins, _) = run_create(
        &TestGen,
        ArchType::Amd64,
        &["anaconda", "python"],
        false,
        None,
        None,
        None,
    )
    .unwrap();
    assert!(plugins.contains(&Plugin::Anaconda));
    assert!(!plugins.contains(&Plugin::Python));
}

#[test]
fn static_ip_companion_joins_when_required() {
    let (plugins, _) = run_create(
        &TestGen,
        ArchType::Amd64,
        &["static-volume-provisioner"],
        true,
        None,
        None,
        None,
    )
    .unwrap();
    assert!(plugins.contains(&Plugin::StaticIpProvisioner));

    let (plugins, _) = run_create(
        &TestGen,
        ArchType::Amd64,
        &["static-volume-provisioner"],
        false,
        None,
        None,
        None,
    )
    .unwrap();
    assert!(!plugins.contains(&Plugin::StaticIpProvisioner));
}

#[test]
fn post_init_payload_is_included_verbatim() {
    let (plugins, text) = run_create(
        &TestGen,
        ArchType::Amd64,
        &["imds"],
        false,
        None,
        None,
        Some("echo post-init-payload-here"),
    )
    .unwrap();
    assert!(plugins.contains(&Plugin::PostInitScript));
    let header = text.find("# USER-DEFINED POST INIT SCRIPT").unwrap();
    let payload = text.find("echo post-init-payload-here").unwrap();
    let marker = text.find("# INIT SCRIPT COMPLETE").unwrap();
    assert!(header < payload && payload < marker);
}

#[test]
fn credentials_fragment_appears_when_supplied() {
    let (_, text) = run_create(
        &TestGen,
        ArchType::Amd64,
        &["imds"],
        false,
        None,
        Some(("AKID", "SECRET-REDACTED")),
        None,
    )
    .unwrap();
    assert_eq!(text.matches("CREDENTIALS-FRAGMENT").count(), 1);

    let (_, text) = run_create(&TestGen, ArchType::Amd64, &["imds"], false, None, None, None).unwrap();
    assert!(!text.contains("CREDENTIALS-FRAGMENT"));
}

#[test]
fn duplicates_collapse_and_audit_list_is_sorted() {
    let (plugins, _) = run_create(
        &TestGen,
        ArchType::Amd64,
        &["imds", "imds", "vercmp", "imds"],
        false,
        None,
        None,
        None,
    )
    .unwrap();
    assert_eq!(plugins, vec![Plugin::Imds, Plugin::Vercmp]);
    assert_eq!(to_strings(plugins), vec!["imds".to_string(), "vercmp".to_string()]);
}

#[test]
fn catalog_lists_hold_the_vocabulary() {
    let values = Plugin::values();
    assert_eq!(values.len(), 48);
    assert_eq!(values[0], "imds");
    assert_eq!(values[47], "cleanup-image-aws-credentials");

    let all = Plugin::all();
    assert_eq!(all.len(), 49);
    assert_eq!(all[0], "imds");
    assert_eq!(all[48], "cleanup-image-ssh-keys");

    let defaults = Plugin::default();
    assert_eq!(
        defaults,
        vec![
            "imds".to_string(),
            "provider-id".to_string(),
            "vercmp".to_string(),
            "setup-local-disks".to_string(),
            "mount-bpf-fs".to_string(),
            "time-sync".to_string(),
            "system-limit-bump".to_string(),
            "ssm-agent".to_string(),
            "cloudwatch-agent".to_string(),
            "anaconda".to_string(),
            "aws-cfn-helper".to_string(),
        ]
    );
}

#[test]
fn ranks_order_the_catalog() {
    assert_eq!(Plugin::Imds.rank(), 0);
    assert_eq!(Plugin::Anaconda.rank(), 25);
    assert_eq!(Plugin::Python.rank(), 25);
    assert_eq!(Plugin::AmiInfo.rank(), u32::MAX - 2000);
    assert_eq!(Plugin::CleanupImageSshKeys.rank(), u32::MAX - 5);
    assert_eq!(Plugin::Unknown("anything".to_string()).rank(), u32::MAX);
    assert_eq!(ArchType::Amd64.as_str(), "amd64");
    assert!(ArchType::Amd64GpuNvidia.is_nvidia());
    assert!(!ArchType::Arm64.is_nvidia());
    assert_eq!(OsType::Ubuntu2004.as_str(), "ubuntu20.04");
}

#[test]
fn default_selection_passes_validation() {
    let names: Vec<String> = Plugin::default();
    let set = from_strings(&names);
    let resolved = resolve(set, false, false, false);
    assert!(validate(&resolved, ArchType::Amd64, false).is_ok());
}
