//! The capability catalog: the closed vocabulary of initialization
//! capabilities, their canonical string forms, their ranks, and the
//! catalog-wide laws (round-tripping, injectivity).

use vstd::prelude::*;

pub use crate::ec2::assemble::{create, INIT_SCRIPT_COMPLETE_MSG};

verus! {

broadcast use {vstd::multiset::group_multiset_axioms, vstd::string::group_string_axioms};

/// One unit of machine-initialization behaviour. Every known member has a
/// canonical lowercase-hyphenated string form and a rank; identifiers the
/// build does not know are carried losslessly in the open variant.
#[derive(Debug)]
pub enum Plugin {
    Imds,
    ProviderId,
    Vercmp,
    SetupLocalDisks,
    MountBpfFs,
    TimeSync,
    SystemLimitBump,
    AwsCli,
    SsmAgent,
    CloudwatchAgent,
    StaticVolumeProvisioner,
    StaticIpProvisioner,
    Anaconda,
    Python,
    Rust,
    Go,
    Docker,
    Containerd,
    Runc,
    CniPlugins,
    AwsCfnHelper,
    Saml2Aws,
    AwsIamAuthenticator,
    EcrCredentialHelper,
    EcrCredentialProvider,
    Kubelet,
    Kubectl,
    Helm,
    Terraform,
    SshKeyWithEmail,
    Ena,
    NvidiaDriver,
    NvidiaCudaToolkit,
    NvidiaContainerToolkit,
    AmdRadeonGpuDriver,
    ProtobufCompiler,
    Cmake,
    Gcc7,
    DevBark,
    DevFaissGpu,
    EksWorkerNodeAmiScratch,
    EksWorkerNodeAmiReuse,
    AmiInfo,
    ClusterInfo,
    PostInitScript,
    CleanupImagePackages,
    CleanupImageTmpDir,
    CleanupImageAwsCredentials,
    CleanupImageSshKeys,
    Unknown(String),
}

/// The canonical string form of a capability; the open variant carries its
/// own form verbatim.
pub open spec fn cap_str(p: Plugin) -> Seq<char> {
    match p {
            Plugin::Imds => "imds"@,
            Plugin::ProviderId => "provider-id"@,
            Plugin::Vercmp => "vercmp"@,
            Plugin::SetupLocalDisks => "setup-local-disks"@,
            Plugin::MountBpfFs => "mount-bpf-fs"@,
            Plugin::TimeSync => "time-sync"@,
            Plugin::SystemLimitBump => "system-limit-bump"@,
            Plugin::AwsCli => "aws-cli"@,
            Plugin::SsmAgent => "ssm-agent"@,
            Plugin::CloudwatchAgent => "cloudwatch-agent"@,
            Plugin::StaticVolumeProvisioner => "static-volume-provisioner"@,
            Plugin::StaticIpProvisioner => "static-ip-provisioner"@,
            Plugin::Anaconda => "anaconda"@,
            Plugin::Python => "python"@,
            Plugin::Rust => "rust"@,
            Plugin::Go => "go"@,
            Plugin::Docker => "docker"@,
            Plugin::Containerd => "containerd"@,
            Plugin::Runc => "runc"@,
            Plugin::CniPlugins => "cni-plugins"@,
            Plugin::AwsCfnHelper => "aws-cfn-helper"@,
            Plugin::Saml2Aws => "saml2aws"@,
            Plugin::AwsIamAuthenticator => "aws-iam-authenticator"@,
            Plugin::EcrCredentialHelper => "ecr-credential-helper"@,
            Plugin::EcrCredentialProvider => "ecr-credential-provider"@,
            Plugin::Kubelet => "kubelet"@,
            Plugin::Kubectl => "kubectl"@,
            Plugin::Helm => "helm"@,
            Plugin::Terraform => "terraform"@,
            Plugin::SshKeyWithEmail => "ssh-key-with-email"@,
            Plugin::Ena => "ena"@,
            Plugin::NvidiaDriver => "nvidia-driver"@,
            Plugin::NvidiaCudaToolkit => "nvidia-cuda-toolkit"@,
            Plugin::NvidiaContainerToolkit => "nvidia-container-toolkit"@,
            Plugin::AmdRadeonGpuDriver => "amd-radeon-gpu-driver"@,
            Plugin::ProtobufCompiler => "protobuf-compiler"@,
            Plugin::Cmake => "cmake"@,
            Plugin::Gcc7 => "gcc7"@,
            Plugin::DevBark => "dev-bark"@,
            Plugin::DevFaissGpu => "dev-faiss-gpu"@,
            Plugin::EksWorkerNodeAmiScratch => "eks-worker-node-ami-scratch"@,
            Plugin::EksWorkerNodeAmiReuse => "eks-worker-node-ami-reuse"@,
            Plugin::AmiInfo => "ami-info"@,
            Plugin::ClusterInfo => "cluster-info"@,
            Plugin::PostInitScript => "post-init-script"@,
            Plugin::CleanupImagePackages => "cleanup-image-packages"@,
            Plugin::CleanupImageTmpDir => "cleanup-image-tmp-dir"@,
            Plugin::CleanupImageAwsCredentials => "cleanup-image-aws-credentials"@,
            Plugin::CleanupImageSshKeys => "cleanup-image-ssh-keys"@,
        Plugin::Unknown(s) => s@,
    }
}

/// The rank of a capability: the fixed priority that orders the main
/// assembly pass. The open variant ranks last.
pub open spec fn cap_rank(p: Plugin) -> u32 {
    match p {
            Plugin::Imds => 0u32,
            Plugin::ProviderId => 1u32,
            Plugin::Vercmp => 2u32,
            Plugin::SetupLocalDisks => 3u32,
            Plugin::MountBpfFs => 4u32,
            Plugin::TimeSync => 5u32,
            Plugin::SystemLimitBump => 6u32,
            Plugin::AwsCli => 7u32,
            Plugin::SsmAgent => 8u32,
            Plugin::CloudwatchAgent => 9u32,
            Plugin::StaticVolumeProvisioner => 20u32,
            Plugin::StaticIpProvisioner => 21u32,
            Plugin::Anaconda => 25u32,
            Plugin::Python => 25u32,
            Plugin::Rust => 26u32,
            Plugin::Go => 27u32,
            Plugin::Docker => 28u32,
            Plugin::Containerd => 29u32,
            Plugin::Runc => 30u32,
            Plugin::CniPlugins => 31u32,
            Plugin::AwsCfnHelper => 32u32,
            Plugin::Saml2Aws => 33u32,
            Plugin::AwsIamAuthenticator => 34u32,
            Plugin::EcrCredentialHelper => 35u32,
            Plugin::EcrCredentialProvider => 36u32,
            Plugin::Kubelet => 37u32,
            Plugin::Kubectl => 38u32,
            Plugin::Helm => 50u32,
            Plugin::Terraform => 51u32,
            Plugin::SshKeyWithEmail => 68u32,
            Plugin::Ena => 100u32,
            Plugin::NvidiaDriver => 200u32,
            Plugin::NvidiaCudaToolkit => 201u32,
            Plugin::NvidiaContainerToolkit => 202u32,
            Plugin::AmdRadeonGpuDriver => 300u32,
            Plugin::ProtobufCompiler => 60000u32,
            Plugin::Cmake => 60001u32,
            Plugin::Gcc7 => 60002u32,
            Plugin::DevBark => 80000u32,
            Plugin::DevFaissGpu => 80001u32,
            Plugin::EksWorkerNodeAmiScratch => 99990u32,
            Plugin::EksWorkerNodeAmiReuse => 99991u32,
            Plugin::AmiInfo => 4294965295u32,
            Plugin::ClusterInfo => 4294965296u32,
            Plugin::PostInitScript => 4294966295u32,
            Plugin::CleanupImagePackages => 4294967285u32,
            Plugin::CleanupImageTmpDir => 4294967286u32,
            Plugin::CleanupImageAwsCredentials => 4294967287u32,
            Plugin::CleanupImageSshKeys => 4294967290u32,
        Plugin::Unknown(_) => 4294967295u32,
    }
}

/// Whether a string is the canonical form of some known capability.
pub open spec fn is_known_str(s: Seq<char>) -> bool {
    ||| s == "imds"@
    ||| s == "provider-id"@
    ||| s == "vercmp"@
    ||| s == "setup-local-disks"@
    ||| s == "mount-bpf-fs"@
    ||| s == "time-sync"@
    ||| s == "system-limit-bump"@
    ||| s == "aws-cli"@
    ||| s == "ssm-agent"@
    ||| s == "cloudwatch-agent"@
    ||| s == "static-volume-provisioner"@
    ||| s == "static-ip-provisioner"@
    ||| s == "anaconda"@
    ||| s == "python"@
    ||| s == "rust"@
    ||| s == "go"@
    ||| s == "docker"@
    ||| s == "containerd"@
    ||| s == "runc"@
    ||| s == "cni-plugins"@
    ||| s == "aws-cfn-helper"@
    ||| s == "saml2aws"@
    ||| s == "aws-iam-authenticator"@
    ||| s == "ecr-credential-helper"@
    ||| s == "ecr-credential-provider"@
    ||| s == "kubelet"@
    ||| s == "kubectl"@
    ||| s == "helm"@
    ||| s == "terraform"@
    ||| s == "ssh-key-with-email"@
    ||| s == "ena"@
    ||| s == "nvidia-driver"@
    ||| s == "nvidia-cuda-toolkit"@
    ||| s == "nvidia-container-toolkit"@
    ||| s == "amd-radeon-gpu-driver"@
    ||| s == "protobuf-compiler"@
    ||| s == "cmake"@
    ||| s == "gcc7"@
    ||| s == "dev-bark"@
    ||| s == "dev-faiss-gpu"@
    ||| s == "eks-worker-node-ami-scratch"@
    ||| s == "eks-worker-node-ami-reuse"@
    ||| s == "ami-info"@
    ||| s == "cluster-info"@
    ||| s == "post-init-script"@
    ||| s == "cleanup-image-packages"@
    ||| s == "cleanup-image-tmp-dir"@
    ||| s == "cleanup-image-aws-credentials"@
    ||| s == "cleanup-image-ssh-keys"@
}

/// Capability identity: same openness, same canonical string. On known
/// members this coincides with structural equality; on open members it
/// compares the carried strings by content.
pub open spec fn cap_eq(a: Plugin, b: Plugin) -> bool {
    ((a is Unknown) <==> (b is Unknown)) && cap_str(a) == cap_str(b)
}

/// Relies on str's PartialEq: two string slices are equal exactly when
/// their character sequences are equal.
#[verifier::external_body]
fn str_eq(a: &str, b: &str) -> (r: bool)
    ensures
        r == (a@ == b@),
{
    a == b
}

impl Plugin {
    /// The canonical string form of this capability.
    pub fn as_str(&self) -> (r: &str)
        ensures
            r@ == cap_str(*self),
    {
        match self {
            Plugin::Imds => "imds",
            Plugin::ProviderId => "provider-id",
            Plugin::Vercmp => "vercmp",
            Plugin::SetupLocalDisks => "setup-local-disks",
            Plugin::MountBpfFs => "mount-bpf-fs",
            Plugin::TimeSync => "time-sync",
            Plugin::SystemLimitBump => "system-limit-bump",
            Plugin::AwsCli => "aws-cli",
            Plugin::SsmAgent => "ssm-agent",
            Plugin::CloudwatchAgent => "cloudwatch-agent",
            Plugin::StaticVolumeProvisioner => "static-volume-provisioner",
            Plugin::StaticIpProvisioner => "static-ip-provisioner",
            Plugin::Anaconda => "anaconda",
            Plugin::Python => "python",
            Plugin::Rust => "rust",
            Plugin::Go => "go",
            Plugin::Docker => "docker",
            Plugin::Containerd => "containerd",
            Plugin::Runc => "runc",
            Plugin::CniPlugins => "cni-plugins",
            Plugin::AwsCfnHelper => "aws-cfn-helper",
            Plugin::Saml2Aws => "saml2aws",
            Plugin::AwsIamAuthenticator => "aws-iam-authenticator",
            Plugin::EcrCredentialHelper => "ecr-credential-helper",
            Plugin::EcrCredentialProvider => "ecr-credential-provider",
            Plugin::Kubelet => "kubelet",
            Plugin::Kubectl => "kubectl",
            Plugin::Helm => "helm",
            Plugin::Terraform => "terraform",
            Plugin::SshKeyWithEmail => "ssh-key-with-email",
            Plugin::Ena => "ena",
            Plugin::NvidiaDriver => "nvidia-driver",
            Plugin::NvidiaCudaToolkit => "nvidia-cuda-toolkit",
            Plugin::NvidiaContainerToolkit => "nvidia-container-toolkit",
            Plugin::AmdRadeonGpuDriver => "amd-radeon-gpu-driver",
            Plugin::ProtobufCompiler => "protobuf-compiler",
            Plugin::Cmake => "cmake",
            Plugin::Gcc7 => "gcc7",
            Plugin::DevBark => "dev-bark",
            Plugin::DevFaissGpu => "dev-faiss-gpu",
            Plugin::EksWorkerNodeAmiScratch => "eks-worker-node-ami-scratch",
            Plugin::EksWorkerNodeAmiReuse => "eks-worker-node-ami-reuse",
            Plugin::AmiInfo => "ami-info",
            Plugin::ClusterInfo => "cluster-info",
            Plugin::PostInitScript => "post-init-script",
            Plugin::CleanupImagePackages => "cleanup-image-packages",
            Plugin::CleanupImageTmpDir => "cleanup-image-tmp-dir",
            Plugin::CleanupImageAwsCredentials => "cleanup-image-aws-credentials",
            Plugin::CleanupImageSshKeys => "cleanup-image-ssh-keys",
            Plugin::Unknown(s) => s.as_str(),
        }
    }

    /// The rank used to order the main assembly pass.
    pub fn rank(&self) -> (r: u32)
        ensures
            r == cap_rank(*self),
    {
        match self {
            Plugin::Imds => 0,
            Plugin::ProviderId => 1,
            Plugin::Vercmp => 2,
            Plugin::SetupLocalDisks => 3,
            Plugin::MountBpfFs => 4,
            Plugin::TimeSync => 5,
            Plugin::SystemLimitBump => 6,
            Plugin::AwsCli => 7,
            Plugin::SsmAgent => 8,
            Plugin::CloudwatchAgent => 9,
            Plugin::StaticVolumeProvisioner => 20,
            Plugin::StaticIpProvisioner => 21,
            Plugin::Anaconda => 25,
            Plugin::Python => 25,
            Plugin::Rust => 26,
            Plugin::Go => 27,
            Plugin::Docker => 28,
            Plugin::Containerd => 29,
            Plugin::Runc => 30,
            Plugin::CniPlugins => 31,
            Plugin::AwsCfnHelper => 32,
            Plugin::Saml2Aws => 33,
            Plugin::AwsIamAuthenticator => 34,
            Plugin::EcrCredentialHelper => 35,
            Plugin::EcrCredentialProvider => 36,
            Plugin::Kubelet => 37,
            Plugin::Kubectl => 38,
            Plugin::Helm => 50,
            Plugin::Terraform => 51,
            Plugin::SshKeyWithEmail => 68,
            Plugin::Ena => 100,
            Plugin::NvidiaDriver => 200,
            Plugin::NvidiaCudaToolkit => 201,
            Plugin::NvidiaContainerToolkit => 202,
            Plugin::AmdRadeonGpuDriver => 300,
            Plugin::ProtobufCompiler => 60000,
            Plugin::Cmake => 60001,
            Plugin::Gcc7 => 60002,
            Plugin::DevBark => 80000,
            Plugin::DevFaissGpu => 80001,
            Plugin::EksWorkerNodeAmiScratch => 99990,
            Plugin::EksWorkerNodeAmiReuse => 99991,
            Plugin::AmiInfo => 4294965295,
            Plugin::ClusterInfo => 4294965296,
            Plugin::PostInitScript => 4294966295,
            Plugin::CleanupImagePackages => 4294967285,
            Plugin::CleanupImageTmpDir => 4294967286,
            Plugin::CleanupImageAwsCredentials => 4294967287,
            Plugin::CleanupImageSshKeys => 4294967290,
            Plugin::Unknown(_) => 4294967295,
        }
    }

    /// Turns an identifier string into a capability. Never fails: a string
    /// that is no known canonical form comes back wrapped in the open
    /// variant, so that its text is kept verbatim.
    pub fn parse(s: &str) -> (p: Plugin)
        ensures
            cap_str(p) == s@,
            (p is Unknown) <==> !is_known_str(s@),
    {
        if str_eq(s, "imds") {
            Plugin::Imds
        } else if str_eq(s, "provider-id") {
            Plugin::ProviderId
        } else if str_eq(s, "vercmp") {
            Plugin::Vercmp
        } else if str_eq(s, "setup-local-disks") {
            Plugin::SetupLocalDisks
        } else if str_eq(s, "mount-bpf-fs") {
            Plugin::MountBpfFs
        } else if str_eq(s, "time-sync") {
            Plugin::TimeSync
        } else if str_eq(s, "system-limit-bump") {
            Plugin::SystemLimitBump
        } else if str_eq(s, "aws-cli") {
            Plugin::AwsCli
        } else if str_eq(s, "ssm-agent") {
            Plugin::SsmAgent
        } else if str_eq(s, "cloudwatch-agent") {
            Plugin::CloudwatchAgent
        } else if str_eq(s, "static-volume-provisioner") {
            Plugin::StaticVolumeProvisioner
        } else if str_eq(s, "static-ip-provisioner") {
            Plugin::StaticIpProvisioner
        } else if str_eq(s, "anaconda") {
            Plugin::Anaconda
        } else if str_eq(s, "python") {
            Plugin::Python
        } else if str_eq(s, "rust") {
            Plugin::Rust
        } else if str_eq(s, "go") {
            Plugin::Go
        } else if str_eq(s, "docker") {
            Plugin::Docker
        } else if str_eq(s, "containerd") {
            Plugin::Containerd
        } else if str_eq(s, "runc") {
            Plugin::Runc
        } else if str_eq(s, "cni-plugins") {
            Plugin::CniPlugins
        } else if str_eq(s, "aws-cfn-helper") {
            Plugin::AwsCfnHelper
        } else if str_eq(s, "saml2aws") {
            Plugin::Saml2Aws
        } else if str_eq(s, "aws-iam-authenticator") {
            Plugin::AwsIamAuthenticator
        } else if str_eq(s, "ecr-credential-helper") {
            Plugin::EcrCredentialHelper
        } else if str_eq(s, "ecr-credential-provider") {
            Plugin::EcrCredentialProvider
        } else if str_eq(s, "kubelet") {
            Plugin::Kubelet
        } else if str_eq(s, "kubectl") {
            Plugin::Kubectl
        } else if str_eq(s, "helm") {
            Plugin::Helm
        } else if str_eq(s, "terraform") {
            Plugin::Terraform
        } else if str_eq(s, "ssh-key-with-email") {
            Plugin::SshKeyWithEmail
        } else if str_eq(s, "ena") {
            Plugin::Ena
        } else if str_eq(s, "nvidia-driver") {
            Plugin::NvidiaDriver
        } else if str_eq(s, "nvidia-cuda-toolkit") {
            Plugin::NvidiaCudaToolkit
        } else if str_eq(s, "nvidia-container-toolkit") {
            Plugin::NvidiaContainerToolkit
        } else if str_eq(s, "amd-radeon-gpu-driver") {
            Plugin::AmdRadeonGpuDriver
        } else if str_eq(s, "protobuf-compiler") {
            Plugin::ProtobufCompiler
        } else if str_eq(s, "cmake") {
            Plugin::Cmake
        } else if str_eq(s, "gcc7") {
            Plugin::Gcc7
        } else if str_eq(s, "dev-bark") {
            Plugin::DevBark
        } else if str_eq(s, "dev-faiss-gpu") {
            Plugin::DevFaissGpu
        } else if str_eq(s, "eks-worker-node-ami-scratch") {
            Plugin::EksWorkerNodeAmiScratch
        } else if str_eq(s, "eks-worker-node-ami-reuse") {
            Plugin::EksWorkerNodeAmiReuse
        } else if str_eq(s, "ami-info") {
            Plugin::AmiInfo
        } else if str_eq(s, "cluster-info") {
            Plugin::ClusterInfo
        } else if str_eq(s, "post-init-script") {
            Plugin::PostInitScript
        } else if str_eq(s, "cleanup-image-packages") {
            Plugin::CleanupImagePackages
        } else if str_eq(s, "cleanup-image-tmp-dir") {
            Plugin::CleanupImageTmpDir
        } else if str_eq(s, "cleanup-image-aws-credentials") {
            Plugin::CleanupImageAwsCredentials
        } else if str_eq(s, "cleanup-image-ssh-keys") {
            Plugin::CleanupImageSshKeys
        } else {
            Plugin::Unknown(s.to_owned())
        }
    }

    /// Whether this is the open variant.
    pub fn is_unknown(&self) -> (r: bool)
        ensures
            r == (*self is Unknown),
    {
        matches!(self, Plugin::Unknown(_))
    }

    /// A structurally equal copy.
    pub fn dup(&self) -> (r: Plugin)
        ensures
            r == *self,
    {
        match self {
            Plugin::Imds => Plugin::Imds,
            Plugin::ProviderId => Plugin::ProviderId,
            Plugin::Vercmp => Plugin::Vercmp,
            Plugin::SetupLocalDisks => Plugin::SetupLocalDisks,
            Plugin::MountBpfFs => Plugin::MountBpfFs,
            Plugin::TimeSync => Plugin::TimeSync,
            Plugin::SystemLimitBump => Plugin::SystemLimitBump,
            Plugin::AwsCli => Plugin::AwsCli,
            Plugin::SsmAgent => Plugin::SsmAgent,
            Plugin::CloudwatchAgent => Plugin::CloudwatchAgent,
            Plugin::StaticVolumeProvisioner => Plugin::StaticVolumeProvisioner,
            Plugin::StaticIpProvisioner => Plugin::StaticIpProvisioner,
            Plugin::Anaconda => Plugin::Anaconda,
            Plugin::Python => Plugin::Python,
            Plugin::Rust => Plugin::Rust,
            Plugin::Go => Plugin::Go,
            Plugin::Docker => Plugin::Docker,
            Plugin::Containerd => Plugin::Containerd,
            Plugin::Runc => Plugin::Runc,
            Plugin::CniPlugins => Plugin::CniPlugins,
            Plugin::AwsCfnHelper => Plugin::AwsCfnHelper,
            Plugin::Saml2Aws => Plugin::Saml2Aws,
            Plugin::AwsIamAuthenticator => Plugin::AwsIamAuthenticator,
            Plugin::EcrCredentialHelper => Plugin::EcrCredentialHelper,
            Plugin::EcrCredentialProvider => Plugin::EcrCredentialProvider,
            Plugin::Kubelet => Plugin::Kubelet,
            Plugin::Kubectl => Plugin::Kubectl,
            Plugin::Helm => Plugin::Helm,
            Plugin::Terraform => Plugin::Terraform,
            Plugin::SshKeyWithEmail => Plugin::SshKeyWithEmail,
            Plugin::Ena => Plugin::Ena,
            Plugin::NvidiaDriver => Plugin::NvidiaDriver,
            Plugin::NvidiaCudaToolkit => Plugin::NvidiaCudaToolkit,
            Plugin::NvidiaContainerToolkit => Plugin::NvidiaContainerToolkit,
            Plugin::AmdRadeonGpuDriver => Plugin::AmdRadeonGpuDriver,
            Plugin::ProtobufCompiler => Plugin::ProtobufCompiler,
            Plugin::Cmake => Plugin::Cmake,
            Plugin::Gcc7 => Plugin::Gcc7,
            Plugin::DevBark => Plugin::DevBark,
            Plugin::DevFaissGpu => Plugin::DevFaissGpu,
            Plugin::EksWorkerNodeAmiScratch => Plugin::EksWorkerNodeAmiScratch,
            Plugin::EksWorkerNodeAmiReuse => Plugin::EksWorkerNodeAmiReuse,
            Plugin::AmiInfo => Plugin::AmiInfo,
            Plugin::ClusterInfo => Plugin::ClusterInfo,
            Plugin::PostInitScript => Plugin::PostInitScript,
            Plugin::CleanupImagePackages => Plugin::CleanupImagePackages,
            Plugin::CleanupImageTmpDir => Plugin::CleanupImageTmpDir,
            Plugin::CleanupImageAwsCredentials => Plugin::CleanupImageAwsCredentials,
            Plugin::CleanupImageSshKeys => Plugin::CleanupImageSshKeys,
            Plugin::Unknown(s) => Plugin::Unknown(s.clone()),
        }
    }
}

impl PartialEq for Plugin {
    fn eq(&self, other: &Self) -> (r: bool) {
        let su = self.is_unknown();
        let ou = other.is_unknown();
        if su == ou {
            str_eq(self.as_str(), other.as_str())
        } else {
            false
        }
    }
}

impl vstd::std_specs::cmp::PartialEqSpecImpl for Plugin {
    open spec fn obeys_eq_spec() -> bool {
        true
    }

    open spec fn eq_spec(&self, other: &Plugin) -> bool {
        cap_eq(*self, *other)
    }
}

/// The canonical forms of the known capabilities, with their lengths; no
/// two of them are the same string.
proof fn lemma_known_strings_distinct()
    ensures
        "imds"@.len() == 4,
        "provider-id"@.len() == 11,
        "vercmp"@.len() == 6,
        "setup-local-disks"@.len() == 17,
        "mount-bpf-fs"@.len() == 12,
        "time-sync"@.len() == 9,
        "system-limit-bump"@.len() == 17,
        "aws-cli"@.len() == 7,
        "ssm-agent"@.len() == 9,
        "cloudwatch-agent"@.len() == 16,
        "static-volume-provisioner"@.len() == 25,
        "static-ip-provisioner"@.len() == 21,
        "anaconda"@.len() == 8,
        "python"@.len() == 6,
        "rust"@.len() == 4,
        "go"@.len() == 2,
        "docker"@.len() == 6,
        "containerd"@.len() == 10,
        "runc"@.len() == 4,
        "cni-plugins"@.len() == 11,
        "aws-cfn-helper"@.len() == 14,
        "saml2aws"@.len() == 8,
        "aws-iam-authenticator"@.len() == 21,
        "ecr-credential-helper"@.len() == 21,
        "ecr-credential-provider"@.len() == 23,
        "kubelet"@.len() == 7,
        "kubectl"@.len() == 7,
        "helm"@.len() == 4,
        "terraform"@.len() == 9,
        "ssh-key-with-email"@.len() == 18,
        "ena"@.len() == 3,
        "nvidia-driver"@.len() == 13,
        "nvidia-cuda-toolkit"@.len() == 19,
        "nvidia-container-toolkit"@.len() == 24,
        "amd-radeon-gpu-driver"@.len() == 21,
        "protobuf-compiler"@.len() == 17,
        "cmake"@.len() == 5,
        "gcc7"@.len() == 4,
        "dev-bark"@.len() == 8,
        "dev-faiss-gpu"@.len() == 13,
        "eks-worker-node-ami-scratch"@.len() == 27,
        "eks-worker-node-ami-reuse"@.len() == 25,
        "ami-info"@.len() == 8,
        "cluster-info"@.len() == 12,
        "post-init-script"@.len() == 16,
        "cleanup-image-packages"@.len() == 22,
        "cleanup-image-tmp-dir"@.len() == 21,
        "cleanup-image-aws-credentials"@.len() == 29,
        "cleanup-image-ssh-keys"@.len() == 22,
        "imds"@ != "rust"@,
        "imds"@ != "runc"@,
        "imds"@ != "helm"@,
        "imds"@ != "gcc7"@,
        "rust"@ != "runc"@,
        "rust"@ != "helm"@,
        "rust"@ != "gcc7"@,
        "runc"@ != "helm"@,
        "runc"@ != "gcc7"@,
        "helm"@ != "gcc7"@,
        "vercmp"@ != "python"@,
        "vercmp"@ != "docker"@,
        "python"@ != "docker"@,
        "aws-cli"@ != "kubelet"@,
        "aws-cli"@ != "kubectl"@,
        "kubelet"@ != "kubectl"@,
        "anaconda"@ != "saml2aws"@,
        "anaconda"@ != "dev-bark"@,
        "anaconda"@ != "ami-info"@,
        "saml2aws"@ != "dev-bark"@,
        "saml2aws"@ != "ami-info"@,
        "dev-bark"@ != "ami-info"@,
        "time-sync"@ != "ssm-agent"@,
        "time-sync"@ != "terraform"@,
        "ssm-agent"@ != "terraform"@,
        "provider-id"@ != "cni-plugins"@,
        "mount-bpf-fs"@ != "cluster-info"@,
        "nvidia-driver"@ != "dev-faiss-gpu"@,
        "cloudwatch-agent"@ != "post-init-script"@,
        "setup-local-disks"@ != "system-limit-bump"@,
        "setup-local-disks"@ != "protobuf-compiler"@,
        "system-limit-bump"@ != "protobuf-compiler"@,
        "static-ip-provisioner"@ != "aws-iam-authenticator"@,
        "static-ip-provisioner"@ != "ecr-credential-helper"@,
        "static-ip-provisioner"@ != "amd-radeon-gpu-driver"@,
        "static-ip-provisioner"@ != "cleanup-image-tmp-dir"@,
        "aws-iam-authenticator"@ != "ecr-credential-helper"@,
        "aws-iam-authenticator"@ != "amd-radeon-gpu-driver"@,
        "aws-iam-authenticator"@ != "cleanup-image-tmp-dir"@,
        "ecr-credential-helper"@ != "amd-radeon-gpu-driver"@,
        "ecr-credential-helper"@ != "cleanup-image-tmp-dir"@,
        "amd-radeon-gpu-driver"@ != "cleanup-image-tmp-dir"@,
        "cleanup-image-packages"@ != "cleanup-image-ssh-keys"@,
        "static-volume-provisioner"@ != "eks-worker-node-ami-reuse"@,
{
    reveal_strlit("imds");
    reveal_strlit("provider-id");
    reveal_strlit("vercmp");
    reveal_strlit("setup-local-disks");
    reveal_strlit("mount-bpf-fs");
    reveal_strlit("time-sync");
    reveal_strlit("system-limit-bump");
    reveal_strlit("aws-cli");
    reveal_strlit("ssm-agent");
    reveal_strlit("cloudwatch-agent");
    reveal_strlit("static-volume-provisioner");
    reveal_strlit("static-ip-provisioner");
    reveal_strlit("anaconda");
    reveal_strlit("python");
    reveal_strlit("rust");
    reveal_strlit("go");
    reveal_strlit("docker");
    reveal_strlit("containerd");
    reveal_strlit("runc");
    reveal_strlit("cni-plugins");
    reveal_strlit("aws-cfn-helper");
    reveal_strlit("saml2aws");
    reveal_strlit("aws-iam-authenticator");
    reveal_strlit("ecr-credential-helper");
    reveal_strlit("ecr-credential-provider");
    reveal_strlit("kubelet");
    reveal_strlit("kubectl");
    reveal_strlit("helm");
    reveal_strlit("terraform");
    reveal_strlit("ssh-key-with-email");
    reveal_strlit("ena");
    reveal_strlit("nvidia-driver");
    reveal_strlit("nvidia-cuda-toolkit");
    reveal_strlit("nvidia-container-toolkit");
    reveal_strlit("amd-radeon-gpu-driver");
    reveal_strlit("protobuf-compiler");
    reveal_strlit("cmake");
    reveal_strlit("gcc7");
    reveal_strlit("dev-bark");
    reveal_strlit("dev-faiss-gpu");
    reveal_strlit("eks-worker-node-ami-scratch");
    reveal_strlit("eks-worker-node-ami-reuse");
    reveal_strlit("ami-info");
    reveal_strlit("cluster-info");
    reveal_strlit("post-init-script");
    reveal_strlit("cleanup-image-packages");
    reveal_strlit("cleanup-image-tmp-dir");
    reveal_strlit("cleanup-image-aws-credentials");
    reveal_strlit("cleanup-image-ssh-keys");
    assert("imds"@[0] == 'i');
    assert("rust"@[0] == 'r');
    assert("imds"@[0] == 'i');
    assert("runc"@[0] == 'r');
    assert("imds"@[0] == 'i');
    assert("helm"@[0] == 'h');
    assert("imds"@[0] == 'i');
    assert("gcc7"@[0] == 'g');
    assert("rust"@[2] == 's');
    assert("runc"@[2] == 'n');
    assert("rust"@[0] == 'r');
    assert("helm"@[0] == 'h');
    assert("rust"@[0] == 'r');
    assert("gcc7"@[0] == 'g');
    assert("runc"@[0] == 'r');
    assert("helm"@[0] == 'h');
    assert("runc"@[0] == 'r');
    assert("gcc7"@[0] == 'g');
    assert("helm"@[0] == 'h');
    assert("gcc7"@[0] == 'g');
    assert("vercmp"@[0] == 'v');
    assert("python"@[0] == 'p');
    assert("vercmp"@[0] == 'v');
    assert("docker"@[0] == 'd');
    assert("python"@[0] == 'p');
    assert("docker"@[0] == 'd');
    assert("aws-cli"@[0] == 'a');
    assert("kubelet"@[0] == 'k');
    assert("aws-cli"@[0] == 'a');
    assert("kubectl"@[0] == 'k');
    assert("kubelet"@[4] == 'l');
    assert("kubectl"@[4] == 'c');
    assert("anaconda"@[0] == 'a');
    assert("saml2aws"@[0] == 's');
    assert("anaconda"@[0] == 'a');
    assert("dev-bark"@[0] == 'd');
    assert("anaconda"@[1] == 'n');
    assert("ami-info"@[1] == 'm');
    assert("saml2aws"@[0] == 's');
    assert("dev-bark"@[0] == 'd');
    assert("saml2aws"@[0] == 's');
    assert("ami-info"@[0] == 'a');
    assert("dev-bark"@[0] == 'd');
    assert("ami-info"@[0] == 'a');
    assert("time-sync"@[0] == 't');
    assert("ssm-agent"@[0] == 's');
    assert("time-sync"@[1] == 'i');
    assert("terraform"@[1] == 'e');
    assert("ssm-agent"@[0] == 's');
    assert("terraform"@[0] == 't');
    assert("provider-id"@[0] == 'p');
    assert("cni-plugins"@[0] == 'c');
    assert("mount-bpf-fs"@[0] == 'm');
    assert("cluster-info"@[0] == 'c');
    assert("nvidia-driver"@[0] == 'n');
    assert("dev-faiss-gpu"@[0] == 'd');
    assert("cloudwatch-agent"@[0] == 'c');
    assert("post-init-script"@[0] == 'p');
    assert("setup-local-disks"@[1] == 'e');
    assert("system-limit-bump"@[1] == 'y');
    assert("setup-local-disks"@[0] == 's');
    assert("protobuf-compiler"@[0] == 'p');
    assert("system-limit-bump"@[0] == 's');
    assert("protobuf-compiler"@[0] == 'p');
    assert("static-ip-provisioner"@[0] == 's');
    assert("aws-iam-authenticator"@[0] == 'a');
    assert("static-ip-provisioner"@[0] == 's');
    assert("ecr-credential-helper"@[0] == 'e');
    assert("static-ip-provisioner"@[0] == 's');
    assert("amd-radeon-gpu-driver"@[0] == 'a');
    assert("static-ip-provisioner"@[0] == 's');
    assert("cleanup-image-tmp-dir"@[0] == 'c');
    assert("aws-iam-authenticator"@[0] == 'a');
    assert("ecr-credential-helper"@[0] == 'e');
    assert("aws-iam-authenticator"@[1] == 'w');
    assert("amd-radeon-gpu-driver"@[1] == 'm');
    assert("aws-iam-authenticator"@[0] == 'a');
    assert("cleanup-image-tmp-dir"@[0] == 'c');
    assert("ecr-credential-helper"@[0] == 'e');
    assert("amd-radeon-gpu-driver"@[0] == 'a');
    assert("ecr-credential-helper"@[0] == 'e');
    assert("cleanup-image-tmp-dir"@[0] == 'c');
    assert("amd-radeon-gpu-driver"@[0] == 'a');
    assert("cleanup-image-tmp-dir"@[0] == 'c');
    assert("cleanup-image-packages"@[14] == 'p');
    assert("cleanup-image-ssh-keys"@[14] == 's');
    assert("static-volume-provisioner"@[0] == 's');
    assert("eks-worker-node-ami-reuse"@[0] == 'e');
}

/// The canonical form of a known capability is a known form.
pub proof fn lemma_known_has_known_str(c: Plugin)
    requires
        !(c is Unknown),
    ensures
        is_known_str(cap_str(c)),
{
}

/// No two known capabilities share a canonical string form.
pub proof fn lemma_cap_str_injective(a: Plugin, b: Plugin)
    requires
        !(a is Unknown),
        !(b is Unknown),
        cap_str(a) == cap_str(b),
    ensures
        a == b,
{
    lemma_known_strings_distinct();
}

/// Parsing the canonical string form of a known capability yields that
/// capability back: the two premises are exactly what `Plugin::parse`
/// ensures of its result on the input `cap_str(c)`.
pub proof fn lemma_parse_round_trip(c: Plugin, p: Plugin)
    requires
        !(c is Unknown),
        cap_str(p) == cap_str(c),
        (p is Unknown) <==> !is_known_str(cap_str(p)),
    ensures
        p == c,
{
    lemma_known_has_known_str(c);
    lemma_cap_str_injective(p, c);
}

/// On known capabilities, capability identity is structural equality.
pub proof fn lemma_cap_eq_known(a: Plugin, b: Plugin)
    requires
        !(a is Unknown),
        !(b is Unknown),
    ensures
        cap_eq(a, b) <==> a == b,
{
    if cap_eq(a, b) {
        lemma_cap_str_injective(a, b);
    }
}


/// The canonical forms the command line advertises, in its fixed order.
pub open spec fn values_spec() -> Seq<Seq<char>> {
    seq![
        "imds"@,
        "provider-id"@,
        "vercmp"@,
        "setup-local-disks"@,
        "mount-bpf-fs"@,
        "time-sync"@,
        "system-limit-bump"@,
        "aws-cli"@,
        "ssm-agent"@,
        "cloudwatch-agent"@,
        "static-volume-provisioner"@,
        "static-ip-provisioner"@,
        "anaconda"@,
        "python"@,
        "rust"@,
        "go"@,
        "docker"@,
        "containerd"@,
        "runc"@,
        "cni-plugins"@,
        "protobuf-compiler"@,
        "aws-cfn-helper"@,
        "saml2aws"@,
        "aws-iam-authenticator"@,
        "ecr-credential-helper"@,
        "ecr-credential-provider"@,
        "kubelet"@,
        "kubectl"@,
        "helm"@,
        "terraform"@,
        "ssh-key-with-email"@,
        "ena"@,
        "nvidia-driver"@,
        "nvidia-cuda-toolkit"@,
        "nvidia-container-toolkit"@,
        "amd-radeon-gpu-driver"@,
        "cmake"@,
        "gcc7"@,
        "dev-bark"@,
        "dev-faiss-gpu"@,
        "eks-worker-node-ami-scratch"@,
        "eks-worker-node-ami-reuse"@,
        "ami-info"@,
        "cluster-info"@,
        "post-init-script"@,
        "cleanup-image-packages"@,
        "cleanup-image-ssh-keys"@,
        "cleanup-image-aws-credentials"@,
    ]
}

/// Every known capability, in catalog order.
pub open spec fn all_caps() -> Seq<Plugin> {
    seq![
        Plugin::Imds,
        Plugin::ProviderId,
        Plugin::Vercmp,
        Plugin::SetupLocalDisks,
        Plugin::MountBpfFs,
        Plugin::TimeSync,
        Plugin::SystemLimitBump,
        Plugin::AwsCli,
        Plugin::SsmAgent,
        Plugin::CloudwatchAgent,
        Plugin::StaticVolumeProvisioner,
        Plugin::StaticIpProvisioner,
        Plugin::Anaconda,
        Plugin::Python,
        Plugin::Rust,
        Plugin::Go,
        Plugin::Docker,
        Plugin::Containerd,
        Plugin::Runc,
        Plugin::CniPlugins,
        Plugin::AwsCfnHelper,
        Plugin::Saml2Aws,
        Plugin::AwsIamAuthenticator,
        Plugin::EcrCredentialHelper,
        Plugin::EcrCredentialProvider,
        Plugin::Kubelet,
        Plugin::Kubectl,
        Plugin::Helm,
        Plugin::Terraform,
        Plugin::SshKeyWithEmail,
        Plugin::Ena,
        Plugin::NvidiaDriver,
        Plugin::NvidiaCudaToolkit,
        Plugin::NvidiaContainerToolkit,
        Plugin::AmdRadeonGpuDriver,
        Plugin::ProtobufCompiler,
        Plugin::Cmake,
        Plugin::Gcc7,
        Plugin::DevBark,
        Plugin::DevFaissGpu,
        Plugin::EksWorkerNodeAmiScratch,
        Plugin::EksWorkerNodeAmiReuse,
        Plugin::AmiInfo,
        Plugin::ClusterInfo,
        Plugin::PostInitScript,
        Plugin::CleanupImagePackages,
        Plugin::CleanupImageTmpDir,
        Plugin::CleanupImageAwsCredentials,
        Plugin::CleanupImageSshKeys,
    ]
}

/// The capabilities selected when a caller asks for the defaults.
pub open spec fn default_caps() -> Seq<Plugin> {
    seq![
        Plugin::Imds,
        Plugin::ProviderId,
        Plugin::Vercmp,
        Plugin::SetupLocalDisks,
        Plugin::MountBpfFs,
        Plugin::TimeSync,
        Plugin::SystemLimitBump,
        Plugin::SsmAgent,
        Plugin::CloudwatchAgent,
        Plugin::Anaconda,
        Plugin::AwsCfnHelper,
    ]
}

impl Plugin {
    /// The canonical forms the command line advertises.
    pub fn values() -> (r: Vec<&'static str>)
        ensures
            r@.len() == values_spec().len(),
            forall|i: int| 0 <= i < r@.len() ==> r@[i]@ == #[trigger] values_spec()[i],
    {
        let r: Vec<&'static str> = vec![
            "imds",
            "provider-id",
            "vercmp",
            "setup-local-disks",
            "mount-bpf-fs",
            "time-sync",
            "system-limit-bump",
            "aws-cli",
            "ssm-agent",
            "cloudwatch-agent",
            "static-volume-provisioner",
            "static-ip-provisioner",
            "anaconda",
            "python",
            "rust",
            "go",
            "docker",
            "containerd",
            "runc",
            "cni-plugins",
            "protobuf-compiler",
            "aws-cfn-helper",
            "saml2aws",
            "aws-iam-authenticator",
            "ecr-credential-helper",
            "ecr-credential-provider",
            "kubelet",
            "kubectl",
            "helm",
            "terraform",
            "ssh-key-with-email",
            "ena",
            "nvidia-driver",
            "nvidia-cuda-toolkit",
            "nvidia-container-toolkit",
            "amd-radeon-gpu-driver",
            "cmake",
            "gcc7",
            "dev-bark",
            "dev-faiss-gpu",
            "eks-worker-node-ami-scratch",
            "eks-worker-node-ami-reuse",
            "ami-info",
            "cluster-info",
            "post-init-script",
            "cleanup-image-packages",
            "cleanup-image-ssh-keys",
            "cleanup-image-aws-credentials",
        ];
        assert(forall|i: int| 0 <= i < r@.len() ==> r@[i]@ == #[trigger] values_spec()[i]);
        r
    }

    /// The canonical string form of every known capability, in catalog order.
    pub fn all() -> (r: Vec<String>)
        ensures
            r@.len() == all_caps().len(),
            forall|i: int| 0 <= i < r@.len() ==> r@[i]@ == cap_str(#[trigger] all_caps()[i]),
    {
        let r: Vec<String> = vec![
            Plugin::Imds.as_str().to_owned(),
            Plugin::ProviderId.as_str().to_owned(),
            Plugin::Vercmp.as_str().to_owned(),
            Plugin::SetupLocalDisks.as_str().to_owned(),
            Plugin::MountBpfFs.as_str().to_owned(),
            Plugin::TimeSync.as_str().to_owned(),
            Plugin::SystemLimitBump.as_str().to_owned(),
            Plugin::AwsCli.as_str().to_owned(),
            Plugin::SsmAgent.as_str().to_owned(),
            Plugin::CloudwatchAgent.as_str().to_owned(),
            Plugin::StaticVolumeProvisioner.as_str().to_owned(),
            Plugin::StaticIpProvisioner.as_str().to_owned(),
            Plugin::Anaconda.as_str().to_owned(),
            Plugin::Python.as_str().to_owned(),
            Plugin::Rust.as_str().to_owned(),
            Plugin::Go.as_str().to_owned(),
            Plugin::Docker.as_str().to_owned(),
            Plugin::Containerd.as_str().to_owned(),
            Plugin::Runc.as_str().to_owned(),
            Plugin::CniPlugins.as_str().to_owned(),
            Plugin::AwsCfnHelper.as_str().to_owned(),
            Plugin::Saml2Aws.as_str().to_owned(),
            Plugin::AwsIamAuthenticator.as_str().to_owned(),
            Plugin::EcrCredentialHelper.as_str().to_owned(),
            Plugin::EcrCredentialProvider.as_str().to_owned(),
            Plugin::Kubelet.as_str().to_owned(),
            Plugin::Kubectl.as_str().to_owned(),
            Plugin::Helm.as_str().to_owned(),
            Plugin::Terraform.as_str().to_owned(),
            Plugin::SshKeyWithEmail.as_str().to_owned(),
            Plugin::Ena.as_str().to_owned(),
            Plugin::NvidiaDriver.as_str().to_owned(),
            Plugin::NvidiaCudaToolkit.as_str().to_owned(),
            Plugin::NvidiaContainerToolkit.as_str().to_owned(),
            Plugin::AmdRadeonGpuDriver.as_str().to_owned(),
            Plugin::ProtobufCompiler.as_str().to_owned(),
            Plugin::Cmake.as_str().to_owned(),
            Plugin::Gcc7.as_str().to_owned(),
            Plugin::DevBark.as_str().to_owned(),
            Plugin::DevFaissGpu.as_str().to_owned(),
            Plugin::EksWorkerNodeAmiScratch.as_str().to_owned(),
            Plugin::EksWorkerNodeAmiReuse.as_str().to_owned(),
            Plugin::AmiInfo.as_str().to_owned(),
            Plugin::ClusterInfo.as_str().to_owned(),
            Plugin::PostInitScript.as_str().to_owned(),
            Plugin::CleanupImagePackages.as_str().to_owned(),
            Plugin::CleanupImageTmpDir.as_str().to_owned(),
            Plugin::CleanupImageAwsCredentials.as_str().to_owned(),
            Plugin::CleanupImageSshKeys.as_str().to_owned(),
        ];
        assert(forall|i: int| 0 <= i < r@.len() ==> r@[i]@ == cap_str(#[trigger] all_caps()[i]));
        r
    }

    /// The canonical string form of every capability in the default
    /// selection.
    pub fn default() -> (r: Vec<String>)
        ensures
            r@.len() == default_caps().len(),
            forall|i: int| 0 <= i < r@.len() ==> r@[i]@ == cap_str(#[trigger] default_caps()[i]),
    {
        let r: Vec<String> = vec![
            Plugin::Imds.as_str().to_owned(),
            Plugin::ProviderId.as_str().to_owned(),
            Plugin::Vercmp.as_str().to_owned(),
            Plugin::SetupLocalDisks.as_str().to_owned(),
            Plugin::MountBpfFs.as_str().to_owned(),
            Plugin::TimeSync.as_str().to_owned(),
            Plugin::SystemLimitBump.as_str().to_owned(),
            Plugin::SsmAgent.as_str().to_owned(),
            Plugin::CloudwatchAgent.as_str().to_owned(),
            Plugin::Anaconda.as_str().to_owned(),
            Plugin::AwsCfnHelper.as_str().to_owned(),
        ];
        assert(forall|i: int| 0 <= i < r@.len() ==> r@[i]@ == cap_str(#[trigger] default_caps()[i]));
        r
    }
}

/// Canonical string forms of a list of capabilities, kept in order.
pub fn to_strings(plugins: Vec<Plugin>) -> (r: Vec<String>)
    ensures
        r@.len() == plugins@.len(),
        forall|i: int| 0 <= i < r@.len() ==> r@[i]@ == cap_str(#[trigger] plugins@[i]),
{
    let mut ss: Vec<String> = Vec::new();
    let mut i: usize = 0;
    while i < plugins.len()
        invariant
            0 <= i <= plugins@.len(),
            ss@.len() == i,
            forall|j: int| 0 <= j < i ==> ss@[j]@ == cap_str(#[trigger] plugins@[j]),
        decreases plugins@.len() - i,
    {
        ss.push(plugins[i].as_str().to_owned());
        i += 1;
    }
    ss
}

/// A sequence of capabilities stands in ascending rank order.
pub open spec fn sorted_by_rank(s: Seq<Plugin>) -> bool {
    forall|i: int, j: int|
        0 <= i < j < s.len() ==> cap_rank(#[trigger] s[i]) <= cap_rank(#[trigger] s[j])
}

/// No two members of the sequence share a rank.
pub open spec fn distinct_ranks(s: Seq<Plugin>) -> bool {
    forall|i: int, j: int|
        0 <= i < j < s.len() ==> cap_rank(#[trigger] s[i]) != cap_rank(#[trigger] s[j])
}

/// Orders a list of capabilities by ascending rank. Keeps exactly the given
/// members (as a multiset).
pub fn sort_by_rank(v: Vec<Plugin>) -> (r: Vec<Plugin>)
    ensures
        r@.to_multiset() == v@.to_multiset(),
        r@.len() == v@.len(),
        sorted_by_rank(r@),
{
    let mut src = v;
    let mut out: Vec<Plugin> = Vec::new();
    proof {
        out@.to_multiset_ensures();
        assert forall|p: Plugin| out@.to_multiset().count(p) == 0 by {
            assert(!out@.contains(p));
        }
        assert(out@.to_multiset().add(src@.to_multiset()) =~= src@.to_multiset());
    }
    let ghost orig = src@;
    while src.len() > 0
        invariant
            out@.to_multiset().add(src@.to_multiset()) == orig.to_multiset(),
            out@.len() + src@.len() == orig.len(),
            sorted_by_rank(out@),
            forall|k: int, l: int|
                0 <= k < out@.len() && 0 <= l < src@.len() ==> cap_rank(#[trigger] out@[k])
                    <= cap_rank(#[trigger] src@[l]),
        decreases src@.len(),
    {
        let mut best: usize = 0;
        let mut i: usize = 1;
        while i < src.len()
            invariant
                src@.len() > 0,
                best < i,
                1 <= i <= src@.len(),
                forall|j: int|
                    0 <= j < i ==> cap_rank(src@[best as int]) <= cap_rank(#[trigger] src@[j]),
            decreases src@.len() - i,
        {
            if src[i].rank() < src[best].rank() {
                best = i;
            }
            i += 1;
        }
        let ghost old_out = out@;
        let ghost old_src = src@;
        let m = src.remove(best);
        out.push(m);
        proof {
            old_src.to_multiset_ensures();
            old_out.to_multiset_ensures();
            assert(src@.to_multiset() =~= old_src.to_multiset().remove(m));
            assert(out@.to_multiset() =~= old_out.to_multiset().insert(m));
            assert(old_src.to_multiset().count(m) > 0) by {
                assert(old_src[best as int] == m);
                assert(old_src.contains(m));
            }
            assert(out@.to_multiset().add(src@.to_multiset()) =~= orig.to_multiset());
            assert forall|k: int, l: int|
                0 <= k < out@.len() && 0 <= l < src@.len() implies cap_rank(#[trigger] out@[k])
                <= cap_rank(#[trigger] src@[l]) by {
                assert(src@[l] == if l < best as int {
                    old_src[l]
                } else {
                    old_src[l + 1]
                });
            }
        }
    }
    proof {
        src@.to_multiset_ensures();
        assert forall|p: Plugin| src@.to_multiset().count(p) == 0 by {
            assert(!src@.contains(p));
        }
        assert(out@.to_multiset() =~= out@.to_multiset().add(src@.to_multiset()));
    }
    out
}

/// Rank orders a tie-free selection in exactly one way: two rank-sorted
/// sequences with the same members and pairwise distinct ranks are the same
/// sequence, so sorting such a selection twice yields identical sequences.
pub proof fn lemma_rank_sorted_unique(x: Seq<Plugin>, y: Seq<Plugin>)
    requires
        sorted_by_rank(x),
        sorted_by_rank(y),
        distinct_ranks(x),
        x.to_multiset() == y.to_multiset(),
    ensures
        x == y,
    decreases x.len(),
{
    x.to_multiset_ensures();
    y.to_multiset_ensures();
    if x.len() == 0 {
        assert(y.len() == 0);
        assert(x =~= y);
    } else {
        assert(x.to_multiset().contains(x[0]));
        assert(y.to_multiset().contains(y[0]));
        assert(x.to_multiset().count(y[0]) > 0);
        assert(x.contains(y[0]));
        let i = choose|i: int| 0 <= i < x.len() && x[i] == y[0];
        assert(y.contains(x[0]));
        let j = choose|j: int| 0 <= j < y.len() && y[j] == x[0];
        assert(cap_rank(x[0]) <= cap_rank(x[i]));
        assert(cap_rank(y[0]) <= cap_rank(y[j]));
        assert(cap_rank(x[0]) == cap_rank(y[0]));
        if i != 0 {
            assert(cap_rank(x[0]) != cap_rank(x[i]));
            assert(false);
        }
        assert(x[0] == y[0]);
        let xr = x.drop_first();
        let yr = y.drop_first();
        assert(xr.to_multiset() =~= x.to_multiset().remove(x[0])) by {
            assert(x.remove(0) =~= xr);
        }
        assert(yr.to_multiset() =~= y.to_multiset().remove(y[0])) by {
            assert(y.remove(0) =~= yr);
        }
        assert(sorted_by_rank(xr) && distinct_ranks(xr)) by {
            assert(forall|a: int| 0 <= a < xr.len() ==> #[trigger] xr[a] == x[a + 1]);
        }
        assert(sorted_by_rank(yr)) by {
            assert(forall|a: int| 0 <= a < yr.len() ==> #[trigger] yr[a] == y[a + 1]);
        }
        lemma_rank_sorted_unique(xr, yr);
        assert(x =~= y) by {
            assert(forall|a: int| 1 <= a < x.len() ==> #[trigger] x[a] == xr[a - 1]);
            assert(forall|a: int| 1 <= a < y.len() ==> #[trigger] y[a] == yr[a - 1]);
        }
    }
}

/// Ranks are pairwise distinct among known capabilities, except the two
/// interpreter capabilities, which intentionally share one for grouping.
pub proof fn lemma_rank_known(a: Plugin, b: Plugin)
    requires
        !(a is Unknown),
        !(b is Unknown),
        cap_rank(a) == cap_rank(b),
    ensures
        a == b || (a == Plugin::Anaconda && b == Plugin::Python) || (a == Plugin::Python && b
            == Plugin::Anaconda),
{
}

} // verus!
