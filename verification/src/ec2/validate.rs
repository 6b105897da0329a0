//! Constraint validation: the fixed, ordered rule table a normalized
//! selection must pass before any assembly begins, and the structured
//! errors the engine can fail with.

use crate::ec2::plugins::Plugin;
use crate::ec2::selection::{seq_has, SelectionSet};
use crate::ec2::ArchType;
use vstd::prelude::*;

verus! {

/// What can go wrong while resolving, validating or assembling a selection.
#[derive(Debug)]
pub enum Error {
    /// A selected capability needs another capability that is absent.
    MissingRequiredCapability { plugin: Plugin, required: Plugin },
    /// A selected capability does not fit the machine's architecture family.
    ArchitectureMismatch { plugin: Plugin, arch: ArchType },
    /// Two mutually exclusive capabilities are both selected.
    ConflictingCapabilities { first: Plugin, second: Plugin },
    /// A selected capability needs contextual input that was not supplied.
    MissingRequiredInput { plugin: Plugin },
    /// A capability unknown to this build cannot be assembled.
    UnknownCapability { plugin: Plugin },
    /// An external fragment generator failed; `plugin` names the capability
    /// whose fragment was being generated, where one was.
    GeneratorFailure { plugin: Option<Plugin>, message: String },
}

/// The first violated rule of the fixed table, in table order, or `None`
/// when the selection passes. The rules: the stack-helper capability needs
/// an interpreter; the registry credential provider needs its language
/// runtime; time synchronization and enhanced networking each need instance
/// metadata; the accelerator toolkit needs an accelerator architecture and
/// the driver; each developer-tooling capability needs the static volume;
/// building an image from scratch conflicts with reusing one; the keyed
/// SSH capability needs the contact email.
pub open spec fn first_violation(s: Seq<Plugin>, arch: ArchType, has_email: bool) -> Option<
    Error,
> {
    if seq_has(s, Plugin::AwsCfnHelper) && !seq_has(s, Plugin::Anaconda) && !seq_has(
        s,
        Plugin::Python,
    ) {
        Some(
            Error::MissingRequiredCapability {
                plugin: Plugin::AwsCfnHelper,
                required: Plugin::Python,
            },
        )
    } else if seq_has(s, Plugin::EcrCredentialProvider) && !seq_has(s, Plugin::Go) {
        Some(
            Error::MissingRequiredCapability {
                plugin: Plugin::EcrCredentialProvider,
                required: Plugin::Go,
            },
        )
    } else if seq_has(s, Plugin::TimeSync) && !seq_has(s, Plugin::Imds) {
        Some(Error::MissingRequiredCapability { plugin: Plugin::TimeSync, required: Plugin::Imds })
    } else if seq_has(s, Plugin::Ena) && !seq_has(s, Plugin::Imds) {
        Some(Error::MissingRequiredCapability { plugin: Plugin::Ena, required: Plugin::Imds })
    } else if seq_has(s, Plugin::NvidiaCudaToolkit) && !crate::ec2::arch_is_nvidia(arch) {
        Some(Error::ArchitectureMismatch { plugin: Plugin::NvidiaCudaToolkit, arch })
    } else if seq_has(s, Plugin::NvidiaCudaToolkit) && !seq_has(s, Plugin::NvidiaDriver) {
        Some(
            Error::MissingRequiredCapability {
                plugin: Plugin::NvidiaCudaToolkit,
                required: Plugin::NvidiaDriver,
            },
        )
    } else if seq_has(s, Plugin::DevBark) && !seq_has(s, Plugin::StaticVolumeProvisioner) {
        Some(
            Error::MissingRequiredCapability {
                plugin: Plugin::DevBark,
                required: Plugin::StaticVolumeProvisioner,
            },
        )
    } else if seq_has(s, Plugin::DevFaissGpu) && !seq_has(s, Plugin::StaticVolumeProvisioner) {
        Some(
            Error::MissingRequiredCapability {
                plugin: Plugin::DevFaissGpu,
                required: Plugin::StaticVolumeProvisioner,
            },
        )
    } else if seq_has(s, Plugin::EksWorkerNodeAmiScratch) && seq_has(
        s,
        Plugin::EksWorkerNodeAmiReuse,
    ) {
        Some(
            Error::ConflictingCapabilities {
                first: Plugin::EksWorkerNodeAmiScratch,
                second: Plugin::EksWorkerNodeAmiReuse,
            },
        )
    } else if seq_has(s, Plugin::SshKeyWithEmail) && !has_email {
        Some(Error::MissingRequiredInput { plugin: Plugin::SshKeyWithEmail })
    } else {
        None
    }
}

/// Checks the normalized selection against the fixed rule table. All or
/// nothing: the result is `Ok` exactly when no rule is violated, and
/// otherwise the first violation in table order.
pub fn validate(s: &SelectionSet, arch: ArchType, has_email: bool) -> (r: Result<(), Error>)
    ensures
        (r is Ok) <==> (first_violation(s@, arch, has_email) is None),
        r matches Err(e) ==> Some(e) == first_violation(s@, arch, has_email),
{
    if s.contains(&Plugin::AwsCfnHelper) && !s.contains(&Plugin::Anaconda) && !s.contains(
        &Plugin::Python,
    ) {
        return Err(
            Error::MissingRequiredCapability {
                plugin: Plugin::AwsCfnHelper,
                required: Plugin::Python,
            },
        );
    }
    if s.contains(&Plugin::EcrCredentialProvider) && !s.contains(&Plugin::Go) {
        return Err(
            Error::MissingRequiredCapability {
                plugin: Plugin::EcrCredentialProvider,
                required: Plugin::Go,
            },
        );
    }
    if s.contains(&Plugin::TimeSync) && !s.contains(&Plugin::Imds) {
        return Err(
            Error::MissingRequiredCapability { plugin: Plugin::TimeSync, required: Plugin::Imds },
        );
    }
    if s.contains(&Plugin::Ena) && !s.contains(&Plugin::Imds) {
        return Err(
            Error::MissingRequiredCapability { plugin: Plugin::Ena, required: Plugin::Imds },
        );
    }
    if s.contains(&Plugin::NvidiaCudaToolkit) {
        if !arch.is_nvidia() {
            return Err(Error::ArchitectureMismatch { plugin: Plugin::NvidiaCudaToolkit, arch });
        }
        if !s.contains(&Plugin::NvidiaDriver) {
            return Err(
                Error::MissingRequiredCapability {
                    plugin: Plugin::NvidiaCudaToolkit,
                    required: Plugin::NvidiaDriver,
                },
            );
        }
    }
    if s.contains(&Plugin::DevBark) && !s.contains(&Plugin::StaticVolumeProvisioner) {
        return Err(
            Error::MissingRequiredCapability {
                plugin: Plugin::DevBark,
                required: Plugin::StaticVolumeProvisioner,
            },
        );
    }
    if s.contains(&Plugin::DevFaissGpu) && !s.contains(&Plugin::StaticVolumeProvisioner) {
        return Err(
            Error::MissingRequiredCapability {
                plugin: Plugin::DevFaissGpu,
                required: Plugin::StaticVolumeProvisioner,
            },
        );
    }
    if s.contains(&Plugin::EksWorkerNodeAmiScratch) && s.contains(&Plugin::EksWorkerNodeAmiReuse) {
        return Err(
            Error::ConflictingCapabilities {
                first: Plugin::EksWorkerNodeAmiScratch,
                second: Plugin::EksWorkerNodeAmiReuse,
            },
        );
    }
    if s.contains(&Plugin::SshKeyWithEmail) && !has_email {
        return Err(Error::MissingRequiredInput { plugin: Plugin::SshKeyWithEmail });
    }
    Ok(())
}

} // verus!
