//! Deterministic assembly: the ordered execution plan over a validated
//! selection, and the emitter that joins generated fragments, with
//! separator banners and the completion marker, into one script.

use crate::ec2::plugins::{cap_rank, sorted_by_rank, Plugin};
use crate::ec2::selection::{requested, seq_has};
use crate::ec2::plugins::is_known_str;
use crate::ec2::validate::Error;
use crate::ec2::{ArchType, OsType};
use vstd::prelude::*;
use vstd::string::StringExecFns;

verus! {

/// Echoed by the assembled script right before the destructive cleanup
/// steps; downstream automation watches for it.
pub const INIT_SCRIPT_COMPLETE_MSG: &'static str = "INIT SCRIPT COMPLETE";

/// Everything the engine knows about the machine being initialized.
/// Immutable input to assembly; resolution and validation never change it.
pub struct Context {
    pub arch_type: ArchType,
    pub os_type: OsType,
    pub s3_bucket: String,
    pub id: String,
    pub region: String,
    pub volume_type: String,
    pub volume_size: u32,
    pub volume_iops: u32,
    pub volume_throughput: u32,
    pub volume_device: String,
    pub provisioner_initial_wait_random_seconds: u32,
    pub ssh_key_email: Option<String>,
    pub aws_secret_key_id: Option<String>,
    pub aws_secret_access_key: Option<String>,
    pub post_init_script: Option<String>,
}

/// Which capabilities of the resolved selection the profile-update fragment
/// and a few context-sensitive generators care about.
pub struct SelectionFlags {
    pub anaconda: bool,
    pub python: bool,
    pub rust: bool,
    pub nvidia_cuda_toolkit: bool,
    pub go: bool,
    pub kubectl: bool,
    pub helm: bool,
    pub static_volume_provisioner: bool,
}

/// One entry of the execution plan.
#[derive(Debug)]
pub enum Step {
    /// The fixed preamble, keyed by operating system.
    Preamble,
    /// The fragment of one capability.
    Fragment(Plugin),
    /// The one-time environment/profile-update fragment.
    ProfileUpdate,
    /// The credentials-configuration fragment.
    Credentials,
    /// The user-supplied post-initialization text, verbatim.
    PostInit,
    /// The completion marker line.
    Marker,
}

/// An external script generator: given a plan step and the context, it
/// returns the text fragment for that step, or fails with a message. The
/// engine never reads fragment content; collaborators implement this.
pub trait Generator {
    fn generate(&self, step: &Step, ctx: &Context, flags: &SelectionFlags) -> Result<
        String,
        String,
    >;
}

/// Capabilities whose fragments are deferred to the fixed epilogue.
pub open spec fn is_epilogue_cap(p: Plugin) -> bool {
    ||| p == Plugin::AmiInfo
    ||| p == Plugin::ClusterInfo
    ||| p == Plugin::PostInitScript
    ||| p == Plugin::CleanupImagePackages
    ||| p == Plugin::CleanupImageTmpDir
    ||| p == Plugin::CleanupImageAwsCredentials
    ||| p == Plugin::CleanupImageSshKeys
}

/// Capabilities whose fragment triggers the one-time profile update right
/// after it.
pub open spec fn is_trigger_cap(p: Plugin) -> bool {
    p == Plugin::SystemLimitBump || p == Plugin::StaticVolumeProvisioner
}

fn epilogue_cap(p: &Plugin) -> (r: bool)
    ensures
        r == is_epilogue_cap(*p),
{
    match p {
        Plugin::AmiInfo => true,
        Plugin::ClusterInfo => true,
        Plugin::PostInitScript => true,
        Plugin::CleanupImagePackages => true,
        Plugin::CleanupImageTmpDir => true,
        Plugin::CleanupImageAwsCredentials => true,
        Plugin::CleanupImageSshKeys => true,
        _ => false,
    }
}

fn trigger_cap(p: &Plugin) -> (r: bool)
    ensures
        r == is_trigger_cap(*p),
{
    match p {
        Plugin::SystemLimitBump => true,
        Plugin::StaticVolumeProvisioner => true,
        _ => false,
    }
}

/// Whether some member of the list is the open variant.
pub open spec fn has_unknown(s: Seq<Plugin>) -> bool {
    exists|i: int| 0 <= i < s.len() && (#[trigger] s[i]) is Unknown
}

/// Whether the list holds a member with the identity of `c`.
fn vec_has(v: &Vec<Plugin>, c: &Plugin) -> (r: bool)
    ensures
        r == seq_has(v@, *c),
{
    let mut i: usize = 0;
    while i < v.len()
        invariant
            i <= v@.len(),
            forall|j: int| 0 <= j < i ==> !crate::ec2::plugins::cap_eq(#[trigger] v@[j], *c),
        decreases v@.len() - i,
    {
        if v[i].eq(c) {
            return true;
        }
        i += 1;
    }
    false
}

/// The main-pass steps over the first `i` members of the sorted selection,
/// and whether the profile update has fired among them. Epilogue members
/// are skipped; the first trigger member is followed at once by the
/// profile update.
pub open spec fn main_pass(s: Seq<Plugin>, i: int) -> (Seq<Step>, bool)
    decreases i,
{
    if i <= 0 {
        (Seq::<Step>::empty(), false)
    } else {
        let prev = main_pass(s, i - 1);
        let p = s[i - 1];
        if is_epilogue_cap(p) {
            prev
        } else if is_trigger_cap(p) && !prev.1 {
            (prev.0 + seq![Step::Fragment(p), Step::ProfileUpdate], true)
        } else {
            (prev.0 + seq![Step::Fragment(p)], prev.1)
        }
    }
}

/// The whole execution plan over a sorted selection: preamble; the main
/// pass; the profile update if no trigger fired it; the credentials
/// fragment if credentials were supplied; the epilogue fragments in their
/// fixed order; the completion marker; and, strictly after the marker, the
/// SSH-key cleanup.
pub open spec fn plan_steps(sorted: Seq<Plugin>, has_creds: bool) -> Seq<Step> {
    let m = main_pass(sorted, sorted.len() as int);
    seq![Step::Preamble] + m.0 + (if !m.1 {
        seq![Step::ProfileUpdate]
    } else {
        Seq::<Step>::empty()
    }) + (if has_creds {
        seq![Step::Credentials]
    } else {
        Seq::<Step>::empty()
    }) + (if seq_has(sorted, Plugin::AmiInfo) {
        seq![Step::Fragment(Plugin::AmiInfo)]
    } else {
        Seq::<Step>::empty()
    }) + (if seq_has(sorted, Plugin::ClusterInfo) {
        seq![Step::Fragment(Plugin::ClusterInfo)]
    } else {
        Seq::<Step>::empty()
    }) + (if seq_has(sorted, Plugin::PostInitScript) {
        seq![Step::PostInit]
    } else {
        Seq::<Step>::empty()
    }) + (if seq_has(sorted, Plugin::CleanupImagePackages) {
        seq![Step::Fragment(Plugin::CleanupImagePackages)]
    } else {
        Seq::<Step>::empty()
    }) + (if seq_has(sorted, Plugin::CleanupImageTmpDir) {
        seq![Step::Fragment(Plugin::CleanupImageTmpDir)]
    } else {
        Seq::<Step>::empty()
    }) + (if seq_has(sorted, Plugin::CleanupImageAwsCredentials) {
        seq![Step::Fragment(Plugin::CleanupImageAwsCredentials)]
    } else {
        Seq::<Step>::empty()
    }) + seq![Step::Marker] + (if seq_has(sorted, Plugin::CleanupImageSshKeys) {
        seq![Step::Fragment(Plugin::CleanupImageSshKeys)]
    } else {
        Seq::<Step>::empty()
    })
}

/// Turns a sorted, validated selection into the execution plan. Fails,
/// naming the first such member, when the selection holds a capability this
/// build does not know: no generator exists for it.
#[verifier::rlimit(80)]
pub fn plan(sorted: &Vec<Plugin>, has_creds: bool) -> (r: Result<Vec<Step>, Error>)
    ensures
        (r is Err) <==> has_unknown(sorted@),
        r matches Err(e) ==> e matches Error::UnknownCapability { plugin } && plugin is Unknown
            && seq_has(sorted@, plugin),
        r matches Ok(steps) ==> steps@ == plan_steps(sorted@, has_creds),
{
    let mut i: usize = 0;
    while i < sorted.len()
        invariant
            i <= sorted@.len(),
            forall|j: int| 0 <= j < i ==> !((#[trigger] sorted@[j]) is Unknown),
        decreases sorted@.len() - i,
    {
        if sorted[i].is_unknown() {
            let p = sorted[i].dup();
            proof {
                assert(crate::ec2::plugins::cap_eq(sorted@[i as int], p));
            }
            return Err(Error::UnknownCapability { plugin: p });
        }
        i += 1;
    }
    let mut steps: Vec<Step> = Vec::new();
    steps.push(Step::Preamble);
    let mut fired = false;
    let mut k: usize = 0;
    proof {
        assert(steps@ =~= seq![Step::Preamble] + main_pass(sorted@, 0).0);
    }
    while k < sorted.len()
        invariant
            k <= sorted@.len(),
            steps@ == seq![Step::Preamble] + main_pass(sorted@, k as int).0,
            fired == main_pass(sorted@, k as int).1,
        decreases sorted@.len() - k,
    {
        let p = &sorted[k];
        let ghost pre = steps@;
        if epilogue_cap(p) {
        } else if trigger_cap(p) && !fired {
            steps.push(Step::Fragment(p.dup()));
            steps.push(Step::ProfileUpdate);
            fired = true;
            proof {
                assert(steps@ =~= pre + seq![
                    Step::Fragment(sorted@[k as int]),
                    Step::ProfileUpdate,
                ]);
                assert(steps@ =~= seq![Step::Preamble] + main_pass(sorted@, k as int + 1).0);
            }
        } else {
            steps.push(Step::Fragment(p.dup()));
            proof {
                assert(steps@ =~= pre + seq![Step::Fragment(sorted@[k as int])]);
                assert(steps@ =~= seq![Step::Preamble] + main_pass(sorted@, k as int + 1).0);
            }
        }
        k += 1;
    }
    let ghost m = main_pass(sorted@, sorted@.len() as int);
    let ghost e0 = seq![Step::Preamble] + m.0;
    let ghost e1 = e0 + (if !m.1 {
        seq![Step::ProfileUpdate]
    } else {
        Seq::<Step>::empty()
    });
    if !fired {
        steps.push(Step::ProfileUpdate);
        proof {
            assert(steps@ =~= e1);
        }
    } else {
        proof {
            assert(steps@ =~= e1);
        }
    }
    let ghost e2 = e1 + (if has_creds {
        seq![Step::Credentials]
    } else {
        Seq::<Step>::empty()
    });
    if has_creds {
        steps.push(Step::Credentials);
    }
    proof {
        assert(steps@ =~= e2);
    }
    let ghost e3 = e2 + (if seq_has(sorted@, Plugin::AmiInfo) {
        seq![Step::Fragment(Plugin::AmiInfo)]
    } else {
        Seq::<Step>::empty()
    });
    if vec_has(sorted, &Plugin::AmiInfo) {
        steps.push(Step::Fragment(Plugin::AmiInfo));
    }
    proof {
        assert(steps@ =~= e3);
    }
    let ghost e4 = e3 + (if seq_has(sorted@, Plugin::ClusterInfo) {
        seq![Step::Fragment(Plugin::ClusterInfo)]
    } else {
        Seq::<Step>::empty()
    });
    if vec_has(sorted, &Plugin::ClusterInfo) {
        steps.push(Step::Fragment(Plugin::ClusterInfo));
    }
    proof {
        assert(steps@ =~= e4);
    }
    let ghost e5 = e4 + (if seq_has(sorted@, Plugin::PostInitScript) {
        seq![Step::PostInit]
    } else {
        Seq::<Step>::empty()
    });
    if vec_has(sorted, &Plugin::PostInitScript) {
        steps.push(Step::PostInit);
    }
    proof {
        assert(steps@ =~= e5);
    }
    let ghost e6 = e5 + (if seq_has(sorted@, Plugin::CleanupImagePackages) {
        seq![Step::Fragment(Plugin::CleanupImagePackages)]
    } else {
        Seq::<Step>::empty()
    });
    if vec_has(sorted, &Plugin::CleanupImagePackages) {
        steps.push(Step::Fragment(Plugin::CleanupImagePackages));
    }
    proof {
        assert(steps@ =~= e6);
    }
    let ghost e7 = e6 + (if seq_has(sorted@, Plugin::CleanupImageTmpDir) {
        seq![Step::Fragment(Plugin::CleanupImageTmpDir)]
    } else {
        Seq::<Step>::empty()
    });
    if vec_has(sorted, &Plugin::CleanupImageTmpDir) {
        steps.push(Step::Fragment(Plugin::CleanupImageTmpDir));
    }
    proof {
        assert(steps@ =~= e7);
    }
    let ghost e8 = e7 + (if seq_has(sorted@, Plugin::CleanupImageAwsCredentials) {
        seq![Step::Fragment(Plugin::CleanupImageAwsCredentials)]
    } else {
        Seq::<Step>::empty()
    });
    if vec_has(sorted, &Plugin::CleanupImageAwsCredentials) {
        steps.push(Step::Fragment(Plugin::CleanupImageAwsCredentials));
    }
    proof {
        assert(steps@ =~= e8);
    }
    let ghost e9 = e8 + seq![Step::Marker];
    steps.push(Step::Marker);
    proof {
        assert(steps@ =~= e9);
    }
    let ghost e10 = e9 + (if seq_has(sorted@, Plugin::CleanupImageSshKeys) {
        seq![Step::Fragment(Plugin::CleanupImageSshKeys)]
    } else {
        Seq::<Step>::empty()
    });
    if vec_has(sorted, &Plugin::CleanupImageSshKeys) {
        steps.push(Step::Fragment(Plugin::CleanupImageSshKeys));
    }
    proof {
        assert(steps@ =~= e10);
        assert(e10 == plan_steps(sorted@, has_creds));
    }
    Ok(steps)
}

/// The separator banner placed between any two adjacent pieces and at the
/// very end of the script.
pub open spec fn sep_text() -> Seq<char> {
    "###########################\nset +x\necho \"\"\necho \"\"\necho \"\"\necho \"\"\necho \"\"\nset -x\n\n\n\n\n"@
}

/// The separator banner.
pub fn separator() -> (r: &'static str)
    ensures
        r@ == sep_text(),
{
    "###########################\nset +x\necho \"\"\necho \"\"\necho \"\"\necho \"\"\necho \"\"\nset -x\n\n\n\n\n"
}

/// The completion marker piece.
pub open spec fn marker_text() -> Seq<char> {
    "###########################\n# INIT SCRIPT COMPLETE\necho \"INIT SCRIPT COMPLETE\"\n\n"@
}

/// The completion marker piece: a comment line and an echoed line, both
/// carrying the completion message.
pub fn marker_piece() -> (r: &'static str)
    ensures
        r@ == marker_text(),
{
    "###########################\n# INIT SCRIPT COMPLETE\necho \"INIT SCRIPT COMPLETE\"\n\n"
}

/// The heading placed right before the user-supplied post-initialization
/// text.
pub open spec fn post_init_header_text() -> Seq<char> {
    "###########################\n# USER-DEFINED POST INIT SCRIPT\n"@
}

/// The heading placed right before the user-supplied post-initialization
/// text.
pub fn post_init_header() -> (r: &'static str)
    ensures
        r@ == post_init_header_text(),
{
    "###########################\n# USER-DEFINED POST INIT SCRIPT\n"
}

/// The emitted text over the first `i` pieces: the pieces in order, a
/// separator banner before every piece but the first.
pub open spec fn assembled_prefix(pieces: Seq<Seq<char>>, i: int) -> Seq<char>
    decreases i,
{
    if i <= 1 {
        pieces[0]
    } else {
        assembled_prefix(pieces, i - 1) + sep_text() + pieces[i - 1]
    }
}

/// The whole emitted text: every piece in order, a separator banner before
/// every piece but the first, and a trailing separator banner.
pub open spec fn assembled_text(pieces: Seq<Seq<char>>) -> Seq<char> {
    assembled_prefix(pieces, pieces.len() as int) + sep_text()
}

/// Joins the pieces into the final script text: never reorders, never
/// deduplicates, never drops a piece.
pub fn assemble(pieces: &Vec<String>) -> (out: String)
    requires
        pieces@.len() >= 1,
    ensures
        out@ == assembled_text(pieces.deep_view()),
{
    let mut out: String = pieces[0].clone();
    let mut i: usize = 1;
    proof {
        assert(pieces.deep_view().len() == pieces@.len());
        assert(out@ == assembled_prefix(pieces.deep_view(), 1));
    }
    while i < pieces.len()
        invariant
            1 <= i <= pieces@.len(),
            pieces.deep_view().len() == pieces@.len(),
            forall|j: int| 0 <= j < pieces@.len() ==> #[trigger] pieces.deep_view()[j]
                == pieces@[j]@,
            out@ == assembled_prefix(pieces.deep_view(), i as int),
        decreases pieces@.len() - i,
    {
        out.append(separator());
        out.append(pieces[i].as_str());
        i += 1;
    }
    out.append(separator());
    out
}

/// The view of an optional string: its characters, or empty when absent.
pub open spec fn opt_view(o: Option<String>) -> Seq<char> {
    match o {
        Some(s) => s@,
        None => Seq::<char>::empty(),
    }
}

/// Membership of the normalized selection derived from the raw identifier
/// strings: what the strings request, adjusted by the resolution rules.
pub open spec fn resolved_of(
    ss: Seq<Seq<char>>,
    c: Plugin,
    nvidia: bool,
    require_ip: bool,
    has_post: bool,
) -> bool {
    if c == Plugin::NvidiaDriver {
        requested(ss, c) || nvidia
    } else if c == Plugin::StaticIpProvisioner {
        requested(ss, c) || (require_ip && requested(ss, Plugin::StaticVolumeProvisioner))
    } else if c == Plugin::Python {
        requested(ss, c) && !requested(ss, Plugin::Anaconda)
    } else if c == Plugin::PostInitScript {
        requested(ss, c) || has_post
    } else {
        requested(ss, c)
    }
}

/// Whether some requested identifier string is no known canonical form.
pub open spec fn any_unknown_requested(ss: Seq<Seq<char>>) -> bool {
    exists|i: int| 0 <= i < ss.len() && !is_known_str(#[trigger] ss[i])
}

/// The first violated validation rule over the resolved selection derived
/// from the raw identifier strings, in the validator's table order.
pub open spec fn created_violation(
    ss: Seq<Seq<char>>,
    arch: ArchType,
    has_email: bool,
    require_ip: bool,
    has_post: bool,
) -> Option<Error> {
    let nvidia = crate::ec2::arch_is_nvidia(arch);
    if resolved_of(ss, Plugin::AwsCfnHelper, nvidia, require_ip, has_post) && !resolved_of(
        ss,
        Plugin::Anaconda,
        nvidia,
        require_ip,
        has_post,
    ) && !resolved_of(ss, Plugin::Python, nvidia, require_ip, has_post) {
        Some(
            Error::MissingRequiredCapability {
                plugin: Plugin::AwsCfnHelper,
                required: Plugin::Python,
            },
        )
    } else if resolved_of(ss, Plugin::EcrCredentialProvider, nvidia, require_ip, has_post)
        && !resolved_of(ss, Plugin::Go, nvidia, require_ip, has_post) {
        Some(
            Error::MissingRequiredCapability {
                plugin: Plugin::EcrCredentialProvider,
                required: Plugin::Go,
            },
        )
    } else if resolved_of(ss, Plugin::TimeSync, nvidia, require_ip, has_post) && !resolved_of(
        ss,
        Plugin::Imds,
        nvidia,
        require_ip,
        has_post,
    ) {
        Some(Error::MissingRequiredCapability { plugin: Plugin::TimeSync, required: Plugin::Imds })
    } else if resolved_of(ss, Plugin::Ena, nvidia, require_ip, has_post) && !resolved_of(
        ss,
        Plugin::Imds,
        nvidia,
        require_ip,
        has_post,
    ) {
        Some(Error::MissingRequiredCapability { plugin: Plugin::Ena, required: Plugin::Imds })
    } else if resolved_of(ss, Plugin::NvidiaCudaToolkit, nvidia, require_ip, has_post) && !nvidia {
        Some(Error::ArchitectureMismatch { plugin: Plugin::NvidiaCudaToolkit, arch })
    } else if resolved_of(ss, Plugin::NvidiaCudaToolkit, nvidia, require_ip, has_post)
        && !resolved_of(ss, Plugin::NvidiaDriver, nvidia, require_ip, has_post) {
        Some(
            Error::MissingRequiredCapability {
                plugin: Plugin::NvidiaCudaToolkit,
                required: Plugin::NvidiaDriver,
            },
        )
    } else if resolved_of(ss, Plugin::DevBark, nvidia, require_ip, has_post) && !resolved_of(
        ss,
        Plugin::StaticVolumeProvisioner,
        nvidia,
        require_ip,
        has_post,
    ) {
        Some(
            Error::MissingRequiredCapability {
                plugin: Plugin::DevBark,
                required: Plugin::StaticVolumeProvisioner,
            },
        )
    } else if resolved_of(ss, Plugin::DevFaissGpu, nvidia, require_ip, has_post) && !resolved_of(
        ss,
        Plugin::StaticVolumeProvisioner,
        nvidia,
        require_ip,
        has_post,
    ) {
        Some(
            Error::MissingRequiredCapability {
                plugin: Plugin::DevFaissGpu,
                required: Plugin::StaticVolumeProvisioner,
            },
        )
    } else if resolved_of(ss, Plugin::EksWorkerNodeAmiScratch, nvidia, require_ip, has_post)
        && resolved_of(ss, Plugin::EksWorkerNodeAmiReuse, nvidia, require_ip, has_post) {
        Some(
            Error::ConflictingCapabilities {
                first: Plugin::EksWorkerNodeAmiScratch,
                second: Plugin::EksWorkerNodeAmiReuse,
            },
        )
    } else if resolved_of(ss, Plugin::SshKeyWithEmail, nvidia, require_ip, has_post)
        && !has_email {
        Some(Error::MissingRequiredInput { plugin: Plugin::SshKeyWithEmail })
    } else {
        None
    }
}

/// Fixed pieces of the plan carry fixed text: the marker piece is the
/// marker text, and the post-initialization piece is its heading followed
/// by the payload verbatim.
pub open spec fn pieces_match(steps: Seq<Step>, pieces: Seq<Seq<char>>, payload: Seq<char>) -> bool {
    &&& pieces.len() == steps.len()
    &&& forall|i: int|
        0 <= i < steps.len() && (#[trigger] steps[i]) is Marker ==> pieces[i] == marker_text()
    &&& forall|i: int|
        0 <= i < steps.len() && (#[trigger] steps[i]) is PostInit ==> pieces[i]
            == post_init_header_text() + payload
}

/// The text is the assembly of some pieces that fit the plan: one piece per
/// step, the marker and post-initialization pieces fixed, joined with the
/// separator banners.
pub open spec fn well_assembled(steps: Seq<Step>, text: Seq<char>, payload: Seq<char>) -> bool {
    exists|pieces: Seq<Seq<char>>|
        #[trigger] pieces_match(steps, pieces, payload) && text == assembled_text(pieces)
}

/// Two sequences with the same members have the same membership.
proof fn lemma_seq_has_multiset(a: Seq<Plugin>, b: Seq<Plugin>, c: Plugin)
    requires
        a.to_multiset() == b.to_multiset(),
        seq_has(a, c),
    ensures
        seq_has(b, c),
{
    a.to_multiset_ensures();
    b.to_multiset_ensures();
    let i = choose|i: int| 0 <= i < a.len() && crate::ec2::plugins::cap_eq(#[trigger] a[i], c);
    let e = a[i];
    assert(a.contains(e));
    assert(b.to_multiset().count(e) > 0);
    assert(b.contains(e));
    let j = choose|j: int| 0 <= j < b.len() && b[j] == e;
    assert(crate::ec2::plugins::cap_eq(b[j], c));
}

/// Membership of the selection the strings request, carried through
/// resolution and the rank sort.
proof fn lemma_membership_bridge(
    ss: Seq<Seq<char>>,
    base: Seq<Plugin>,
    resolved: Seq<Plugin>,
    sorted: Seq<Plugin>,
    c: Plugin,
    nvidia: bool,
    require_ip: bool,
    has_post: bool,
)
    requires
        forall|d: Plugin| #[trigger] seq_has(base, d) <==> requested(ss, d),
        forall|d: Plugin| #[trigger] seq_has(resolved, d) <==> crate::ec2::selection::resolve_member(
            base,
            d,
            nvidia,
            require_ip,
            has_post,
        ),
        sorted.to_multiset() == resolved.to_multiset(),
    ensures
        seq_has(sorted, c) <==> resolved_of(ss, c, nvidia, require_ip, has_post),
{
    if seq_has(sorted, c) {
        lemma_seq_has_multiset(sorted, resolved, c);
    }
    if seq_has(resolved, c) {
        lemma_seq_has_multiset(resolved, sorted, c);
    }
    assert(seq_has(base, Plugin::StaticVolumeProvisioner) <==> requested(
        ss,
        Plugin::StaticVolumeProvisioner,
    ));
    assert(seq_has(base, Plugin::Anaconda) <==> requested(ss, Plugin::Anaconda));
    assert(seq_has(base, c) <==> requested(ss, c));
    assert(seq_has(resolved, c) <==> crate::ec2::selection::resolve_member(
        base,
        c,
        nvidia,
        require_ip,
        has_post,
    ));
}

/// A sorted selection with the same members as a duplicate-free resolved
/// selection, none of them open, has no repeats and no rank ties.
proof fn lemma_sorted_props(
    items: Seq<Plugin>,
    sorted: Seq<Plugin>,
    nvidia: bool,
    require_ip: bool,
    has_post: bool,
)
    requires
        crate::ec2::selection::no_dups(items),
        sorted.to_multiset() == items.to_multiset(),
        !has_unknown(sorted),
        forall|d: Plugin| #[trigger] seq_has(sorted, d) <==> seq_has(items, d),
        !(seq_has(items, Plugin::Anaconda) && seq_has(items, Plugin::Python)),
    ensures
        crate::ec2::selection::no_dups(sorted),
        crate::ec2::plugins::distinct_ranks(sorted),
{
    items.to_multiset_ensures();
    sorted.to_multiset_ensures();
    assert(items.no_duplicates()) by {
        assert forall|i: int, j: int|
            0 <= i < items.len() && 0 <= j < items.len() && i != j implies items[i] != items[j] by {
            if items[i] == items[j] {
                assert(crate::ec2::plugins::cap_eq(items[i], items[j]));
                if i < j {
                    assert(!crate::ec2::plugins::cap_eq(items[i], items[j]));
                } else {
                    assert(!crate::ec2::plugins::cap_eq(items[j], items[i]));
                }
            }
        }
    }
    items.lemma_multiset_has_no_duplicates();
    sorted.lemma_multiset_has_no_duplicates_conv();
    assert forall|i: int, j: int|
        0 <= i < j < sorted.len() implies !crate::ec2::plugins::cap_eq(
        #[trigger] sorted[i],
        #[trigger] sorted[j],
    ) by {
        if crate::ec2::plugins::cap_eq(sorted[i], sorted[j]) {
            assert(!(sorted[i] is Unknown));
            assert(!(sorted[j] is Unknown));
            crate::ec2::plugins::lemma_cap_eq_known(sorted[i], sorted[j]);
            assert(sorted[i] == sorted[j]);
        }
    }
    assert forall|i: int, j: int|
        0 <= i < j < sorted.len() implies cap_rank(#[trigger] sorted[i]) != cap_rank(
        #[trigger] sorted[j],
    ) by {
        if cap_rank(sorted[i]) == cap_rank(sorted[j]) {
            assert(!(sorted[i] is Unknown));
            assert(!(sorted[j] is Unknown));
            crate::ec2::plugins::lemma_rank_known(sorted[i], sorted[j]);
            assert(sorted[i] != sorted[j]);
            assert(crate::ec2::plugins::cap_eq(sorted[i], sorted[i]));
            assert(seq_has(sorted, Plugin::Anaconda)) by {
                if sorted[i] == Plugin::Anaconda {
                    assert(crate::ec2::plugins::cap_eq(sorted[i], Plugin::Anaconda));
                } else {
                    assert(crate::ec2::plugins::cap_eq(sorted[j], Plugin::Anaconda));
                }
            }
            assert(seq_has(sorted, Plugin::Python)) by {
                if sorted[i] == Plugin::Python {
                    assert(crate::ec2::plugins::cap_eq(sorted[i], Plugin::Python));
                } else {
                    assert(crate::ec2::plugins::cap_eq(sorted[j], Plugin::Python));
                }
            }
        }
    }
}


/// Renders every plan step to its text piece (fixed text for the marker and
/// the post-initialization step, the generator's fragment otherwise) and
/// joins the pieces. Fails with the first generator failure.
#[verifier::loop_isolation(false)]
fn render<G: Generator>(
    gen: &G,
    steps: &Vec<Step>,
    ctx: &Context,
    flags: &SelectionFlags,
    payload: &String,
) -> (r: Result<String, Error>)
    requires
        steps@.len() >= 1,
        payload@ == opt_view(ctx.post_init_script),
    ensures
        r matches Err(e) ==> e matches Error::GeneratorFailure { .. },
        r matches Ok(out) ==> well_assembled(steps@, out@, opt_view(ctx.post_init_script)),
{
    let mut pieces: Vec<String> = Vec::new();
    let mut k: usize = 0;
    while k < steps.len()
        invariant
            k <= steps@.len(),
            pieces@.len() == k,
            forall|j: int|
                0 <= j < k && (#[trigger] steps@[j]) is Marker ==> pieces@[j]@ == marker_text(),
            forall|j: int|
                0 <= j < k && (#[trigger] steps@[j]) is PostInit ==> pieces@[j]@
                    == post_init_header_text() + payload@,
        decreases steps@.len() - k,
    {
        let st = &steps[k];
        let piece: String = if matches!(st, Step::Marker) {
            marker_piece().to_owned()
        } else if matches!(st, Step::PostInit) {
            let mut t = post_init_header().to_owned();
            t.append(payload.as_str());
            t
        } else {
            match gen.generate(st, ctx, flags) {
                Ok(d) => d,
                Err(message) => {
                    let plugin: Option<Plugin> = match st {
                        Step::Fragment(p) => Some(p.dup()),
                        _ => None,
                    };
                    return Err(Error::GeneratorFailure { plugin, message });
                },
            }
        };
        pieces.push(piece);
        k += 1;
    }
    let contents = assemble(&pieces);
    proof {
        assert forall|j: int| 0 <= j < pieces@.len() implies #[trigger] pieces.deep_view()[j]
            == pieces@[j]@ by {
        }
        assert(pieces_match(steps@, pieces.deep_view(), opt_view(ctx.post_init_script)));
        assert(contents@ == assembled_text(pieces.deep_view()));
        assert(well_assembled(steps@, contents@, opt_view(ctx.post_init_script)));
    }
    Ok(contents)
}

/// A selection covering every requested identifier, carried through
/// resolution and the rank sort, keeps an open member for every identifier
/// that is no known form; so a sorted selection without open members means
/// no such identifier was requested.
proof fn lemma_no_unknown_transfer(
    ss: Seq<Seq<char>>,
    base: Seq<Plugin>,
    resolved: Seq<Plugin>,
    sorted: Seq<Plugin>,
    nvidia: bool,
    require_ip: bool,
    has_post: bool,
)
    requires
        forall|i: int| 0 <= i < ss.len() ==> #[trigger] crate::ec2::selection::str_covered(
            base,
            ss[i],
        ),
        forall|d: Plugin| #[trigger] seq_has(resolved, d)
            <==> crate::ec2::selection::resolve_member(base, d, nvidia, require_ip, has_post),
        sorted.to_multiset() == resolved.to_multiset(),
        !has_unknown(sorted),
    ensures
        !any_unknown_requested(ss),
{
    if any_unknown_requested(ss) {
        let i = choose|i: int| 0 <= i < ss.len() && !is_known_str(#[trigger] ss[i]);
        assert(crate::ec2::selection::str_covered(base, ss[i]));
        let c = choose|c: Plugin| #![auto]
            seq_has(base, c) && crate::ec2::selection::matches_str(c, ss[i]);
        assert(c is Unknown);
        assert(seq_has(resolved, c));
        lemma_seq_has_multiset(resolved, sorted, c);
        let k = choose|k: int|
            0 <= k < sorted.len() && crate::ec2::plugins::cap_eq(#[trigger] sorted[k], c);
        assert(sorted[k] is Unknown);
        assert(false);
    }
}

/// Resolves the requested capability identifiers, validates the normalized
/// selection, orders it by rank, and assembles the initialization script
/// from the generator's fragments. Returns the ordered list of capabilities
/// included and the assembled text; fails with the first violated
/// validation rule, with the first capability this build does not know, or
/// with the first generator failure.
#[verifier::rlimit(100)]
#[verifier::loop_isolation(false)]
pub fn create<G: Generator>(
    gen: &G,
    arch_type: ArchType,
    os_type: OsType,
    plugins_str: Vec<String>,
    require_static_ip_provisioner: bool,
    s3_bucket: &str,
    id: &str,
    region: &str,
    volume_type: &str,
    volume_size: u32,
    volume_iops: u32,
    volume_throughput: u32,
    ssh_key_email: Option<String>,
    aws_secret_key_id: Option<String>,
    aws_secret_access_key: Option<String>,
    post_init_script: Option<String>,
) -> (r: Result<(Vec<Plugin>, String), Error>)
    requires
        aws_secret_key_id is Some ==> aws_secret_access_key is Some,
        post_init_script is None ==> !requested(plugins_str.deep_view(), Plugin::PostInitScript),
    ensures
        created_violation(
            plugins_str.deep_view(),
            arch_type,
            ssh_key_email is Some,
            require_static_ip_provisioner,
            post_init_script is Some,
        ) matches Some(v) ==> r == Err::<(Vec<Plugin>, String), Error>(v),
        r matches Err(e) ==> ((created_violation(
            plugins_str.deep_view(),
            arch_type,
            ssh_key_email is Some,
            require_static_ip_provisioner,
            post_init_script is Some,
        ) is None && any_unknown_requested(plugins_str.deep_view())) ==> (
        e matches Error::UnknownCapability { plugin } && plugin is Unknown && requested(
            plugins_str.deep_view(),
            plugin,
        ))),
        r matches Err(e) ==> ((created_violation(
            plugins_str.deep_view(),
            arch_type,
            ssh_key_email is Some,
            require_static_ip_provisioner,
            post_init_script is Some,
        ) is None && !any_unknown_requested(plugins_str.deep_view())) ==> (
        e matches Error::GeneratorFailure { .. })),
        r is Ok ==> created_violation(
            plugins_str.deep_view(),
            arch_type,
            ssh_key_email is Some,
            require_static_ip_provisioner,
            post_init_script is Some,
        ) is None && !any_unknown_requested(plugins_str.deep_view()),
        r matches Ok(out) ==> {
            &&& sorted_by_rank(out.0@)
            &&& crate::ec2::selection::no_dups(out.0@)
            &&& crate::ec2::plugins::distinct_ranks(out.0@)
            &&& !has_unknown(out.0@)
            &&& forall|c: Plugin| #[trigger] seq_has(out.0@, c) <==> resolved_of(
                plugins_str.deep_view(),
                c,
                crate::ec2::arch_is_nvidia(arch_type),
                require_static_ip_provisioner,
                post_init_script is Some,
            )
        },
        r matches Ok(out) ==> well_assembled(
            plan_steps(out.0@, aws_secret_key_id is Some),
            out.1@,
            opt_view(post_init_script),
        ),
{
    let ghost ss = plugins_str.deep_view();
    let ghost g_post = post_init_script;
    let nvidia = arch_type.is_nvidia();
    let has_post = post_init_script.is_some();
    let has_email = ssh_key_email.is_some();
    let has_creds = aws_secret_key_id.is_some();

    let set = crate::ec2::selection::from_strings(&plugins_str);
    let ghost base = set@;
    let resolved = crate::ec2::selection::resolve(
        set,
        nvidia,
        require_static_ip_provisioner,
        has_post,
    );
    let ghost rv = resolved@;

    let vr = crate::ec2::validate::validate(&resolved, arch_type, has_email);
    proof {
        lemma_violation_bridge(
            ss,
            base,
            rv,
            arch_type,
            has_email,
            require_static_ip_provisioner,
            has_post,
        );
    }
    match vr {
        Err(e) => {
            return Err(e);
        },
        Ok(()) => {},
    }

    let items = resolved.into_items();
    let ghost items_v = items@;
    let sorted = crate::ec2::plugins::sort_by_rank(items);
    proof {
        assert forall|c: Plugin| #[trigger] seq_has(sorted@, c) <==> resolved_of(
            ss,
            c,
            nvidia,
            require_static_ip_provisioner,
            has_post,
        ) by {
            lemma_membership_bridge(
                ss,
                base,
                rv,
                sorted@,
                c,
                nvidia,
                require_static_ip_provisioner,
                has_post,
            );
        }
    }

    let steps = match plan(&sorted, has_creds) {
        Ok(steps) => steps,
        Err(e) => {
            proof {
                let p = e->UnknownCapability_plugin;
                assert(seq_has(sorted@, p));
                assert(requested(ss, p));
                let i = choose|i: int| 0 <= i < ss.len() && crate::ec2::selection::matches_str(
                    p,
                    #[trigger] ss[i],
                );
                assert(!is_known_str(ss[i]));
                assert(any_unknown_requested(ss));
            }
            return Err(e);
        },
    };
    proof {
        lemma_no_unknown_transfer(
            ss,
            base,
            rv,
            sorted@,
            nvidia,
            require_static_ip_provisioner,
            has_post,
        );
        assert(seq_has(items_v, Plugin::Anaconda) <==> crate::ec2::selection::resolve_member(
            base,
            Plugin::Anaconda,
            nvidia,
            require_static_ip_provisioner,
            has_post,
        ));
        assert(seq_has(items_v, Plugin::Python) <==> crate::ec2::selection::resolve_member(
            base,
            Plugin::Python,
            nvidia,
            require_static_ip_provisioner,
            has_post,
        ));
        assert(!(seq_has(items_v, Plugin::Anaconda) && seq_has(items_v, Plugin::Python)));
        assert forall|d: Plugin| #[trigger] seq_has(sorted@, d) <==> seq_has(items_v, d) by {
            if seq_has(sorted@, d) {
                lemma_seq_has_multiset(sorted@, items_v, d);
            }
            if seq_has(items_v, d) {
                lemma_seq_has_multiset(items_v, sorted@, d);
            }
        }
        lemma_sorted_props(
            items_v,
            sorted@,
            nvidia,
            require_static_ip_provisioner,
            has_post,
        );
    }

    let flags = SelectionFlags {
        anaconda: vec_has(&sorted, &Plugin::Anaconda),
        python: vec_has(&sorted, &Plugin::Python),
        rust: vec_has(&sorted, &Plugin::Rust),
        nvidia_cuda_toolkit: vec_has(&sorted, &Plugin::NvidiaCudaToolkit),
        go: vec_has(&sorted, &Plugin::Go),
        kubectl: vec_has(&sorted, &Plugin::Kubectl),
        helm: vec_has(&sorted, &Plugin::Helm),
        static_volume_provisioner: vec_has(&sorted, &Plugin::StaticVolumeProvisioner),
    };
    let payload: String = match &post_init_script {
        Some(s) => s.clone(),
        None => String::new(),
    };
    let ctx = Context {
        arch_type,
        os_type,
        s3_bucket: s3_bucket.to_owned(),
        id: id.to_owned(),
        region: region.to_owned(),
        volume_type: volume_type.to_owned(),
        volume_size,
        volume_iops,
        volume_throughput,
        volume_device: "/dev/xvdb".to_owned(),
        provisioner_initial_wait_random_seconds: 10,
        ssh_key_email,
        aws_secret_key_id,
        aws_secret_access_key,
        post_init_script,
    };

    let contents = match render(gen, &steps, &ctx, &flags, &payload) {
        Ok(out) => out,
        Err(e) => {
            return Err(e);
        },
    };
    proof {
        assert(steps@ == plan_steps(sorted@, has_creds));
        assert(well_assembled(plan_steps(sorted@, has_creds), contents@, opt_view(g_post)));
    }
    Ok((sorted, contents))
}

/// The validator's verdict over the resolved members equals the verdict
/// computed from the raw identifier strings.
proof fn lemma_violation_bridge(
    ss: Seq<Seq<char>>,
    base: Seq<Plugin>,
    resolved: Seq<Plugin>,
    arch: ArchType,
    has_email: bool,
    require_ip: bool,
    has_post: bool,
)
    requires
        forall|d: Plugin| #[trigger] seq_has(base, d) <==> requested(ss, d),
        forall|d: Plugin| #[trigger] seq_has(resolved, d) <==> crate::ec2::selection::resolve_member(
            base,
            d,
            crate::ec2::arch_is_nvidia(arch),
            require_ip,
            has_post,
        ),
    ensures
        crate::ec2::validate::first_violation(resolved, arch, has_email) == created_violation(
            ss,
            arch,
            has_email,
            require_ip,
            has_post,
        ),
{
    let nvidia = crate::ec2::arch_is_nvidia(arch);
    assert forall|c: Plugin| !(c is Unknown) implies (#[trigger] seq_has(resolved, c)
        <==> resolved_of(ss, c, nvidia, require_ip, has_post)) by {
        assert(seq_has(base, c) <==> requested(ss, c));
        assert(seq_has(base, Plugin::StaticVolumeProvisioner) <==> requested(
            ss,
            Plugin::StaticVolumeProvisioner,
        ));
        assert(seq_has(base, Plugin::Anaconda) <==> requested(ss, Plugin::Anaconda));
    }
    assert(seq_has(resolved, Plugin::AwsCfnHelper) <==> resolved_of(
        ss,
        Plugin::AwsCfnHelper,
        nvidia,
        require_ip,
        has_post,
    ));
    assert(seq_has(resolved, Plugin::Anaconda) <==> resolved_of(
        ss,
        Plugin::Anaconda,
        nvidia,
        require_ip,
        has_post,
    ));
    assert(seq_has(resolved, Plugin::Python) <==> resolved_of(
        ss,
        Plugin::Python,
        nvidia,
        require_ip,
        has_post,
    ));
    assert(seq_has(resolved, Plugin::EcrCredentialProvider) <==> resolved_of(
        ss,
        Plugin::EcrCredentialProvider,
        nvidia,
        require_ip,
        has_post,
    ));
    assert(seq_has(resolved, Plugin::Go) <==> resolved_of(
        ss,
        Plugin::Go,
        nvidia,
        require_ip,
        has_post,
    ));
    assert(seq_has(resolved, Plugin::TimeSync) <==> resolved_of(
        ss,
        Plugin::TimeSync,
        nvidia,
        require_ip,
        has_post,
    ));
    assert(seq_has(resolved, Plugin::Imds) <==> resolved_of(
        ss,
        Plugin::Imds,
        nvidia,
        require_ip,
        has_post,
    ));
    assert(seq_has(resolved, Plugin::Ena) <==> resolved_of(
        ss,
        Plugin::Ena,
        nvidia,
        require_ip,
        has_post,
    ));
    assert(seq_has(resolved, Plugin::NvidiaCudaToolkit) <==> resolved_of(
        ss,
        Plugin::NvidiaCudaToolkit,
        nvidia,
        require_ip,
        has_post,
    ));
    assert(seq_has(resolved, Plugin::NvidiaDriver) <==> resolved_of(
        ss,
        Plugin::NvidiaDriver,
        nvidia,
        require_ip,
        has_post,
    ));
    assert(seq_has(resolved, Plugin::DevBark) <==> resolved_of(
        ss,
        Plugin::DevBark,
        nvidia,
        require_ip,
        has_post,
    ));
    assert(seq_has(resolved, Plugin::DevFaissGpu) <==> resolved_of(
        ss,
        Plugin::DevFaissGpu,
        nvidia,
        require_ip,
        has_post,
    ));
    assert(seq_has(resolved, Plugin::StaticVolumeProvisioner) <==> resolved_of(
        ss,
        Plugin::StaticVolumeProvisioner,
        nvidia,
        require_ip,
        has_post,
    ));
    assert(seq_has(resolved, Plugin::EksWorkerNodeAmiScratch) <==> resolved_of(
        ss,
        Plugin::EksWorkerNodeAmiScratch,
        nvidia,
        require_ip,
        has_post,
    ));
    assert(seq_has(resolved, Plugin::EksWorkerNodeAmiReuse) <==> resolved_of(
        ss,
        Plugin::EksWorkerNodeAmiReuse,
        nvidia,
        require_ip,
        has_post,
    ));
    assert(seq_has(resolved, Plugin::SshKeyWithEmail) <==> resolved_of(
        ss,
        Plugin::SshKeyWithEmail,
        nvidia,
        require_ip,
        has_post,
    ));
}

/// The number of profile-update steps among the given steps.
pub open spec fn profile_update_count(steps: Seq<Step>) -> int
    decreases steps.len(),
{
    if steps.len() == 0 {
        0
    } else {
        profile_update_count(steps.drop_last()) + (if steps.last() is ProfileUpdate {
            1int
        } else {
            0int
        })
    }
}

/// The number of completion-marker steps among the given steps.
pub open spec fn marker_count(steps: Seq<Step>) -> int
    decreases steps.len(),
{
    if steps.len() == 0 {
        0
    } else {
        marker_count(steps.drop_last()) + (if steps.last() is Marker {
            1int
        } else {
            0int
        })
    }
}

proof fn lemma_counts_add(a: Seq<Step>, b: Seq<Step>)
    ensures
        profile_update_count(a + b) == profile_update_count(a) + profile_update_count(b),
        marker_count(a + b) == marker_count(a) + marker_count(b),
    decreases b.len(),
{
    if b.len() == 0 {
        assert(a + b =~= a);
    } else {
        assert((a + b).drop_last() =~= a + b.drop_last());
        lemma_counts_add(a, b.drop_last());
        assert((a + b).last() == b.last());
    }
}

proof fn lemma_counts_singleton(st: Step)
    ensures
        profile_update_count(seq![st]) == (if st is ProfileUpdate {
            1int
        } else {
            0int
        }),
        marker_count(seq![st]) == (if st is Marker {
            1int
        } else {
            0int
        }),
{
    assert(seq![st].drop_last() =~= Seq::<Step>::empty());
    assert(profile_update_count(Seq::<Step>::empty()) == 0);
    assert(marker_count(Seq::<Step>::empty()) == 0);
    assert(seq![st].len() == 1);
    assert(seq![st].last() == st);
}

proof fn lemma_counts_pair(x: Step, y: Step)
    ensures
        profile_update_count(seq![x, y]) == (if x is ProfileUpdate {
            1int
        } else {
            0int
        }) + (if y is ProfileUpdate {
            1int
        } else {
            0int
        }),
        marker_count(seq![x, y]) == (if x is Marker {
            1int
        } else {
            0int
        }) + (if y is Marker {
            1int
        } else {
            0int
        }),
{
    assert(seq![x, y].drop_last() =~= seq![x]);
    lemma_counts_singleton(x);
    assert(seq![x, y].len() == 2);
    assert(seq![x, y].last() == y);
}

/// In the first `i` members' main pass, the profile update appears exactly
/// once when it has fired and never otherwise, and the marker never.
proof fn lemma_main_pass_counts(s: Seq<Plugin>, i: int)
    requires
        0 <= i <= s.len(),
    ensures
        profile_update_count(main_pass(s, i).0) == (if main_pass(s, i).1 {
            1int
        } else {
            0int
        }),
        marker_count(main_pass(s, i).0) == 0,
    decreases i,
{
    if i <= 0 {
    } else {
        lemma_main_pass_counts(s, i - 1);
        let prev = main_pass(s, i - 1);
        let p = s[i - 1];
        if is_epilogue_cap(p) {
        } else if is_trigger_cap(p) && !prev.1 {
            lemma_counts_add(prev.0, seq![Step::Fragment(p), Step::ProfileUpdate]);
            lemma_counts_pair(Step::Fragment(p), Step::ProfileUpdate);
        } else {
            lemma_counts_add(prev.0, seq![Step::Fragment(p)]);
            lemma_counts_singleton(Step::Fragment(p));
        }
    }
}

/// The profile/environment-update fragment and the completion marker are
/// each planned exactly once per assembly, whatever the selection and
/// switches: one trigger fires the update in the main pass, or the epilogue
/// supplies it, never both.
pub proof fn lemma_plan_counts(sorted: Seq<Plugin>, has_creds: bool)
    ensures
        profile_update_count(plan_steps(sorted, has_creds)) == 1,
        marker_count(plan_steps(sorted, has_creds)) == 1,
{
    let m = main_pass(sorted, sorted.len() as int);
    lemma_main_pass_counts(sorted, sorted.len() as int);
    let s0 = seq![Step::Preamble];
    let s1 = s0 + m.0;
    let o2 = if !m.1 {
        seq![Step::ProfileUpdate]
    } else {
        Seq::<Step>::empty()
    };
    let s2 = s1 + o2;
    let o3 = if has_creds {
        seq![Step::Credentials]
    } else {
        Seq::<Step>::empty()
    };
    let s3 = s2 + o3;
    let o4 = if seq_has(sorted, Plugin::AmiInfo) {
        seq![Step::Fragment(Plugin::AmiInfo)]
    } else {
        Seq::<Step>::empty()
    };
    let s4 = s3 + o4;
    let o5 = if seq_has(sorted, Plugin::ClusterInfo) {
        seq![Step::Fragment(Plugin::ClusterInfo)]
    } else {
        Seq::<Step>::empty()
    };
    let s5 = s4 + o5;
    let o6 = if seq_has(sorted, Plugin::PostInitScript) {
        seq![Step::PostInit]
    } else {
        Seq::<Step>::empty()
    };
    let s6 = s5 + o6;
    let o7 = if seq_has(sorted, Plugin::CleanupImagePackages) {
        seq![Step::Fragment(Plugin::CleanupImagePackages)]
    } else {
        Seq::<Step>::empty()
    };
    let s7 = s6 + o7;
    let o8 = if seq_has(sorted, Plugin::CleanupImageTmpDir) {
        seq![Step::Fragment(Plugin::CleanupImageTmpDir)]
    } else {
        Seq::<Step>::empty()
    };
    let s8 = s7 + o8;
    let o9 = if seq_has(sorted, Plugin::CleanupImageAwsCredentials) {
        seq![Step::Fragment(Plugin::CleanupImageAwsCredentials)]
    } else {
        Seq::<Step>::empty()
    };
    let s9 = s8 + o9;
    let s10 = s9 + seq![Step::Marker];
    let o11 = if seq_has(sorted, Plugin::CleanupImageSshKeys) {
        seq![Step::Fragment(Plugin::CleanupImageSshKeys)]
    } else {
        Seq::<Step>::empty()
    };
    lemma_counts_singleton(Step::Preamble);
    lemma_counts_singleton(Step::ProfileUpdate);
    lemma_counts_singleton(Step::Credentials);
    lemma_counts_singleton(Step::Fragment(Plugin::AmiInfo));
    lemma_counts_singleton(Step::Fragment(Plugin::ClusterInfo));
    lemma_counts_singleton(Step::PostInit);
    lemma_counts_singleton(Step::Fragment(Plugin::CleanupImagePackages));
    lemma_counts_singleton(Step::Fragment(Plugin::CleanupImageTmpDir));
    lemma_counts_singleton(Step::Fragment(Plugin::CleanupImageAwsCredentials));
    lemma_counts_singleton(Step::Marker);
    lemma_counts_singleton(Step::Fragment(Plugin::CleanupImageSshKeys));
    lemma_counts_add(s0, m.0);
    lemma_counts_add(s1, o2);
    lemma_counts_add(s2, o3);
    lemma_counts_add(s3, o4);
    lemma_counts_add(s4, o5);
    lemma_counts_add(s5, o6);
    lemma_counts_add(s6, o7);
    lemma_counts_add(s7, o8);
    lemma_counts_add(s8, o9);
    lemma_counts_add(s9, seq![Step::Marker]);
    lemma_counts_add(s10, o11);
    assert(plan_steps(sorted, has_creds) == s10 + o11);
}

/// Destructive SSH-key cleanup, when selected, is the very last step of the
/// plan and stands strictly after the completion marker; otherwise the
/// marker itself closes the plan.
#[verifier::rlimit(100)]
pub proof fn lemma_marker_before_ssh_cleanup(sorted: Seq<Plugin>, has_creds: bool)
    ensures
        seq_has(sorted, Plugin::CleanupImageSshKeys) ==> {
            let ps = plan_steps(sorted, has_creds);
            &&& ps.len() >= 2
            &&& ps[ps.len() - 1] == Step::Fragment(Plugin::CleanupImageSshKeys)
            &&& ps[ps.len() - 2] == Step::Marker
        },
        !seq_has(sorted, Plugin::CleanupImageSshKeys) ==> {
            let ps = plan_steps(sorted, has_creds);
            &&& ps.len() >= 1
            &&& ps[ps.len() - 1] == Step::Marker
        },
{
}

/// The capability of a fragment step.
pub open spec fn frag_of(st: Step) -> Plugin
    recommends
        st is Fragment,
{
    st->0
}

/// Over a rank-sorted selection, the main pass emits its fragments in
/// ascending rank order, and every fragment comes from the selection's
/// prefix it has walked.
pub proof fn lemma_main_pass_rank_order(s: Seq<Plugin>, i: int)
    requires
        sorted_by_rank(s),
        0 <= i <= s.len(),
    ensures
        forall|k: int|
            0 <= k < main_pass(s, i).0.len() && (#[trigger] main_pass(s, i).0[k]) is Fragment
                ==> exists|j: int| 0 <= j < i && frag_of(main_pass(s, i).0[k]) == s[j],
        forall|k: int, l: int|
            0 <= k < l < main_pass(s, i).0.len() && (#[trigger] main_pass(s, i).0[k]) is Fragment
                && (#[trigger] main_pass(s, i).0[l]) is Fragment ==> cap_rank(
                frag_of(main_pass(s, i).0[k]),
            ) <= cap_rank(frag_of(main_pass(s, i).0[l])),
    decreases i,
{
    if i <= 0 {
    } else {
        lemma_main_pass_rank_order(s, i - 1);
        let prev = main_pass(s, i - 1).0;
        let cur = main_pass(s, i).0;
        let p = s[i - 1];
        if is_epilogue_cap(p) {
            assert(cur == prev);
        } else {
            assert(forall|k: int| 0 <= k < prev.len() ==> #[trigger] cur[k] == prev[k]);
            assert(cur[prev.len() as int] == Step::Fragment(p));
            assert forall|k: int|
                0 <= k < cur.len() && (#[trigger] cur[k]) is Fragment implies exists|j: int|
                0 <= j < i && frag_of(cur[k]) == s[j] by {
                if k < prev.len() {
                    let j = choose|j: int| 0 <= j < i - 1 && frag_of(prev[k]) == s[j];
                    assert(0 <= j < i && frag_of(cur[k]) == s[j]);
                } else if k == prev.len() {
                    assert(frag_of(cur[k]) == s[i - 1]);
                }
            }
            assert forall|k: int, l: int|
                0 <= k < l < cur.len() && (#[trigger] cur[k]) is Fragment && (#[trigger] cur[l])
                    is Fragment implies cap_rank(frag_of(cur[k])) <= cap_rank(frag_of(cur[l])) by {
                if l < prev.len() {
                } else if l == prev.len() {
                    let j = choose|j: int| 0 <= j < i - 1 && frag_of(prev[k]) == s[j];
                    assert(cap_rank(s[j]) <= cap_rank(s[i - 1]));
                }
            }
        }
    }
}

} // verus!
