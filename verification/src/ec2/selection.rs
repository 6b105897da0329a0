//! Selection sets: deduplicated sets of capabilities, built from raw
//! identifier strings, and the resolver that normalizes a selection by the
//! catalog's implication and override rules.

use crate::ec2::plugins::{cap_eq, cap_str, is_known_str, Plugin};
use vstd::prelude::*;

verus! {

/// Whether `c` is a member of the sequence, by capability identity.
pub open spec fn seq_has(s: Seq<Plugin>, c: Plugin) -> bool {
    exists|i: int| 0 <= i < s.len() && cap_eq(#[trigger] s[i], c)
}

/// No member repeats, by capability identity.
pub open spec fn no_dups(s: Seq<Plugin>) -> bool {
    forall|i: int, j: int| 0 <= i < j < s.len() ==> !cap_eq(#[trigger] s[i], #[trigger] s[j])
}

/// Whether capability `c` is what the identifier string `s` parses to: same
/// canonical form, and open exactly when the string is no known form.
pub open spec fn matches_str(c: Plugin, s: Seq<char>) -> bool {
    cap_str(c) == s && ((c is Unknown) <==> !is_known_str(s))
}

/// Whether one of the requested identifier strings denotes `c`.
pub open spec fn requested(ss: Seq<Seq<char>>, c: Plugin) -> bool {
    exists|i: int| 0 <= i < ss.len() && matches_str(c, #[trigger] ss[i])
}

/// Whether the selection holds the capability the identifier string `s`
/// denotes.
pub open spec fn str_covered(rs: Seq<Plugin>, s: Seq<char>) -> bool {
    exists|c: Plugin| #![auto] seq_has(rs, c) && matches_str(c, s)
}

/// Membership in a sequence extended by one member.
pub proof fn lemma_seq_has_push(s: Seq<Plugin>, x: Plugin, c: Plugin)
    ensures
        seq_has(s.push(x), c) <==> (seq_has(s, c) || cap_eq(x, c)),
{
    if seq_has(s.push(x), c) {
        let i = choose|i: int| 0 <= i < s.push(x).len() && cap_eq(#[trigger] s.push(x)[i], c);
        if i < s.len() {
            assert(s[i] == s.push(x)[i]);
            assert(seq_has(s, c));
        } else {
            assert(s.push(x)[i] == x);
        }
    }
    if seq_has(s, c) {
        let i = choose|i: int| 0 <= i < s.len() && cap_eq(#[trigger] s[i], c);
        assert(s.push(x)[i] == s[i]);
        assert(seq_has(s.push(x), c));
    }
    if cap_eq(x, c) {
        assert(s.push(x)[s.len() as int] == x);
        assert(seq_has(s.push(x), c));
    }
}

/// Being requested by a list of identifiers extended by one identifier.
pub proof fn lemma_requested_push(ss: Seq<Seq<char>>, s: Seq<char>, c: Plugin)
    ensures
        requested(ss.push(s), c) <==> (requested(ss, c) || matches_str(c, s)),
{
    if requested(ss.push(s), c) {
        let i = choose|i: int| 0 <= i < ss.push(s).len() && matches_str(c, #[trigger] ss.push(s)[i]);
        if i < ss.len() {
            assert(ss[i] == ss.push(s)[i]);
            assert(requested(ss, c));
        } else {
            assert(ss.push(s)[i] == s);
        }
    }
    if requested(ss, c) {
        let i = choose|i: int| 0 <= i < ss.len() && matches_str(c, #[trigger] ss[i]);
        assert(ss.push(s)[i] == ss[i]);
        assert(requested(ss.push(s), c));
    }
    if matches_str(c, s) {
        assert(ss.push(s)[ss.len() as int] == s);
        assert(requested(ss.push(s), c));
    }
}

/// A deduplicated set of capabilities. Insertion order is kept but carries
/// no meaning; membership is by capability identity.
pub struct SelectionSet {
    items: Vec<Plugin>,
}

impl View for SelectionSet {
    type V = Seq<Plugin>;

    closed spec fn view(&self) -> Seq<Plugin> {
        self.items@
    }
}

impl SelectionSet {
    /// The set never holds two members with the same identity.
    pub open spec fn wf(self) -> bool {
        no_dups(self@)
    }

    /// Membership, by capability identity.
    pub open spec fn has(self, c: Plugin) -> bool {
        seq_has(self@, c)
    }

    /// The empty selection.
    pub fn new() -> (r: Self)
        ensures
            r@ == Seq::<Plugin>::empty(),
            r.wf(),
    {
        SelectionSet { items: Vec::new() }
    }

    /// Whether the set holds a member with the identity of `c`.
    pub fn contains(&self, c: &Plugin) -> (r: bool)
        ensures
            r == seq_has(self@, *c),
    {
        let mut i: usize = 0;
        while i < self.items.len()
            invariant
                i <= self.items@.len(),
                forall|j: int| 0 <= j < i ==> !cap_eq(#[trigger] self.items@[j], *c),
            decreases self.items@.len() - i,
        {
            if self.items[i].eq(c) {
                return true;
            }
            i += 1;
        }
        false
    }

    /// Adds `c` unless a member with its identity is already present.
    pub fn insert(&mut self, c: Plugin)
        ensures
            forall|d: Plugin| #[trigger] seq_has(final(self)@, d) <==> (seq_has(old(self)@, d)
                || cap_eq(c, d)),
            old(self).wf() ==> final(self).wf(),
    {
        if !self.contains(&c) {
            let ghost pre = self.items@;
            self.items.push(c);
            proof {
                assert forall|d: Plugin| #[trigger] seq_has(self.items@, d) <==> (seq_has(pre, d)
                    || cap_eq(c, d)) by {
                    lemma_seq_has_push(pre, c, d);
                }
                if no_dups(pre) {
                    assert forall|i: int, j: int|
                        0 <= i < j < self.items@.len() implies !cap_eq(
                        #[trigger] self.items@[i],
                        #[trigger] self.items@[j],
                    ) by {
                        if j < pre.len() {
                        } else {
                            assert(self.items@[j] == c);
                            assert(!cap_eq(pre[i], c));
                        }
                    }
                }
            }
        } else {
            proof {
                assert forall|d: Plugin| #[trigger] seq_has(self@, d) <==> (seq_has(self@, d)
                    || cap_eq(c, d)) by {
                    if cap_eq(c, d) {
                        let i = choose|i: int|
                            0 <= i < self@.len() && cap_eq(#[trigger] self@[i], c);
                        assert(cap_eq(self@[i], d));
                    }
                }
            }
        }
    }

    /// Removes the member with the identity of `c`, if present.
    pub fn remove(&mut self, c: &Plugin)
        requires
            old(self).wf(),
        ensures
            final(self).wf(),
            forall|d: Plugin| #[trigger] seq_has(final(self)@, d) <==> (seq_has(old(self)@, d)
                && !cap_eq(d, *c)),
    {
        let ghost pre = self.items@;
        let mut kept: Vec<Plugin> = Vec::new();
        let mut i: usize = 0;
        while i < self.items.len()
            invariant
                i <= pre.len(),
                self.items@ == pre,
                no_dups(pre),
                no_dups(kept@),
                forall|d: Plugin| #[trigger] seq_has(kept@, d) <==> (seq_has(
                    pre.subrange(0, i as int),
                    d,
                ) && !cap_eq(d, *c)),
            decreases pre.len() - i,
        {
            let ghost prefix = pre.subrange(0, i as int);
            let ghost prekept = kept@;
            let x = self.items[i].dup();
            let keep = !x.eq(c);
            if keep {
                kept.push(x);
            }
            proof {
                assert(pre.subrange(0, i as int + 1) =~= prefix.push(pre[i as int]));
                assert forall|d: Plugin| #[trigger] seq_has(kept@, d) <==> (seq_has(
                    pre.subrange(0, i as int + 1),
                    d,
                ) && !cap_eq(d, *c)) by {
                    lemma_seq_has_push(prefix, pre[i as int], d);
                    if keep {
                        lemma_seq_has_push(prekept, pre[i as int], d);
                    }
                }
                if keep {
                    assert forall|a: int, b: int|
                        0 <= a < b < kept@.len() implies !cap_eq(
                        #[trigger] kept@[a],
                        #[trigger] kept@[b],
                    ) by {
                        if b == kept@.len() - 1 {
                            if cap_eq(kept@[a], kept@[b]) {
                                assert(cap_eq(prekept[a], pre[i as int]));
                                assert(seq_has(prekept, pre[i as int]));
                                assert(seq_has(prefix, pre[i as int]));
                                let j = choose|j: int|
                                    0 <= j < prefix.len() && cap_eq(
                                        #[trigger] prefix[j],
                                        pre[i as int],
                                    );
                                assert(cap_eq(pre[j], pre[i as int]));
                            }
                        }
                    }
                }
            }
            i += 1;
        }
        proof {
            assert(pre.subrange(0, pre.len() as int) =~= pre);
        }
        self.items = kept;
    }

    /// Hands the members over as a list, in insertion order.
    pub fn into_items(self) -> (r: Vec<Plugin>)
        ensures
            r@ == self@,
    {
        self.items
    }
}

/// Parses every requested identifier and collects the selection; repeated
/// identifiers collapse to one member.
pub fn from_strings(ss: &Vec<String>) -> (r: SelectionSet)
    ensures
        r.wf(),
        forall|c: Plugin| #[trigger] seq_has(r@, c) <==> requested(ss.deep_view(), c),
        forall|i: int| 0 <= i < ss@.len() ==> #[trigger] str_covered(r@, ss.deep_view()[i]),
{
    let mut r = SelectionSet::new();
    let mut i: usize = 0;
    proof {
        assert forall|c: Plugin| !(#[trigger] seq_has(Seq::<Plugin>::empty(), c)) by {
        }
        assert(ss.deep_view().subrange(0, 0) =~= Seq::<Seq<char>>::empty());
    }
    while i < ss.len()
        invariant
            i <= ss@.len(),
            ss.deep_view().len() == ss@.len(),
            forall|j: int| 0 <= j < ss@.len() ==> #[trigger] ss.deep_view()[j] == ss@[j]@,
            r.wf(),
            forall|c: Plugin| #[trigger] seq_has(r@, c) <==> requested(
                ss.deep_view().subrange(0, i as int),
                c,
            ),
            forall|j: int| 0 <= j < i ==> #[trigger] str_covered(r@, ss.deep_view()[j]),
        decreases ss@.len() - i,
    {
        let ghost prefix = ss.deep_view().subrange(0, i as int);
        let ghost prev = r;
        let p = Plugin::parse(ss[i].as_str());
        r.insert(p);
        proof {
            assert forall|j: int| 0 <= j <= i implies #[trigger] str_covered(
                r@,
                ss.deep_view()[j],
            ) by {
                if j < i {
                    assert(str_covered(prev@, ss.deep_view()[j]));
                    let c = choose|c: Plugin| #![auto]
                        seq_has(prev@, c) && matches_str(c, ss.deep_view()[j]);
                    assert(seq_has(r@, c));
                    assert(str_covered(r@, ss.deep_view()[j]));
                } else {
                    assert(cap_eq(p, p));
                    assert(seq_has(r@, p));
                    assert(matches_str(p, ss.deep_view()[i as int]));
                }
            }
            assert(ss.deep_view().subrange(0, i as int + 1) =~= prefix.push(ss@[i as int]@));
            assert forall|c: Plugin| #[trigger] seq_has(r@, c) <==> requested(
                ss.deep_view().subrange(0, i as int + 1),
                c,
            ) by {
                lemma_requested_push(prefix, ss@[i as int]@, c);
                assert(cap_eq(p, c) <==> matches_str(c, ss@[i as int]@));
            }
        }
        i += 1;
    }
    proof {
        assert(ss.deep_view().subrange(0, ss@.len() as int) =~= ss.deep_view());
    }
    r
}

/// Pointwise statement of resolution: which capabilities the normalized
/// selection holds, given the base selection's membership and the switches.
/// The accelerator driver joins on accelerator architectures; the static-IP
/// companion joins a static-volume selection when the caller requires it;
/// the minimal interpreter yields to the full distribution; a supplied
/// post-initialization payload brings its capability in.
pub open spec fn resolve_member(
    base: Seq<Plugin>,
    c: Plugin,
    nvidia: bool,
    require_ip: bool,
    has_post: bool,
) -> bool {
    if c == Plugin::NvidiaDriver {
        seq_has(base, c) || nvidia
    } else if c == Plugin::StaticIpProvisioner {
        seq_has(base, c) || (require_ip && seq_has(base, Plugin::StaticVolumeProvisioner))
    } else if c == Plugin::Python {
        seq_has(base, c) && !seq_has(base, Plugin::Anaconda)
    } else if c == Plugin::PostInitScript {
        seq_has(base, c) || has_post
    } else {
        seq_has(base, c)
    }
}

/// Normalizes a selection by the catalog's implication and override rules.
/// Pure: the input set is consumed, and the result's membership is exactly
/// `resolve_member` of the input's.
pub fn resolve(s: SelectionSet, nvidia: bool, require_ip: bool, has_post: bool) -> (r: SelectionSet)
    requires
        s.wf(),
    ensures
        r.wf(),
        forall|c: Plugin| #[trigger] seq_has(r@, c) <==> resolve_member(
            s@,
            c,
            nvidia,
            require_ip,
            has_post,
        ),
{
    let ghost base = s@;
    let mut r = s;
    let ghost r0 = r;
    if nvidia {
        r.insert(Plugin::NvidiaDriver);
    }
    let ghost r1 = r;
    if require_ip && r.contains(&Plugin::StaticVolumeProvisioner) {
        r.insert(Plugin::StaticIpProvisioner);
    }
    let ghost r2 = r;
    if r.contains(&Plugin::Anaconda) && r.contains(&Plugin::Python) {
        r.remove(&Plugin::Python);
    }
    let ghost r3 = r;
    if has_post {
        r.insert(Plugin::PostInitScript);
    }
    proof {
        assert forall|c: Plugin| #[trigger] seq_has(r@, c) <==> resolve_member(
            base,
            c,
            nvidia,
            require_ip,
            has_post,
        ) by {
            lemma_resolve_cases(base, r0@, r1@, r2@, r3@, r@, c, nvidia, require_ip, has_post);
        }
    }
    r
}

/// The pointwise effect of the four resolution steps on one capability.
proof fn lemma_resolve_cases(
    base: Seq<Plugin>,
    s0: Seq<Plugin>,
    s1: Seq<Plugin>,
    s2: Seq<Plugin>,
    s3: Seq<Plugin>,
    s4: Seq<Plugin>,
    c: Plugin,
    nvidia: bool,
    require_ip: bool,
    has_post: bool,
)
    requires
        s0 == base,
        forall|d: Plugin| #[trigger] seq_has(s1, d) <==> (seq_has(s0, d) || (nvidia && cap_eq(
            Plugin::NvidiaDriver,
            d,
        ))),
        forall|d: Plugin| #[trigger] seq_has(s2, d) <==> (seq_has(s1, d) || ((require_ip
            && seq_has(s1, Plugin::StaticVolumeProvisioner)) && cap_eq(
            Plugin::StaticIpProvisioner,
            d,
        ))),
        forall|d: Plugin| #[trigger] seq_has(s3, d) <==> (seq_has(s2, d) && !((seq_has(
            s2,
            Plugin::Anaconda,
        ) && seq_has(s2, Plugin::Python)) && cap_eq(d, Plugin::Python))),
        forall|d: Plugin| #[trigger] seq_has(s4, d) <==> (seq_has(s3, d) || (has_post && cap_eq(
            Plugin::PostInitScript,
            d,
        ))),
    ensures
        seq_has(s4, c) <==> resolve_member(base, c, nvidia, require_ip, has_post),
{
    crate::ec2::plugins::lemma_cap_eq_known(Plugin::NvidiaDriver, Plugin::StaticVolumeProvisioner);
    crate::ec2::plugins::lemma_cap_eq_known(Plugin::StaticIpProvisioner, Plugin::Anaconda);
    crate::ec2::plugins::lemma_cap_eq_known(Plugin::StaticIpProvisioner, Plugin::Python);
    crate::ec2::plugins::lemma_cap_eq_known(Plugin::NvidiaDriver, Plugin::Anaconda);
    crate::ec2::plugins::lemma_cap_eq_known(Plugin::NvidiaDriver, Plugin::Python);
    crate::ec2::plugins::lemma_cap_eq_known(Plugin::PostInitScript, Plugin::Python);
    if !(c is Unknown) {
        crate::ec2::plugins::lemma_cap_eq_known(Plugin::NvidiaDriver, c);
        crate::ec2::plugins::lemma_cap_eq_known(Plugin::StaticIpProvisioner, c);
        crate::ec2::plugins::lemma_cap_eq_known(Plugin::PostInitScript, c);
        crate::ec2::plugins::lemma_cap_eq_known(c, Plugin::Python);
    }
    assert(seq_has(s1, Plugin::StaticVolumeProvisioner) <==> seq_has(
        s0,
        Plugin::StaticVolumeProvisioner,
    ));
    assert(seq_has(s2, Plugin::Anaconda) <==> seq_has(s0, Plugin::Anaconda));
    assert(seq_has(s2, Plugin::Python) <==> seq_has(s0, Plugin::Python));
    assert(seq_has(s2, c) <==> (seq_has(s1, c) || ((require_ip && seq_has(
        s1,
        Plugin::StaticVolumeProvisioner,
    )) && cap_eq(Plugin::StaticIpProvisioner, c))));
}

/// Resolution is idempotent: resolving an already-resolved selection leaves
/// its membership unchanged.
pub proof fn lemma_resolve_idempotent(
    base: Seq<Plugin>,
    r1: Seq<Plugin>,
    r2: Seq<Plugin>,
    nvidia: bool,
    require_ip: bool,
    has_post: bool,
)
    requires
        forall|c: Plugin| #[trigger] seq_has(r1, c) <==> resolve_member(
            base,
            c,
            nvidia,
            require_ip,
            has_post,
        ),
        forall|c: Plugin| #[trigger] seq_has(r2, c) <==> resolve_member(
            r1,
            c,
            nvidia,
            require_ip,
            has_post,
        ),
    ensures
        forall|c: Plugin| #[trigger] seq_has(r2, c) <==> seq_has(r1, c),
{
    assert(seq_has(r1, Plugin::StaticVolumeProvisioner) <==> resolve_member(
        base,
        Plugin::StaticVolumeProvisioner,
        nvidia,
        require_ip,
        has_post,
    ));
    assert(seq_has(r1, Plugin::Anaconda) <==> resolve_member(
        base,
        Plugin::Anaconda,
        nvidia,
        require_ip,
        has_post,
    ));
    assert forall|c: Plugin| #[trigger] seq_has(r2, c) <==> seq_has(r1, c) by {
        assert(seq_has(r1, c) <==> resolve_member(base, c, nvidia, require_ip, has_post));
        assert(seq_has(r2, c) <==> resolve_member(r1, c, nvidia, require_ip, has_post));
    }
}

} // verus!
