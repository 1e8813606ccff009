//! Candidate addresses of an origin, and the order in which they are tried.

use vstd::prelude::*;

verus! {

/// An address and port that a TCP connection can be opened to.
#[derive(Clone, Copy, Debug, PartialEq, Eq)]
pub enum SocketAddress {
    V4 { octets: [u8; 4], port: u16 },
    V6 { segments: [u16; 8], port: u16, flowinfo: u32, scope_id: u32 },
}

impl SocketAddress {
    /// Whether the address belongs to the IPv6 family. Every other address is IPv4.
    pub fn is_ipv6(&self) -> (v6: bool)
        ensures
            v6 == (*self is V6),
    {
        match self {
            SocketAddress::V6 { .. } => true,
            SocketAddress::V4 { .. } => false,
        }
    }
}

/// The members of `addresses` in one family, in their given order.
pub open spec fn family(addresses: Seq<SocketAddress>, v6: bool) -> Seq<SocketAddress>
    decreases addresses.len(),
{
    if addresses.len() == 0 {
        Seq::empty()
    } else if (addresses.last() is V6) == v6 {
        family(addresses.drop_last(), v6).push(addresses.last())
    } else {
        family(addresses.drop_last(), v6)
    }
}

/// `first` and `second` taken in turns, then whatever is left of the longer one.
pub open spec fn alternate(
    first: Seq<SocketAddress>,
    second: Seq<SocketAddress>,
) -> Seq<SocketAddress>
    decreases first.len(),
{
    if first.len() == 0 {
        second
    } else if second.len() == 0 {
        first
    } else {
        seq![first[0], second[0]] + alternate(first.drop_first(), second.drop_first())
    }
}

/// The order in which resolved candidates are tried: families in turns, IPv6
/// first, each family in the order in which it was resolved.
pub open spec fn candidate_order(addresses: Seq<SocketAddress>) -> Seq<SocketAddress> {
    alternate(family(addresses, true), family(addresses, false))
}

/// Whether both families occur in `addresses`.
pub open spec fn mixed(addresses: Seq<SocketAddress>) -> bool {
    &&& exists|i: int| 0 <= i < addresses.len() && #[trigger] addresses[i] is V6
    &&& exists|i: int| 0 <= i < addresses.len() && #[trigger] addresses[i] is V4
}

proof fn lemma_family_push(addresses: Seq<SocketAddress>, v6: bool, n: int)
    requires
        0 <= n < addresses.len(),
    ensures
        family(addresses.take(n + 1), v6) == (if (addresses[n] is V6) == v6 {
            family(addresses.take(n), v6).push(addresses[n])
        } else {
            family(addresses.take(n), v6)
        }),
{
    assert(addresses.take(n + 1).drop_last() =~= addresses.take(n));
}

proof fn lemma_family_members(addresses: Seq<SocketAddress>, v6: bool)
    ensures
        forall|i: int|
            0 <= i < family(addresses, v6).len() ==> (#[trigger] family(addresses, v6)[i] is V6)
                == v6,
    decreases addresses.len(),
{
    if addresses.len() > 0 {
        lemma_family_members(addresses.drop_last(), v6);
    }
}

/// The families of a concatenation are the concatenated families.
proof fn lemma_family_concat(a: Seq<SocketAddress>, b: Seq<SocketAddress>, v6: bool)
    ensures
        family(a + b, v6) == family(a, v6) + family(b, v6),
    decreases b.len(),
{
    if b.len() == 0 {
        assert(a + b =~= a);
        assert(family(a, v6) + family(b, v6) =~= family(a, v6));
    } else {
        lemma_family_concat(a, b.drop_last(), v6);
        assert((a + b).drop_last() =~= a + b.drop_last());
        assert((a + b).last() == b.last());
        assert(family(a + b, v6) =~= family(a, v6) + family(b, v6));
    }
}

/// A run of addresses that all belong to one family is that family, and holds
/// nothing of the other.
proof fn lemma_family_of_run(run: Seq<SocketAddress>, v6: bool)
    requires
        forall|i: int| 0 <= i < run.len() ==> (#[trigger] run[i] is V6) == v6,
    ensures
        family(run, v6) == run,
        family(run, !v6) == Seq::<SocketAddress>::empty(),
    decreases run.len(),
{
    if run.len() > 0 {
        lemma_family_of_run(run.drop_last(), v6);
        assert(family(run, v6) =~= run);
    }
}

proof fn lemma_alternate_families(first: Seq<SocketAddress>, second: Seq<SocketAddress>)
    requires
        forall|i: int| 0 <= i < first.len() ==> #[trigger] first[i] is V6,
        forall|i: int| 0 <= i < second.len() ==> #[trigger] second[i] is V4,
    ensures
        family(alternate(first, second), true) == first,
        family(alternate(first, second), false) == second,
    decreases first.len(),
{
    lemma_family_of_run(first, true);
    lemma_family_of_run(second, false);
    if first.len() > 0 && second.len() > 0 {
        let rest = alternate(first.drop_first(), second.drop_first());
        let head = seq![first[0]] + seq![second[0]];
        assert(seq![first[0], second[0]] =~= head);
        lemma_alternate_families(first.drop_first(), second.drop_first());
        lemma_family_of_run(seq![first[0]], true);
        lemma_family_of_run(seq![second[0]], false);
        lemma_family_concat(seq![first[0]], seq![second[0]], true);
        lemma_family_concat(seq![first[0]], seq![second[0]], false);
        lemma_family_concat(head, rest, true);
        lemma_family_concat(head, rest, false);
        assert(family(alternate(first, second), true) =~= first);
        assert(family(alternate(first, second), false) =~= second);
    } else {
        assert(first.len() == 0 ==> first =~= Seq::empty());
        assert(second.len() == 0 ==> second =~= Seq::empty());
    }
}

/// Reordering candidates loses none, adds none, and keeps each family in the
/// order in which it was resolved.
pub proof fn candidate_order_keeps_each_family(addresses: Seq<SocketAddress>, v6: bool)
    ensures
        family(candidate_order(addresses), v6) == family(addresses, v6),
{
    lemma_family_members(addresses, true);
    lemma_family_members(addresses, false);
    lemma_alternate_families(family(addresses, true), family(addresses, false));
}

proof fn lemma_family_nonempty(addresses: Seq<SocketAddress>, v6: bool)
    ensures
        family(addresses, v6).len() > 0 <==> exists|i: int|
            0 <= i < addresses.len() && (#[trigger] addresses[i] is V6) == v6,
    decreases addresses.len(),
{
    if addresses.len() > 0 {
        let init = addresses.drop_last();
        lemma_family_nonempty(init, v6);
        if exists|i: int| 0 <= i < init.len() && (#[trigger] init[i] is V6) == v6 {
            let i = choose|i: int| 0 <= i < init.len() && (#[trigger] init[i] is V6) == v6;
            assert(addresses[i] == init[i]);
        }
        if exists|i: int| 0 <= i < addresses.len() && (#[trigger] addresses[i] is V6) == v6 {
            let i = choose|i: int|
                0 <= i < addresses.len() && (#[trigger] addresses[i] is V6) == v6;
            if i < init.len() {
                assert(init[i] == addresses[i]);
            }
        }
        assert((addresses.last() is V6) == v6 ==> (addresses[addresses.len() - 1] is V6) == v6);
    }
}

/// Wherever an IPv6 candidate was resolved, an IPv6 candidate is tried first.
pub proof fn ipv6_is_tried_first(addresses: Seq<SocketAddress>)
    requires
        exists|i: int| 0 <= i < addresses.len() && #[trigger] addresses[i] is V6,
    ensures
        candidate_order(addresses).len() > 0,
        candidate_order(addresses)[0] is V6,
{
    let i = choose|i: int| 0 <= i < addresses.len() && #[trigger] addresses[i] is V6;
    assert((addresses[i] is V6) == true);
    lemma_family_nonempty(addresses, true);
    lemma_family_members(addresses, true);
    assert(family(addresses, true)[0] is V6);
}

/// Reordering candidates neither creates nor removes a mix of families.
pub proof fn candidate_order_keeps_mixture(addresses: Seq<SocketAddress>)
    ensures
        mixed(candidate_order(addresses)) == mixed(addresses),
{
    let ordered = candidate_order(addresses);
    candidate_order_keeps_each_family(addresses, true);
    candidate_order_keeps_each_family(addresses, false);
    lemma_mixed_by_families(addresses);
    lemma_mixed_by_families(ordered);
}

proof fn lemma_mixed_by_families(addresses: Seq<SocketAddress>)
    ensures
        mixed(addresses) == (family(addresses, true).len() > 0 && family(addresses, false).len()
            > 0),
{
    lemma_family_nonempty(addresses, true);
    lemma_family_nonempty(addresses, false);
    if mixed(addresses) {
        let i = choose|i: int| 0 <= i < addresses.len() && #[trigger] addresses[i] is V6;
        let j = choose|j: int| 0 <= j < addresses.len() && #[trigger] addresses[j] is V4;
        assert((addresses[i] is V6) == true);
        assert((addresses[j] is V6) == false);
    }
    if family(addresses, true).len() > 0 && family(addresses, false).len() > 0 {
        let i = choose|i: int|
            0 <= i < addresses.len() && (#[trigger] addresses[i] is V6) == true;
        let j = choose|j: int|
            0 <= j < addresses.len() && (#[trigger] addresses[j] is V6) == false;
        assert(addresses[i] is V6);
        assert(addresses[j] is V4);
    }
}

/// Puts the families in turns, IPv6 first, keeping the order within each.
pub fn interleave_address_families(addresses: Vec<SocketAddress>) -> (interleaved: Vec<
    SocketAddress,
>)
    ensures
        interleaved@ == candidate_order(addresses@),
{
    let mut ipv6: Vec<SocketAddress> = Vec::new();
    let mut ipv4: Vec<SocketAddress> = Vec::new();
    assert(addresses@.take(0) =~= Seq::<SocketAddress>::empty());
    let mut n: usize = 0;
    while n < addresses.len()
        invariant
            n <= addresses@.len(),
            ipv6@ == family(addresses@.take(n as int), true),
            ipv4@ == family(addresses@.take(n as int), false),
        decreases addresses@.len() - n,
    {
        proof {
            lemma_family_push(addresses@, true, n as int);
            lemma_family_push(addresses@, false, n as int);
        }
        let address = addresses[n];
        if address.is_ipv6() {
            ipv6.push(address);
        } else {
            ipv4.push(address);
        }
        n = n + 1;
    }
    assert(addresses@.take(n as int) =~= addresses@);

    let mut interleaved: Vec<SocketAddress> = Vec::new();
    let mut i: usize = 0;
    let mut j: usize = 0;
    assert(ipv6@.skip(0) =~= ipv6@ && ipv4@.skip(0) =~= ipv4@);
    while i < ipv6.len()
        invariant
            i <= ipv6@.len(),
            j <= ipv4@.len(),
            j == i || j == ipv4@.len(),
            alternate(ipv6@, ipv4@) =~= interleaved@ + alternate(
                ipv6@.skip(i as int),
                ipv4@.skip(j as int),
            ),
        decreases ipv6@.len() - i,
    {
        let ghost first = ipv6@.skip(i as int);
        let ghost second = ipv4@.skip(j as int);
        assert(first.drop_first() =~= ipv6@.skip(i + 1));
        interleaved.push(ipv6[i]);
        if j < ipv4.len() {
            assert(second.drop_first() =~= ipv4@.skip(j + 1));
            interleaved.push(ipv4[j]);
            j = j + 1;
        } else {
            assert(first =~= seq![first[0]] + first.drop_first());
            assert(first.drop_first().len() == 0 ==> first.drop_first() =~= second);
        }
        i = i + 1;
    }
    while j < ipv4.len()
        invariant
            j <= ipv4@.len(),
            alternate(ipv6@, ipv4@) =~= interleaved@ + ipv4@.skip(j as int),
        decreases ipv4@.len() - j,
    {
        assert(ipv4@.skip(j as int) =~= seq![ipv4@[j as int]] + ipv4@.skip(j + 1));
        interleaved.push(ipv4[j]);
        j = j + 1;
    }
    interleaved
}

/// Whether both address families are present.
pub fn has_both_address_families(addresses: &[SocketAddress]) -> (both: bool)
    ensures
        both == mixed(addresses@),
{
    let mut has_ipv6: bool = false;
    let mut has_ipv4: bool = false;
    let mut n: usize = 0;
    while n < addresses.len()
        invariant
            n <= addresses@.len(),
            has_ipv6 == exists|i: int| 0 <= i < n && #[trigger] addresses@[i] is V6,
            has_ipv4 == exists|i: int| 0 <= i < n && #[trigger] addresses@[i] is V4,
        decreases addresses@.len() - n,
    {
        if addresses[n].is_ipv6() {
            assert(addresses@[n as int] is V6);
            has_ipv6 = true;
        } else {
            assert(addresses@[n as int] is V4);
            has_ipv4 = true;
        }
        n = n + 1;
    }
    has_ipv6 && has_ipv4
}

/// A family holds exactly the members of one sort, in their given order.
proof fn lemma_family_is_filter(addresses: Seq<SocketAddress>)
    ensures
        family(addresses, true) == addresses.filter(|a: SocketAddress| a is V6),
        family(addresses, false) == addresses.filter(|a: SocketAddress| a is V4),
        addresses.len() == family(addresses, true).len() + family(addresses, false).len(),
    decreases addresses.len(),
{
    reveal(Seq::filter);
    if addresses.len() > 0 {
        lemma_family_is_filter(addresses.drop_last());
    } else {
        assert(addresses =~= Seq::empty());
    }
}

proof fn lemma_turns(first: Seq<SocketAddress>, second: Seq<SocketAddress>)
    ensures
        alternate(first, second).len() == first.len() + second.len(),
        forall|k: int|
            0 <= k < first.len() && k < second.len() ==> alternate(first, second)[2 * k]
                == #[trigger] first[k],
        forall|k: int|
            0 <= k < first.len() && k < second.len() ==> alternate(first, second)[2 * k + 1]
                == #[trigger] second[k],
        forall|k: int|
            second.len() <= k < first.len() ==> alternate(first, second)[second.len() + k]
                == #[trigger] first[k],
        forall|k: int|
            first.len() <= k < second.len() ==> alternate(first, second)[first.len() + k]
                == #[trigger] second[k],
    decreases first.len(),
{
    if first.len() > 0 && second.len() > 0 {
        let (f, s) = (first.drop_first(), second.drop_first());
        let all = alternate(first, second);
        let rest = alternate(f, s);
        lemma_turns(f, s);
        assert(forall|n: int| 0 <= n < rest.len() ==> all[n + 2] == #[trigger] rest[n]);
        assert forall|k: int| 0 <= k < first.len() && k < second.len() implies all[2 * k]
            == #[trigger] first[k] by {
            if k > 0 {
                assert(f[k - 1] == first[k]);
                assert(rest[2 * (k - 1)] == all[2 * k]);
            }
        }
        assert forall|k: int| 0 <= k < first.len() && k < second.len() implies all[2 * k + 1]
            == #[trigger] second[k] by {
            if k > 0 {
                assert(s[k - 1] == second[k]);
                assert(rest[2 * (k - 1) + 1] == all[2 * k + 1]);
            }
        }
        assert forall|k: int| second.len() <= k < first.len() implies all[second.len() + k]
            == #[trigger] first[k] by {
            assert(f[k - 1] == first[k]);
            assert(rest[s.len() + (k - 1)] == all[second.len() + k]);
        }
        assert forall|k: int| first.len() <= k < second.len() implies all[first.len() + k]
            == #[trigger] second[k] by {
            assert(s[k - 1] == second[k]);
            assert(rest[f.len() + (k - 1)] == all[first.len() + k]);
        }
    }
}

/// The families take turns, IPv6 first, for as long as both last: the candidates
/// at positions `2k` and `2k + 1` are the `k`-th IPv6 and the `k`-th IPv4 address
/// that were resolved. What is left of the longer family follows in its order, and
/// nothing else does.
pub proof fn families_take_turns(resolved: Vec<SocketAddress>, tried: Vec<SocketAddress>)
    requires
        call_ensures(interleave_address_families, (resolved,), tried),
    ensures
        ({
            let ipv6 = resolved@.filter(|a: SocketAddress| a is V6);
            let ipv4 = resolved@.filter(|a: SocketAddress| a is V4);
            &&& tried@.len() == resolved@.len()
            &&& tried@.len() == ipv6.len() + ipv4.len()
            &&& forall|k: int|
                0 <= k < ipv6.len() && k < ipv4.len() ==> tried@[2 * k] == #[trigger] ipv6[k]
            &&& forall|k: int|
                0 <= k < ipv6.len() && k < ipv4.len() ==> tried@[2 * k + 1] == #[trigger] ipv4[k]
            &&& forall|k: int|
                ipv4.len() <= k < ipv6.len() ==> tried@[ipv4.len() + k] == #[trigger] ipv6[k]
            &&& forall|k: int|
                ipv6.len() <= k < ipv4.len() ==> tried@[ipv6.len() + k] == #[trigger] ipv4[k]
        }),
{
    lemma_family_is_filter(resolved@);
    lemma_turns(family(resolved@, true), family(resolved@, false));
}

/// Both families are present exactly where an address of each is.
pub proof fn both_families_are_found(addresses: &[SocketAddress], both: bool)
    requires
        call_ensures(has_both_address_families, (addresses,), both),
    ensures
        both ==> exists|i: int, j: int|
            0 <= i < addresses@.len() && 0 <= j < addresses@.len() && #[trigger] addresses@[i] is V6
                && #[trigger] addresses@[j] is V4,
        forall|i: int, j: int|
            0 <= i < addresses@.len() && 0 <= j < addresses@.len() && #[trigger] addresses@[i] is V6
                && #[trigger] addresses@[j] is V4 ==> both,
{
}

/// The order in which candidates are tried is a rearrangement of what was resolved.
pub proof fn order_is_a_rearrangement(addresses: Seq<SocketAddress>)
    ensures
        candidate_order(addresses).to_multiset() == addresses.to_multiset(),
{
    let ordered = candidate_order(addresses);
    candidate_order_keeps_each_family(addresses, true);
    candidate_order_keeps_each_family(addresses, false);
    lemma_families_make_up(addresses);
    lemma_families_make_up(ordered);
    assert(ordered.to_multiset() =~= addresses.to_multiset());
}

proof fn lemma_families_make_up(addresses: Seq<SocketAddress>)
    ensures
        addresses.to_multiset() == family(addresses, true).to_multiset().add(
            family(addresses, false).to_multiset(),
        ),
    decreases addresses.len(),
{
    broadcast use vstd::seq_lib::group_to_multiset_ensures;

    let all = family(addresses, true).to_multiset().add(family(addresses, false).to_multiset());
    if addresses.len() > 0 {
        let init = addresses.drop_last();
        lemma_families_make_up(init);
        assert(addresses =~= init.push(addresses.last()));
        assert(addresses.to_multiset() =~= init.to_multiset().insert(addresses.last()));
        assert(addresses.to_multiset() =~= all);
    } else {
        assert(addresses.to_multiset() =~= all);
    }
}

} // verus!
