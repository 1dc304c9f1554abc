//! Properties of the order of the proxies of a client: it holds every tunnel
//! of the client once, and it is fully determined by the tunnels.
use crate::frp::{
    bytes_le, client_tunnels, proxies_of_client, proxy_of, FrpClientProxyView, same_order_per_key, stable_sorted_by_key, tunnel_key, tunnels_key_sorted,
    tunnels_with_key,
};
use crate::v1alpha1::{Client, Tunnel};
use vstd::prelude::*;
use vstd::utf8::{decode_utf8, encode_utf8};

verus! {

broadcast use {vstd::seq_lib::group_to_multiset_ensures, vstd::multiset::group_multiset_axioms};

/// Filtering keeps every copy of an element that passes and none of one that fails.
proof fn lemma_filter_count<A>(s: Seq<A>, p: spec_fn(A) -> bool, x: A)
    ensures
        s.filter(p).to_multiset().count(x) == if p(x) {
            s.to_multiset().count(x)
        } else {
            0
        },
    decreases s.len(),
{
    reveal_with_fuel(Seq::<_>::filter, 1);
    if s.len() == 0 {
        assert(!s.contains(x));
        assert(!s.filter(p).contains(x));
    } else {
        let d = s.drop_last();
        lemma_filter_count(d, p, x);
        assert(s =~= d.push(s.last()));
        if p(s.last()) {
            assert(s.filter(p) == d.filter(p).push(s.last()));
        } else {
            assert(s.filter(p) == d.filter(p));
        }
    }
}

/// Byte strings that are each at most the other are equal.
proof fn lemma_bytes_le_antisymmetric(a: Seq<u8>, b: Seq<u8>)
    requires
        bytes_le(a, b),
        bytes_le(b, a),
    ensures
        a == b,
    decreases a.len(),
{
    if a.len() > 0 && b.len() > 0 {
        lemma_bytes_le_antisymmetric(a.drop_first(), b.drop_first());
        assert(a =~= seq![a[0]] + a.drop_first());
        assert(b =~= seq![b[0]] + b.drop_first());
    }
}

proof fn lemma_bytes_le_reflexive(a: Seq<u8>)
    ensures
        bytes_le(a, a),
    decreases a.len(),
{
    if a.len() > 0 {
        lemma_bytes_le_reflexive(a.drop_first());
    }
}

/// Keys whose UTF-8 encodings are equal are equal.
proof fn lemma_encode_injective(a: Seq<char>, b: Seq<char>)
    requires
        encode_utf8(a) == encode_utf8(b),
    ensures
        a == b,
{
    vstd::utf8::encode_utf8_decode_utf8(a);
    vstd::utf8::encode_utf8_decode_utf8(b);
}

/// Tunnels whose keys bound each other in the sorted order have the same key.
proof fn lemma_keys_equal(a: Tunnel, b: Tunnel)
    requires
        bytes_le(encode_utf8(tunnel_key(a)), encode_utf8(tunnel_key(b))),
        bytes_le(encode_utf8(tunnel_key(b)), encode_utf8(tunnel_key(a))),
    ensures
        tunnel_key(a) == tunnel_key(b),
{
    lemma_bytes_le_antisymmetric(encode_utf8(tunnel_key(a)), encode_utf8(tunnel_key(b)));
    lemma_encode_injective(tunnel_key(a), tunnel_key(b));
}

/// Sequences that agree key by key hold the same tunnels, as often each.
proof fn lemma_same_order_same_multiset(a: Seq<Tunnel>, b: Seq<Tunnel>)
    requires
        same_order_per_key(a, b),
    ensures
        a.to_multiset() =~= b.to_multiset(),
        a.len() == b.len(),
{
    assert forall|x: Tunnel| a.to_multiset().count(x) == b.to_multiset().count(x) by {
        let k = tunnel_key(x);
        assert(tunnels_with_key(a, k) == tunnels_with_key(b, k));
        lemma_filter_count(a, |t: Tunnel| tunnel_key(t) == k, x);
        lemma_filter_count(b, |t: Tunnel| tunnel_key(t) == k, x);
    }
    assert(a.to_multiset() =~= b.to_multiset());
    assert(a.to_multiset().len() == a.len());
    assert(b.to_multiset().len() == b.len());
}

proof fn lemma_filter_first<A>(s: Seq<A>, p: spec_fn(A) -> bool)
    requires
        s.len() > 0,
    ensures
        s.filter(p) == (if p(s[0]) {
            seq![s[0]]
        } else {
            Seq::<A>::empty()
        }) + s.drop_first().filter(p),
{
    assert(s =~= seq![s[0]] + s.drop_first());
    s.drop_first().lemma_filter_prepend(s[0], p);
}

/// Two key-sorted sequences that agree key by key are equal.
proof fn lemma_sorted_agreeing_equal(s1: Seq<Tunnel>, s2: Seq<Tunnel>)
    requires
        tunnels_key_sorted(s1),
        tunnels_key_sorted(s2),
        same_order_per_key(s1, s2),
    ensures
        s1 == s2,
    decreases s1.len(),
{
    lemma_same_order_same_multiset(s1, s2);
    if s1.len() == 0 {
        assert(s1 =~= s2);
    } else {
        let a = s1[0];
        let b = s2[0];
        assert(s1.contains(a));
        assert(s2.to_multiset().count(a) > 0);
        assert(s2.contains(a));
        let j = choose|j: int| 0 <= j < s2.len() && s2[j] == a;
        if j > 0 {
            assert(bytes_le(encode_utf8(tunnel_key(s2[0])), encode_utf8(tunnel_key(s2[j]))));
        } else {
            lemma_bytes_le_reflexive(encode_utf8(tunnel_key(a)));
        }
        assert(s1.to_multiset().count(b) > 0);
        assert(s1.contains(b));
        let i = choose|i: int| 0 <= i < s1.len() && s1[i] == b;
        if i > 0 {
            assert(bytes_le(encode_utf8(tunnel_key(s1[0])), encode_utf8(tunnel_key(s1[i]))));
        } else {
            lemma_bytes_le_reflexive(encode_utf8(tunnel_key(a)));
        }
        lemma_keys_equal(a, b);
        let k = tunnel_key(a);
        let pk = |t: Tunnel| tunnel_key(t) == k;
        lemma_filter_first(s1, pk);
        lemma_filter_first(s2, pk);
        assert(tunnels_with_key(s1, k) == tunnels_with_key(s2, k));
        assert(tunnels_with_key(s1, k)[0] == a);
        assert(tunnels_with_key(s2, k)[0] == b);
        let r1 = s1.drop_first();
        let r2 = s2.drop_first();
        assert forall|k2: Seq<char>| #[trigger] tunnels_with_key(r1, k2) == tunnels_with_key(r2, k2) by {
            let p2 = |t: Tunnel| tunnel_key(t) == k2;
            lemma_filter_first(s1, p2);
            lemma_filter_first(s2, p2);
            assert(tunnels_with_key(s1, k2) == tunnels_with_key(s2, k2));
            let pre: Seq<Tunnel> = if p2(a) {
                seq![a]
            } else {
                Seq::<Tunnel>::empty()
            };
            assert(tunnels_with_key(s1, k2) == pre + tunnels_with_key(r1, k2));
            assert(tunnels_with_key(s2, k2) == pre + tunnels_with_key(r2, k2));
            assert(tunnels_with_key(r1, k2) =~= (pre + tunnels_with_key(r1, k2)).subrange(pre.len() as int, (pre + tunnels_with_key(r1, k2)).len() as int));
            assert(tunnels_with_key(r2, k2) =~= (pre + tunnels_with_key(r2, k2)).subrange(pre.len() as int, (pre + tunnels_with_key(r2, k2)).len() as int));
        }
        assert(tunnels_key_sorted(r1)) by {
            assert forall|x: int, y: int| 0 <= x < y < r1.len() implies bytes_le(
                encode_utf8(tunnel_key(#[trigger] r1[x])),
                encode_utf8(tunnel_key(#[trigger] r1[y])),
            ) by {
                assert(r1[x] == s1[x + 1] && r1[y] == s1[y + 1]);
            }
        }
        assert(tunnels_key_sorted(r2)) by {
            assert forall|x: int, y: int| 0 <= x < y < r2.len() implies bytes_le(
                encode_utf8(tunnel_key(#[trigger] r2[x])),
                encode_utf8(tunnel_key(#[trigger] r2[y])),
            ) by {
                assert(r2[x] == s2[x + 1] && r2[y] == s2[y + 1]);
            }
        }
        lemma_sorted_agreeing_equal(r1, r2);
        assert(s1 =~= seq![a] + r1);
        assert(s2 =~= seq![b] + r2);
    }
}

/// Sorting the tunnels of a client by key loses none and adds none: the
/// sorted tunnels are a permutation of the tunnels.
pub proof fn law_sorted_tunnels_are_a_permutation(input: Seq<Tunnel>, sorted: Seq<Tunnel>)
    requires
        stable_sorted_by_key(input, sorted),
    ensures
        sorted.to_multiset() == input.to_multiset(),
        sorted.len() == input.len(),
{
    lemma_same_order_same_multiset(sorted, input);
}

/// The order of the proxies is determined by the tunnels: there is exactly
/// one stable sort by key of a sequence of tunnels.
pub proof fn law_stable_sort_is_unique(input: Seq<Tunnel>, s1: Seq<Tunnel>, s2: Seq<Tunnel>)
    requires
        stable_sorted_by_key(input, s1),
        stable_sorted_by_key(input, s2),
    ensures
        s1 == s2,
{
    assert forall|k: Seq<char>| #[trigger] tunnels_with_key(s1, k) == tunnels_with_key(s2, k) by {
        assert(tunnels_with_key(s1, k) == tunnels_with_key(input, k));
        assert(tunnels_with_key(s2, k) == tunnels_with_key(input, k));
    }
    lemma_sorted_agreeing_equal(s1, s2);
}

/// No two of the tunnels share a key.
pub open spec fn keys_distinct(s: Seq<Tunnel>) -> bool {
    forall|i: int, j: int|
        #![trigger s[i], s[j]]
        0 <= i < s.len() && 0 <= j < s.len() && i != j ==> tunnel_key(s[i]) != tunnel_key(s[j])
}

/// Where keys are distinct, at most one tunnel has a given key.
proof fn lemma_distinct_keys_filter_short(s: Seq<Tunnel>, k: Seq<char>)
    requires
        keys_distinct(s),
    ensures
        tunnels_with_key(s, k).len() <= 1,
{
    let p = |t: Tunnel| tunnel_key(t) == k;
    let f = tunnels_with_key(s, k);
    assert(s.no_duplicates());
    s.lemma_multiset_has_no_duplicates();
    assert forall|x: Tunnel| f.to_multiset().contains(x) implies f.to_multiset().count(x) == 1 by {
        lemma_filter_count(s, p, x);
    }
    f.lemma_multiset_has_no_duplicates_conv();
    if f.len() >= 2 {
        broadcast use vstd::seq_lib::group_filter_ensures;
        assert(p(f[0]) && p(f[1]));
        assert(f.contains(f[0]) && f.contains(f[1]));
        s.lemma_filter_contains_rev(p, f[0]);
        s.lemma_filter_contains_rev(p, f[1]);
        let i = choose|i: int| 0 <= i < s.len() && s[i] == f[0];
        let j = choose|j: int| 0 <= j < s.len() && s[j] == f[1];
        assert(f[0] != f[1]);
        assert(i != j);
        assert(tunnel_key(s[i]) != tunnel_key(s[j]));
    }
}

/// Where no two tunnels share a key, the order of the proxies does not depend
/// on the order in which the cluster lists the tunnels: the stable sorts of
/// two listings of the same tunnels are equal.
pub proof fn law_order_independent_of_listing(
    in1: Seq<Tunnel>,
    in2: Seq<Tunnel>,
    s1: Seq<Tunnel>,
    s2: Seq<Tunnel>,
)
    requires
        in1.to_multiset() == in2.to_multiset(),
        keys_distinct(in1),
        stable_sorted_by_key(in1, s1),
        stable_sorted_by_key(in2, s2),
    ensures
        s1 == s2,
{
    assert forall|k: Seq<char>| #[trigger] tunnels_with_key(s1, k) == tunnels_with_key(s2, k) by {
        let p = |t: Tunnel| tunnel_key(t) == k;
        let f1 = tunnels_with_key(in1, k);
        let f2 = tunnels_with_key(in2, k);
        assert(tunnels_with_key(s1, k) == f1);
        assert(tunnels_with_key(s2, k) == f2);
        assert forall|x: Tunnel| f1.to_multiset().count(x) == f2.to_multiset().count(x) by {
            lemma_filter_count(in1, p, x);
            lemma_filter_count(in2, p, x);
        }
        assert(f1.to_multiset() =~= f2.to_multiset());
        assert(f1.to_multiset().len() == f1.len());
        assert(f2.to_multiset().len() == f2.len());
        lemma_distinct_keys_filter_short(in1, k);
        if f1.len() == 1 {
            assert(f1.contains(f1[0]));
            assert(f2.to_multiset().count(f1[0]) > 0);
            assert(f2.contains(f1[0]));
            assert(f1 =~= f2);
        } else {
            assert(f1 =~= f2);
        }
    }
    lemma_sorted_agreeing_equal(s1, s2);
}

/// Filtering keeps the keys distinct.
proof fn lemma_filter_keeps_distinct_keys(s: Seq<Tunnel>, p: spec_fn(Tunnel) -> bool)
    requires
        keys_distinct(s),
    ensures
        keys_distinct(s.filter(p)),
{
    let f = s.filter(p);
    assert(s.no_duplicates());
    s.lemma_multiset_has_no_duplicates();
    assert forall|x: Tunnel| f.to_multiset().contains(x) implies f.to_multiset().count(x) == 1 by {
        lemma_filter_count(s, p, x);
    }
    f.lemma_multiset_has_no_duplicates_conv();
    assert forall|a: int, b: int| 0 <= a < f.len() && 0 <= b < f.len() && a != b implies tunnel_key(
        #[trigger] f[a],
    ) != tunnel_key(#[trigger] f[b]) by {
        assert(f.contains(f[a]) && f.contains(f[b]));
        s.lemma_filter_contains_rev(p, f[a]);
        s.lemma_filter_contains_rev(p, f[b]);
        let i = choose|i: int| 0 <= i < s.len() && s[i] == f[a];
        let j = choose|j: int| 0 <= j < s.len() && s[j] == f[b];
        assert(f[a] != f[b]);
        assert(i != j);
    }
}

/// Where no two tunnels share a key, the proxies of a client do not depend on
/// the order in which the cluster lists the tunnels, and so neither do its
/// rendered configuration and its hash.
pub proof fn law_proxies_independent_of_listing(
    client: Client,
    in1: Seq<Tunnel>,
    in2: Seq<Tunnel>,
    p1: Seq<FrpClientProxyView>,
    p2: Seq<FrpClientProxyView>,
)
    requires
        in1.to_multiset() == in2.to_multiset(),
        keys_distinct(in1),
        proxies_of_client(client, in1, p1),
        proxies_of_client(client, in2, p2),
    ensures
        p1 == p2,
{
    let f1 = client_tunnels(client, in1);
    let f2 = client_tunnels(client, in2);
    let s1 = choose|s: Seq<Tunnel>|
        #![trigger stable_sorted_by_key(f1, s)]
        stable_sorted_by_key(f1, s) && p1 == s.map_values(|t: Tunnel| proxy_of(t));
    let s2 = choose|s: Seq<Tunnel>|
        #![trigger stable_sorted_by_key(f2, s)]
        stable_sorted_by_key(f2, s) && p2 == s.map_values(|t: Tunnel| proxy_of(t));
    let p = |t: Tunnel| crate::frp::references_client(t, client.metadata@.name_any(), crate::v1alpha1::namespace_or_empty(client.metadata@));
    assert(f1 == in1.filter(p));
    assert(f2 == in2.filter(p));
    assert forall|x: Tunnel| f1.to_multiset().count(x) == f2.to_multiset().count(x) by {
        lemma_filter_count(in1, p, x);
        lemma_filter_count(in2, p, x);
    }
    assert(f1.to_multiset() =~= f2.to_multiset());
    lemma_filter_keeps_distinct_keys(in1, p);
    law_order_independent_of_listing(f1, f2, s1, s2);
}

/// The proxies of a client are exactly its tunnels, each once: there is one
/// proxy per tunnel that refers to the client, and each proxy is the proxy of
/// such a tunnel.
pub proof fn law_one_proxy_per_client_tunnel(client: Client, tunnels: Seq<Tunnel>, proxies: Seq<FrpClientProxyView>)
    requires
        proxies_of_client(client, tunnels, proxies),
    ensures
        proxies.len() == client_tunnels(client, tunnels).len(),
        forall|i: int|
            0 <= i < proxies.len() ==> exists|t: Tunnel|
                client_tunnels(client, tunnels).contains(t) && #[trigger] proxies[i] == proxy_of(t),
        forall|t: Tunnel|
            #[trigger] client_tunnels(client, tunnels).contains(t) ==> proxies.contains(proxy_of(t)),
{
    let f = client_tunnels(client, tunnels);
    let s = choose|s: Seq<Tunnel>|
        #![trigger stable_sorted_by_key(f, s)]
        stable_sorted_by_key(f, s) && proxies == s.map_values(|t: Tunnel| proxy_of(t));
    law_sorted_tunnels_are_a_permutation(f, s);
    assert forall|i: int| 0 <= i < proxies.len() implies exists|t: Tunnel|
        f.contains(t) && #[trigger] proxies[i] == proxy_of(t) by {
        assert(s.contains(s[i]));
        assert(s.to_multiset().count(s[i]) > 0);
        assert(f.to_multiset().count(s[i]) > 0);
        assert(f.contains(s[i]));
        assert(proxies[i] == proxy_of(s[i]));
    }
    assert forall|t: Tunnel| #[trigger] f.contains(t) implies proxies.contains(proxy_of(t)) by {
        assert(f.to_multiset().count(t) > 0);
        assert(s.to_multiset().count(t) > 0);
        assert(s.contains(t));
        let i = choose|i: int| 0 <= i < s.len() && s[i] == t;
        assert(proxies[i] == proxy_of(t));
    }
}

} // verus!
