//! The configuration of an FRP client (`frpc`), resolved from the custom resources.
use crate::k8s::{Secret, SecretView};
use crate::v1alpha1::{namespace_or_empty, ClientAuthMethod, ClientAuthSpec, Client, Tunnel, TunnelType};
use itertools::Itertools;
use vstd::prelude::*;
use vstd::utf8::{decode_utf8, encode_utf8, valid_utf8};

verus! {

/// How `frpc` authenticates against its server.
#[derive(Clone, Copy, Debug, PartialEq, Eq, Structural)]
pub enum FrpClientAuthMethod {
    Token,
}

/// The `auth` table of the `frpc` configuration.
pub struct FrpClientAuthConfig {
    pub method: FrpClientAuthMethod,
    pub token: String,
}

/// The transport protocol of an `frpc` proxy.
#[derive(Clone, Copy, Debug, PartialEq, Eq, Structural)]
pub enum FrpClientProxyType {
    Tcp,
    Udp,
}

/// One entry of the `proxies` list of the `frpc` configuration.
pub struct FrpClientProxy {
    pub name: String,
    pub type_: FrpClientProxyType,
    pub local_ip: String,
    pub local_port: u16,
    pub remote_port: u16,
}

/// The whole `frpc` configuration of one `Client`.
pub struct FrpClientConfig {
    pub server_address: String,
    pub server_port: u16,
    pub auth: FrpClientAuthConfig,
    pub proxies: Vec<FrpClientProxy>,
}

pub struct FrpClientProxyView {
    pub name: Seq<char>,
    pub type_: FrpClientProxyType,
    pub local_ip: Seq<char>,
    pub local_port: u16,
    pub remote_port: u16,
}

impl View for FrpClientProxy {
    type V = FrpClientProxyView;

    open spec fn view(&self) -> FrpClientProxyView {
        FrpClientProxyView {
            name: self.name@,
            type_: self.type_,
            local_ip: self.local_ip@,
            local_port: self.local_port,
            remote_port: self.remote_port,
        }
    }
}

pub open spec fn auth_method_of(m: ClientAuthMethod) -> FrpClientAuthMethod {
    match m {
        ClientAuthMethod::Token => FrpClientAuthMethod::Token,
    }
}

pub open spec fn proxy_type_of(t: TunnelType) -> FrpClientProxyType {
    match t {
        TunnelType::Tcp => FrpClientProxyType::Tcp,
        TunnelType::Udp => FrpClientProxyType::Udp,
    }
}

/// The proxy that a tunnel becomes.
pub open spec fn proxy_of(t: Tunnel) -> FrpClientProxyView {
    FrpClientProxyView {
        name: t.metadata@.name_any(),
        type_: proxy_type_of(t.spec.type_),
        local_ip: t.spec.local_address@,
        local_port: t.spec.local_port,
        remote_port: t.spec.remote_port,
    }
}

/// The secret holds, under `key`, bytes that are valid UTF-8.
pub open spec fn token_available(secret: SecretView, key: Seq<char>) -> bool {
    &&& secret.data is Some
    &&& secret.data->0.contains_key(key)
    &&& valid_utf8(secret.data->0[key])
}

/// The text that the secret holds under `key`.
pub open spec fn secret_token(secret: SecretView, key: Seq<char>) -> Seq<char> {
    decode_utf8(secret.data->0[key])
}

/// The tunnel refers to the client of this name in this namespace.
pub open spec fn references_client(t: Tunnel, name: Seq<char>, namespace: Seq<char>) -> bool {
    t.spec.client_ref.name@ == name && t.spec.client_ref.namespace@ == namespace
}

/// The tunnels that refer to the client, in their order.
pub open spec fn tunnels_of_client(tunnels: Seq<Tunnel>, name: Seq<char>, namespace: Seq<char>) -> Seq<Tunnel> {
    tunnels.filter(|t: Tunnel| references_client(t, name, namespace))
}

/// The key by which the proxies are ordered: `namespace-name` of the tunnel.
pub open spec fn tunnel_key(t: Tunnel) -> Seq<char> {
    namespace_or_empty(t.metadata@) + "-"@ + t.metadata@.name_any()
}

/// Lexicographic order on byte strings, the order of `String`.
pub open spec fn bytes_le(a: Seq<u8>, b: Seq<u8>) -> bool
    decreases a.len(),
{
    if a.len() == 0 {
        true
    } else if b.len() == 0 {
        false
    } else if a[0] != b[0] {
        a[0] < b[0]
    } else {
        bytes_le(a.drop_first(), b.drop_first())
    }
}

/// The tunnels come in ascending order of their keys, compared as UTF-8 strings.
pub open spec fn tunnels_key_sorted(s: Seq<Tunnel>) -> bool {
    forall|i: int, j: int|
        0 <= i < j < s.len() ==> bytes_le(encode_utf8(tunnel_key(#[trigger] s[i])), encode_utf8(tunnel_key(#[trigger] s[j])))
}

/// The tunnels of key `k`, in their order.
pub open spec fn tunnels_with_key(s: Seq<Tunnel>, k: Seq<char>) -> Seq<Tunnel> {
    s.filter(|t: Tunnel| tunnel_key(t) == k)
}

/// For each key, the tunnels of that key come in the same order in both sequences.
pub open spec fn same_order_per_key(a: Seq<Tunnel>, b: Seq<Tunnel>) -> bool {
    forall|k: Seq<char>| #[trigger] tunnels_with_key(a, k) == tunnels_with_key(b, k)
}

/// `sorted` is `input` sorted stably by the tunnel key.
pub open spec fn stable_sorted_by_key(input: Seq<Tunnel>, sorted: Seq<Tunnel>) -> bool {
    tunnels_key_sorted(sorted) && same_order_per_key(sorted, input)
}

/// Decodes UTF-8.
/// Calls `String::from_utf8`, which succeeds exactly on valid UTF-8 and then
/// holds the decoded characters.
#[verifier::external_body]
fn string_from_utf8(bytes: &[u8]) -> (res: Option<String>)
    ensures
        res is Some <==> valid_utf8(bytes@),
        res matches Some(s) ==> s@ == decode_utf8(bytes@),
{
    String::from_utf8(bytes.to_vec()).ok()
}

/// The key by which the proxies of a client are ordered.
pub fn tunnel_sort_key(t: &Tunnel) -> (key: String)
    ensures
        key@ == tunnel_key(*t),
{
    let ns = match t.namespace() {
        Some(ns) => ns,
        None => String::new(),
    };
    let name = t.name_any();
    ns.concat("-").concat(name.as_str())
}

/// Sorts the tunnels by `tunnel_sort_key`.
/// Calls `Itertools::sorted_by_key`, which sorts stably (through
/// `slice::sort_by_key`) in ascending order of the key, and `String` orders
/// lexicographically by bytes.
#[verifier::external_body]
fn sort_tunnels_by_key(tunnels: Vec<Tunnel>) -> (res: Vec<Tunnel>)
    ensures
        stable_sorted_by_key(tunnels@, res@),
{
    tunnels.into_iter().sorted_by_key(|t| tunnel_sort_key(t)).collect()
}

impl FrpClientAuthMethod {
    /// The `frpc` method of an authentication method of the custom resource.
    pub fn resolve(value: ClientAuthMethod) -> (res: Self)
        ensures
            res == auth_method_of(value),
    {
        match value {
            ClientAuthMethod::Token => FrpClientAuthMethod::Token,
        }
    }
}

impl FrpClientProxyType {
    /// The `frpc` proxy type of a tunnel type.
    pub fn resolve(value: TunnelType) -> (res: Self)
        ensures
            res == proxy_type_of(value),
            value == TunnelType::Tcp ==> res == FrpClientProxyType::Tcp,
            value == TunnelType::Udp ==> res == FrpClientProxyType::Udp,
    {
        match value {
            TunnelType::Tcp => FrpClientProxyType::Tcp,
            TunnelType::Udp => FrpClientProxyType::Udp,
        }
    }
}

impl FrpClientAuthConfig {
    /// The `auth` table: the method, and the token read from `secret`, the
    /// Secret that `value.token_secret_ref` names.
    pub fn resolve(value: ClientAuthSpec, secret: &Secret) -> (res: Self)
        requires
            token_available(secret@, value.token_secret_ref.key@),
        ensures
            res.method == auth_method_of(value.method),
            res.token@ == secret_token(secret@, value.token_secret_ref.key@),
            encode_utf8(res.token@) == secret@.data->0[value.token_secret_ref.key@],
    {
        let data = secret.data.as_ref().unwrap();
        let bytes = data.get(&value.token_secret_ref.key).unwrap();
        let token = string_from_utf8(bytes.as_slice()).unwrap();
        proof {
            vstd::utf8::decode_utf8_encode_utf8(bytes@);
        }
        FrpClientAuthConfig { method: FrpClientAuthMethod::resolve(value.method), token }
    }
}

impl FrpClientProxy {
    /// The proxy that exposes a tunnel.
    pub fn resolve(value: Tunnel) -> (res: Self)
        ensures
            res@ == proxy_of(value),
            res.name@ == value.metadata@.name_any(),
            value.spec.type_ == TunnelType::Tcp ==> res.type_ == FrpClientProxyType::Tcp,
            value.spec.type_ == TunnelType::Udp ==> res.type_ == FrpClientProxyType::Udp,
            res.local_ip@ == value.spec.local_address@,
            res.local_port == value.spec.local_port,
            res.remote_port == value.spec.remote_port,
    {
        let name = value.name_any();
        FrpClientProxy {
            name,
            type_: FrpClientProxyType::resolve(value.spec.type_),
            local_ip: value.spec.local_address,
            local_port: value.spec.local_port,
            remote_port: value.spec.remote_port,
        }
    }
}

/// The tunnels that refer to the client of this name in this namespace, in their order.
pub fn select_tunnels(tunnels: Vec<Tunnel>, name: &String, namespace: &String) -> (res: Vec<Tunnel>)
    ensures
        res@ == tunnels_of_client(tunnels@, name@, namespace@),
{
    let ghost input = tunnels@;
    let ghost pred = |t: Tunnel| references_client(t, name@, namespace@);
    let mut res: Vec<Tunnel> = Vec::new();
    for t in it: tunnels.into_iter()
        invariant
            it.seq() == input,
            pred == (|t: Tunnel| references_client(t, name@, namespace@)),
            res@ == input.take(it.index()).filter(pred),
    {
        let ghost idx = it.index();
        let ghost tg = t;
        assert(tg == input[idx]);
        if t.spec.client_ref.name == *name && t.spec.client_ref.namespace == *namespace {
            res.push(t);
        }
        proof {
            reveal_with_fuel(Seq::<_>::filter, 1);
            assert(input.take(idx + 1).drop_last() =~= input.take(idx));
            assert(input.take(idx + 1).last() == tg);
            assert(res@ == input.take(idx + 1).filter(pred));
        }
    }
    proof {
        assert(input.take(input.len() as int) =~= input);
    }
    res
}

impl FrpClientConfig {
    /// The `frpc` configuration of `value`: its server, the authentication
    /// read from `auth_secret` (the Secret that the client's auth spec
    /// names), and one proxy for each of `tunnels` that refers to the
    /// client, ordered by the tunnels' `namespace-name`.
    pub fn resolve(value: Client, tunnels: Vec<Tunnel>, auth_secret: &Secret) -> (res: Self)
        requires
            token_available(auth_secret@, value.spec.auth.token_secret_ref.key@),
        ensures
            res.server_address@ == value.spec.server_addr@,
            res.server_port == value.spec.server_port,
            res.auth.method == auth_method_of(value.spec.auth.method),
            res.auth.token@ == secret_token(auth_secret@, value.spec.auth.token_secret_ref.key@),
            encode_utf8(res.auth.token@) == auth_secret@.data->0[value.spec.auth.token_secret_ref.key@],
            proxies_of_client(value, tunnels@, res.proxies@.map_values(|p: FrpClientProxy| p@)),
    {
        let client_name = value.name_any();
        let client_namespace = match value.namespace() {
            Some(ns) => ns,
            None => String::new(),
        };
        let selected = select_tunnels(tunnels, &client_name, &client_namespace);
        let sorted = sort_tunnels_by_key(selected);
        let ghost sorted_seq = sorted@;
        assert(stable_sorted_by_key(client_tunnels(value, tunnels@), sorted_seq));
        let mut proxies: Vec<FrpClientProxy> = Vec::new();
        for t in it: sorted.into_iter()
            invariant
                it.seq() == sorted_seq,
                proxies@.len() == it.index(),
                forall|j: int| 0 <= j < it.index() ==> (#[trigger] proxies@[j])@ == proxy_of(sorted_seq[j]),
        {
            proxies.push(FrpClientProxy::resolve(t));
        }
        proof {
            assert(proxies@.map_values(|p: FrpClientProxy| p@) =~= sorted_seq.map_values(|t: Tunnel| proxy_of(t)));
        }
        let auth = FrpClientAuthConfig::resolve(value.spec.auth, auth_secret);
        FrpClientConfig {
            server_address: value.spec.server_addr,
            server_port: value.spec.server_port,
            auth,
            proxies,
        }
    }
}

/// `proxies` are the proxies of the tunnels of `client` among `tunnels`,
/// in the stable order of the tunnels' keys.
pub open spec fn proxies_of_client(client: Client, tunnels: Seq<Tunnel>, proxies: Seq<FrpClientProxyView>) -> bool {
    exists|s: Seq<Tunnel>|
        #![trigger stable_sorted_by_key(client_tunnels(client, tunnels), s)]
        stable_sorted_by_key(client_tunnels(client, tunnels), s) && proxies == s.map_values(|t: Tunnel| proxy_of(t))
}

/// The tunnels that refer to `client`: to its name, and to its namespace or,
/// where it has none, the empty namespace.
pub open spec fn client_tunnels(client: Client, tunnels: Seq<Tunnel>) -> Seq<Tunnel> {
    tunnels_of_client(tunnels, client.metadata@.name_any(), namespace_or_empty(client.metadata@))
}

} // verus!
