use frp_operator::controller::{ClientReconciliation, ReconcileEvent, ReconcilePhase, ReconcileRequest};
use frp_operator::deployment::ManagedClientDeployment;
use frp_operator::frp::{
    tunnel_sort_key, FrpClientAuthConfig, FrpClientAuthMethod, FrpClientConfig, FrpClientProxy,
    FrpClientProxyType,
};
use frp_operator::hash::{config_hash, to_hex_lower};
use frp_operator::k8s::{Deployment, ObjectMeta, Secret};
use frp_operator::legacy::FrpClientSpec;
use frp_operator::resources::{
    ManagedClientConfigSecret, ANNOTATION_CONFIG_HASH, KEY_FRPC_CONFIG, LABEL_CLIENT,
};
use frp_operator::strmap::StrMap;
use frp_operator::v1alpha1::{
    watched_client_of, Client, ClientAuthMethod, ClientAuthSpec, ClientRef, ClientSpec,
    SecretKeyRef, Tunnel, TunnelSpec, TunnelType,
};

const EMPTY_BLAKE3: &str = "af1349b9f5f9a1a6a0404dea36dcc9499bcb25c9adc112b7cc9a93cae41f3262";

fn meta(name: Option<&str>, namespace: Option<&str>) -> ObjectMeta {
    ObjectMeta {
        name: name.map(|s| s.to_string()),
        generate_name: None,
        namespace: namespace.map(|s| s.to_string()),
        labels: None,
        annotations: None,
    }
}

fn client(name: &str, namespace: Option<&str>) -> Client {
    Client {
        metadata: meta(Some(name), namespace),
        spec: ClientSpec {
            server_addr: "frps.example.com".to_string(),
            server_port: 7000,
            auth: ClientAuthSpec {
                method: ClientAuthMethod::Token,
                token_secret_ref: SecretKeyRef { name: "frp-token".to_string(), key: "token".to_string() },
            },
            metadatas: StrMap::new(),
        },
    }
}

fn tunnel(name: &str, namespace: &str, client_name: &str, client_namespace: &str, port: u16) -> Tunnel {
    Tunnel {
        metadata: meta(Some(name), Some(namespace)),
        spec: TunnelSpec {
            type_: TunnelType::Tcp,
            local_address: format!("{}.svc", name),
            local_port: port,
            remote_port: port + 1000,
            client_ref: ClientRef { namespace: client_namespace.to_string(), name: client_name.to_string() },
        },
    }
}

fn token_secret(key: &str, value: &[u8]) -> Secret {
    let mut data = StrMap::new();
    data.insert(key.to_string(), value.to_vec());
    Secret { metadata: meta(Some("frp-token"), Some("default")), type_: None, data: Some(data), string_data: None }
}

fn get<'a>(m: &'a StrMap<String>, key: &str) -> Option<&'a String> {
    m.get(&key.to_string())
}

fn proxy_names(config: &FrpClientConfig) -> Vec<String> {
    config.proxies.iter().map(|p| p.name.clone()).collect()
}

#[test]
fn strmap_insert_replaces_and_get_reads_back() {
    let mut m: StrMap<String> = StrMap::new();
    assert!(m.get(&"a".to_string()).is_none());
    m.insert("a".to_string(), "1".to_string());
    m.insert("b".to_string(), "2".to_string());
    m.insert("a".to_string(), "3".to_string());
    assert_eq!(get(&m, "a").map(|s| s.as_str()), Some("3"));
    assert_eq!(get(&m, "b").map(|s| s.as_str()), Some("2"));
    assert_eq!(m.entries().len(), 2);
}

#[test]
fn name_any_prefers_name_then_generate_name() {
    let mut m = meta(Some("n"), None);
    m.generate_name = Some("g-".to_string());
    assert_eq!(m.name_any(), "n");
    m.name = None;
    assert_eq!(m.name_any(), "g-");
    m.generate_name = None;
    assert_eq!(m.name_any(), "");
}

#[test]
fn tunnel_change_triggers_its_client() {
    let t = tunnel("web", "apps", "edge", "infra", 80);
    let r = watched_client_of(&t);
    assert_eq!(r.name, "edge");
    assert_eq!(r.namespace, "infra");
}

#[test]
fn auth_method_and_proxy_type_map_one_to_one() {
    assert_eq!(FrpClientAuthMethod::resolve(ClientAuthMethod::Token), FrpClientAuthMethod::Token);
    assert_eq!(FrpClientProxyType::resolve(TunnelType::Tcp), FrpClientProxyType::Tcp);
    assert_eq!(FrpClientProxyType::resolve(TunnelType::Udp), FrpClientProxyType::Udp);
    assert_eq!(TunnelType::default(), TunnelType::Tcp);
    assert_eq!(ClientAuthMethod::default(), ClientAuthMethod::Token);
}

#[test]
fn proxy_takes_tunnel_name_address_and_ports() {
    let mut t = tunnel("dns", "apps", "edge", "infra", 53);
    t.spec.type_ = TunnelType::Udp;
    let p = FrpClientProxy::resolve(t);
    assert_eq!(p.name, "dns");
    assert_eq!(p.type_, FrpClientProxyType::Udp);
    assert_eq!(p.local_ip, "dns.svc");
    assert_eq!(p.local_port, 53);
    assert_eq!(p.remote_port, 1053);
}

#[test]
fn auth_token_is_decoded_from_the_secret() {
    let spec = client("edge", Some("infra")).spec.auth;
    let secret = token_secret("token", "tökén-123".as_bytes());
    let auth = FrpClientAuthConfig::resolve(spec, &secret);
    assert_eq!(auth.method, FrpClientAuthMethod::Token);
    assert_eq!(auth.token, "tökén-123");
}

#[test]
fn config_keeps_only_tunnels_of_the_client_sorted_by_key() {
    let tunnels = vec![
        tunnel("b", "infra", "edge", "infra", 2),
        tunnel("other", "infra", "core", "infra", 9),
        tunnel("a", "infra", "edge", "infra", 1),
        tunnel("wrong-ns", "infra", "edge", "elsewhere", 8),
        tunnel("Z", "infra", "edge", "infra", 3),
    ];
    let secret = token_secret("token", b"s3cret");
    let config = FrpClientConfig::resolve(client("edge", Some("infra")), tunnels, &secret);
    assert_eq!(config.server_address, "frps.example.com");
    assert_eq!(config.server_port, 7000);
    assert_eq!(config.auth.token, "s3cret");
    // Byte order: uppercase letters come before lowercase ones.
    assert_eq!(proxy_names(&config), vec!["Z", "a", "b"]);
    assert_eq!(config.proxies[1].local_port, 1);
}

#[test]
fn config_of_client_without_namespace_matches_empty_namespace() {
    let tunnels = vec![tunnel("a", "x", "edge", "", 1), tunnel("b", "x", "edge", "infra", 2)];
    let secret = token_secret("token", b"t");
    let config = FrpClientConfig::resolve(client("edge", None), tunnels, &secret);
    assert_eq!(proxy_names(&config), vec!["a"]);
}

#[test]
fn proxies_are_ordered_by_tunnel_namespace_then_name() {
    let tunnels = vec![
        tunnel("a", "zeta", "edge", "infra", 1),
        tunnel("b", "alpha", "edge", "infra", 2),
    ];
    let secret = token_secret("token", b"t");
    let config = FrpClientConfig::resolve(client("edge", Some("infra")), tunnels, &secret);
    assert_eq!(proxy_names(&config), vec!["b", "a"]);
    assert_eq!(tunnel_sort_key(&tunnel("a", "zeta", "edge", "infra", 1)), "zeta-a");
}

#[test]
fn proxies_do_not_depend_on_listing_order() {
    let names = ["c", "a", "d", "b"];
    let forward: Vec<Tunnel> = names.iter().map(|n| tunnel(n, "infra", "edge", "infra", 1)).collect();
    let backward: Vec<Tunnel> = names.iter().rev().map(|n| tunnel(n, "infra", "edge", "infra", 1)).collect();
    let secret = token_secret("token", b"t");
    let c1 = FrpClientConfig::resolve(client("edge", Some("infra")), forward, &secret);
    let c2 = FrpClientConfig::resolve(client("edge", Some("infra")), backward, &secret);
    assert_eq!(proxy_names(&c1), vec!["a", "b", "c", "d"]);
    assert_eq!(proxy_names(&c1), proxy_names(&c2));
}

#[test]
fn tunnels_with_equal_keys_keep_their_order() {
    let mut first = tunnel("same", "infra", "edge", "infra", 1);
    let mut second = tunnel("same", "infra", "edge", "infra", 2);
    first.spec.local_address = "first".to_string();
    second.spec.local_address = "second".to_string();
    let secret = token_secret("token", b"t");
    let config = FrpClientConfig::resolve(client("edge", Some("infra")), vec![first, second], &secret);
    assert_eq!(config.proxies[0].local_ip, "first");
    assert_eq!(config.proxies[1].local_ip, "second");
}

#[test]
fn hex_is_lowercase_two_digits_per_byte() {
    assert_eq!(to_hex_lower(&vec![0x00, 0xab, 0x0f, 0xff]), "00ab0fff");
    assert_eq!(to_hex_lower(&vec![]), "");
}

#[test]
fn config_hash_is_blake3_hex() {
    assert_eq!(config_hash(&String::new()), EMPTY_BLAKE3);
    let h = config_hash(&"serverAddr = \"a\"\n".to_string());
    assert_eq!(h.len(), 64);
    assert!(h.chars().all(|c| "0123456789abcdef".contains(c)));
    assert_ne!(h, EMPTY_BLAKE3);
    assert_eq!(h, config_hash(&"serverAddr = \"a\"\n".to_string()));
}

#[test]
fn secret_holds_rendered_config_and_its_hash() {
    let c = client("edge", Some("infra"));
    let secret = ManagedClientConfigSecret::from_rendered_config(&c, Some("serverPort = 7000\n".to_string()));
    assert_eq!(secret.name().map(|s| s.as_str()), Some("edge-frpc-config"));
    let expected_hash = config_hash(&"serverPort = 7000\n".to_string());
    assert_eq!(secret.config_hash(), Some(&expected_hash));
    let s: Secret = secret.into();
    assert_eq!(s.metadata.namespace.as_deref(), Some("infra"));
    assert_eq!(s.type_.as_deref(), Some("Opaque"));
    let labels = s.metadata.labels.as_ref().unwrap();
    assert_eq!(get(labels, "app.kubernetes.io/name").map(|s| s.as_str()), Some("frpc"));
    assert_eq!(get(labels, "app.kubernetes.io/managed-by").map(|s| s.as_str()), Some("frp-operator"));
    assert_eq!(get(labels, LABEL_CLIENT).map(|s| s.as_str()), Some("edge"));
    assert_eq!(labels.entries().len(), 3);
    let data = s.string_data.as_ref().unwrap();
    assert_eq!(get(data, KEY_FRPC_CONFIG).map(|s| s.as_str()), Some("serverPort = 7000\n"));
    let annotations = s.metadata.annotations.as_ref().unwrap();
    assert_eq!(get(annotations, ANNOTATION_CONFIG_HASH), Some(&expected_hash));
    assert!(s.data.is_none());
}

#[test]
fn secret_of_unrendered_config_is_empty() {
    let c = client("edge", Some("infra"));
    let secret = ManagedClientConfigSecret::from_rendered_config(&c, None);
    assert_eq!(secret.name().map(|s| s.as_str()), Some("edge-frpc-config"));
    assert!(secret.config_hash().is_none());
    let s: Secret = secret.into();
    assert!(s.string_data.is_none());
    assert!(s.metadata.annotations.is_none());
}

#[test]
fn deployment_runs_frpc_with_the_secret() {
    let c = client("edge", Some("infra"));
    let secret = ManagedClientConfigSecret::from_rendered_config(&c, Some("x".to_string()));
    let hash = secret.config_hash().unwrap().clone();
    let d = ManagedClientDeployment::from_client(&c, secret);
    assert_eq!(d.name().map(|s| s.as_str()), Some("edge-frpc"));
    assert_eq!(d.config_hash(), Some(&hash));
    let d: Deployment = d.into();
    assert_eq!(d.metadata.namespace.as_deref(), Some("infra"));
    let spec = d.spec.as_ref().unwrap();
    assert_eq!(spec.replicas, Some(1));
    for labels in [
        d.metadata.labels.as_ref().unwrap(),
        spec.selector.match_labels.as_ref().unwrap(),
        spec.template.metadata.as_ref().unwrap().labels.as_ref().unwrap(),
    ] {
        assert_eq!(labels.entries().len(), 3);
        assert_eq!(get(labels, LABEL_CLIENT).map(|s| s.as_str()), Some("edge"));
        assert_eq!(get(labels, "app.kubernetes.io/name").map(|s| s.as_str()), Some("frpc"));
    }
    let tmeta = spec.template.metadata.as_ref().unwrap();
    assert_eq!(get(tmeta.annotations.as_ref().unwrap(), ANNOTATION_CONFIG_HASH), Some(&hash));
    let pod = spec.template.spec.as_ref().unwrap();
    assert_eq!(pod.containers.len(), 1);
    assert_eq!(pod.containers[0].name, "frpc");
    assert_eq!(pod.containers[0].image.as_deref(), Some("snowdreamtech/frpc"));
    let mount = &pod.containers[0].volume_mounts.as_ref().unwrap()[0];
    assert_eq!(mount.name, "config");
    assert_eq!(mount.mount_path, "/etc/frp/frpc.toml");
    assert_eq!(mount.sub_path.as_deref(), Some("frpc.toml"));
    assert_eq!(mount.read_only, Some(true));
    let volumes = pod.volumes.as_ref().unwrap();
    assert_eq!(volumes.len(), 1);
    assert_eq!(volumes[0].name, "config");
    assert_eq!(volumes[0].secret.as_ref().unwrap().secret_name.as_deref(), Some("edge-frpc-config"));
}

#[test]
fn deployment_of_unrendered_config_carries_empty_hash() {
    let c = client("edge", None);
    let secret = ManagedClientConfigSecret::from_rendered_config(&c, None);
    let d = ManagedClientDeployment::from_client(&c, secret);
    assert_eq!(d.config_hash().map(|s| s.as_str()), Some(""));
    let d: Deployment = d.into();
    assert!(d.metadata.namespace.is_none());
}

#[test]
fn secret_and_deployment_names_differ() {
    let c = client("edge", Some("infra"));
    let secret = ManagedClientConfigSecret::from_rendered_config(&c, Some("x".to_string()));
    let secret_name = secret.name().unwrap().clone();
    let d = ManagedClientDeployment::from_client(&c, secret);
    assert_ne!(d.name().unwrap(), &secret_name);
}

fn existing_secret_with_hash(hash: Option<&str>) -> ManagedClientConfigSecret {
    let mut m = meta(Some("edge-frpc-config"), Some("infra"));
    if let Some(h) = hash {
        let mut a = StrMap::new();
        a.insert(ANNOTATION_CONFIG_HASH.to_string(), h.to_string());
        m.annotations = Some(a);
    }
    ManagedClientConfigSecret::from(Secret { metadata: m, type_: None, data: None, string_data: None })
}

#[test]
fn reconcile_creates_missing_objects() {
    let c = client("edge", Some("infra"));
    let secret = ManagedClientConfigSecret::from_rendered_config(&c, Some("x".to_string()));
    let (state, request) = ClientReconciliation::start(c, secret);
    match request {
        ReconcileRequest::GetSecret { namespace, name } => {
            assert_eq!(namespace, "infra");
            assert_eq!(name, "edge-frpc-config");
        },
        _ => panic!("expected a lookup of the secret"),
    }
    let (state, request) = state.step(ReconcileEvent::ExistingSecret(None));
    assert!(matches!(request, ReconcileRequest::CreateSecret { ref namespace } if namespace == "infra"));
    assert_eq!(state.phase(), ReconcilePhase::AwaitSecretWritten);
    let (state, request) = state.step(ReconcileEvent::Written);
    assert!(matches!(request, ReconcileRequest::GetDeployment { ref namespace, ref name } if namespace == "infra" && name == "edge-frpc"));
    assert!(state.desired_secret().is_none());
    assert!(state.desired_deployment().is_some());
    let (state, request) = state.step(ReconcileEvent::ExistingDeployment(None));
    assert!(matches!(request, ReconcileRequest::CreateDeployment { .. }));
    let (state, request) = state.step(ReconcileEvent::Written);
    assert!(matches!(request, ReconcileRequest::AwaitChange));
    assert_eq!(state.phase(), ReconcilePhase::Done);
}

#[test]
fn reconcile_skips_up_to_date_secret() {
    let c = client("edge", Some("infra"));
    let secret = ManagedClientConfigSecret::from_rendered_config(&c, Some("x".to_string()));
    let hash = secret.config_hash().unwrap().clone();
    let (state, _) = ClientReconciliation::start(c, secret);
    let (state, request) = state.step(ReconcileEvent::ExistingSecret(Some(existing_secret_with_hash(Some(&hash)))));
    assert!(matches!(request, ReconcileRequest::GetDeployment { ref namespace, ref name } if namespace == "infra" && name == "edge-frpc"));
    assert_eq!(state.phase(), ReconcilePhase::AwaitExistingDeployment);
    assert_eq!(state.desired_deployment().unwrap().config_hash(), Some(&hash));
}

#[test]
fn reconcile_recreates_missing_deployment_behind_up_to_date_secret() {
    let c = client("edge", Some("infra"));
    let secret = ManagedClientConfigSecret::from_rendered_config(&c, Some("x".to_string()));
    let hash = secret.config_hash().unwrap().clone();
    let (state, _) = ClientReconciliation::start(c, secret);
    let (state, _) = state.step(ReconcileEvent::ExistingSecret(Some(existing_secret_with_hash(Some(&hash)))));
    let (state, request) = state.step(ReconcileEvent::ExistingDeployment(None));
    assert!(matches!(request, ReconcileRequest::CreateDeployment { ref namespace } if namespace == "infra"));
    let (state, request) = state.step(ReconcileEvent::Written);
    assert!(matches!(request, ReconcileRequest::AwaitChange));
    assert_eq!(state.phase(), ReconcilePhase::Done);
}

#[test]
fn reconcile_of_unchanged_cluster_writes_nothing() {
    let c = client("edge", Some("infra"));
    let secret = ManagedClientConfigSecret::from_rendered_config(&c, Some("x".to_string()));
    let hash = secret.config_hash().unwrap().clone();
    let current = ManagedClientDeployment::from_client(
        &client("edge", Some("infra")),
        ManagedClientConfigSecret::from_rendered_config(&client("edge", Some("infra")), Some("x".to_string())),
    );
    let (state, _) = ClientReconciliation::start(c, secret);
    let (state, request) = state.step(ReconcileEvent::ExistingSecret(Some(existing_secret_with_hash(Some(&hash)))));
    assert!(matches!(request, ReconcileRequest::GetDeployment { .. }));
    let (state, request) = state.step(ReconcileEvent::ExistingDeployment(Some(current)));
    assert!(matches!(request, ReconcileRequest::AwaitChange));
    assert_eq!(state.phase(), ReconcilePhase::Done);
}

#[test]
fn reconcile_patches_drifted_objects() {
    let c = client("edge", Some("infra"));
    let secret = ManagedClientConfigSecret::from_rendered_config(&c, Some("x".to_string()));
    let (state, _) = ClientReconciliation::start(c, secret);
    let (state, request) = state.step(ReconcileEvent::ExistingSecret(Some(existing_secret_with_hash(Some("old")))));
    assert!(matches!(request, ReconcileRequest::PatchSecret { ref name, .. } if name == "edge-frpc-config"));
    let (state, _) = state.step(ReconcileEvent::Written);
    let stale = ManagedClientDeployment::from_client(
        &client("edge", Some("infra")),
        existing_secret_with_hash(None),
    );
    let (state, request) = state.step(ReconcileEvent::ExistingDeployment(Some(stale)));
    assert!(matches!(request, ReconcileRequest::PatchDeployment { ref name, .. } if name == "edge-frpc"));
    let (state, request) = state.step(ReconcileEvent::Written);
    assert!(matches!(request, ReconcileRequest::AwaitChange));
    assert_eq!(state.phase(), ReconcilePhase::Done);
}

#[test]
fn reconcile_skips_up_to_date_deployment() {
    let c = client("edge", Some("infra"));
    let secret = ManagedClientConfigSecret::from_rendered_config(&c, Some("x".to_string()));
    let current = ManagedClientDeployment::from_client(
        &client("edge", Some("infra")),
        ManagedClientConfigSecret::from_rendered_config(&client("edge", Some("infra")), Some("x".to_string())),
    );
    let (state, _) = ClientReconciliation::start(c, secret);
    let (state, _) = state.step(ReconcileEvent::ExistingSecret(Some(existing_secret_with_hash(Some("old")))));
    let (state, _) = state.step(ReconcileEvent::Written);
    let (state, request) = state.step(ReconcileEvent::ExistingDeployment(Some(current)));
    assert!(matches!(request, ReconcileRequest::AwaitChange));
    assert_eq!(state.phase(), ReconcilePhase::Done);
}

#[test]
fn reconcile_treats_two_missing_hashes_as_equal() {
    let c = client("edge", Some("infra"));
    let secret = ManagedClientConfigSecret::from_rendered_config(&c, None);
    let (state, _) = ClientReconciliation::start(c, secret);
    let (state, request) = state.step(ReconcileEvent::ExistingSecret(Some(existing_secret_with_hash(None))));
    assert!(matches!(request, ReconcileRequest::GetDeployment { ref name, .. } if name == "edge-frpc"));
    assert_eq!(state.phase(), ReconcilePhase::AwaitExistingDeployment);
}

#[test]
fn reconcile_of_client_without_namespace_uses_empty_namespace() {
    let c = client("edge", None);
    let secret = ManagedClientConfigSecret::from_rendered_config(&c, None);
    let (_, request) = ClientReconciliation::start(c, secret);
    assert!(matches!(request, ReconcileRequest::GetSecret { ref namespace, .. } if namespace.is_empty()));
}

#[test]
fn legacy_spec_defaults_to_empty_strings() {
    let s = FrpClientSpec::default();
    assert!(s.name.is_empty() && s.server_addr.is_empty() && s.token.is_empty());
}
