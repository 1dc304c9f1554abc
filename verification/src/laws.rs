//! Properties of the operator as a whole, over the contracts of its parts.
use crate::controller::{
    config_hash_of_meta, event_fits, name_or_empty, reconcile_next, well_formed, EventView,
    ReconcilePhase, ReconciliationView, RequestView,
};
use crate::deployment::{desired_deployment, hash_or_empty, spec_or_empty, template_meta_or_empty};
use crate::k8s::map_or_empty;
use crate::frp::{
    proxy_of, references_client, secret_token, token_available, tunnels_of_client, FrpClientProxyType,
};
use crate::hash::{blake3_digest, config_hash_of, hex_digit, hex_lower};
use crate::k8s::{DeploymentView, ObjectMetaView, SecretView};
use crate::resources::{
    annotation, desired_secret, managed_labels, ANNOTATION_CONFIG_HASH, KEY_FRPC_CONFIG, LABEL_CLIENT,
};
use crate::v1alpha1::{watched_ref, Tunnel, TunnelType};
use vstd::utf8::encode_utf8;
use vstd::prelude::*;

verus! {

/// A change of a tunnel triggers the reconciliation of exactly the client
/// whose configuration the tunnel is part of: a tunnel is among the tunnels
/// of the client `name` in `namespace` if and only if it is one of the
/// listed tunnels and the client it triggers is `name` in `namespace`.
pub proof fn law_tunnel_triggers_the_client_it_configures(
    tunnels: Seq<Tunnel>,
    t: Tunnel,
    name: Seq<char>,
    namespace: Seq<char>,
)
    ensures
        tunnels_of_client(tunnels, name, namespace).contains(t) <==> (tunnels.contains(t) && watched_ref(t) == (name, namespace)),
{
    let pred = |x: Tunnel| references_client(x, name, namespace);
    broadcast use vstd::seq_lib::group_filter_ensures;
    if tunnels.contains(t) && watched_ref(t) == (name, namespace) {
        let i = choose|i: int| 0 <= i < tunnels.len() && tunnels[i] == t;
        assert(pred(tunnels[i]));
        tunnels.lemma_filter_contains(pred, i);
    }
    if tunnels_of_client(tunnels, name, namespace).contains(t) {
        let f = tunnels.filter(pred);
        let i = choose|i: int| 0 <= i < f.len() && f[i] == t;
        assert(pred(f[i]));
        tunnels.lemma_filter_contains_rev(pred, t);
    }
}

/// The Secret of a client whose configuration rendered holds that text under
/// `frpc.toml`, and its config-hash annotation is the hash of exactly the
/// text it holds.
pub proof fn law_secret_hash_is_hash_of_its_content(client: ObjectMetaView, rendered: Seq<char>)
    ensures
        ({
            let s = desired_secret(client, Some(rendered));
            &&& s.string_data == Some(Map::<Seq<char>, Seq<char>>::empty().insert(KEY_FRPC_CONFIG@, rendered))
            &&& annotation(s.metadata, ANNOTATION_CONFIG_HASH@) == Some(config_hash_of(s.string_data->0[KEY_FRPC_CONFIG@]))
        }),
{
}

/// The Secret of a client whose configuration failed to render holds no
/// configuration and no config hash.
pub proof fn law_unrendered_secret_is_empty(client: ObjectMetaView)
    ensures
        desired_secret(client, None).string_data is None,
        annotation(desired_secret(client, None).metadata, ANNOTATION_CONFIG_HASH@) is None,
{
}

/// The hash is written in lowercase hexadecimal, two digits per byte.
pub proof fn law_hex_shape(data: Seq<u8>)
    ensures
        hex_lower(data).len() == 2 * data.len(),
        forall|i: int| 0 <= i < hex_lower(data).len() ==> "0123456789abcdef"@.contains(#[trigger] hex_lower(data)[i]),
    decreases data.len(),
{
    reveal_strlit("0123456789abcdef");
    if data.len() > 0 {
        law_hex_shape(data.drop_last());
        let b = data.last() as int;
        assert(0 <= b / 16 < 16 && 0 <= b % 16 < 16);
        assert("0123456789abcdef"@[b / 16] == hex_digit(b / 16));
        assert("0123456789abcdef"@[b % 16] == hex_digit(b % 16));
        let prev = hex_lower(data.drop_last());
        assert forall|i: int| 0 <= i < hex_lower(data).len() implies "0123456789abcdef"@.contains(
            #[trigger] hex_lower(data)[i],
        ) by {
            if i < prev.len() {
                assert(hex_lower(data)[i] == prev[i]);
            } else if i == prev.len() {
                assert(hex_lower(data)[i] == "0123456789abcdef"@[b / 16]);
            } else {
                assert(hex_lower(data)[i] == "0123456789abcdef"@[b % 16]);
            }
        }
    }
}

/// The Deployment of a client runs one replica of `frpc`; it is named
/// `<client>-frpc` and lives in the client's namespace; it, its selector and
/// its pod template carry the same managed labels, so that the selector picks
/// the pods of the template; it and its pod template carry the config hash of
/// the Secret (the empty string where the Secret has none), so that a new
/// configuration rolls the pods; and its configuration volume takes its files
/// from that Secret.
pub proof fn law_deployment_shape(client: ObjectMetaView, secret: SecretView)
    ensures
        ({
            let d = desired_deployment(client, secret);
            let name = client.name_any();
            let hash = hash_or_empty(annotation(secret.metadata, ANNOTATION_CONFIG_HASH@));
            &&& d.metadata.name == Some(name + "-frpc"@)
            &&& d.metadata.namespace == client.namespace
            &&& d.metadata.labels == Some(managed_labels(name))
            &&& d.spec is Some
            &&& d.spec->0.replicas == Some(1i32)
            &&& d.spec->0.match_labels == Some(managed_labels(name))
            &&& d.spec->0.template.metadata is Some
            &&& d.spec->0.template.metadata->0.labels == Some(managed_labels(name))
            &&& annotation(d.metadata, ANNOTATION_CONFIG_HASH@) == Some(hash)
            &&& annotation(d.spec->0.template.metadata->0, ANNOTATION_CONFIG_HASH@) == Some(hash)
            &&& d.spec->0.template.spec is Some
            &&& d.spec->0.template.spec->0.containers.len() == 1
            &&& d.spec->0.template.spec->0.volumes is Some
            &&& d.spec->0.template.spec->0.volumes->0.len() == 1
            &&& d.spec->0.template.spec->0.volumes->0[0].secret == Some(secret.metadata.name)
        }),
{
    let d = desired_deployment(client, secret);
    let name = client.name_any();
    assert(managed_labels(Seq::empty()).insert(crate::resources::LABEL_CLIENT@, name) =~= managed_labels(name));
    let vs = d.spec->0.template.spec->0.volumes->0;
    assert(vs.len() == 1);
}

/// A client's change of configuration reaches its pods: the pod template of
/// the Deployment built from the Secret of a rendered configuration carries
/// the hash of that configuration.
pub proof fn law_pods_carry_config_hash(client: ObjectMetaView, rendered: Seq<char>)
    ensures
        annotation(
            desired_deployment(client, desired_secret(client, Some(rendered))).spec->0.template.metadata->0,
            ANNOTATION_CONFIG_HASH@,
        ) == Some(config_hash_of(rendered)),
{
    law_deployment_shape(client, desired_secret(client, Some(rendered)));
}

/// The Secret and the Deployment of a client never share a name.
pub proof fn law_secret_and_deployment_names_differ(client: ObjectMetaView, secret: SecretView, rendered: Option<Seq<char>>)
    ensures
        desired_secret(client, rendered).metadata.name != desired_deployment(client, secret).metadata.name,
{
    reveal_strlit("-frpc-config");
    reveal_strlit("-frpc");
    law_deployment_shape(client, secret);
    let n = client.name_any();
    assert((n + "-frpc-config"@).len() != (n + "-frpc"@).len());
}

/// How far the reconciliation has come.
pub open spec fn phase_rank(p: ReconcilePhase) -> int {
    match p {
        ReconcilePhase::AwaitExistingSecret => 0,
        ReconcilePhase::AwaitSecretWritten => 1,
        ReconcilePhase::AwaitExistingDeployment => 2,
        ReconcilePhase::AwaitDeploymentWritten => 3,
        ReconcilePhase::Done => 4,
    }
}

/// Every step of a reconciliation moves it forward, keeps it well formed,
/// and ends it exactly when it asks to wait for the next change; so a
/// reconciliation makes at most four requests to the cluster before it ends.
pub proof fn law_reconciliation_progresses(s: ReconciliationView, event: EventView)
    requires
        well_formed(s),
        crate::controller::event_fits(s.phase, event),
    ensures
        ({
            let (next, request) = reconcile_next(s, event);
            &&& phase_rank(next.phase) > phase_rank(s.phase)
            &&& well_formed(next)
            &&& (next.phase == ReconcilePhase::Done <==> request is AwaitChange)
            &&& next.client == s.client
            &&& next.namespace == s.namespace
        }),
{
}

/// The Secret is written only when it drifted: the reconciliation writes it
/// exactly when the cluster holds none of that name or one whose config hash
/// differs from the desired one, and creates it exactly when there is none.
/// Where it has not drifted, the reconciliation goes on to the Deployment
/// built from the desired Secret.
pub proof fn law_secret_written_only_on_drift(s: ReconciliationView, existing: Option<SecretView>)
    requires
        well_formed(s),
        s.phase == ReconcilePhase::AwaitExistingSecret,
    ensures
        ({
            let (next, request) = reconcile_next(s, EventView::ExistingSecret(existing));
            let drifted = existing is None || config_hash_of_meta(existing->0.metadata) != config_hash_of_meta(s.secret->0.metadata);
            &&& (request is CreateSecret || request is PatchSecret) <==> drifted
            &&& request is CreateSecret <==> existing is None
            &&& !drifted ==> request is GetDeployment && next.phase == ReconcilePhase::AwaitExistingDeployment
                && next.deployment == Some(desired_deployment(s.client, s.secret->0))
            &&& request is PatchSecret ==> request == (RequestView::PatchSecret {
                namespace: s.namespace,
                name: name_or_empty(s.secret->0.metadata.name),
            })
        }),
{
}

/// The Deployment is written only when it drifted, in the same way as the Secret.
pub proof fn law_deployment_written_only_on_drift(s: ReconciliationView, existing: Option<DeploymentView>)
    requires
        well_formed(s),
        s.phase == ReconcilePhase::AwaitExistingDeployment,
    ensures
        ({
            let (next, request) = reconcile_next(s, EventView::ExistingDeployment(existing));
            let drifted = existing is None || config_hash_of_meta(existing->0.metadata) != config_hash_of_meta(s.deployment->0.metadata);
            &&& (request is CreateDeployment || request is PatchDeployment) <==> drifted
            &&& request is CreateDeployment <==> existing is None
            &&& !drifted ==> request is AwaitChange && next.phase == ReconcilePhase::Done
            &&& request is PatchDeployment ==> request == (RequestView::PatchDeployment {
                namespace: s.namespace,
                name: name_or_empty(s.deployment->0.metadata.name),
            })
        }),
{
}

/// Once the Secret is written, the reconciliation looks up the Deployment
/// `<client>-frpc` in the same namespace, and wants it to be the Deployment
/// built from the client and the Secret just written.
pub proof fn law_deployment_follows_written_secret(s: ReconciliationView)
    requires
        well_formed(s),
        s.phase == ReconcilePhase::AwaitSecretWritten,
    ensures
        ({
            let (next, request) = reconcile_next(s, EventView::Written);
            &&& next.deployment == Some(desired_deployment(s.client, s.secret->0))
            &&& request == (RequestView::GetDeployment { namespace: s.namespace, name: s.client.name_any() + "-frpc"@ })
        }),
{
    law_deployment_shape(s.client, s.secret->0);
}



/// Reconciling is idempotent: once the cluster holds the Secret and the
/// Deployment that the reconciliation wants, reconciling again looks both up,
/// writes nothing and ends.
pub proof fn law_reconcile_idempotent(s: ReconciliationView)
    requires
        well_formed(s),
        s.phase == ReconcilePhase::AwaitExistingSecret,
    ensures
        ({
            let (next, request) = reconcile_next(s, EventView::ExistingSecret(s.secret));
            let (last, final_request) = reconcile_next(next, EventView::ExistingDeployment(next.deployment));
            &&& request is GetDeployment
            &&& final_request is AwaitChange
            &&& last.phase == ReconcilePhase::Done
        }),
{
}

/// The first request of a reconciliation looks up the Secret
/// `<client>-frpc-config` in the client's namespace.
pub proof fn law_first_lookup_is_the_config_secret(client: ObjectMetaView, rendered: Option<Seq<char>>)
    ensures
        name_or_empty(desired_secret(client, rendered).metadata.name) == client.name_any() + "-frpc-config"@,
        desired_secret(client, rendered).metadata.namespace == client.namespace,
{
}

/// The state a reconciliation from `s` ends in as `events` answer its
/// requests, and the requests it makes on the way.
pub open spec fn run(s: ReconciliationView, events: Seq<EventView>) -> (ReconciliationView, Seq<RequestView>)
    decreases events.len(),
{
    if events.len() == 0 {
        (s, Seq::empty())
    } else {
        let (next, request) = reconcile_next(s, events[0]);
        let (end, requests) = run(next, events.drop_first());
        (end, seq![request] + requests)
    }
}

/// Each of `events` answers the request before it.
pub open spec fn answers(s: ReconciliationView, events: Seq<EventView>) -> bool
    decreases events.len(),
{
    events.len() == 0 || (event_fits(s.phase, events[0]) && answers(reconcile_next(s, events[0]).0, events.drop_first()))
}

/// The Deployment in the cluster is missing, or its config hash differs from
/// the desired one.
pub open spec fn deployment_drifted(existing: Option<DeploymentView>, desired: DeploymentView) -> bool {
    existing is None || config_hash_of_meta(existing->0.metadata) != config_hash_of_meta(desired.metadata)
}

/// What a reconciliation that ends does once it has looked up the Deployment.
proof fn lemma_run_from_deployment_lookup(s: ReconciliationView, events: Seq<EventView>)
    requires
        well_formed(s),
        s.phase == ReconcilePhase::AwaitExistingDeployment,
        answers(s, events),
        run(s, events).0.phase == ReconcilePhase::Done,
    ensures
        events.len() >= 1,
        run(s, events).0.deployment == s.deployment,
        events[0] is ExistingDeployment,
        ({
            let e = events[0]->ExistingDeployment_0;
            let request = run(s, events).1[0];
            &&& deployment_drifted(e, s.deployment->0) ==> request is CreateDeployment || request is PatchDeployment
            &&& !deployment_drifted(e, s.deployment->0) ==> request is AwaitChange
        }),
{
    reveal_with_fuel(run, 3);
    reveal_with_fuel(answers, 3);
    assert(events.len() >= 1);
    let next = reconcile_next(s, events[0]).0;
    let rest = events.drop_first();
    if next.phase == ReconcilePhase::Done {
        assert(rest.len() == 0);
    } else {
        assert(next.phase == ReconcilePhase::AwaitDeploymentWritten);
        assert(rest.len() >= 1);
        assert(rest.drop_first().len() == 0);
    }
}

/// Every reconciliation that ends has looked up the Deployment built from the
/// client and the desired Secret, and has written it where it drifted: there
/// is a request for that Deployment, and the request after its answer creates
/// or patches it exactly when it drifted, and otherwise ends the
/// reconciliation.
pub proof fn law_every_finished_reconciliation_handles_the_deployment(s: ReconciliationView, events: Seq<EventView>)
    requires
        well_formed(s),
        s.phase == ReconcilePhase::AwaitExistingSecret,
        answers(s, events),
        run(s, events).0.phase == ReconcilePhase::Done,
    ensures
        ({
            let (end, requests) = run(s, events);
            let d = desired_deployment(s.client, s.secret->0);
            &&& end.deployment == Some(d)
            &&& exists|i: int|
                #![trigger requests[i]]
                0 <= i < requests.len() - 1
                && requests[i] == (RequestView::GetDeployment { namespace: s.namespace, name: name_or_empty(d.metadata.name) })
                && events[i + 1] is ExistingDeployment
                && (deployment_drifted(events[i + 1]->ExistingDeployment_0, d) ==> requests[i + 1] is CreateDeployment
                    || requests[i + 1] is PatchDeployment)
                && (!deployment_drifted(events[i + 1]->ExistingDeployment_0, d) ==> requests[i + 1] is AwaitChange)
        }),
{
    reveal_with_fuel(run, 2);
    reveal_with_fuel(answers, 2);
    let d = desired_deployment(s.client, s.secret->0);
    if events.len() == 0 {
        assert(false);
    }
    let (next, request) = reconcile_next(s, events[0]);
    let rest = events.drop_first();
    let requests = run(s, events).1;
    if next.phase == ReconcilePhase::AwaitExistingDeployment {
        lemma_run_from_deployment_lookup(next, rest);
        assert(requests == seq![request] + run(next, rest).1);
        assert(requests[0] == request);
        assert(events[1] == rest[0]);
        assert(requests[1] == run(next, rest).1[0]);
    } else {
        assert(next.phase == ReconcilePhase::AwaitSecretWritten);
        if rest.len() == 0 {
            assert(false);
        }
        let (third, request2) = reconcile_next(next, rest[0]);
        let rest2 = rest.drop_first();
        assert(third.phase == ReconcilePhase::AwaitExistingDeployment);
        lemma_run_from_deployment_lookup(third, rest2);
        assert(run(next, rest).1 == seq![request2] + run(third, rest2).1);
        assert(requests == seq![request] + run(next, rest).1);
        assert(requests[1] == request2);
        assert(events[2] == rest2[0]);
        assert(requests[2] == run(third, rest2).1[0]);
    }
}

/// Naming the client of a Deployment whose three label maps (its own, its
/// selector's and its pod template's) are equal keeps them equal: each maps
/// the client label to the new name and keeps every other label.
pub proof fn law_client_name_keeps_labels_equal(d: DeploymentView, client_name: Seq<char>)
    requires
        d.spec is Some,
        d.spec->0.template.metadata is Some,
        d.metadata.labels == d.spec->0.match_labels,
        d.metadata.labels == d.spec->0.template.metadata->0.labels,
    ensures
        ({
            let n = d.with_client_name(client_name);
            let labels = map_or_empty(d.metadata.labels).insert(LABEL_CLIENT@, client_name);
            &&& n.metadata.labels == Some(labels)
            &&& n.spec->0.match_labels == Some(labels)
            &&& n.spec->0.template.metadata->0.labels == Some(labels)
        }),
{
}

/// Naming the client of a Deployment twice leaves it as naming it the second
/// time alone does: the last name wins, and naming it again with the same
/// name changes nothing.
pub proof fn law_client_name_last_write_wins(d: DeploymentView, a: Seq<char>, b: Seq<char>)
    ensures
        d.with_client_name(a).with_client_name(b) == d.with_client_name(b),
        d.with_client_name(b).with_client_name(b) == d.with_client_name(b),
{
    let key = LABEL_CLIENT@;
    let s = spec_or_empty(d);
    let t = template_meta_or_empty(s);
    assert(map_or_empty(d.metadata.labels).insert(key, a).insert(key, b) =~= map_or_empty(d.metadata.labels).insert(key, b));
    assert(map_or_empty(s.match_labels).insert(key, a).insert(key, b) =~= map_or_empty(s.match_labels).insert(key, b));
    assert(map_or_empty(t.labels).insert(key, a).insert(key, b) =~= map_or_empty(t.labels).insert(key, b));
    assert(map_or_empty(d.metadata.labels).insert(key, b).insert(key, b) =~= map_or_empty(d.metadata.labels).insert(key, b));
    assert(map_or_empty(s.match_labels).insert(key, b).insert(key, b) =~= map_or_empty(s.match_labels).insert(key, b));
    assert(map_or_empty(t.labels).insert(key, b).insert(key, b) =~= map_or_empty(t.labels).insert(key, b));
}

/// A tunnel's proxy keeps what the tunnel says: the tunnel's name (where it
/// has one), its transport (tcp stays tcp, udp stays udp), its local address
/// and both of its ports.
pub proof fn law_proxy_keeps_the_tunnel(t: Tunnel)
    ensures
        t.metadata.name matches Some(n) ==> proxy_of(t).name == n@,
        t.spec.type_ == TunnelType::Tcp ==> proxy_of(t).type_ == FrpClientProxyType::Tcp,
        t.spec.type_ == TunnelType::Udp ==> proxy_of(t).type_ == FrpClientProxyType::Udp,
        proxy_of(t).local_ip == t.spec.local_address@,
        proxy_of(t).local_port == t.spec.local_port,
        proxy_of(t).remote_port == t.spec.remote_port,
{
}

/// The token is the whole value stored under the key: encoding it as UTF-8
/// gives back exactly the bytes of the Secret.
pub proof fn law_token_is_the_whole_value(secret: SecretView, key: Seq<char>)
    requires
        token_available(secret, key),
    ensures
        encode_utf8(secret_token(secret, key)) == secret.data->0[key],
{
    vstd::utf8::decode_utf8_encode_utf8(secret.data->0[key]);
}

proof fn lemma_hex_digit_code(k: int)
    requires
        0 <= k < 16,
    ensures
        hex_digit(k) as int == if k < 10 {
            48 + k
        } else {
            87 + k
        },
{
    reveal_strlit("0123456789abcdef");
        if k == 0 {
        } else if k == 1 {
        } else if k == 2 {
        } else if k == 3 {
        } else if k == 4 {
        } else if k == 5 {
        } else if k == 6 {
        } else if k == 7 {
        } else if k == 8 {
        } else if k == 9 {
        } else if k == 10 {
        } else if k == 11 {
        } else if k == 12 {
        } else if k == 13 {
        } else if k == 14 {
        } else if k == 15 {
        }
}

/// Different bytes give different lowercase hexadecimal.
proof fn lemma_hex_lower_injective(a: Seq<u8>, b: Seq<u8>)
    requires
        hex_lower(a) == hex_lower(b),
    ensures
        a == b,
    decreases a.len(),
{
    law_hex_shape(a);
    law_hex_shape(b);
    if a.len() > 0 {
        let h = hex_lower(a);
        let n = h.len();
        let x = a.last() as int;
        let y = b.last() as int;
        assert(h[n - 2] == hex_digit(x / 16) && h[n - 1] == hex_digit(x % 16));
        assert(h[n - 2] == hex_digit(y / 16) && h[n - 1] == hex_digit(y % 16));
        lemma_hex_digit_code(x / 16);
        lemma_hex_digit_code(y / 16);
        lemma_hex_digit_code(x % 16);
        lemma_hex_digit_code(y % 16);
        assert(x / 16 == y / 16);
        assert(x % 16 == y % 16);
        assert(x == y);
        assert(hex_lower(a.drop_last()) =~= h.subrange(0, n - 2));
        assert(hex_lower(b.drop_last()) =~= h.subrange(0, n - 2));
        lemma_hex_lower_injective(a.drop_last(), b.drop_last());
        assert(a =~= a.drop_last().push(a.last()));
        assert(b =~= b.drop_last().push(b.last()));
    } else {
        assert(a =~= b);
    }
}

/// The config hash covers the whole rendered text: it is the hexadecimal of
/// the BLAKE3 digest of all of the text's UTF-8 bytes, so texts whose whole
/// bytes hash to different digests get different config hashes, however far
/// into the text they differ.
pub proof fn law_config_hash_covers_the_whole_text(r1: Seq<char>, r2: Seq<char>)
    requires
        blake3_digest(encode_utf8(r1)) != blake3_digest(encode_utf8(r2)),
    ensures
        config_hash_of(r1) != config_hash_of(r2),
{
    if config_hash_of(r1) == config_hash_of(r2) {
        lemma_hex_lower_injective(blake3_digest(encode_utf8(r1)), blake3_digest(encode_utf8(r2)));
    }
}

/// An existing Secret counts as up to date exactly when its config-hash
/// annotation is the desired Secret's: both lack it, or both carry the same
/// value. The Secret is patched exactly when they differ; otherwise the
/// reconciliation goes on to the Deployment.
pub proof fn law_secret_up_to_date_iff_same_hash_annotation(s: ReconciliationView, existing: SecretView)
    requires
        well_formed(s),
        s.phase == ReconcilePhase::AwaitExistingSecret,
    ensures
        ({
            let (next, request) = reconcile_next(s, EventView::ExistingSecret(Some(existing)));
            let have = map_or_empty(existing.metadata.annotations);
            let want = map_or_empty(s.secret->0.metadata.annotations);
            let k = ANNOTATION_CONFIG_HASH@;
            let same = have.contains_key(k) == want.contains_key(k) && (have.contains_key(k) ==> have[k] == want[k]);
            &&& request is PatchSecret <==> !same
            &&& request is GetDeployment <==> same
        }),
{
}

/// An existing Deployment counts as up to date exactly when its config-hash
/// annotation is the desired Deployment's. It is patched exactly when they
/// differ; otherwise the reconciliation ends.
pub proof fn law_deployment_up_to_date_iff_same_hash_annotation(s: ReconciliationView, existing: DeploymentView)
    requires
        well_formed(s),
        s.phase == ReconcilePhase::AwaitExistingDeployment,
    ensures
        ({
            let (next, request) = reconcile_next(s, EventView::ExistingDeployment(Some(existing)));
            let have = map_or_empty(existing.metadata.annotations);
            let want = map_or_empty(s.deployment->0.metadata.annotations);
            let k = ANNOTATION_CONFIG_HASH@;
            let same = have.contains_key(k) == want.contains_key(k) && (have.contains_key(k) ==> have[k] == want[k]);
            &&& request is PatchDeployment <==> !same
            &&& request is AwaitChange <==> same
        }),
{
}

} // verus!
