//! What holds of every connector, whatever the settings and whatever the
//! backend answers.

use vstd::prelude::*;
use std::sync::Arc;
use crate::connector::{spec_connector, spec_new, ConnectorBuild, LayerSlot, ProgressView};
use crate::error::BackendReply;
use crate::layer::{
    spec_connect_layer, spec_create_connect_layer, ConnectLayer, LayerBuild, LayerProgress,
};
use crate::protocol::{AlpnProtocol, HttpVersionPref};
use crate::settings::TlsSettings;
use crate::trust::{spec_resolve_trust_store, TrustStore, TrustStorePolicy};

verus! {

/// Where construction stands after the backend's answers, taken in order.
/// Answers that come after construction has ended change nothing.
pub open spec fn spec_run(progress: ProgressView, replies: Seq<BackendReply>) -> ProgressView
    decreases replies.len(),
{
    if replies.len() == 0 {
        progress
    } else {
        match progress {
            ProgressView::Pending(build) => spec_run(
                build.spec_resume(replies[0]),
                replies.drop_first(),
            ),
            _ => progress,
        }
    }
}

/// Every answer is an acceptance.
pub open spec fn spec_all_accepted(replies: Seq<BackendReply>) -> bool {
    forall|i: int| 0 <= i < replies.len() ==> #[trigger] replies[i] is Accepted
}

/// How many calls the main layer asks of the backend.
pub open spec fn spec_main_calls(settings: Arc<TlsSettings>, policy: TrustStorePolicy) -> nat {
    spec_connect_layer(settings, settings.http_version_pref, policy).spec_steps().len()
}

/// How many calls the WebSocket layer asks of the backend, if it is built.
pub open spec fn spec_ws_calls(settings: Arc<TlsSettings>, policy: TrustStorePolicy) -> nat {
    if settings.http_version_pref.spec_allows_http2() {
        spec_connect_layer(settings, HttpVersionPref::Http1, policy).spec_steps().len()
    } else {
        0
    }
}

/// How many calls a connector asks of the backend in all.
pub open spec fn spec_call_count(settings: Arc<TlsSettings>, policy: TrustStorePolicy) -> nat {
    spec_main_calls(settings, policy) + spec_ws_calls(settings, policy)
}

/// Where construction stands once the backend has accepted `accepted` calls:
/// within the main layer, within the WebSocket layer, or done.
#[verifier::opaque]
pub open spec fn spec_after_accepted(
    settings: Arc<TlsSettings>,
    policy: TrustStorePolicy,
    accepted: nat,
) -> ProgressView {
    let main = spec_main_calls(settings, policy);
    if accepted < main {
        ProgressView::Pending(
            ConnectorBuild { settings, policy, slot: LayerSlot::Main, stage: accepted as usize },
        )
    } else if accepted < spec_call_count(settings, policy) {
        ProgressView::Pending(
            ConnectorBuild {
                settings,
                policy,
                slot: LayerSlot::WebSocket,
                stage: (accepted - main) as usize,
            },
        )
    } else {
        ProgressView::Ready(spec_connector(settings, policy))
    }
}

/// A layer asks between 6 and 16 calls of the backend: builder,
/// verification, ALPN, two version bounds and the closing call always.
pub proof fn lemma_step_count(layer: ConnectLayer)
    ensures
        6 <= layer.spec_steps().len() <= 16,
        layer.spec_fixed_steps().len() == 5,
        layer.spec_toggle_steps().len() <= 5,
        layer.spec_override_steps().len() <= 4,
        1 <= layer.spec_closing_steps().len() <= 2,
{
}

/// Taking answers in two runs is taking them in one.
pub proof fn lemma_run_split(progress: ProgressView, first: Seq<BackendReply>, rest: Seq<BackendReply>)
    ensures
        spec_run(progress, first + rest) == spec_run(spec_run(progress, first), rest),
    decreases first.len(),
{
    if first.len() == 0 {
        assert(first + rest =~= rest);
    } else {
        let all = first + rest;
        assert(all[0] == first[0]);
        assert(all.drop_first() =~= first.drop_first() + rest);
        match progress {
            ProgressView::Pending(build) => {
                lemma_run_split(build.spec_resume(first[0]), first.drop_first(), rest);
            },
            _ => {
                lemma_run_ended(progress, rest);
                lemma_run_ended(progress, all);
                lemma_run_ended(progress, first);
            },
        }
    }
}

/// Once construction has ended, with a connector or with an error, no answer
/// changes the outcome.
pub proof fn lemma_run_ended(progress: ProgressView, replies: Seq<BackendReply>)
    requires
        !(progress is Pending),
    ensures
        spec_run(progress, replies) == progress,
{
}

/// One acceptance moves construction one call on.
#[verifier::rlimit(50)]
pub proof fn lemma_accept_one(settings: Arc<TlsSettings>, policy: TrustStorePolicy, accepted: nat)
    requires
        settings.spec_malformed_list() is None,
        accepted < spec_call_count(settings, policy),
    ensures
        spec_after_accepted(settings, policy, accepted) matches ProgressView::Pending(build)
            && build.spec_resume(BackendReply::Accepted) == spec_after_accepted(
            settings,
            policy,
            accepted + 1,
        ),
{
    reveal(spec_after_accepted);
    lemma_step_count(spec_connect_layer(settings, settings.http_version_pref, policy));
    lemma_step_count(spec_connect_layer(settings, HttpVersionPref::Http1, policy));
}

/// Accepted calls add up: from `start` accepted calls, as many acceptances as
/// there are answers lead to `start` plus that many accepted calls.
pub proof fn lemma_accept_many(
    settings: Arc<TlsSettings>,
    policy: TrustStorePolicy,
    start: nat,
    replies: Seq<BackendReply>,
)
    requires
        settings.spec_malformed_list() is None,
        spec_all_accepted(replies),
        start + replies.len() <= spec_call_count(settings, policy),
    ensures
        spec_run(spec_after_accepted(settings, policy, start), replies) == spec_after_accepted(
            settings,
            policy,
            start + replies.len(),
        ),
    decreases replies.len(),
{
    if replies.len() > 0 {
        lemma_accept_one(settings, policy, start);
        assert(replies[0] is Accepted);
        assert(replies[0] == BackendReply::Accepted);
        let rest = replies.drop_first();
        assert forall|i: int| 0 <= i < rest.len() implies #[trigger] rest[i] is Accepted by {
            assert(rest[i] == replies[i + 1]);
        }
        lemma_accept_many(settings, policy, start + 1, rest);
        let current = spec_after_accepted(settings, policy, start);
        let next = spec_after_accepted(settings, policy, start + 1);
        assert(spec_run(current, replies) == spec_run(next, rest));
    }
}

/// While the backend accepts, construction asks for the calls of the main
/// layer in order, then for those of the WebSocket layer if the preference
/// offers HTTP/2, and then the connector stands: it is the connector that
/// settings and policy call for.
pub proof fn law_accepted_calls_build_the_connector(
    settings: Arc<TlsSettings>,
    policy: TrustStorePolicy,
    replies: Seq<BackendReply>,
)
    requires
        settings.spec_malformed_list() is None,
        spec_all_accepted(replies),
        replies.len() <= spec_call_count(settings, policy),
    ensures
        spec_run(spec_new(settings, policy), replies) == spec_after_accepted(
            settings,
            policy,
            replies.len(),
        ),
        replies.len() == spec_call_count(settings, policy) ==> spec_run(
            spec_new(settings, policy),
            replies,
        ) == ProgressView::Ready(spec_connector(settings, policy)),
        replies.len() < spec_call_count(settings, policy) ==> spec_run(
            spec_new(settings, policy),
            replies,
        ) is Pending,
{
    reveal(spec_after_accepted);
    lemma_step_count(spec_connect_layer(settings, settings.http_version_pref, policy));
    assert(spec_new(settings, policy) == spec_after_accepted(settings, policy, 0));
    lemma_accept_many(settings, policy, 0, replies);
}

/// The first answer that carries an error ends construction with that error,
/// whatever was accepted before and whatever is answered after: nothing is
/// retried and no layer is kept.
pub proof fn law_first_error_ends_construction(
    settings: Arc<TlsSettings>,
    policy: TrustStorePolicy,
    replies: Seq<BackendReply>,
    at: int,
)
    requires
        settings.spec_malformed_list() is None,
        0 <= at < replies.len(),
        at < spec_call_count(settings, policy),
        forall|i: int| 0 <= i < at ==> #[trigger] replies[i] is Accepted,
        replies[at].spec_error() is Some,
    ensures
        spec_run(spec_new(settings, policy), replies) == ProgressView::Failed(
            replies[at].spec_error()->Some_0,
        ),
{
    let before = replies.take(at);
    let after = replies.skip(at);
    assert(replies =~= before + after);
    law_accepted_calls_build_the_connector(settings, policy, before);
    lemma_run_split(spec_new(settings, policy), before, after);
    lemma_accept_one(settings, policy, at as nat);
    assert(after[0] == replies[at]);
    let failed = ProgressView::Failed(replies[at].spec_error()->Some_0);
    lemma_run_ended(failed, after.drop_first());
}

/// Whatever the backend answers, a connector that comes to stand from a
/// build is the one that the build's settings and policy call for.
pub proof fn lemma_ready_is_determined(build: ConnectorBuild, replies: Seq<BackendReply>)
    ensures
        spec_run(ProgressView::Pending(build), replies) matches ProgressView::Ready(connector)
            ==> connector == spec_connector(build.settings, build.policy),
    decreases replies.len(),
{
    if replies.len() > 0 {
        match build.spec_resume(replies[0]) {
            ProgressView::Pending(next) => {
                lemma_ready_is_determined(next, replies.drop_first());
            },
            ended => {
                lemma_run_ended(ended, replies.drop_first());
            },
        }
    }
}

/// Building twice from the same settings gives the same connector: the same
/// layers, hence the same ALPN lists, version bounds and trust store,
/// whatever the backend answered on the way.
pub proof fn law_same_settings_same_connector(
    settings: Arc<TlsSettings>,
    policy: TrustStorePolicy,
    first: Seq<BackendReply>,
    second: Seq<BackendReply>,
)
    requires
        spec_run(spec_new(settings, policy), first) is Ready,
        spec_run(spec_new(settings, policy), second) is Ready,
    ensures
        spec_run(spec_new(settings, policy), first) == spec_run(spec_new(settings, policy), second),
        spec_run(spec_new(settings, policy), first) == ProgressView::Ready(
            spec_connector(settings, policy),
        ),
        ({
            let one = spec_run(spec_new(settings, policy), first)->Ready_0;
            let other = spec_run(spec_new(settings, policy), second)->Ready_0;
            forall|ws: bool|
                {
                    let a = #[trigger] one.layer_for(ws);
                    let b = other.layer_for(ws);
                    &&& a.http_version_pref.spec_alpn_protocols()
                        == b.http_version_pref.spec_alpn_protocols()
                    &&& a.settings.min_tls_version == b.settings.min_tls_version
                    &&& a.settings.max_tls_version == b.settings.max_tls_version
                    &&& a.trust_store == b.trust_store
                }
        }),
{
    match spec_new(settings, policy) {
        ProgressView::Pending(build) => {
            lemma_ready_is_determined(build, first);
            lemma_ready_is_determined(build, second);
        },
        ended => {
            lemma_run_ended(ended, first);
        },
    }
}

/// A connector has a WebSocket layer exactly if its preference offers
/// HTTP/2. That layer offers HTTP/1.1 alone and is otherwise the main layer;
/// so for such a preference the two layers differ.
pub proof fn law_layers_follow_the_preference(settings: Arc<TlsSettings>, policy: TrustStorePolicy)
    ensures
        ({
            let connector = spec_connector(settings, policy);
            let main = connector.connect_layer;
            &&& connector.consistent()
            &&& main.http_version_pref == settings.http_version_pref
            &&& settings.http_version_pref == HttpVersionPref::Http1
                <==> connector.ws_connect_layer is None
            &&& connector.ws_connect_layer matches Some(ws) ==> {
                &&& ws.http_version_pref.spec_alpn_protocols() == seq![AlpnProtocol::Http1]
                &&& ws != main
                &&& ws == (ConnectLayer { http_version_pref: HttpVersionPref::Http1, ..main })
            }
        }),
{
}

/// Every layer of a connector keeps 8 sessions at most, and caches sessions
/// exactly if the settings ask for a pre-shared key.
pub proof fn law_session_cache(settings: Arc<TlsSettings>, policy: TrustStorePolicy, ws: bool)
    ensures
        spec_connector(settings, policy).layer_for(ws).session.session_cache_capacity == 8,
        spec_connector(settings, policy).layer_for(ws).session.session_cache
            == settings.pre_shared_key,
{
}

/// Every layer of a connector verifies peers against the same store: the
/// caller's own if there is one; else the web-trust bundle if the program
/// carries it; else the native store if the program carries that; else the
/// backend's default.
pub proof fn law_trust_store_precedence(
    settings: Arc<TlsSettings>,
    policy: TrustStorePolicy,
    ws: bool,
)
    ensures
        ({
            let store = spec_connector(settings, policy).layer_for(ws).trust_store;
            &&& store == spec_resolve_trust_store(settings.ca_cert_store, policy)
            &&& settings.ca_cert_store matches Some(own) ==> store == TrustStore::Custom(own)
            &&& settings.ca_cert_store is None && policy.has_web_trust() ==> store
                == TrustStore::WebTrust
            &&& settings.ca_cert_store is None && !policy.has_web_trust() && policy.has_native()
                ==> store == TrustStore::Native
            &&& settings.ca_cert_store is None && !policy.has_web_trust() && !policy.has_native()
                ==> store == TrustStore::BackendDefault
        }),
{
}

/// A WebSocket connection offers HTTP/1.1 alone, whatever the connector's
/// preference; any other connection offers the protocols of that preference.
pub proof fn law_websocket_offers_http1(settings: Arc<TlsSettings>, policy: TrustStorePolicy)
    ensures
        spec_connector(settings, policy).layer_for(true).http_version_pref.spec_alpn_protocols()
            == seq![AlpnProtocol::Http1],
        spec_connector(settings, policy).layer_for(false).http_version_pref
            == settings.http_version_pref,
{
}

/// Where the construction of one layer stands after the backend's answers,
/// taken in order.
pub open spec fn spec_layer_run(progress: LayerProgress, replies: Seq<BackendReply>) -> LayerProgress
    decreases replies.len(),
{
    if replies.len() == 0 {
        progress
    } else {
        match progress {
            LayerProgress::Pending(build) => spec_layer_run(
                build.spec_resume(replies[0]),
                replies.drop_first(),
            ),
            _ => progress,
        }
    }
}

/// A layer build that the backend keeps accepting moves on call by call and
/// ends, after the last call, with the layer it was started for.
pub proof fn lemma_layer_accept_many(build: LayerBuild, replies: Seq<BackendReply>)
    requires
        spec_all_accepted(replies),
        build.stage + replies.len() <= build.layer.spec_steps().len(),
    ensures
        spec_layer_run(LayerProgress::Pending(build), replies) == if build.stage + replies.len()
            < build.layer.spec_steps().len() || replies.len() == 0 {
            LayerProgress::Pending(
                LayerBuild { layer: build.layer, stage: (build.stage + replies.len()) as usize },
            )
        } else {
            LayerProgress::Ready(build.layer)
        },
    decreases replies.len(),
{
    lemma_step_count(build.layer);
    if replies.len() > 0 {
        assert(replies[0] is Accepted);
        assert(replies[0] == BackendReply::Accepted);
        let rest = replies.drop_first();
        assert forall|i: int| 0 <= i < rest.len() implies #[trigger] rest[i] is Accepted by {
            assert(rest[i] == replies[i + 1]);
        }
        match build.spec_resume(replies[0]) {
            LayerProgress::Pending(next) => {
                lemma_layer_accept_many(next, rest);
            },
            _ => {},
        }
    }
}

/// The factory builds the layer that settings, preference and policy call
/// for: once the backend has accepted every call of the layer, the layer
/// stands, with its ALPN list from the preference handed in, the trust store
/// resolved, 8 sessions at most, and sessions cached exactly if the settings
/// ask for a pre-shared key.
pub proof fn law_factory_builds_the_layer(
    settings: Arc<TlsSettings>,
    http_version_pref: HttpVersionPref,
    policy: TrustStorePolicy,
    replies: Seq<BackendReply>,
)
    requires
        settings.spec_malformed_list() is None,
        spec_all_accepted(replies),
        replies.len() == spec_connect_layer(settings, http_version_pref, policy).spec_steps().len(),
    ensures
        spec_layer_run(spec_create_connect_layer(settings, http_version_pref, policy), replies)
            == LayerProgress::Ready(spec_connect_layer(settings, http_version_pref, policy)),
        spec_connect_layer(settings, http_version_pref, policy).http_version_pref
            == http_version_pref,
        spec_connect_layer(settings, http_version_pref, policy).trust_store
            == spec_resolve_trust_store(settings.ca_cert_store, policy),
        spec_connect_layer(settings, http_version_pref, policy).session.session_cache_capacity == 8,
        spec_connect_layer(settings, http_version_pref, policy).session.session_cache
            == settings.pre_shared_key,
{
    let layer = spec_connect_layer(settings, http_version_pref, policy);
    lemma_step_count(layer);
    lemma_layer_accept_many(LayerBuild { layer, stage: 0 }, replies);
}

} // verus!
