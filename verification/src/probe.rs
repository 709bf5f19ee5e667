//! The probe handler as a sequence of decisions.
//!
//! A request runs through parameter extraction, fetch, mapping and encoding.
//! The fetch is network transfer and the watt gauges hold floating-point
//! values, so both are the embedding program's to do. Each function here
//! takes what is known so far and returns the [`ProbeAction`] to perform
//! next; an action that responds ends the request.

use crate::error::ProbeError;
use crate::http::{
    error_reply, error_response, index, index_reply, metrics_reply, metrics_response, not_found,
    not_found_reply, route, spec_route, Reply, ReplyView, Route,
};
use crate::prometheus::{eof_marker, Labels, PrometheusState};
use crate::query::{
    extract_target, form_pairs, last_value, lemma_last_value, spec_extract_target, target_param,
};
use crate::shelly::{map_status, spec_status_url, status_url, Shelly};
use crate::text::ends_with;
use vstd::prelude::*;
use vstd::string::StringExecFns;

verus! {

/// What the embedding program is to do next for a request.
#[derive(Clone, Debug, PartialEq, Eq)]
pub enum ProbeAction {
    /// Fetch the status of `target` from `url` and decode it, then hand the
    /// outcome to [`record_status`].
    Fetch { target: String, url: String },
    /// Set the two watt gauges of `label` to the numbers with these bit
    /// patterns, then call [`respond_metrics`].
    Publish { label: Labels, power: u64, total: u64 },
    /// Send `reply`. Where `diagnostic` names an error, write it to the
    /// server's diagnostic stream as well.
    Respond { reply: Reply, diagnostic: Option<ProbeError> },
}

/// What the embedding program reports back.
#[derive(Debug)]
pub enum ProbeEvent {
    /// A request for `path` arrived, with this query string if it had one.
    Request { path: String, query: Option<String> },
    /// The fetch for `target` that [`ProbeAction::Fetch`] asked for ended:
    /// with the decoded status, with [`ProbeError::FetchFailed`] where the
    /// transfer failed, or with [`ProbeError::DecodeFailed`] where the body
    /// did not have the expected shape.
    Fetched { target: String, outcome: Result<Shelly, ProbeError> },
    /// The watt gauges that [`ProbeAction::Publish`] named are set.
    Published,
}

/// The mathematical content of a [`ProbeAction`].
pub enum ActionView {
    Fetch { target: Seq<char>, url: Seq<char> },
    Publish { label: Seq<char>, power: u64, total: u64 },
    Respond { reply: ReplyView, diagnostic: Option<ProbeError> },
}

impl View for ProbeAction {
    type V = ActionView;

    open spec fn view(&self) -> ActionView {
        match self {
            ProbeAction::Fetch { target, url } => ActionView::Fetch { target: target@, url: url@ },
            ProbeAction::Publish { label, power, total } => ActionView::Publish {
                label: label@,
                power: *power,
                total: *total,
            },
            ProbeAction::Respond { reply, diagnostic } => ActionView::Respond {
                reply: reply@,
                diagnostic: *diagnostic,
            },
        }
    }
}

/// The query string of a request as a sequence of characters, if it has one.
pub open spec fn query_view(query: Option<&str>) -> Option<Seq<char>> {
    match query {
        Some(q) => Some(q@),
        None => None,
    }
}

/// The same for a query string that is owned.
pub open spec fn owned_query_view(query: Option<String>) -> Option<Seq<char>> {
    match query {
        Some(q) => Some(q@),
        None => None,
    }
}

/// True of an action that answers with the metrics of `state`: a page
/// whose body is a completed exposition and, where the state is well formed,
/// introduces the three families and has the line of every series that the
/// state holds.
pub open spec fn answers_with_metrics(state: PrometheusState, action: ActionView) -> bool {
    exists|body: Seq<char>|
        ends_with(body, eof_marker()) && (state.wf() ==> state@.exposed_in(body)) && action
            == page_action(#[trigger] metrics_reply(body))
}

/// The action that ends a probe, given the outcome of encoding the
/// registry: the text as a metrics page, or the failure.
pub open spec fn spec_encoded_action(encoded: Result<Seq<char>, ProbeError>) -> ActionView {
    match encoded {
        Ok(body) => page_action(metrics_reply(body)),
        Err(error) => failure_action(error),
    }
}

/// The action that ends a request with the page `reply`.
pub open spec fn page_action(reply: ReplyView) -> ActionView {
    ActionView::Respond { reply, diagnostic: None }
}

/// The action that ends a request with `error`: the reply of that error, and
/// a diagnostic for every error that is not the client's.
pub open spec fn failure_action(error: ProbeError) -> ActionView {
    ActionView::Respond {
        reply: error_reply(error),
        diagnostic: if error.is_client_error() {
            None
        } else {
            Some(error)
        },
    }
}

/// The first action of a probe request with the given query string.
pub open spec fn spec_probe(query: Option<Seq<char>>) -> ActionView {
    match spec_extract_target(query) {
        Ok(target) => ActionView::Fetch { target, url: spec_status_url(target) },
        Err(error) => failure_action(error),
    }
}

/// The first action of a request for `path` with the given query string.
pub open spec fn spec_handle(path: Seq<char>, query: Option<Seq<char>>) -> ActionView {
    match spec_route(path) {
        Route::Index => page_action(index_reply()),
        Route::Probe => spec_probe(query),
        Route::NotFound => page_action(not_found_reply()),
    }
}

/// The action that follows the outcome of a fetch for `target`.
pub open spec fn spec_record_status(
    target: Seq<char>,
    fetched: Result<Shelly, ProbeError>,
) -> ActionView {
    match fetched {
        Err(error) => failure_action(error),
        Ok(status) => if status.is_mappable() {
            ActionView::Publish {
                label: target,
                power: status.spec_sample().power,
                total: status.spec_sample().total,
            }
        } else {
            failure_action(ProbeError::MalformedStatus)
        },
    }
}

/// The path `/probe` leads to the probe handler.
pub proof fn lemma_probe_path()
    ensures
        spec_route("/probe"@) == Route::Probe,
{
    reveal_strlit("/probe");
    reveal_strlit("/");
    assert("/probe"@.len() == 6);
    assert("/"@.len() == 1);
}

/// A probe request without a query string is answered with status 422 and
/// the message "Missing query string", and nothing is fetched.
pub proof fn lemma_missing_query()
    ensures
        spec_handle("/probe"@, None) == page_action(
            ReplyView { status: 422, content_type: None, body: "Missing query string"@ },
        ),
{
    lemma_probe_path();
}

/// A probe request whose query string has no parameter named `target` is
/// answered with status 422 and the message "Missing target parameter",
/// whatever other parameters it has.
pub proof fn lemma_missing_target(query: Seq<char>)
    requires
        forall|i: int|
            0 <= i < form_pairs(query).len() ==> (#[trigger] form_pairs(query)[i]).0
                != target_param(),
    ensures
        spec_handle("/probe"@, Some(query)) == page_action(
            ReplyView { status: 422, content_type: None, body: "Missing target parameter"@ },
        ),
{
    lemma_probe_path();
    lemma_last_value(form_pairs(query), target_param());
}

/// A probe request whose query string names a target leads to a fetch of
/// `http://<target>/status` for the target given last.
pub proof fn lemma_target_present(query: Seq<char>, i: int)
    requires
        0 <= i < form_pairs(query).len(),
        form_pairs(query)[i].0 == target_param(),
        forall|j: int|
            i < j < form_pairs(query).len() ==> (#[trigger] form_pairs(query)[j]).0
                != target_param(),
    ensures
        spec_handle("/probe"@, Some(query)) == (ActionView::Fetch {
            target: form_pairs(query)[i].1,
            url: spec_status_url(form_pairs(query)[i].1),
        }),
{
    lemma_probe_path();
    let pairs = form_pairs(query);
    lemma_last_value(pairs, target_param());
    let found = last_value(pairs, target_param());
    if found is None {
        assert(pairs[i].0 != target_param());
    } else {
        let v = found->Some_0;
        let k = choose|k: int|
            0 <= k < pairs.len() && (#[trigger] pairs[k]) == (target_param(), v) && forall|j: int|
                k < j < pairs.len() ==> (#[trigger] pairs[j]).0 != target_param();
        if k < i {
            assert(pairs[i].0 != target_param());
        } else if i < k {
            assert(pairs[k].0 != target_param());
        }
    }
}

/// Every failure that is not the client's ends the request with status 500
/// and the one generic body, and is written to the diagnostic stream: a fetch
/// that timed out or was refused, a body that did not decode, a status
/// without relays or meters, a metric that failed to encode.
pub proof fn lemma_upstream_failure(target: Seq<char>, error: ProbeError)
    requires
        !error.is_client_error(),
    ensures
        failure_action(error) == (ActionView::Respond {
            reply: ReplyView { status: 500, content_type: None, body: "Internal Server Error"@ },
            diagnostic: Some(error),
        }),
        spec_record_status(target, Err(error)) == failure_action(error),
        spec_encoded_action(Err(error)) == failure_action(error),
{
}

/// A status without a relay or without a meter is answered as a failure of
/// kind [`ProbeError::MalformedStatus`], whatever else it holds.
pub proof fn lemma_empty_status(target: Seq<char>, status: Shelly)
    requires
        status.relays@.len() == 0 || status.meters@.len() == 0,
    ensures
        spec_record_status(target, Ok(status)) == failure_action(ProbeError::MalformedStatus),
        spec_record_status(target, Ok(status)) matches ActionView::Respond { reply, .. }
            && reply.status == 500,
{
}

/// Ends a request with `error`.
pub fn fail(error: ProbeError) -> (action: ProbeAction)
    ensures
        action@ == failure_action(error),
{
    let diagnostic = if error.is_logged() {
        Some(error)
    } else {
        None
    };
    ProbeAction::Respond { reply: error_response(error), diagnostic }
}

/// Decides the first action of a request: the banner for `/`, the start of a
/// probe for `/probe`, and "not found" for every other path.
pub fn handle(path: &str, query: Option<&str>) -> (action: ProbeAction)
    ensures
        action@ == spec_handle(path@, query_view(query)),
{
    match route(path) {
        Route::Index => ProbeAction::Respond { reply: index(), diagnostic: None },
        Route::Probe => probe_shelly_plug(query),
        Route::NotFound => ProbeAction::Respond { reply: not_found(), diagnostic: None },
    }
}

/// Starts a probe: reads the target out of the query string and asks for
/// its status to be fetched from `http://<target>/status`.
///
/// A request without a query string, or without a `target` parameter in it,
/// is answered at once with status 422 and the message of the error.
pub fn probe_shelly_plug(query: Option<&str>) -> (action: ProbeAction)
    ensures
        action@ == spec_probe(query_view(query)),
        query is None ==> action@ == failure_action(ProbeError::MissingQuery),
{
    match extract_target(query) {
        Ok(target) => {
            let url = status_url(target.as_str());
            ProbeAction::Fetch { target, url }
        },
        Err(error) => fail(error),
    }
}

/// Continues a probe of `target` with the outcome of the fetch.
///
/// A failed fetch or decode, and a status that cannot be mapped, end the
/// request with status 500 and leave the registry untouched. Otherwise the
/// integer-valued gauges of the target are set from the status, and the watt
/// readings are handed back to be published.
pub fn record_status(
    state: &mut PrometheusState,
    target: &str,
    fetched: Result<Shelly, ProbeError>,
) -> (action: ProbeAction)
    ensures
        action@ == spec_record_status(target@, fetched),
        match fetched {
            Ok(status) if status.is_mappable() => final(state)@ == old(state)@.record(
                target@,
                status.spec_sample(),
            ),
            _ => *final(state) == *old(state),
        },
        final(state).wf() == old(state).wf(),
        final(state).is_closed() == old(state).is_closed(),
{
    match fetched {
        Err(error) => fail(error),
        Ok(status) => match map_status(&status) {
            Err(error) => fail(error),
            Ok(sample) => {
                let label = Labels { target: String::from_str(target) };
                state.record(&label, &sample);
                ProbeAction::Publish { label, power: sample.power, total: sample.total }
            },
        },
    }
}

/// Ends a probe with the outcome of encoding the registry: the text,
/// verbatim, as the body of a metrics page, or the failure.
pub fn encoded_action(encoded: Result<String, ProbeError>) -> (action: ProbeAction)
    ensures
        action@ == spec_encoded_action(
            match encoded {
                Ok(body) => Ok(body@),
                Err(error) => Err(error),
            },
        ),
{
    match encoded {
        Ok(body) => ProbeAction::Respond { reply: metrics_response(body), diagnostic: None },
        Err(error) => fail(error),
    }
}

/// Ends a successful probe: encodes the whole registry, with the series of
/// every target probed so far, and returns it verbatim as a metrics page.
///
/// A registry that holds the three families and nothing else is always
/// answered with the page. Where a further metric of the registry fails to
/// encode, the request ends with status 500.
pub fn respond_metrics(state: &PrometheusState) -> (action: ProbeAction)
    ensures
        state.is_closed() ==> answers_with_metrics(*state, action@),
        answers_with_metrics(*state, action@) || action@ == failure_action(
            ProbeError::EncodeFailed,
        ),
{
    let encoded = state.encode();
    let action = encoded_action(encoded);
    proof {
        if encoded is Ok {
            assert(action@ == page_action(metrics_reply(encoded->Ok_0@)));
        }
    }
    action
}

/// Decides what follows an event: the one function through which a request
/// can be driven from its arrival to its response.
///
/// The registry changes only when a fetch ended with a status that can be
/// mapped; every other event leaves it as it is.
pub fn step(state: &mut PrometheusState, event: ProbeEvent) -> (action: ProbeAction)
    ensures
        match event {
            ProbeEvent::Request { path, query } => {
                &&& action@ == spec_handle(path@, owned_query_view(query))
                &&& *final(state) == *old(state)
            },
            ProbeEvent::Fetched { target, outcome } => {
                &&& action@ == spec_record_status(target@, outcome)
                &&& match outcome {
                    Ok(status) if status.is_mappable() => final(state)@ == old(state)@.record(
                        target@,
                        status.spec_sample(),
                    ),
                    _ => *final(state) == *old(state),
                }
            },
            ProbeEvent::Published => {
                &&& old(state).is_closed() ==> answers_with_metrics(*old(state), action@)
                &&& answers_with_metrics(*old(state), action@) || action@ == failure_action(
                    ProbeError::EncodeFailed,
                )
                &&& *final(state) == *old(state)
            },
        },
        final(state).wf() == old(state).wf(),
        final(state).is_closed() == old(state).is_closed(),
{
    match event {
        ProbeEvent::Request { path, query } => {
            let query = match &query {
                Some(q) => Some(q.as_str()),
                None => None,
            };
            handle(path.as_str(), query)
        },
        ProbeEvent::Fetched { target, outcome } => record_status(state, target.as_str(), outcome),
        ProbeEvent::Published => respond_metrics(state),
    }
}

} // verus!
