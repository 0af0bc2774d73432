//! The pipeline dispatcher as a state machine: route a request to its
//! trigger, then after each stage decide the next stage or the response.
//!
//! The stage state is whatever the plugin binding threads between stages; it
//! is carried here unchanged and never looked into.
use vstd::prelude::*;

use crate::bridge::{bridge_error, CRequestView};
use crate::config::{Checker, Endpoint, Handler, Keyed, Server, Trigger};
use crate::err::{status_for, PipelineResponse, PluginError};
use crate::registry::{find_key, has_key, keys_unique, lemma_find_key, PluginRegistry};

verus! {

/// What the dispatcher asks for next.
pub enum Step<S> {
    /// Run the checker at this index of the registry on the state.
    RunChecker { checker: usize, state: S },
    /// Run the handler at this index on the state and compliance flag.
    RunHandler { handler: usize, state: S, compliant: bool },
    /// The pipeline is over: send this response.
    Respond(PipelineResponse),
}

pub enum StepView<S> {
    RunChecker { checker: int, state: S },
    RunHandler { handler: int, state: S, compliant: bool },
    Respond(u16, Seq<char>),
}

impl<S> View for Step<S> {
    type V = StepView<S>;

    open spec fn view(&self) -> StepView<S> {
        match self {
            Step::RunChecker { checker, state } => StepView::RunChecker { checker: *checker as int, state: *state },
            Step::RunHandler { handler, state, compliant } => StepView::RunHandler {
                handler: *handler as int,
                state: *state,
                compliant: *compliant,
            },
            Step::Respond(resp) => StepView::Respond(resp@.0, resp@.1),
        }
    }
}

pub open spec fn not_found() -> (u16, Seq<char>) {
    (404u16, "Endpoint not found"@)
}

pub open spec fn plugin_not_found() -> (u16, Seq<char>) {
    (500u16, "Plugin not found"@)
}

pub open spec fn success() -> (u16, Seq<char>) {
    (200u16, "Success!"@)
}

/// The trigger index that a request path resolves to: the endpoint with that
/// path, then the trigger that the endpoint names.
pub open spec fn route_spec(endpoints: Seq<Endpoint>, triggers: Seq<Trigger>, uri: Seq<char>) -> Result<int, (u16, Seq<char>)> {
    match find_key(endpoints, uri) {
        None => Err(not_found()),
        Some(e) => match find_key(triggers, endpoints[e].trigger_name@) {
            None => Err(plugin_not_found()),
            Some(t) => Ok(t),
        },
    }
}

/// The step after the trigger at index `t` returned `outcome` (`None`: it
/// failed). A trigger that uses a checker goes on to the checker it names;
/// one that does not goes on to its handler with the state unchanged and
/// `compliant` set.
pub open spec fn after_trigger_spec<S>(
    triggers: Seq<Trigger>,
    checkers: Seq<Checker>,
    handlers: Seq<Handler>,
    t: int,
    outcome: Option<S>,
) -> StepView<S> {
    match outcome {
        None => StepView::Respond(500u16, "Trigger phase failed"@),
        Some(s) => if triggers[t].use_checker {
            match find_key(checkers, triggers[t].next_plugin@) {
                Some(c) => StepView::RunChecker { checker: c, state: s },
                None => StepView::Respond(plugin_not_found().0, plugin_not_found().1),
            }
        } else {
            match find_key(handlers, triggers[t].next_plugin@) {
                Some(h) => StepView::RunHandler { handler: h, state: s, compliant: true },
                None => StepView::Respond(plugin_not_found().0, plugin_not_found().1),
            }
        },
    }
}

/// The step after the checker at index `c` returned `outcome`: its handler,
/// with the state and verdict it returned.
pub open spec fn after_checker_spec<S>(
    checkers: Seq<Checker>,
    handlers: Seq<Handler>,
    c: int,
    outcome: Option<(S, bool)>,
) -> StepView<S> {
    match outcome {
        None => StepView::Respond(500u16, "Checker phase failed"@),
        Some((s, compliant)) => match find_key(handlers, checkers[c].next_plugin@) {
            Some(h) => StepView::RunHandler { handler: h, state: s, compliant },
            None => StepView::Respond(plugin_not_found().0, plugin_not_found().1),
        },
    }
}

/// The response after the handler succeeded or failed.
pub open spec fn after_handler_spec(ok: bool) -> (u16, Seq<char>) {
    if ok {
        success()
    } else {
        (500u16, "Handler phase failed"@)
    }
}

pub open spec fn respond_view<S>(r: (u16, Seq<char>)) -> StepView<S> {
    StepView::Respond(r.0, r.1)
}

impl PipelineResponse {
    /// The response of a pipeline that ran to its end.
    pub fn success() -> (r: PipelineResponse)
        ensures
            r@ == success(),
    {
        PipelineResponse::new(200, "Success!".to_owned())
    }
}

impl PluginRegistry {
    /// Resolves a request path: 404 where no endpoint of the server has it,
    /// 500 where its endpoint names no trigger, else the index of the trigger
    /// that its endpoint names, and of no other. A server's endpoint paths
    /// are unique (`validate_server` checks it at startup).
    pub fn route(&self, server: &Server, uri: &String) -> (r: Result<usize, PluginError>)
        requires
            keys_unique(server.endpoints@),
        ensures
            forall|i: int|
                0 <= i < server.endpoints@.len() && (#[trigger] server.endpoints@[i]).path@ == uri@
                    && has_key(self.spec_triggers(), server.endpoints@[i].trigger_name@) ==> (r matches Ok(
                    t,
                ) && self.spec_triggers()[t as int].name@ == server.endpoints@[i].trigger_name@),
            !has_key(server.endpoints@, uri@) ==> (r matches Err(err) && err@ == not_found()),
            route_spec(server.endpoints@, self.spec_triggers(), uri@) matches Ok(t) ==> r == Ok::<
                usize,
                PluginError,
            >(t as usize),
            route_spec(server.endpoints@, self.spec_triggers(), uri@) matches Err(e) ==> (r matches Err(
                err,
            ) && err@ == e),
            r matches Ok(t) ==> t < self.spec_triggers().len() && forall|j: int|
                0 <= j < self.spec_triggers().len() && #[trigger] self.spec_triggers()[j].name@
                    == self.spec_triggers()[t as int].name@ ==> j == t,
    {
        proof {
            crate::registry::lemma_find_key(server.endpoints@, uri@);
            assert forall|i: int|
                0 <= i < server.endpoints@.len() && (#[trigger] server.endpoints@[i]).path@ == uri@
                    implies find_key(server.endpoints@, uri@) == Some(i) by {
                assert(server.endpoints@[i].key() == server.endpoints@[i].path@);
            }
        }
        self.lemma_names_unique();
        let e = match crate::registry::position_of(&server.endpoints, uri) {
            None => {
                return Err(PluginError::new(404, "Endpoint not found"));
            },
            Some(e) => e,
        };
        proof {
            lemma_find_key(self.spec_triggers(), server.endpoints@[e as int].trigger_name@);
        }
        match self.find_trigger(&server.endpoints[e].trigger_name) {
            None => Err(PluginError::new(500, "Plugin not found")),
            Some(t) => {
                proof {
                    let name = server.endpoints@[e as int].trigger_name@;
                    lemma_find_key(self.spec_triggers(), name);
                    assert(self.spec_triggers()[t as int].key() == self.spec_triggers()[t as int].name@);
                    assert forall|j: int|
                        0 <= j < self.spec_triggers().len() && #[trigger] self.spec_triggers()[j].name@
                            == self.spec_triggers()[t as int].name@ implies j == t by {
                        assert(self.spec_triggers()[j].key() == self.spec_triggers()[j].name@);
                    }
                }
                Ok(t)
            },
        }
    }

    /// The step after the trigger at index `trigger` ran; `outcome` is the
    /// state it produced, `None` where it failed.
    pub fn after_trigger<S>(&self, trigger: usize, outcome: Option<S>) -> (r: Step<S>)
        requires
            trigger < self.spec_triggers().len(),
        ensures
            r@ == after_trigger_spec(
                self.spec_triggers(),
                self.spec_checkers(),
                self.spec_handlers(),
                trigger as int,
                outcome,
            ),
    {
        let state = match outcome {
            None => {
                return Step::Respond(PluginError::new(500, "Trigger phase failed").into_response());
            },
            Some(s) => s,
        };
        let t = &self.triggers()[trigger];
        if t.use_checker {
            match self.find_checker(&t.next_plugin) {
                Some(c) => Step::RunChecker { checker: c, state },
                None => Step::Respond(PluginError::new(500, "Plugin not found").into_response()),
            }
        } else {
            match self.find_handler(&t.next_plugin) {
                Some(h) => Step::RunHandler { handler: h, state, compliant: true },
                None => Step::Respond(PluginError::new(500, "Plugin not found").into_response()),
            }
        }
    }

    /// The step after the checker at index `checker` ran; `outcome` is the
    /// state and verdict it produced, `None` where it failed.
    pub fn after_checker<S>(&self, checker: usize, outcome: Option<(S, bool)>) -> (r: Step<S>)
        requires
            checker < self.spec_checkers().len(),
        ensures
            r@ == after_checker_spec(self.spec_checkers(), self.spec_handlers(), checker as int, outcome),
    {
        let (state, compliant) = match outcome {
            None => {
                return Step::Respond(PluginError::new(500, "Checker phase failed").into_response());
            },
            Some(p) => p,
        };
        let c = &self.checkers()[checker];
        match self.find_handler(&c.next_plugin) {
            Some(h) => Step::RunHandler { handler: h, state, compliant },
            None => Step::Respond(PluginError::new(500, "Plugin not found").into_response()),
        }
    }
}

/// The response once the handler ran: success, or 500 where it failed.
pub fn after_handler(ok: bool) -> (r: PipelineResponse)
    ensures
        r@ == after_handler_spec(ok),
{
    if ok {
        PipelineResponse::success()
    } else {
        PluginError::new(500, "Handler phase failed").into_response()
    }
}

/// The response once the step after the trigger has run to its end, with the
/// checker and handler stages behaving as the functions `chk` and `hnd`.
pub open spec fn finish_spec<S>(
    step: StepView<S>,
    checkers: Seq<Checker>,
    handlers: Seq<Handler>,
    chk: spec_fn(int, S) -> Option<(S, bool)>,
    hnd: spec_fn(int, S, bool) -> bool,
) -> (u16, Seq<char>) {
    match step {
        StepView::Respond(code, body) => (code, body),
        StepView::RunHandler { handler, state, compliant } => after_handler_spec(hnd(handler, state, compliant)),
        StepView::RunChecker { checker, state } => match after_checker_spec(
            checkers,
            handlers,
            checker,
            chk(checker, state),
        ) {
            StepView::Respond(code, body) => (code, body),
            StepView::RunHandler { handler, state, compliant } => after_handler_spec(
                hnd(handler, state, compliant),
            ),
            StepView::RunChecker { .. } => plugin_not_found(),
        },
    }
}

/// The response to a request whose path is `uri` and whose parts are `raw`,
/// when each stage is a pure function of its input: `trg` of the trigger's
/// index and the bridge request, `chk` of the checker's index and the state,
/// `hnd` of the handler's index, the state and the verdict.
pub open spec fn pipeline_spec<S>(
    endpoints: Seq<Endpoint>,
    triggers: Seq<Trigger>,
    checkers: Seq<Checker>,
    handlers: Seq<Handler>,
    uri: Seq<char>,
    raw: CRequestView,
    trg: spec_fn(int, CRequestView) -> Option<S>,
    chk: spec_fn(int, S) -> Option<(S, bool)>,
    hnd: spec_fn(int, S, bool) -> bool,
) -> (u16, Seq<char>) {
    match route_spec(endpoints, triggers, uri) {
        Err(e) => (status_for(e.0), e.1),
        Ok(t) => match bridge_error(raw.method, raw.uri, raw.headers, raw.body) {
            Some(e) => (status_for(e.0), e.1),
            None => finish_spec(
                after_trigger_spec(triggers, checkers, handlers, t, trg(t, raw)),
                checkers,
                handlers,
                chk,
                hnd,
            ),
        },
    }
}

/// A request to the path of a configured endpoint resolves to the trigger
/// that the endpoint names, and to no other trigger.
pub proof fn lemma_endpoint_resolves_to_its_trigger(
    endpoints: Seq<Endpoint>,
    triggers: Seq<Trigger>,
    i: int,
)
    requires
        keys_unique(endpoints),
        keys_unique(triggers),
        0 <= i < endpoints.len(),
        has_key(triggers, endpoints[i].trigger_name@),
    ensures
        route_spec(endpoints, triggers, endpoints[i].path@) matches Ok(t) && 0 <= t < triggers.len()
            && triggers[t].name@ == endpoints[i].trigger_name@ && forall|j: int|
            0 <= j < triggers.len() && #[trigger] triggers[j].name@ == endpoints[i].trigger_name@ ==> j
                == t,
{
    lemma_find_key(endpoints, endpoints[i].path@);
    assert(endpoints[i].key() == endpoints[i].path@);
    lemma_find_key(triggers, endpoints[i].trigger_name@);
    let t = find_key(triggers, endpoints[i].trigger_name@)->0;
    assert forall|j: int|
        0 <= j < triggers.len() && #[trigger] triggers[j].name@ == endpoints[i].trigger_name@ implies j
        == t by {
        assert(triggers[j].key() == triggers[j].name@);
    }
}

/// A request whose path matches no endpoint gets 404, whatever the stages
/// would do: no stage is run for it.
pub proof fn lemma_unmatched_path_is_not_found<S>(
    endpoints: Seq<Endpoint>,
    triggers: Seq<Trigger>,
    checkers: Seq<Checker>,
    handlers: Seq<Handler>,
    uri: Seq<char>,
    raw: CRequestView,
    trg1: spec_fn(int, CRequestView) -> Option<S>,
    chk1: spec_fn(int, S) -> Option<(S, bool)>,
    hnd1: spec_fn(int, S, bool) -> bool,
    trg2: spec_fn(int, CRequestView) -> Option<S>,
    chk2: spec_fn(int, S) -> Option<(S, bool)>,
    hnd2: spec_fn(int, S, bool) -> bool,
)
    requires
        !has_key(endpoints, uri),
    ensures
        pipeline_spec(endpoints, triggers, checkers, handlers, uri, raw, trg1, chk1, hnd1) == not_found(),
        pipeline_spec(endpoints, triggers, checkers, handlers, uri, raw, trg1, chk1, hnd1) == pipeline_spec(
            endpoints,
            triggers,
            checkers,
            handlers,
            uri,
            raw,
            trg2,
            chk2,
            hnd2,
        ),
{
    lemma_find_key(endpoints, uri);
}

/// Where the trigger of a request uses a checker that does not resolve, the
/// response is 500 and the handler stage is never reached, whatever the
/// checker and handler stages would do (for a request that the bridge can
/// carry; one it cannot is refused with 400 before any stage).
pub proof fn lemma_missing_checker_is_server_error<S>(
    endpoints: Seq<Endpoint>,
    triggers: Seq<Trigger>,
    checkers: Seq<Checker>,
    handlers: Seq<Handler>,
    uri: Seq<char>,
    raw: CRequestView,
    trg: spec_fn(int, CRequestView) -> Option<S>,
    chk1: spec_fn(int, S) -> Option<(S, bool)>,
    hnd1: spec_fn(int, S, bool) -> bool,
    chk2: spec_fn(int, S) -> Option<(S, bool)>,
    hnd2: spec_fn(int, S, bool) -> bool,
)
    requires
        route_spec(endpoints, triggers, uri) matches Ok(t) && 0 <= t < triggers.len()
            && triggers[t].use_checker && !has_key(checkers, triggers[t].next_plugin@),
        bridge_error(raw.method, raw.uri, raw.headers, raw.body) is None,
    ensures
        pipeline_spec(endpoints, triggers, checkers, handlers, uri, raw, trg, chk1, hnd1).0 == 500,
        pipeline_spec(endpoints, triggers, checkers, handlers, uri, raw, trg, chk1, hnd1) == pipeline_spec(
            endpoints,
            triggers,
            checkers,
            handlers,
            uri,
            raw,
            trg,
            chk2,
            hnd2,
        ),
{
    let t = route_spec(endpoints, triggers, uri)->Ok_0;
    lemma_find_key(checkers, triggers[t].next_plugin@);
}

/// Where the trigger of a request uses no checker, the handler is handed the
/// trigger's state unchanged with `compliant` set, and its outcome alone
/// decides the response.
pub proof fn lemma_no_checker_means_compliant<S>(
    endpoints: Seq<Endpoint>,
    triggers: Seq<Trigger>,
    checkers: Seq<Checker>,
    handlers: Seq<Handler>,
    uri: Seq<char>,
    raw: CRequestView,
    trg: spec_fn(int, CRequestView) -> Option<S>,
    chk: spec_fn(int, S) -> Option<(S, bool)>,
    hnd: spec_fn(int, S, bool) -> bool,
)
    requires
        route_spec(endpoints, triggers, uri) matches Ok(t) && 0 <= t < triggers.len()
            && !triggers[t].use_checker && trg(t, raw) is Some,
        bridge_error(raw.method, raw.uri, raw.headers, raw.body) is None,
        has_key(handlers, triggers[route_spec(endpoints, triggers, uri)->Ok_0].next_plugin@),
    ensures
        ({
            let t = route_spec(endpoints, triggers, uri)->Ok_0;
            let h = find_key(handlers, triggers[t].next_plugin@)->0;
            let s = trg(t, raw)->0;
            &&& after_trigger_spec(triggers, checkers, handlers, t, trg(t, raw)) == StepView::RunHandler {
                handler: h,
                state: s,
                compliant: true,
            }
            &&& pipeline_spec(endpoints, triggers, checkers, handlers, uri, raw, trg, chk, hnd)
                == after_handler_spec(hnd(h, s, true))
        }),
{
    let t = route_spec(endpoints, triggers, uri)->Ok_0;
    lemma_find_key(handlers, triggers[t].next_plugin@);
}

/// With stages that are pure functions of their input, the same request
/// issued twice gets the same response, and a successful one is the fixed
/// success response.
pub proof fn lemma_same_request_same_response<S>(
    endpoints: Seq<Endpoint>,
    triggers: Seq<Trigger>,
    checkers: Seq<Checker>,
    handlers: Seq<Handler>,
    uri1: Seq<char>,
    raw1: CRequestView,
    uri2: Seq<char>,
    raw2: CRequestView,
    trg: spec_fn(int, CRequestView) -> Option<S>,
    chk: spec_fn(int, S) -> Option<(S, bool)>,
    hnd: spec_fn(int, S, bool) -> bool,
)
    requires
        uri1 == uri2,
        raw1 == raw2,
    ensures
        pipeline_spec(endpoints, triggers, checkers, handlers, uri1, raw1, trg, chk, hnd) == pipeline_spec(
            endpoints,
            triggers,
            checkers,
            handlers,
            uri2,
            raw2,
            trg,
            chk,
            hnd,
        ),
        pipeline_spec(endpoints, triggers, checkers, handlers, uri1, raw1, trg, chk, hnd).0 == 200
            ==> pipeline_spec(endpoints, triggers, checkers, handlers, uri1, raw1, trg, chk, hnd)
            == success(),
{
    crate::bridge::lemma_bridge_error_is_bad_request(raw1.method, raw1.uri, raw1.headers, raw1.body);
}

} // verus!
