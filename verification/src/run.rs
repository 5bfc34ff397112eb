//! The run's entry points: dispatch on the configured stream kind,
//! assemble the matching request and the authorization value, and — for
//! a recorded event sequence — drive the consumption loop. On an
//! unrecognized kind the run fails with a configuration error before
//! any stream interaction.

use vstd::prelude::*;

use crate::auth::auth_header_value;
use crate::auth::bearer_value;
use crate::config::Config;
use crate::errors::RunError;
use crate::errors::unknown_kind_error;
use crate::errors::unknown_kind_message;
use crate::kinds::StreamKind;
use crate::kinds::kind_of;
use crate::kinds::parse_stream_kind;
use crate::requests::SubscriptionRequest;
use crate::requests::build_request;
use crate::requests::is_request_for;
use crate::stream::ConsumeReport;
use crate::stream::StreamOutcome;
use crate::stream::StreamEvent;
use crate::stream::TerminationPolicy;
use crate::stream::consume_events;
use crate::stream::consume_shape;

verus! {

/// Everything settled before the streaming call is issued: the selected
/// stream kind, the request of the matching shape, and the
/// authorization value to attach, if any.
#[derive(Debug)]
pub struct RunPlan {
    pub kind: StreamKind,
    pub request: SubscriptionRequest,
    pub auth_header: Option<String>,
}

/// The plan a configuration owes: present exactly when the plan's parts
/// are owed — the kind the configured identifier selects, a request of
/// that kind's shape built from the relevant filter dimensions, and the
/// bearer value exactly when a credential is configured.
pub open spec fn is_plan_for(config: Config, p: RunPlan) -> bool {
    &&& kind_of(config.stream.stream_type@) == Option::Some(p.kind)
    &&& is_request_for(p.kind, config.filters, p.request)
    &&& (config.server.authorization@.len() == 0 <==> p.auth_header is None)
    &&& (p.auth_header matches Option::Some(v) ==> v@ == bearer_value(
        config.server.authorization@,
    ))
}

/// Dispatches on the configured stream-kind identifier: a recognized
/// identifier yields the full plan for its pipeline; an unrecognized
/// one yields the configuration error naming it and listing the valid
/// identifiers, with no request built and no network activity owed.
pub fn plan_run(config: &Config) -> (r: Result<RunPlan, RunError>)
    ensures
        r is Ok <==> kind_of(config.stream.stream_type@) is Some,
        r matches Result::Ok(p) ==> is_plan_for(*config, p),
        r matches Result::Err(e) ==> (e matches RunError::Configuration { detail }
            && detail@ == unknown_kind_message(config.stream.stream_type@)),
{
    match parse_stream_kind(config.stream.stream_type.as_str()) {
        Option::None => Result::Err(unknown_kind_error(config.stream.stream_type.as_str())),
        Option::Some(kind) => {
            let request = build_request(&kind, &config.filters);
            let auth_header = auth_header_value(&config.server.authorization);
            Result::Ok(RunPlan { kind, request, auth_header })
        },
    }
}

/// Runs one whole subscription against a recorded event sequence:
/// dispatch, then consumption under the given policy. An unrecognized
/// stream kind fails before any event is pulled; otherwise the report
/// holds exactly what the selected pipeline renders, and a mid-stream
/// error leaves the records already rendered in place.
pub fn run_recorded(
    config: &Config,
    policy: &TerminationPolicy,
    events: &Vec<StreamEvent>,
) -> (r: Result<ConsumeReport, RunError>)
    ensures
        r is Ok <==> kind_of(config.stream.stream_type@) is Some,
        r matches Result::Err(e) ==> (e matches RunError::Configuration { detail }
            && detail@ == unknown_kind_message(config.stream.stream_type@)),
        r matches Result::Ok(rep) ==> (kind_of(config.stream.stream_type@) matches Option::Some(k)
            && consume_shape(k, *policy, events@, rep)),
{
    match plan_run(config) {
        Result::Err(e) => Result::Err(e),
        Result::Ok(plan) => Result::Ok(consume_events(&plan.kind, policy, events)),
    }
}

/// The run's overall result for a consumption report: success on a
/// clean completion, and the stream error carrying the underlying cause
/// when the stream failed mid-way.
pub fn run_result(report: &ConsumeReport) -> (r: Result<(), RunError>)
    ensures
        report.outcome is Completed <==> r is Ok,
        report.outcome matches StreamOutcome::Failed(c) ==> (r matches Result::Err(e)
            && e matches RunError::Stream { cause } && cause == c),
{
    match &report.outcome {
        StreamOutcome::Completed => Result::Ok(()),
        StreamOutcome::Failed(c) => Result::Err(RunError::Stream { cause: c.clone() }),
    }
}

} // verus!
