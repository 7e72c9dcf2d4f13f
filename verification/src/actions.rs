//! Admission of a batch of actions: the whole request is checked before any
//! action is sent.

use vstd::prelude::*;

use crate::batch::{batch_error, step_views, AgentActionStep, StepView};
use crate::control::{target_not_configured_reply, target_not_configured_response, DeviceFacts};
use crate::lifecycle::WdaLifecycleTransition;
use crate::reply::{
    bool_text, json_reply, json_string_text, object_text, ObjectText, Reply, ReplyView,
};
use crate::run::{
    agent_actions_failure, failure_reply, Batch, BatchView, FailureView, PhaseView,
};
use crate::text::join2;

verus! {

pub open spec fn invalid_fields(detail: Seq<char>) -> Seq<(Seq<char>, Seq<char>)> {
    seq![
        ("detail"@, json_string_text(detail)),
        ("error"@, json_string_text("invalid_actions_request"@)),
        ("ok"@, bool_text(false)),
        ("outcome"@, json_string_text("not_sent"@)),
        ("retry_safe"@, bool_text(true)),
    ]
}

pub open spec fn invalid_actions_reply(detail: Seq<char>) -> ReplyView {
    json_reply(400, object_text(invalid_fields(detail)))
}

/// The answer to a batch that was not understood; nothing was sent.
pub fn agent_actions_invalid(detail: &str) -> (reply: Reply)
    ensures
        reply@ == invalid_actions_reply(detail@),
{
    let body = ObjectText::new().text("detail", detail).text(
        "error",
        "invalid_actions_request",
    ).flag("ok", false).text("outcome", "not_sent").flag("retry_safe", true);
    assert(body.fields() =~= invalid_fields(detail@));
    Reply::json(400, body.finish())
}

/// The fields of a refusal that may be tried again, with or without a hint.
pub open spec fn unsent_fields(error: Seq<char>, hint: Option<Seq<char>>) -> Seq<
    (Seq<char>, Seq<char>),
> {
    let rest = seq![
        ("ok"@, bool_text(false)),
        ("outcome"@, json_string_text("not_sent"@)),
        ("retry_safe"@, bool_text(true)),
    ];
    match hint {
        Some(hint) => seq![
            ("error"@, json_string_text(error)),
            ("hint"@, json_string_text(hint)),
        ] + rest,
        None => seq![("error"@, json_string_text(error))] + rest,
    }
}

fn unsent(status: u16, error: &str, hint: Option<&str>) -> (reply: Reply)
    ensures
        reply@ == json_reply(
            status,
            object_text(
                unsent_fields(
                    error@,
                    match hint {
                        Some(hint) => Some(hint@),
                        None => None,
                    },
                ),
            ),
        ),
{
    let body = ObjectText::new().text("error", error);
    let body = match hint {
        Some(hint) => body.text("hint", hint),
        None => body,
    };
    let body = body.flag("ok", false).text("outcome", "not_sent").flag("retry_safe", true);
    assert(body.fields() =~= unsent_fields(
        error@,
        match hint {
            Some(hint) => Some(hint@),
            None => None,
        },
    ));
    Reply::json(status, body.finish())
}

/// Whether a request of so many bytes is read at all.
pub open spec fn size_allowed(size: nat) -> bool {
    size <= 65536
}

pub fn actions_size_allowed(size: usize) -> (allowed: bool)
    ensures
        allowed == size_allowed(size as nat),
{
    size <= 65536
}

/// The refusal of a batch, if there is one. `size` is the length of the request
/// in bytes, and `steps` is what was read of it, or why it could not be read.
pub open spec fn actions_refusal(
    size: nat,
    steps: Result<Seq<StepView>, Seq<char>>,
    facts: DeviceFacts,
) -> Option<ReplyView> {
    if !size_allowed(size) {
        Some(invalid_actions_reply("request body exceeds 65536 bytes"@))
    } else {
        match steps {
            Err(error) => Some(invalid_actions_reply("invalid JSON shape: "@ + error)),
            Ok(steps) => match batch_error(steps) {
                Some(error) => Some(invalid_actions_reply(error)),
                None => if !facts.direct {
                    Some(
                        json_reply(
                            409,
                            object_text(unsent_fields("batch_requires_direct_wda"@, None)),
                        ),
                    )
                } else if facts.pending {
                    Some(target_not_configured_reply())
                } else if facts.transition != WdaLifecycleTransition::Active || facts.released {
                    Some(
                        json_reply(
                            503,
                            object_text(
                                unsent_fields(
                                    "device_not_drivable"@,
                                    Some(
                                        "check /agent/status, reconnect the canonical Direct target if instructed, then retry only after drivable=true"@,
                                    ),
                                ),
                            ),
                        ),
                    )
                } else if !facts.has_runner {
                    Some(
                        json_reply(503, object_text(unsent_fields("wda_not_configured"@, None))),
                    )
                } else {
                    None
                },
            },
        }
    }
}

pub open spec fn read_steps(steps: Result<Vec<AgentActionStep>, String>) -> Result<
    Seq<StepView>,
    Seq<char>,
> {
    match steps {
        Ok(steps) => Ok(step_views(steps@)),
        Err(error) => Err(error@),
    }
}

/// Admits a batch, ready for its first step, or refuses it.
pub fn agent_actions(
    size: usize,
    steps: Result<Vec<AgentActionStep>, String>,
    facts: DeviceFacts,
) -> (admitted: Result<Batch, Reply>)
    ensures
        match admitted {
            Ok(batch) => {
                &&& actions_refusal(size as nat, read_steps(steps), facts) is None
                &&& read_steps(steps) == Ok::<Seq<StepView>, Seq<char>>(batch@.steps)
                &&& batch@ == (BatchView {
                    steps: batch@.steps,
                    index: 0,
                    applied: 0,
                    results: Seq::empty(),
                    phase: PhaseView::Gate,
                })
            },
            Err(reply) => actions_refusal(size as nat, read_steps(steps), facts) == Some(reply@),
        },
{
    if !actions_size_allowed(size) {
        return Err(agent_actions_invalid("request body exceeds 65536 bytes"));
    }
    let steps = match steps {
        Ok(steps) => steps,
        Err(error) => {
            let detail = join2("invalid JSON shape: ", error.as_str());
            return Err(agent_actions_invalid(detail.as_str()));
        },
    };
    let batch = match Batch::new(steps) {
        Ok(batch) => batch,
        Err(error) => {
            return Err(agent_actions_invalid(error.as_str()));
        },
    };
    if !facts.direct {
        return Err(unsent(409, "batch_requires_direct_wda", None));
    }
    if facts.pending {
        return Err(target_not_configured_response());
    }
    if facts.transition != WdaLifecycleTransition::Active || facts.released {
        return Err(
            unsent(
                503,
                "device_not_drivable",
                Some(
                    "check /agent/status, reconnect the canonical Direct target if instructed, then retry only after drivable=true",
                ),
            ),
        );
    }
    if !facts.has_runner {
        return Err(unsent(503, "wda_not_configured", None));
    }
    Ok(batch)
}

/// The answer where the runner could not be had in time.
pub fn actions_lock_timeout() -> (reply: Reply)
    ensures
        reply@ == failure_reply(
            0,
            0,
            Seq::empty(),
            (FailureView {
                status: 408,
                error: "batch_deadline"@,
                outcome: "not_sent"@,
                retry_safe: true,
                observation: None,
            }),
        ),
{
    let results: Vec<String> = Vec::new();
    assert(crate::reply::texts(results@) =~= Seq::empty());
    agent_actions_failure(408, 0, 0, "batch_deadline", "not_sent", true, &results, None)
}

/// How long a whole batch may take, in milliseconds.
pub open spec fn actions_deadline_ms() -> u64 {
    75000
}

/// The time by which a batch that starts now must be over.
pub fn actions_deadline(now: u64) -> (deadline: u64)
    requires
        now + actions_deadline_ms() <= u64::MAX,
    ensures
        deadline == now + actions_deadline_ms(),
{
    now + 75000
}

/// A request that is too long is refused as such, whatever could be read of it.
pub proof fn law_a_long_request_is_refused_unread(
    size: nat,
    steps: Result<Seq<StepView>, Seq<char>>,
    other: Result<Seq<StepView>, Seq<char>>,
    facts: DeviceFacts,
)
    requires
        !size_allowed(size),
    ensures
        actions_refusal(size, steps, facts) is Some,
        actions_refusal(size, steps, facts) == actions_refusal(size, other, facts),
{
}

/// A batch is admitted exactly where it is short enough, reads as a batch that
/// may be run, and goes to a phone that is reached directly, is configured, is in
/// nobody else's hands and has a runner. What is refused was not sent, and says
/// why: a request that is wrong before the state of the phone.
pub proof fn law_a_batch_is_admitted_only_to_a_phone_that_can_take_it(
    size: nat,
    steps: Result<Seq<StepView>, Seq<char>>,
    facts: DeviceFacts,
)
    ensures
        actions_refusal(size, steps, facts) is None <==> {
            &&& size <= 65536
            &&& steps is Ok
            &&& batch_error(steps->Ok_0) is None
            &&& facts.direct
            &&& !facts.pending
            &&& facts.transition is Active
            &&& !facts.released
            &&& facts.has_runner
        },
        size > 65536 || steps is Err || batch_error(steps->Ok_0) is Some ==> (actions_refusal(
            size,
            steps,
            facts,
        ) matches Some(r) && r.status == 400),
        size <= 65536 && steps is Ok && batch_error(steps->Ok_0) is None ==> {
            let r = actions_refusal(size, steps, facts);
            &&& !facts.direct ==> r->0.status == 409 && r->0.body == object_text(
                unsent_fields("batch_requires_direct_wda"@, None),
            )
            &&& facts.direct && facts.pending ==> r == Some(target_not_configured_reply())
            &&& facts.direct && !facts.pending && (facts.transition !is Active || facts.released)
                ==> r->0.status == 503 && r->0.body == object_text(
                unsent_fields(
                    "device_not_drivable"@,
                    Some(
                        "check /agent/status, reconnect the canonical Direct target if instructed, then retry only after drivable=true"@,
                    ),
                ),
            )
            &&& facts.direct && !facts.pending && facts.transition is Active && !facts.released
                && !facts.has_runner ==> r->0.status == 503 && r->0.body == object_text(
                unsent_fields("wda_not_configured"@, None),
            )
        },
        actions_deadline_ms() == 75000,
{
}

/// What is refused before anything was sent says so, that it is safe to send
/// again, and what is wrong with it.
pub proof fn law_a_refused_batch_was_not_sent(
    detail: Seq<char>,
    error: Seq<char>,
    hint: Option<Seq<char>>,
)
    ensures
        invalid_actions_reply(detail).status == 400,
        invalid_actions_reply(detail).body == object_text(invalid_fields(detail)),
        invalid_fields(detail).contains(("detail"@, json_string_text(detail))),
        invalid_fields(detail).contains(
            ("error"@, json_string_text("invalid_actions_request"@)),
        ),
        invalid_fields(detail).contains(("ok"@, "false"@)),
        invalid_fields(detail).contains(("outcome"@, json_string_text("not_sent"@))),
        invalid_fields(detail).contains(("retry_safe"@, "true"@)),
        unsent_fields(error, hint).contains(("error"@, json_string_text(error))),
        unsent_fields(error, hint).contains(("ok"@, "false"@)),
        unsent_fields(error, hint).contains(("outcome"@, json_string_text("not_sent"@))),
        unsent_fields(error, hint).contains(("retry_safe"@, "true"@)),
        hint matches Some(h) ==> unsent_fields(error, hint).contains(
            ("hint"@, json_string_text(h)),
        ),
{
    let f = invalid_fields(detail);
    assert(f[0] == ("detail"@, json_string_text(detail)));
    assert(f[1] == ("error"@, json_string_text("invalid_actions_request"@)));
    assert(f[2] == ("ok"@, bool_text(false)));
    assert(f[3] == ("outcome"@, json_string_text("not_sent"@)));
    assert(f[4] == ("retry_safe"@, bool_text(true)));
    let u = unsent_fields(error, hint);
    let k: int = if hint is Some {
        1
    } else {
        0
    };
    assert(u[0] == ("error"@, json_string_text(error)));
    if let Some(h) = hint {
        assert(u[1] == ("hint"@, json_string_text(h)));
    }
    assert(u[k + 1] == ("ok"@, bool_text(false)));
    assert(u[k + 2] == ("outcome"@, json_string_text("not_sent"@)));
    assert(u[k + 3] == ("retry_safe"@, bool_text(true)));
}

} // verus!
