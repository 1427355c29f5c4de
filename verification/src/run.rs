//! What holds of every run of an exchange, whatever the driver reports.

use vstd::prelude::*;
use crate::error::{is_error_status, ChatError};
use crate::exchange::{fresh, step, ActionView, EventView, ExchangeView, Stage};
use crate::outbound::post_for;
use crate::response::reply_of;

verus! {

/// The state of an exchange after it has taken `events` in order.
pub open spec fn state_after(state: ExchangeView, events: Seq<EventView>) -> ExchangeView
    decreases events.len(),
{
    if events.len() == 0 {
        state
    } else {
        state_after(step(state, events[0]).0, events.drop_first())
    }
}

/// The actions with which an exchange answers `events`, one for each, in order.
pub open spec fn actions_of(state: ExchangeView, events: Seq<EventView>) -> Seq<ActionView>
    decreases events.len(),
{
    if events.len() == 0 {
        Seq::empty()
    } else {
        seq![step(state, events[0]).1] + actions_of(step(state, events[0]).0, events.drop_first())
    }
}

/// How many of `actions` ask for the request to be sent.
pub open spec fn sends(actions: Seq<ActionView>) -> nat
    decreases actions.len(),
{
    if actions.len() == 0 {
        0
    } else if actions[0] is Send {
        1 + sends(actions.drop_first())
    } else {
        sends(actions.drop_first())
    }
}

/// How many of `actions` hand out a result.
pub open spec fn results(actions: Seq<ActionView>) -> nat
    decreases actions.len(),
{
    if actions.len() == 0 {
        0
    } else if actions[0] is Finish {
        1 + results(actions.drop_first())
    } else {
        results(actions.drop_first())
    }
}

/// Whether a credential is reported as found anywhere in `events`.
pub open spec fn credential_found(events: Seq<EventView>) -> bool {
    exists|i: int| 0 <= i < events.len() && events[i] is CredentialFound
}

/// An exchange that is over stays as it is and asks for nothing more.
pub proof fn lemma_over_is_final(state: ExchangeView, event: EventView)
    requires
        state.stage.is_terminal(),
    ensures
        step(state, event) == (state, ActionView::Nothing),
{
}

/// The request is asked to be sent only by an exchange that has not started
/// and is told its credential, and then it is the request for the prompt
/// under that credential.
pub proof fn lemma_send_needs_credential(state: ExchangeView, event: EventView)
    requires
        step(state, event).1 is Send,
    ensures
        state.stage == Stage::NotStarted,
        event matches EventView::CredentialFound(credential) && step(state, event).1
            == ActionView::Send(post_for(credential, state.prompt)),
{
}

/// Without a credential the exchange ends at once with `MissingCredential`,
/// and nothing is sent.
pub proof fn lemma_missing_credential_fails(prompt: Seq<char>)
    ensures
        actions_of(fresh(prompt), seq![EventView::CredentialMissing]) == seq![
            ActionView::Finish(Err(ChatError::MissingCredential)),
        ],
        state_after(fresh(prompt), seq![EventView::CredentialMissing]).stage == Stage::Failed,
{
    reveal_with_fuel(actions_of, 2);
    reveal_with_fuel(state_after, 2);
    let events = seq![EventView::CredentialMissing];
    assert(events.drop_first() =~= Seq::empty());
    assert(actions_of(fresh(prompt), events) =~= seq![
        ActionView::Finish(Err(ChatError::MissingCredential)),
    ]);
}

/// With a credential, the request for the prompt is sent. Where no response
/// comes back the exchange ends with `TransportError`; where the status is an
/// error it ends with `HttpStatus` and that code, and the body is not asked
/// for.
pub proof fn lemma_refused_exchange(prompt: Seq<char>, credential: Seq<char>, code: u16)
    ensures
        actions_of(
            fresh(prompt),
            seq![EventView::CredentialFound(credential), EventView::TransportFailed],
        ) == seq![
            ActionView::Send(post_for(credential, prompt)),
            ActionView::Finish(Err(ChatError::TransportError)),
        ],
        is_error_status(code) ==> actions_of(
            fresh(prompt),
            seq![EventView::CredentialFound(credential), EventView::StatusReceived(code)],
        ) == seq![
            ActionView::Send(post_for(credential, prompt)),
            ActionView::Finish(Err(ChatError::HttpStatus(code))),
        ],
{
    reveal_with_fuel(actions_of, 3);
    let found = EventView::CredentialFound(credential);
    let lost = seq![found, EventView::TransportFailed];
    assert(lost.drop_first() =~= seq![EventView::TransportFailed]);
    assert(lost.drop_first().drop_first() =~= Seq::empty());
    assert(actions_of(fresh(prompt), lost) =~= seq![
        ActionView::Send(post_for(credential, prompt)),
        ActionView::Finish(Err(ChatError::TransportError)),
    ]);
    if is_error_status(code) {
        let refused = seq![found, EventView::StatusReceived(code)];
        assert(refused.drop_first() =~= seq![EventView::StatusReceived(code)]);
        assert(refused.drop_first().drop_first() =~= Seq::empty());
        assert(actions_of(fresh(prompt), refused) =~= seq![
            ActionView::Send(post_for(credential, prompt)),
            ActionView::Finish(Err(ChatError::HttpStatus(code))),
        ]);
    }
}

/// With a credential and a status that is no error, the request is sent and
/// the body is asked for, and the body decides: lost on the way, the exchange
/// ends with `TransportError`; not of the expected shape, with
/// `MalformedResponse`; decoded, with the first choice's text or, where there
/// is no choice, with `NoChoices`.
pub proof fn lemma_accepted_exchange(
    prompt: Seq<char>,
    credential: Seq<char>,
    code: u16,
    body: EventView,
)
    requires
        !is_error_status(code),
        body is TransportFailed || body is BodyMalformed || body is BodyDecoded,
    ensures
        actions_of(
            fresh(prompt),
            seq![EventView::CredentialFound(credential), EventView::StatusReceived(code), body],
        ) == seq![
            ActionView::Send(post_for(credential, prompt)),
            ActionView::ReadBody,
            ActionView::Finish(
                match body {
                    EventView::BodyDecoded(choices) => reply_of(choices),
                    EventView::BodyMalformed => Err(ChatError::MalformedResponse),
                    _ => Err(ChatError::TransportError),
                },
            ),
        ],
        state_after(
            fresh(prompt),
            seq![EventView::CredentialFound(credential), EventView::StatusReceived(code), body],
        ).stage.is_terminal(),
{
    reveal_with_fuel(actions_of, 4);
    reveal_with_fuel(state_after, 4);
    let events = seq![
        EventView::CredentialFound(credential),
        EventView::StatusReceived(code),
        body,
    ];
    assert(events.drop_first() =~= seq![EventView::StatusReceived(code), body]);
    assert(events.drop_first().drop_first() =~= seq![body]);
    assert(events.drop_first().drop_first().drop_first() =~= Seq::empty());
    assert(actions_of(fresh(prompt), events) =~= seq![
        ActionView::Send(post_for(credential, prompt)),
        ActionView::ReadBody,
        ActionView::Finish(
            match body {
                EventView::BodyDecoded(choices) => reply_of(choices),
                EventView::BodyMalformed => Err(ChatError::MalformedResponse),
                _ => Err(ChatError::TransportError),
            },
        ),
    ]);
}

/// No run goes back to the start: once an exchange has left `NotStarted`, it
/// never asks for the request to be sent.
pub proof fn lemma_started_sends_nothing(state: ExchangeView, events: Seq<EventView>)
    requires
        state.stage != Stage::NotStarted,
    ensures
        sends(actions_of(state, events)) == 0,
        state_after(state, events).stage != Stage::NotStarted,
    decreases events.len(),
{
    if events.len() > 0 {
        let next = step(state, events[0]).0;
        let rest = actions_of(next, events.drop_first());
        lemma_started_sends_nothing(next, events.drop_first());
        assert(actions_of(state, events).drop_first() =~= rest);
    }
}

/// In every run the request is asked to be sent at most once: there is no
/// second call and no retry.
pub proof fn lemma_at_most_one_send(state: ExchangeView, events: Seq<EventView>)
    ensures
        sends(actions_of(state, events)) <= 1,
    decreases events.len(),
{
    if events.len() > 0 {
        let next = step(state, events[0]).0;
        let rest = actions_of(next, events.drop_first());
        assert(actions_of(state, events).drop_first() =~= rest);
        if step(state, events[0]).1 is Send {
            lemma_started_sends_nothing(next, events.drop_first());
        } else {
            lemma_at_most_one_send(next, events.drop_first());
        }
    }
}

/// A run in which no credential is reported as found asks for nothing to be
/// sent, whatever else is reported.
pub proof fn lemma_no_credential_no_send(state: ExchangeView, events: Seq<EventView>)
    requires
        !credential_found(events),
    ensures
        sends(actions_of(state, events)) == 0,
    decreases events.len(),
{
    if events.len() > 0 {
        let next = step(state, events[0]).0;
        let tail = events.drop_first();
        assert(actions_of(state, events).drop_first() =~= actions_of(next, tail));
        assert(!(events[0] is CredentialFound));
        assert(!credential_found(tail)) by {
            if credential_found(tail) {
                let i = choose|i: int| 0 <= i < tail.len() && tail[i] is CredentialFound;
                assert(events[i + 1] is CredentialFound);
            }
        }
        lemma_no_credential_no_send(next, tail);
    }
}

/// After an exchange is over, no run hands out a result.
pub proof fn lemma_over_yields_nothing(state: ExchangeView, events: Seq<EventView>)
    requires
        state.stage.is_terminal(),
    ensures
        results(actions_of(state, events)) == 0,
        state_after(state, events) == state,
    decreases events.len(),
{
    if events.len() > 0 {
        let tail = events.drop_first();
        assert(step(state, events[0]).0 == state);
        assert(actions_of(state, events).drop_first() =~= actions_of(state, tail));
        lemma_over_yields_nothing(state, tail);
    }
}

/// In every run a result is handed out at most once, and exactly when the
/// exchange comes to its end.
pub proof fn lemma_at_most_one_result(state: ExchangeView, events: Seq<EventView>)
    ensures
        results(actions_of(state, events)) <= 1,
        !state.stage.is_terminal() ==> (results(actions_of(state, events)) == 1
            <==> state_after(state, events).stage.is_terminal()),
    decreases events.len(),
{
    if events.len() > 0 {
        let next = step(state, events[0]).0;
        let tail = events.drop_first();
        assert(actions_of(state, events).drop_first() =~= actions_of(next, tail));
        if next.stage.is_terminal() {
            lemma_over_yields_nothing(next, tail);
        } else {
            lemma_at_most_one_result(next, tail);
        }
    }
}

} // verus!
