//! The responder's decisions around the network calls: whether an inbound
//! message qualifies at all, which outbound messages a completion response
//! turns into, and what follows a send that failed.

use vstd::prelude::*;

use crate::model::{ChatMessage, Choice, ChoiceView, FetchRequest, OutboundMessage, OutboundView};

verus! {

/// How many of the channel's most recent messages the responder fetches as
/// the history window.
pub const HISTORY_FETCH_LIMIT: u64 = 8;

/// The event gate: decides whether the relay responds to an inbound message,
/// and with which history fetch the response starts. A message whose author
/// is an automated agent is discarded silently — no history fetch, no
/// completion call, no outbound send — which prevents response loops.
pub fn initial_action(message: &ChatMessage) -> (a: Option<FetchRequest>)
    ensures
        message.author_is_bot <==> a is None,
        !message.author_is_bot ==> a == Some(
            (FetchRequest { channel_id: message.channel_id, limit: HISTORY_FETCH_LIMIT }),
        ),
{
    if message.author_is_bot {
        None
    } else {
        Some(FetchRequest { channel_id: message.channel_id, limit: HISTORY_FETCH_LIMIT })
    }
}

/// The candidate texts of a completion response, in the order the choices
/// were returned; a choice without text content contributes nothing.
pub open spec fn texts_of(choices: Seq<ChoiceView>) -> Seq<Seq<char>>
    decreases choices.len(),
{
    if choices.len() == 0 {
        Seq::empty()
    } else {
        texts_of(choices.drop_last()) + (match choices.last().content {
            Some(t) => seq![t],
            None => Seq::<Seq<char>>::empty(),
        })
    }
}

/// The outbound messages a completion response turns into: one per choice
/// with text content, addressed to the triggering channel, in choice order.
pub open spec fn plan_of(channel_id: u64, choices: Seq<ChoiceView>) -> Seq<OutboundView> {
    texts_of(choices).map_values(|t: Seq<char>| OutboundView { channel_id, content: t })
}

/// Builds the outbound plan for a completion response: each choice that
/// carries text content becomes one outbound message in the triggering
/// channel, in the order the service returned the choices.
pub fn outbound_plan(channel_id: u64, choices: &Vec<Choice>) -> (plan: Vec<OutboundMessage>)
    ensures
        plan.deep_view() == plan_of(channel_id, choices.deep_view()),
{
    let ghost cv = choices.deep_view();
    let mut plan: Vec<OutboundMessage> = Vec::new();
    let mut i: usize = 0;
    while i < choices.len()
        invariant
            i <= choices.len(),
            cv == choices.deep_view(),
            plan.deep_view() == plan_of(channel_id, cv.take(i as int)),
        decreases choices.len() - i,
    {
        let ghost prev = plan.deep_view();
        match &choices[i].content {
            Some(text) => {
                plan.push(OutboundMessage { channel_id, content: text.clone() });
                proof {
                    assert(plan.deep_view() =~= prev.push(
                        OutboundView { channel_id, content: text@ },
                    ));
                }
            },
            None => {},
        }
        proof {
            assert(cv.take(i + 1).drop_last() =~= cv.take(i as int));
            assert(cv.take(i + 1).last() == cv[i as int]);
            assert(texts_of(cv.take(i + 1)) == texts_of(cv.take(i as int)) + (
            match cv[i as int].content {
                Some(t) => seq![t],
                None => Seq::<Seq<char>>::empty(),
            }));
            assert(plan.deep_view() =~= plan_of(channel_id, cv.take(i + 1)));
        }
        i = i + 1;
    }
    proof {
        assert(cv.take(choices.len() as int) =~= cv);
    }
    plan
}

/// What the send loop does after one outbound send completes.
#[derive(Clone, Copy, Debug, PartialEq, Eq, Structural)]
pub enum SendFollowUp {
    /// Go on to the next planned outbound message, logging a send error
    /// first when the send failed.
    Continue { log_error: bool },
    /// Give up on the remaining planned messages.
    Abort,
}

/// Decides the follow-up after one outbound send: a failed send is logged
/// and handling continues with the rest of the plan; the remaining sends are
/// never abandoned.
pub fn after_send(delivered: bool) -> (f: SendFollowUp)
    ensures
        f == (SendFollowUp::Continue { log_error: !delivered }),
{
    SendFollowUp::Continue { log_error: !delivered }
}

/// When every choice carries text content, the plan holds exactly one
/// outbound message per choice — to the triggering channel, with the
/// choice's text — in the order the choices were returned.
pub proof fn lemma_plan_sends_each_choice_in_order(channel_id: u64, choices: Seq<ChoiceView>)
    requires
        forall|i: int| 0 <= i < choices.len() ==> (#[trigger] choices[i].content) is Some,
    ensures
        plan_of(channel_id, choices).len() == choices.len(),
        forall|i: int|
            0 <= i < choices.len() ==> #[trigger] plan_of(channel_id, choices)[i] == (OutboundView {
                channel_id,
                content: choices[i].content->Some_0,
            }),
    decreases choices.len(),
{
    if choices.len() == 0 {
    } else {
        let prefix = choices.drop_last();
        lemma_plan_sends_each_choice_in_order(channel_id, prefix);
        assert(choices.last().content is Some);
        assert(plan_of(channel_id, choices) =~= plan_of(channel_id, prefix).push(
            OutboundView { channel_id, content: choices.last().content->Some_0 },
        ));
    }
}

/// Outbound planning is deterministic: identical completion responses for
/// the same channel yield identical plans.
pub proof fn lemma_plan_deterministic(
    channel_id: u64,
    c1: Seq<ChoiceView>,
    c2: Seq<ChoiceView>,
    p1: Seq<OutboundView>,
    p2: Seq<OutboundView>,
)
    requires
        c1 == c2,
        p1 == plan_of(channel_id, c1),
        p2 == plan_of(channel_id, c2),
    ensures
        p1 == p2,
{
}

} // verus!
