//! The dispatcher: what happens to one incoming message, step by step.
//!
//! A message passes through up to three steps. It is matched against the
//! registry; for a recognised command the reply is built, once the planet
//! has its identifier; the reply is sent, and the platform's answer ends the
//! dispatch. The dispatcher does none of the outside work itself. Each step
//! says what it waits for, and the caller comes back with it:
//!
//! * [`Dispatcher::handle`] takes the message,
//! * [`Building::supply`] takes the planet's identifier,
//! * [`Sending::finish`] takes the platform's answer to the send.
//!
//! Between two messages the dispatcher holds nothing but its registry, which
//! it never changes.

use crate::command::{
    lemma_standard_lookup, lookup, standard_bindings, Binding, Command, TriggerRegistry,
    NEW_PLANET_TRIGGER,
};
use crate::error::{DispatchError, DispatchErrorView};
use crate::event::{MessageEvent, MessageEventView};
use crate::ids::ChannelId;
use crate::response::{
    announcement, build, planet_id_usable, planet_id_view, reply_to, OutboundPayload,
    OutboundPayloadView,
};
use vstd::prelude::*;

verus! {

/// How the dispatch of a message ended, where it ended well.
#[derive(Clone, Copy, Debug, PartialEq, Eq, Hash, Structural)]
pub enum Outcome {
    /// The message was no command. Nothing was sent.
    NoAction,
    /// The reply was sent, and the platform took it.
    Delivered,
}

/// How the dispatch of a message ended.
pub type DeliveryResult = Result<Outcome, DispatchError>;

/// A [`DeliveryResult`] as contracts see it.
pub open spec fn result_view(result: DeliveryResult) -> Result<Outcome, DispatchErrorView> {
    match result {
        Ok(outcome) => Ok(outcome),
        Err(error) => Err(error@),
    }
}

/// The platform's answer to a send as contracts see it: `Ok`, or what the
/// transport said of the failure.
pub open spec fn answer_view(answer: Result<(), String>) -> Result<(), Seq<char>> {
    match answer {
        Ok(_) => Ok(()),
        Err(detail) => Err(detail@),
    }
}

/// A recognised command that waits for its planet's identifier.
#[derive(Debug)]
pub struct Building {
    command: Command,
    source_channel: ChannelId,
}

/// A reply that is being sent and waits for the platform's answer.
#[derive(Debug)]
pub struct Sending {
    payload: OutboundPayload,
}

/// Where the dispatch of a message stands after a step.
#[derive(Debug)]
pub enum Step {
    /// The dispatch is over, with this result.
    Finished(DeliveryResult),
    /// A command was recognised. The caller has the planet registered and
    /// calls [`Building::supply`] with its identifier.
    AwaitPlanet(Building),
    /// The reply is built. The caller sends [`Sending::payload`] and calls
    /// [`Sending::finish`] with the platform's answer.
    AwaitSend(Sending),
}

/// What a [`Step`] holds, for use in contracts.
pub enum StepView {
    /// See [`Step::Finished`].
    Finished(Result<Outcome, DispatchErrorView>),
    /// See [`Step::AwaitPlanet`]: the command, and the channel it came from.
    AwaitPlanet { command: Command, source_channel: ChannelId },
    /// See [`Step::AwaitSend`]: the reply to send.
    AwaitSend(OutboundPayloadView),
}

impl View for Step {
    type V = StepView;

    open spec fn view(&self) -> StepView {
        match self {
            Step::Finished(result) => StepView::Finished(result_view(*result)),
            Step::AwaitPlanet(building) => StepView::AwaitPlanet {
                command: building.command(),
                source_channel: building.source_channel(),
            },
            Step::AwaitSend(sending) => StepView::AwaitSend(sending.payload_view()),
        }
    }
}

/// The step that follows the arrival of `event`: a message that activates no
/// command ends its dispatch at once, with [`Outcome::NoAction`]; a command
/// waits for its planet.
pub open spec fn on_event(bindings: Seq<Binding>, event: MessageEventView) -> StepView {
    match lookup(bindings, event.content) {
        None => StepView::Finished(Ok(Outcome::NoAction)),
        Some(command) => StepView::AwaitPlanet { command, source_channel: event.channel_id },
    }
}

/// The step that follows the planet's identifier: the send of the reply, or
/// the end of the dispatch where no reply can be built.
pub open spec fn on_planet(
    command: Command,
    source_channel: ChannelId,
    planet_id: Option<Seq<char>>,
) -> StepView {
    match reply_to(command, source_channel, planet_id) {
        Ok(payload) => StepView::AwaitSend(payload),
        Err(error) => StepView::Finished(Err(error)),
    }
}

/// How a dispatch ends on the platform's answer to the send: delivered, or
/// failed with the transport's own words. Nothing is tried again.
pub open spec fn on_answer(answer: Result<(), Seq<char>>) -> Result<Outcome, DispatchErrorView> {
    match answer {
        Ok(_) => Ok(Outcome::Delivered),
        Err(detail) => Err(DispatchErrorView::DeliveryFailure(detail)),
    }
}

impl Building {
    /// The recognised command.
    pub closed spec fn command(&self) -> Command {
        self.command
    }

    /// The channel the command came from.
    pub closed spec fn source_channel(&self) -> ChannelId {
        self.source_channel
    }

    /// Builds the reply for the planet `planet_id` and goes on to send it. An
    /// identifier that is unset or empty ends the dispatch with
    /// [`DispatchError::InvalidPayload`], and nothing is sent.
    pub fn supply(self, planet_id: Option<&str>) -> (step: Step)
        ensures
            step@ == on_planet(self.command(), self.source_channel(), planet_id_view(planet_id)),
            step is AwaitSend <==> planet_id_usable(planet_id_view(planet_id)),
            !(step is AwaitPlanet),
    {
        match build(self.command, self.source_channel, planet_id) {
            Ok(payload) => Step::AwaitSend(Sending { payload }),
            Err(error) => Step::Finished(Err(error)),
        }
    }
}

impl Sending {
    /// The reply that is being sent.
    pub closed spec fn payload_view(&self) -> OutboundPayloadView {
        self.payload@
    }

    /// The reply to send.
    pub fn payload(&self) -> (payload: &OutboundPayload)
        ensures
            payload@ == self.payload_view(),
            payload@.channel_id.is_valid(),
    {
        proof {
            use_type_invariant(&self.payload);
        }
        &self.payload
    }

    /// Ends the dispatch on the platform's answer to the send. A failure is
    /// handed on as [`DispatchError::DeliveryFailure`], with the transport's
    /// words unchanged.
    pub fn finish(self, answer: Result<(), String>) -> (result: DeliveryResult)
        ensures
            result_view(result) == on_answer(answer_view(answer)),
    {
        match answer {
            Ok(_) => Ok(Outcome::Delivered),
            Err(detail) => Err(DispatchError::DeliveryFailure(detail)),
        }
    }
}

/// Takes the incoming messages, one after the other.
///
/// The registry is handed over when the dispatcher is made and only read from
/// then on: no method changes a dispatcher.
pub struct Dispatcher {
    registry: TriggerRegistry,
}

impl Dispatcher {
    /// The triggers this dispatcher answers to.
    pub closed spec fn bindings(&self) -> Seq<Binding> {
        self.registry@
    }

    /// A dispatcher that answers to the triggers of `registry`.
    pub fn new(registry: TriggerRegistry) -> (dispatcher: Dispatcher)
        ensures
            dispatcher.bindings() == registry@,
    {
        Dispatcher { registry }
    }

    /// A dispatcher that answers to the standard triggers.
    pub fn standard() -> (dispatcher: Dispatcher)
        ensures
            dispatcher.bindings() == standard_bindings(),
    {
        Dispatcher { registry: TriggerRegistry::standard() }
    }

    /// The registry of this dispatcher.
    pub fn registry(&self) -> (registry: &TriggerRegistry)
        ensures
            registry@ == self.bindings(),
    {
        &self.registry
    }

    /// Takes one incoming message and matches it. A message that activates no
    /// command is done with; for a command, the caller is asked for the
    /// planet's identifier.
    pub fn handle(&self, event: MessageEvent) -> (step: Step)
        ensures
            step@ == on_event(self.bindings(), event@),
            !(step is AwaitSend),
    {
        match self.registry.match_event(&event) {
            None => Step::Finished(Ok(Outcome::NoAction)),
            Some(command) => Step::AwaitPlanet(
                Building { command, source_channel: event.channel_id() },
            ),
        }
    }
}

/// One message with all that the outside answers while it is dispatched.
pub struct Turn {
    /// The message.
    pub event: MessageEventView,
    /// The identifier that the planet gets, should the message be a command.
    pub planet_id: Option<Seq<char>>,
    /// The platform's answer, should a reply be sent.
    pub answer: Result<(), Seq<char>>,
}

/// What came of one message.
pub struct Record {
    /// The reply that was handed to the platform, if one was.
    pub sent: Option<OutboundPayloadView>,
    /// How the dispatch ended.
    pub result: Result<Outcome, DispatchErrorView>,
}

/// What comes of the message of `turn` under `bindings`: matched, built and
/// sent in one.
pub open spec fn dispatch(bindings: Seq<Binding>, turn: Turn) -> Record {
    match lookup(bindings, turn.event.content) {
        None => Record { sent: None, result: Ok(Outcome::NoAction) },
        Some(command) => match reply_to(command, turn.event.channel_id, turn.planet_id) {
            Err(error) => Record { sent: None, result: Err(error) },
            Ok(payload) => Record { sent: Some(payload), result: on_answer(turn.answer) },
        },
    }
}

/// The sends that the platform sees while `turns` are dispatched one after
/// the other, in the order in which it sees them.
pub open spec fn sends(bindings: Seq<Binding>, turns: Seq<Turn>) -> Seq<OutboundPayloadView>
    decreases turns.len(),
{
    if turns.len() == 0 {
        Seq::empty()
    } else {
        let earlier = sends(bindings, turns.drop_last());
        match dispatch(bindings, turns.last()).sent {
            Some(payload) => earlier.push(payload),
            None => earlier,
        }
    }
}

/// Whether two runs see the same messages and planet identifiers, whatever
/// the platform answers in each.
pub open spec fn same_arrivals(a: Seq<Turn>, b: Seq<Turn>) -> bool {
    &&& a.len() == b.len()
    &&& forall|i: int|
        0 <= i < a.len() ==> (#[trigger] a[i]).event == b[i].event && a[i].planet_id
            == b[i].planet_id
}

/// The three steps of a dispatch, taken one after the other, come to what
/// [`dispatch`] says: a send is made exactly where the second step asks for
/// one, with the payload it names, and the result is that of the step at
/// which the dispatch ended.
pub proof fn lemma_dispatch_by_steps(bindings: Seq<Binding>, turn: Turn)
    ensures
        on_event(bindings, turn.event) matches StepView::Finished(result) ==> dispatch(
            bindings,
            turn,
        ) == (Record { sent: None, result }),
        on_event(bindings, turn.event) matches StepView::AwaitPlanet { command, source_channel }
            ==> match on_planet(command, source_channel, turn.planet_id) {
            StepView::Finished(result) => dispatch(bindings, turn) == (Record {
                sent: None,
                result,
            }),
            StepView::AwaitSend(payload) => dispatch(bindings, turn) == (Record {
                sent: Some(payload),
                result: on_answer(turn.answer),
            }),
            StepView::AwaitPlanet { .. } => false,
        },
        !(on_event(bindings, turn.event) is AwaitSend),
{
}

/// A message that activates no command is not answered: nothing is sent,
/// and the dispatch ends with [`Outcome::NoAction`].
pub proof fn lemma_unmatched_sends_nothing(bindings: Seq<Binding>, turn: Turn)
    requires
        lookup(bindings, turn.event.content) is None,
    ensures
        dispatch(bindings, turn) == (Record { sent: None, result: Ok(Outcome::NoAction) }),
        sends(bindings, seq![turn]) == Seq::<OutboundPayloadView>::empty(),
{
    assert(seq![turn].drop_last() =~= Seq::<Turn>::empty());
    assert(seq![turn].last() == turn);
    assert(sends(bindings, Seq::<Turn>::empty()) == Seq::<OutboundPayloadView>::empty());
}

/// Under the standard registry, every message whose text is not exactly
/// [`NEW_PLANET_TRIGGER`] is left unanswered.
pub proof fn lemma_other_text_sends_nothing(turn: Turn)
    requires
        turn.event.content != NEW_PLANET_TRIGGER@,
    ensures
        lookup(standard_bindings(), turn.event.content) is None,
        on_event(standard_bindings(), turn.event) == StepView::Finished(Ok(Outcome::NoAction)),
        dispatch(standard_bindings(), turn) == (Record {
            sent: None,
            result: Ok(Outcome::NoAction),
        }),
{
    lemma_standard_lookup(turn.event.content);
}

/// Without a usable planet identifier nothing is sent, whatever the message:
/// a command ends with [`DispatchErrorView::InvalidPayload`], anything else
/// with [`Outcome::NoAction`].
pub proof fn lemma_unusable_planet_sends_nothing(bindings: Seq<Binding>, turn: Turn)
    requires
        !planet_id_usable(turn.planet_id),
    ensures
        dispatch(bindings, turn).sent is None,
        lookup(bindings, turn.event.content) is Some ==> dispatch(bindings, turn).result == Err::<
            Outcome,
            DispatchErrorView,
        >(DispatchErrorView::InvalidPayload),
        lookup(bindings, turn.event.content) is None ==> dispatch(bindings, turn).result == Ok::<
            Outcome,
            DispatchErrorView,
        >(Outcome::NoAction),
{
}

/// Under the standard registry, a message whose text is exactly
/// [`NEW_PLANET_TRIGGER`] is answered on the channel it came from with the
/// announcement of the planet, provided the planet's identifier is usable;
/// the dispatch then ends as the platform's answer says.
pub proof fn lemma_new_planet_is_announced(turn: Turn)
    requires
        turn.event.content == NEW_PLANET_TRIGGER@,
        planet_id_usable(turn.planet_id),
    ensures
        lookup(standard_bindings(), turn.event.content) == Some(Command::NewPlanet),
        dispatch(standard_bindings(), turn).sent == Some(
            OutboundPayloadView {
                channel_id: turn.event.channel_id,
                content: announcement(turn.planet_id->0),
            },
        ),
        dispatch(standard_bindings(), turn).result == on_answer(turn.answer),
{
    lemma_standard_lookup(turn.event.content);
}

/// The platform sees the sends of a run in the order in which the messages
/// arrived: those of an earlier stretch of the run come before those of a
/// later one.
pub proof fn lemma_sends_follow_arrival(bindings: Seq<Binding>, earlier: Seq<Turn>, later: Seq<Turn>)
    ensures
        sends(bindings, earlier + later) == sends(bindings, earlier) + sends(bindings, later),
    decreases later.len(),
{
    if later.len() == 0 {
        assert(earlier + later =~= earlier);
        assert(sends(bindings, earlier) + sends(bindings, later) =~= sends(bindings, earlier));
    } else {
        let whole = earlier + later;
        assert(whole.drop_last() =~= earlier + later.drop_last());
        assert(whole.last() == later.last());
        lemma_sends_follow_arrival(bindings, earlier, later.drop_last());
        let front = sends(bindings, earlier);
        let back = sends(bindings, later.drop_last());
        match dispatch(bindings, later.last()).sent {
            Some(payload) => {
                assert((front + back).push(payload) =~= front + back.push(payload));
            },
            None => {},
        }
    }
}

/// A run of one message makes the send of that message, if it makes one.
pub proof fn lemma_sends_of_one(bindings: Seq<Binding>, turn: Turn)
    ensures
        sends(bindings, seq![turn]) == match dispatch(bindings, turn).sent {
            Some(payload) => seq![payload],
            None => Seq::<OutboundPayloadView>::empty(),
        },
{
    assert(seq![turn].drop_last() =~= Seq::<Turn>::empty());
    assert(seq![turn].last() == turn);
    assert(sends(bindings, Seq::<Turn>::empty()) == Seq::<OutboundPayloadView>::empty());
    match dispatch(bindings, turn).sent {
        Some(payload) => {
            assert(Seq::<OutboundPayloadView>::empty().push(payload) =~= seq![payload]);
        },
        None => {},
    }
}

/// Two commands that arrive one after the other are answered one after the
/// other: the platform sees the reply to the first, then the reply to the
/// second, and nothing else.
pub proof fn lemma_two_commands_in_order(bindings: Seq<Binding>, first: Turn, second: Turn)
    requires
        lookup(bindings, first.event.content) is Some,
        lookup(bindings, second.event.content) is Some,
        planet_id_usable(first.planet_id),
        planet_id_usable(second.planet_id),
    ensures
        dispatch(bindings, first).sent is Some,
        dispatch(bindings, second).sent is Some,
        sends(bindings, seq![first, second]) == seq![
            dispatch(bindings, first).sent->0,
            dispatch(bindings, second).sent->0,
        ],
{
    lemma_sends_of_one(bindings, first);
    lemma_sends_of_one(bindings, second);
    lemma_sends_follow_arrival(bindings, seq![first], seq![second]);
    assert(seq![first, second] =~= seq![first] + seq![second]);
    assert(seq![dispatch(bindings, first).sent->0] + seq![dispatch(bindings, second).sent->0]
        =~= seq![dispatch(bindings, first).sent->0, dispatch(bindings, second).sent->0]);
}

/// What is sent does not depend on what the platform answered: two runs with
/// the same messages and planet identifiers make the same sends, however the
/// sends of either went.
pub proof fn lemma_sends_ignore_answers(bindings: Seq<Binding>, a: Seq<Turn>, b: Seq<Turn>)
    requires
        same_arrivals(a, b),
    ensures
        sends(bindings, a) == sends(bindings, b),
    decreases a.len(),
{
    if a.len() > 0 {
        assert(a.last().event == b.last().event && a.last().planet_id == b.last().planet_id);
        assert forall|i: int| 0 <= i < a.drop_last().len() implies (#[trigger] a.drop_last()[i]).event
            == b.drop_last()[i].event && a.drop_last()[i].planet_id == b.drop_last()[i].planet_id by {
            assert(a[i].event == b[i].event && a[i].planet_id == b[i].planet_id);
        }
        lemma_sends_ignore_answers(bindings, a.drop_last(), b.drop_last());
    }
}

/// A failed send is the failure of its own message alone. Where the send for
/// `failed` fails, that dispatch ends with the transport's words as a
/// [`DispatchErrorView::DeliveryFailure`]; the command `next` that arrives
/// afterwards is answered as if the failure had not happened: its reply is
/// sent, behind the one that failed, and its dispatch ends as its own answer
/// says.
pub proof fn lemma_failure_is_contained(
    bindings: Seq<Binding>,
    failed: Turn,
    next: Turn,
    detail: Seq<char>,
)
    requires
        lookup(bindings, failed.event.content) is Some,
        planet_id_usable(failed.planet_id),
        failed.answer == Err::<(), Seq<char>>(detail),
        lookup(bindings, next.event.content) is Some,
        planet_id_usable(next.planet_id),
    ensures
        dispatch(bindings, failed).result == Err::<Outcome, DispatchErrorView>(
            DispatchErrorView::DeliveryFailure(detail),
        ),
        dispatch(bindings, next).sent == reply_to(
            lookup(bindings, next.event.content)->0,
            next.event.channel_id,
            next.planet_id,
        ).ok(),
        dispatch(bindings, next).sent is Some,
        dispatch(bindings, next).result == on_answer(next.answer),
        sends(bindings, seq![failed, next]) == seq![
            dispatch(bindings, failed).sent->0,
            dispatch(bindings, next).sent->0,
        ],
{
    lemma_two_commands_in_order(bindings, failed, next);
}

} // verus!
