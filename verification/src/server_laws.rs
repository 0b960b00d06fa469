//! What holds of the connections: how a request is served from its bytes, how
//! a connection ends, and that connections do not touch one another.

use crate::dispatch::wrapped_sum;
use crate::dispatch_laws::{lemma_add_request_is_answered, lemma_echo_is_answered};
use crate::message::{AddRequest, AddResponse, EchoMessage};
use crate::message_laws::{lemma_echo_key, lemma_int32_field_len};
use crate::server::{ActionView, Client, Connection, EventView};
use vstd::prelude::*;
use vstd::utf8::*;

verus! {

/// An open connection that reads the bytes of an addition request answers with
/// the bytes of the sum and stays open. Where the sum of the two numbers fits
/// in 32 bits, it is the sum itself. The request with two zeros is left out:
/// it takes no bytes on the wire, and a read of no bytes is the peer's close.
pub proof fn lemma_add_request_is_served(message: AddRequest)
    requires
        message.a != 0 || message.b != 0,
    ensures
        Client::step(Connection::Open, EventView::Received(message.wire())) == (
            Connection::Open,
            ActionView::Reply(AddResponse { result: wrapped_sum(message.a, message.b) }.wire()),
        ),
        i32::MIN <= message.a + message.b <= i32::MAX ==> wrapped_sum(message.a, message.b)
            == message.a + message.b,
{
    lemma_add_request_is_answered(message);
    lemma_int32_field_len(1, message.a);
    lemma_int32_field_len(2, message.b);
}

/// An open connection that reads the bytes of an echo message answers with the
/// same bytes and stays open. The empty text is left out: it takes no bytes on
/// the wire.
pub proof fn lemma_echo_is_served(content: Seq<char>)
    requires
        content.len() > 0,
        encode_utf8(content).len() <= u64::MAX,
    ensures
        Client::step(Connection::Open, EventView::Received(EchoMessage::wire_of(content))) == (
            Connection::Open,
            ActionView::Reply(EchoMessage::wire_of(content)),
        ),
{
    lemma_echo_is_answered(content);
    lemma_echo_key(content);
}

/// When the peer closes, the connection ends in good order and sends nothing;
/// and a connection that has ended, in good order or not, stays ended and
/// never sends again, whatever is reported to it.
pub proof fn lemma_ended_is_silent(state: Connection, event: EventView)
    ensures
        Client::step(Connection::Open, EventView::Received(Seq::empty())) == (
            Connection::Closed,
            ActionView::Close,
        ),
        state == Connection::Closed ==> Client::step(state, event) == (
            Connection::Closed,
            ActionView::Close,
        ),
        state == Connection::Failed ==> Client::step(state, event) == (
            Connection::Failed,
            ActionView::Abort,
        ),
{
}

/// A connection's course over a run of events: the state it ends in and what
/// it asked for at each event, in order.
pub open spec fn course(state: Connection, events: Seq<EventView>) -> (
    Connection,
    Seq<ActionView>,
)
    decreases events.len(),
{
    if events.len() == 0 {
        (state, Seq::empty())
    } else {
        let (next, action) = Client::step(state, events[0]);
        let (last, actions) = course(next, events.drop_first());
        (last, seq![action] + actions)
    }
}

/// Every event gets one answer: a course has as many actions as events.
pub proof fn lemma_one_action_for_each_event(state: Connection, events: Seq<EventView>)
    ensures
        course(state, events).1.len() == events.len(),
    decreases events.len(),
{
    if events.len() > 0 {
        lemma_one_action_for_each_event(Client::step(state, events[0]).0, events.drop_first());
    }
}

/// After the peer's close nothing is sent: over any run of events, a
/// connection that has ended stays in the state it ended in and never asks to
/// reply.
pub proof fn lemma_ended_stays_silent(state: Connection, events: Seq<EventView>)
    requires
        state != Connection::Open,
    ensures
        course(state, events).0 == state,
        forall|i: int| 0 <= i < events.len() ==> !(#[trigger] course(state, events).1[i] is Reply),
    decreases events.len(),
{
    if events.len() > 0 {
        lemma_ended_is_silent(state, events[0]);
        lemma_ended_stays_silent(state, events.drop_first());
        lemma_one_action_for_each_event(state, events.drop_first());
        let rest = course(state, events.drop_first()).1;
        let all = course(state, events).1;
        assert forall|i: int| 0 <= i < events.len() implies !(#[trigger] all[i] is Reply) by {
            if i > 0 {
                assert(all[i] == rest[i - 1]);
            }
        }
    }
}

/// Echo messages sent one after the other over an open connection come back
/// one for one and in the order they were sent, and the connection stays
/// open. Each text must hold at least one character.
pub proof fn lemma_echoes_come_back_in_order(contents: Seq<Seq<char>>)
    requires
        forall|i: int|
            0 <= i < contents.len() ==> (#[trigger] contents[i]).len() > 0 && encode_utf8(
                contents[i],
            ).len() <= u64::MAX,
    ensures
        course(
            Connection::Open,
            contents.map_values(|text: Seq<char>| EventView::Received(EchoMessage::wire_of(text))),
        ) == (
            Connection::Open,
            contents.map_values(|text: Seq<char>| ActionView::Reply(EchoMessage::wire_of(text))),
        ),
    decreases contents.len(),
{
    let events = contents.map_values(
        |text: Seq<char>| EventView::Received(EchoMessage::wire_of(text)),
    );
    let replies = contents.map_values(
        |text: Seq<char>| ActionView::Reply(EchoMessage::wire_of(text)),
    );
    if contents.len() == 0 {
        assert(replies =~= Seq::empty());
    } else {
        let later = contents.drop_first();
        lemma_echo_is_served(contents[0]);
        assert forall|i: int| 0 <= i < later.len() implies (#[trigger] later[i]).len() > 0
            && encode_utf8(later[i]).len() <= u64::MAX by {
            assert(later[i] == contents[i + 1]);
        }
        lemma_echoes_come_back_in_order(later);
        assert(events.drop_first() =~= later.map_values(
            |text: Seq<char>| EventView::Received(EchoMessage::wire_of(text)),
        ));
        assert(replies =~= seq![replies[0]] + later.map_values(
            |text: Seq<char>| ActionView::Reply(EchoMessage::wire_of(text)),
        ));
    }
}

/// The states of all connections at one moment, after the event reaches the
/// connection at `index`, and what that connection is to do.
pub open spec fn deliver(connections: Seq<Connection>, index: int, event: EventView) -> (
    Seq<Connection>,
    ActionView,
) {
    let (state, action) = Client::step(connections[index], event);
    (connections.update(index, state), action)
}

/// Connections are independent. An event on one connection leaves every other
/// connection as it was; and where two connections each get an event, each is
/// told to do the same, and both end in the same state, whichever of the two
/// events comes first.
pub proof fn lemma_connections_are_independent(
    connections: Seq<Connection>,
    first: int,
    first_event: EventView,
    second: int,
    second_event: EventView,
)
    requires
        0 <= first < connections.len(),
        0 <= second < connections.len(),
        first != second,
    ensures
        deliver(connections, first, first_event).0[second] == connections[second],
        deliver(deliver(connections, first, first_event).0, second, second_event).1 == deliver(
            connections,
            second,
            second_event,
        ).1,
        deliver(deliver(connections, second, second_event).0, first, first_event).1 == deliver(
            connections,
            first,
            first_event,
        ).1,
        deliver(deliver(connections, first, first_event).0, second, second_event).0 == deliver(
            deliver(connections, second, second_event).0,
            first,
            first_event,
        ).0,
{
    let one = deliver(deliver(connections, first, first_event).0, second, second_event).0;
    let other = deliver(deliver(connections, second, second_event).0, first, first_event).0;
    assert(one =~= other);
}

} // verus!
