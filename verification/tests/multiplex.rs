use rpc_mux::Async;
use rpc_mux::ClientError;
use rpc_mux::DispatchError;
use rpc_mux::Drain;
use rpc_mux::DrainEnd;
use rpc_mux::MultiplexClient;
use rpc_mux::MultiplexDispatcher;

type Message = (u64, String);

fn message(id: u64, body: &str) -> Message {
    (id, body.to_string())
}

fn expect_ready(
    result: Result<Async<Message>, ClientError<DispatchError<()>, ()>>,
) -> Message {
    match result {
        Ok(Async::Ready(item)) => item,
        other => panic!("expected a ready response, got {:?}", other),
    }
}

#[test]
fn multiplex_client_simple_operation() {
    let mut client: MultiplexClient<Message> = MultiplexClient::new();
    let mut wire: Vec<Message> = Vec::new();

    let first_request = message(79, "first request");
    let second_request = message(1094, "second request");

    let mut first_send = client.call(first_request.clone());
    let mut second_send = client.call(second_request.clone());

    wire.push(first_send.take_request().unwrap());
    let first_id = client.finish_send(&mut first_send);
    wire.push(second_send.take_request().unwrap());
    let second_id = client.finish_send(&mut second_send);

    assert_eq!(wire, vec![first_request, second_request]);

    let first_response = message(79, "first response");
    let second_response = message(1094, "second response");
    let arrivals = Drain {
        items: vec![first_response.clone(), second_response.clone()],
        end: DrainEnd::Pending,
    };

    let first_result = expect_ready(client.poll_response::<(), ()>(first_id, arrivals));
    let second_result = expect_ready(client.poll_response::<(), ()>(second_id, Drain::empty()));

    assert_eq!(first_result, first_response);
    assert_eq!(second_result, second_response);
}

#[test]
fn inverted_joins() {
    let mut client: MultiplexClient<Message> = MultiplexClient::new();
    let mut wire: Vec<Message> = Vec::new();

    let first_request = message(79, "first request");
    let second_request = message(1094, "second request");

    let mut first_send = client.call(first_request.clone());
    let mut second_send = client.call(second_request.clone());

    wire.push(second_send.take_request().unwrap());
    let second_id = client.finish_send(&mut second_send);
    wire.push(first_send.take_request().unwrap());
    let first_id = client.finish_send(&mut first_send);

    assert_eq!(wire, vec![second_request, first_request]);

    let first_response = message(79, "first response");
    let second_response = message(1094, "second response");
    let arrivals = Drain {
        items: vec![first_response.clone(), second_response.clone()],
        end: DrainEnd::Pending,
    };

    let second_result = expect_ready(client.poll_response::<(), ()>(second_id, arrivals));
    let first_result = expect_ready(client.poll_response::<(), ()>(first_id, Drain::empty()));

    assert_eq!(first_result, first_response);
    assert_eq!(second_result, second_response);
}

#[test]
fn inverted_responses() {
    let mut client: MultiplexClient<Message> = MultiplexClient::new();
    let mut wire: Vec<Message> = Vec::new();

    let first_request = message(79, "first request");
    let second_request = message(1094, "second request");

    let mut first_send = client.call(first_request.clone());
    let mut second_send = client.call(second_request.clone());

    wire.push(first_send.take_request().unwrap());
    let first_id = client.finish_send(&mut first_send);
    wire.push(second_send.take_request().unwrap());
    let second_id = client.finish_send(&mut second_send);

    assert_eq!(wire, vec![first_request, second_request]);

    let first_response = message(79, "first response");
    let second_response = message(1094, "second response");
    let arrivals = Drain {
        items: vec![second_response.clone(), first_response.clone()],
        end: DrainEnd::Pending,
    };

    let first_result = expect_ready(client.poll_response::<(), ()>(first_id, arrivals));
    let second_result = expect_ready(client.poll_response::<(), ()>(second_id, Drain::empty()));

    assert_eq!(first_result, first_response);
    assert_eq!(second_result, second_response);
}

#[test]
fn each_caller_gets_the_response_with_its_own_id() {
    let mut dispatcher: MultiplexDispatcher<Message> = MultiplexDispatcher::new();

    let arrivals: Drain<Message, ()> = Drain {
        items: vec![message(3, "c"), message(1, "a"), message(2, "b")],
        end: DrainEnd::Pending,
    };
    assert_eq!(dispatcher.poll(2, arrivals), Ok(Async::Ready(message(2, "b"))));
    assert_eq!(dispatcher.poll::<()>(1, Drain::empty()), Ok(Async::Ready(message(1, "a"))));
    assert_eq!(dispatcher.poll::<()>(3, Drain::empty()), Ok(Async::Ready(message(3, "c"))));
    assert_eq!(dispatcher.poll::<()>(1, Drain::empty()), Ok(Async::NotReady));
}

#[test]
fn multiplex_source_closing_while_pending_is_surfaced() {
    let mut dispatcher: MultiplexDispatcher<Message> = MultiplexDispatcher::new();

    let closing: Drain<Message, ()> =
        Drain { items: vec![message(7, "kept")], end: DrainEnd::Closed };
    assert_eq!(dispatcher.poll(8, closing), Err(DispatchError::ClosedWhilePending));
    assert_eq!(dispatcher.poll::<()>(7, Drain::empty()), Ok(Async::Ready(message(7, "kept"))));
}

#[test]
fn multiplex_source_failure_reaches_only_the_polling_caller() {
    let mut dispatcher: MultiplexDispatcher<Message> = MultiplexDispatcher::new();

    let failing = Drain { items: vec![message(7, "kept")], end: DrainEnd::Failed("io error") };
    assert_eq!(dispatcher.poll(9, failing), Err(DispatchError::SourceFailed("io error")));

    let retry: Drain<Message, &str> = Drain::empty();
    assert_eq!(dispatcher.poll(7, retry), Ok(Async::Ready(message(7, "kept"))));
}

#[test]
fn a_late_duplicate_id_replaces_the_stored_item() {
    let mut dispatcher: MultiplexDispatcher<Message> = MultiplexDispatcher::new();

    let arrivals: Drain<Message, ()> = Drain {
        items: vec![message(5, "early"), message(5, "late")],
        end: DrainEnd::Pending,
    };
    assert_eq!(dispatcher.poll(5, arrivals), Ok(Async::Ready(message(5, "late"))));
}
