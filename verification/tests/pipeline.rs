use rpc_mux::Async;
use rpc_mux::ClientError;
use rpc_mux::DispatchError;
use rpc_mux::Drain;
use rpc_mux::DrainEnd;
use rpc_mux::FifoDispatcher;
use rpc_mux::PipelineClient;
use rpc_mux::RequestSender;

fn expect_ready(result: Result<Async<String>, ClientError<DispatchError<()>, ()>>) -> String {
    match result {
        Ok(Async::Ready(item)) => item,
        other => panic!("expected a ready response, got {:?}", other),
    }
}

#[test]
fn pipeline_client_simple_operation() {
    let mut client: PipelineClient<String> = PipelineClient::new();
    let mut wire: Vec<String> = Vec::new();

    let mut first_send = client.call("first request".to_string());
    let mut second_send = client.call("second request".to_string());

    wire.push(first_send.take_request().unwrap());
    let first_id = client.finish_send(&mut first_send);
    wire.push(second_send.take_request().unwrap());
    let second_id = client.finish_send(&mut second_send);

    assert_eq!(wire, vec!["first request".to_string(), "second request".to_string()]);

    let arrivals = Drain {
        items: vec!["first response".to_string(), "second response".to_string()],
        end: DrainEnd::Pending,
    };

    let first_result = expect_ready(client.poll_response::<(), ()>(first_id, arrivals));
    let second_result = expect_ready(client.poll_response::<(), ()>(second_id, Drain::empty()));

    assert_eq!(first_result, "first response");
    assert_eq!(second_result, "second response");
}

#[test]
fn inverted_join() {
    let mut client: PipelineClient<String> = PipelineClient::new();
    let mut wire: Vec<String> = Vec::new();

    let mut first_send = client.call("first request".to_string());
    let mut second_send = client.call("second request".to_string());

    wire.push(second_send.take_request().unwrap());
    let second_id = client.finish_send(&mut second_send);
    wire.push(first_send.take_request().unwrap());
    let first_id = client.finish_send(&mut first_send);

    assert_eq!(wire, vec!["second request".to_string(), "first request".to_string()]);

    let arrivals = Drain {
        items: vec!["first response".to_string(), "second response".to_string()],
        end: DrainEnd::Pending,
    };

    let second_result = expect_ready(client.poll_response::<(), ()>(second_id, arrivals));
    let first_result = expect_ready(client.poll_response::<(), ()>(first_id, Drain::empty()));

    assert_eq!(second_result, "first response");
    assert_eq!(first_result, "second response");
}

#[test]
fn waiting_before_arrival_is_not_ready() {
    let mut client: PipelineClient<String> = PipelineClient::new();

    let mut send = client.call("lone request".to_string());
    let _ = send.take_request().unwrap();
    let id = client.finish_send(&mut send);

    let pending = client.poll_response::<(), ()>(id, Drain::empty());
    assert_eq!(pending, Ok(Async::NotReady));

    let arrivals = Drain { items: vec!["lone response".to_string()], end: DrainEnd::Pending };
    assert_eq!(expect_ready(client.poll_response::<(), ()>(id, arrivals)), "lone response");
}

#[test]
fn retrieving_a_response_twice_fails_loudly() {
    let mut client: PipelineClient<String> = PipelineClient::new();

    let mut send = client.call("lone request".to_string());
    let _ = send.take_request().unwrap();
    let id = client.finish_send(&mut send);

    let arrivals = Drain { items: vec!["lone response".to_string()], end: DrainEnd::Pending };
    assert_eq!(expect_ready(client.poll_response::<(), ()>(id, arrivals)), "lone response");

    let again = client.poll_response::<(), ()>(id, Drain::empty());
    assert_eq!(again, Err(ClientError::ReceiveError(DispatchError::DuplicateRetrieval)));
}

#[test]
fn source_closing_while_pending_is_surfaced() {
    let mut client: PipelineClient<String> = PipelineClient::new();

    let mut send = client.call("lone request".to_string());
    let _ = send.take_request().unwrap();
    let id = client.finish_send(&mut send);

    let closing: Drain<String, ()> = Drain { items: Vec::new(), end: DrainEnd::Closed };
    let outcome = client.poll_response::<(), ()>(id, closing);
    assert_eq!(outcome, Err(ClientError::ReceiveError(DispatchError::ClosedWhilePending)));
}

#[test]
fn source_failure_reaches_only_the_polling_caller() {
    let mut dispatcher: FifoDispatcher<String> = FifoDispatcher::new();
    let first_id = dispatcher.spawn_receiver();
    let second_id = dispatcher.spawn_receiver();

    let failing = Drain {
        items: vec!["first response".to_string()],
        end: DrainEnd::Failed("connection reset"),
    };
    let outcome = dispatcher.poll(second_id, failing);
    assert_eq!(outcome, Err(DispatchError::SourceFailed("connection reset")));

    let retry: Drain<String, &str> = Drain::empty();
    assert_eq!(dispatcher.poll(first_id, retry), Ok(Async::Ready("first response".to_string())));
}

#[test]
fn fifo_ids_match_production_positions() {
    let mut dispatcher: FifoDispatcher<&str> = FifoDispatcher::new();
    let id_0 = dispatcher.spawn_receiver();
    let id_1 = dispatcher.spawn_receiver();
    let id_2 = dispatcher.spawn_receiver();
    assert_eq!((id_0, id_1, id_2), (0, 1, 2));

    let arrivals: Drain<&str, ()> =
        Drain { items: vec!["zeroth", "first", "second"], end: DrainEnd::Pending };
    assert_eq!(dispatcher.poll::<()>(id_1, arrivals), Ok(Async::Ready("first")));
    assert_eq!(dispatcher.poll::<()>(id_2, Drain::empty()), Ok(Async::Ready("second")));
    assert_eq!(dispatcher.poll::<()>(id_0, Drain::empty()), Ok(Async::Ready("zeroth")));
}

#[test]
fn a_rejected_write_is_retried_without_losing_the_request() {
    let mut sender: RequestSender<String, ()> = RequestSender::new("payload".to_string(), ());

    assert!(!sender.is_sent());
    let request = sender.take_request().unwrap();
    sender.restore_request(request);
    assert!(!sender.is_sent());

    let request = sender.take_request().unwrap();
    assert_eq!(request, "payload");
    assert!(sender.is_sent());
    assert!(!sender.is_completed());

    sender.finish();
    assert!(sender.is_completed());
}

#[test]
fn client_error_tags_keep_send_and_receive_failures_apart() {
    let send: ClientError<&str, &str> = ClientError::SendError("write failed");
    let receive: ClientError<&str, &str> = ClientError::ReceiveError("no reply");

    assert!(matches!(send, ClientError::SendError("write failed")));
    assert!(matches!(receive, ClientError::ReceiveError("no reply")));
    assert_ne!(send, ClientError::SendError("other"));
    assert_ne!(send, ClientError::ReceiveError("write failed"));
}
