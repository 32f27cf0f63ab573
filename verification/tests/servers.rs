use rpc_mux::Async;
use rpc_mux::MultiplexListeningServer;
use rpc_mux::MultiplexServer;
use rpc_mux::PipelineListeningServer;
use rpc_mux::PipelineServer;
use rpc_mux::ListeningServerError;
use rpc_mux::ResponseQueue;
use rpc_mux::ServerError;

type PlainServerError = ServerError<(), (), ()>;

#[test]
fn pipeline_server_simple_operation() {
    let mut server: PipelineServer<String> = PipelineServer::new();

    let first_request = "first request";
    let second_request = "second request";
    let tokens = server.poll_requests(2, true);
    assert_eq!(tokens, vec![0, 1]);

    for (token, request) in tokens.iter().zip([first_request, second_request]) {
        assert!(server.is_completable(*token));
        server.complete(*token, request.to_uppercase());
    }
    server.poll_responses::<(), (), ()>().unwrap();

    assert_eq!(server.next_response(), Some("FIRST REQUEST".to_string()));
    assert_eq!(server.next_response(), Some("SECOND REQUEST".to_string()));
    assert_eq!(server.next_response(), None);
    assert!(server.is_finished_now());
}

#[test]
fn pipeline_server_holds_back_early_completions() {
    let mut server: PipelineServer<String> = PipelineServer::new();

    let tokens = server.poll_requests(2, true);

    server.complete(tokens[1], "SECOND REQUEST".to_string());
    server.poll_responses::<(), (), ()>().unwrap();
    assert_eq!(server.next_response(), None);
    assert!(matches!(server.poll_sender(), Async::NotReady));

    server.complete(tokens[0], "FIRST REQUEST".to_string());
    server.poll_responses::<(), (), ()>().unwrap();
    assert_eq!(server.next_response(), Some("FIRST REQUEST".to_string()));
    assert_eq!(server.next_response(), Some("SECOND REQUEST".to_string()));
    assert!(matches!(server.poll_sender(), Async::Ready(())));
    assert!(server.is_finished_now());
}

#[test]
fn multiplex_server_simple_operation() {
    let mut server: MultiplexServer<String> = MultiplexServer::new();

    let first_request = "first request";
    let second_request = "second request";
    let tokens = server.poll_requests(2, true);

    for (token, request) in tokens.iter().zip([first_request, second_request]) {
        server.complete(*token, request.to_uppercase());
    }
    server.poll_responses::<(), (), ()>().unwrap();

    assert_eq!(server.next_response(), Some("FIRST REQUEST".to_string()));
    assert_eq!(server.next_response(), Some("SECOND REQUEST".to_string()));
    assert!(server.is_finished_now());
}

#[test]
fn complex_operation() {
    let mut server: MultiplexServer<String> = MultiplexServer::new();

    let first_request_data = "first_request";
    let second_request_data = "second_request";
    let tokens = server.poll_requests(2, true);

    server.complete(tokens[1], second_request_data.to_uppercase());
    server.poll_responses::<(), (), ()>().unwrap();
    server.complete(tokens[0], first_request_data.to_uppercase());
    server.poll_responses::<(), (), ()>().unwrap();

    assert_eq!(server.next_response(), Some("SECOND_REQUEST".to_string()));
    assert_eq!(server.next_response(), Some("FIRST_REQUEST".to_string()));
    assert!(server.is_finished_now());
}

#[test]
fn shutdown_closes_the_queue_only_after_everything_is_emitted() {
    let mut server: PipelineServer<String> = PipelineServer::new();

    let tokens = server.poll_requests(1, true);
    server.poll_responses::<(), (), ()>().unwrap();
    assert!(matches!(server.poll_sender(), Async::NotReady));
    assert!(!server.is_finished_now());

    server.complete(tokens[0], "done".to_string());
    server.poll_responses::<(), (), ()>().unwrap();
    assert!(matches!(server.poll_sender(), Async::NotReady));

    assert_eq!(server.next_response(), Some("done".to_string()));
    assert!(matches!(server.poll_sender(), Async::Ready(())));
    assert!(server.is_finished_now());
}

#[test]
fn a_response_after_the_queue_closed_reports_connection_closed() {
    let mut server: MultiplexServer<String> = MultiplexServer::new();

    server.poll_requests(0, true);
    server.poll_responses::<(), (), ()>().unwrap();
    assert!(matches!(server.poll_sender(), Async::Ready(())));

    let tokens = server.poll_requests(1, false);
    server.complete(tokens[0], "too late".to_string());
    let outcome: Result<(), PlainServerError> = server.poll_responses();
    assert!(matches!(outcome, Err(ServerError::ConnectionClosed)));
}

#[test]
fn an_input_error_maps_to_a_distinct_server_error_tag() {
    let receive: PlainServerError = ServerError::ReceiveError(());
    let service: PlainServerError = ServerError::ServiceError(());
    let send: PlainServerError = ServerError::SendError(());

    assert!(matches!(receive, ServerError::ReceiveError(())));
    assert!(matches!(service, ServerError::ServiceError(())));
    assert!(matches!(send, ServerError::SendError(())));
    assert_ne!(receive, service);
    assert_ne!(service, send);
    assert_ne!(receive, send);
}

#[test]
fn listening_server_runs_each_connection_to_completion() {
    let mut listener: PipelineListeningServer<String> = PipelineListeningServer::new();

    let (indices, status) = listener.poll(2, false);
    assert_eq!(indices, vec![0, 1]);
    assert!(matches!(status, Async::NotReady));
    assert_eq!(listener.server_count(), 2);

    for index in indices {
        let server = listener.server_at(index);
        let tokens = server.poll_requests(1, true);
        server.complete(tokens[0], format!("reply {}", index));
        server.poll_responses::<(), (), ()>().unwrap();
        assert_eq!(server.next_response(), Some(format!("reply {}", index)));
    }

    let (later, status) = listener.poll(0, true);
    assert!(later.is_empty());
    assert!(matches!(status, Async::Ready(())));
}

#[test]
fn listening_server_waits_for_unfinished_connections() {
    let mut listener: MultiplexListeningServer<String> = MultiplexListeningServer::new();

    let (indices, _) = listener.poll(1, true);
    let index = indices[0];

    let (_, status) = listener.poll(0, true);
    assert!(matches!(status, Async::NotReady));

    let server = listener.server_at(index);
    let tokens = server.poll_requests(1, true);
    server.complete(tokens[0], "late reply".to_string());
    server.poll_responses::<(), (), ()>().unwrap();
    assert_eq!(server.next_response(), Some("late reply".to_string()));

    let (_, status) = listener.poll(0, true);
    assert!(matches!(status, Async::Ready(())));
}

#[test]
fn listening_server_error_tags_name_the_failing_source() {
    type ListenerError = ListeningServerError<&'static str, &'static str, &'static str>;

    let transport: ListenerError = ListeningServerError::TransportError("accept failed");
    let service: ListenerError = ListeningServerError::ServiceError("factory failed");
    let server: ListenerError = ListeningServerError::ServerError("connection failed");

    assert!(matches!(transport, ListeningServerError::TransportError("accept failed")));
    assert!(matches!(service, ListeningServerError::ServiceError("factory failed")));
    assert!(matches!(server, ListeningServerError::ServerError("connection failed")));
    assert_ne!(transport, ListeningServerError::ServiceError("accept failed"));
}

#[test]
fn response_queue_rejects_pushes_after_close_without_losing_the_value() {
    let mut queue: ResponseQueue<&str> = ResponseQueue::new();

    assert_eq!(queue.push("kept"), Ok(()));
    queue.close();
    assert_eq!(queue.push("refused"), Err("refused"));

    assert!(queue.is_closed());
    assert!(!queue.is_flushed());
    assert_eq!(queue.pop(), Some("kept"));
    assert_eq!(queue.pop(), None);
    assert!(queue.is_flushed());
}
