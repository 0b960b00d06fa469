use embedded_recruitment_task::message::{AddRequest, AddResponse, EchoMessage};
use embedded_recruitment_task::server::{
    Action, Admission, Client, Connection, Event, Incoming, Server, Shutdown,
};

/// A server that has begun its accept loop and has taken one connection.
fn run_server_in_background() -> (Server, Client) {
    let mut server = Server::new();
    assert_eq!(server.run(Incoming::Started), Admission::Listen);
    assert_eq!(server.run(Incoming::Connected), Admission::Serve);
    (server, Client::new())
}

/// Sends one message over the connection and returns the bytes that come back.
fn exchange(client: &mut Client, sent: &[u8]) -> Result<Vec<u8>, Action> {
    match client.handle(Event::Received(sent)) {
        Action::Reply(bytes) => Ok(bytes),
        other => Err(other),
    }
}

#[test]
fn test_client_connection() {
    let (mut server, mut client) = run_server_in_background();
    assert!(server.is_running, "Failed to run server");
    assert_eq!(client.state, Connection::Open, "Failed to connect to the server");

    // The peer leaves without having sent anything.
    assert_eq!(
        client.handle(Event::Received(&[])),
        Action::Close,
        "Failed to disconnect from the server"
    );
    assert_eq!(client.state, Connection::Closed);

    assert_eq!(server.stop(), Shutdown::SignalSent);
}

#[test]
fn test_client_echo_message() {
    let (mut server, mut client) = run_server_in_background();

    let mut echo_message = EchoMessage::default();
    echo_message.content = "Hello, World!".to_string();
    let message = echo_message.encode_to_vec();

    let response = exchange(&mut client, &message);
    assert!(response.is_ok(), "Failed to receive response for EchoMessage");

    match EchoMessage::decode(&response.unwrap()) {
        Some(echo) => {
            assert_eq!(
                echo.content, echo_message.content,
                "Echoed message content does not match"
            );
        }
        None => panic!("Expected EchoMessage, but received a different message"),
    }

    assert_eq!(
        client.handle(Event::Received(&[])),
        Action::Close,
        "Failed to disconnect from the server"
    );
    assert_eq!(server.stop(), Shutdown::SignalSent);
}

#[test]
fn test_multiple_echo_messages() {
    let (mut server, mut client) = run_server_in_background();

    let messages = vec![
        "Hello, World!".to_string(),
        "How are you?".to_string(),
        "Goodbye!".to_string(),
    ];

    for message_content in messages {
        let mut echo_message = EchoMessage::default();
        echo_message.content = message_content.clone();
        let message = echo_message.encode_to_vec();

        let response = exchange(&mut client, &message);
        assert!(response.is_ok(), "Failed to receive response for EchoMessage");

        match EchoMessage::decode(&response.unwrap()) {
            Some(echo) => {
                assert_eq!(
                    echo.content, message_content,
                    "Echoed message content does not match"
                );
            }
            None => panic!("Expected EchoMessage, but received a different message"),
        }
        assert_eq!(client.state, Connection::Open);
    }

    assert_eq!(
        client.handle(Event::Received(&[])),
        Action::Close,
        "Failed to disconnect from the server"
    );
    assert_eq!(server.stop(), Shutdown::SignalSent);
}

#[test]
fn test_multiple_clients() {
    let (mut server, first) = run_server_in_background();
    assert_eq!(server.run(Incoming::Connected), Admission::Serve);
    assert_eq!(server.run(Incoming::Connected), Admission::Serve);
    let mut clients = vec![first, Client::new(), Client::new()];

    let messages = vec![
        "Hello, World!".to_string(),
        "How are you?".to_string(),
        "Goodbye!".to_string(),
    ];

    for message_content in messages {
        let mut echo_message = EchoMessage::default();
        echo_message.content = message_content.clone();
        let message = echo_message.encode_to_vec();

        for client in clients.iter_mut() {
            let response = exchange(client, &message);
            assert!(response.is_ok(), "Failed to receive response for EchoMessage");

            match EchoMessage::decode(&response.unwrap()) {
                Some(echo) => {
                    assert_eq!(
                        echo.content, message_content,
                        "Echoed message content does not match"
                    );
                }
                None => panic!("Expected EchoMessage, but received a different message"),
            }
        }
    }

    for client in clients.iter_mut() {
        assert_eq!(
            client.handle(Event::Received(&[])),
            Action::Close,
            "Failed to disconnect from the server"
        );
    }
    assert_eq!(server.stop(), Shutdown::SignalSent);
}

#[test]
fn test_client_add_request() {
    let (mut server, mut client) = run_server_in_background();

    let mut add_request = AddRequest::default();
    add_request.a = 10;
    add_request.b = 20;
    let message = add_request.encode_to_vec();

    let response = exchange(&mut client, &message);
    assert!(response.is_ok(), "Failed to receive response for AddRequest");

    match AddResponse::decode(&response.unwrap()) {
        Some(add_response) => {
            assert_eq!(
                add_response.result,
                add_request.a + add_request.b,
                "AddResponse result does not match"
            );
        }
        None => panic!("Expected AddResponse, but received a different message"),
    }

    assert_eq!(
        client.handle(Event::Received(&[])),
        Action::Close,
        "Failed to disconnect from the server"
    );
    assert_eq!(server.stop(), Shutdown::SignalSent);
}
