//! Peers of three kinds in a peer-to-peer network: a factory makes the
//! connection handler, the message protocol and the data processor that
//! belong together.
use vstd::prelude::*;
use vstd::string::StringExecFns;

verus! {

/// Handles a connection.
pub trait ConnectionHandler {
    /// The line that handling a connection gives.
    spec fn connection_line(&self) -> Seq<char>;

    /// Handles a connection and returns the line that says so.
    fn handle_connection(&self) -> (line: String)
        ensures
            line@ == self.connection_line(),
    ;
}

/// Sends and receives messages.
pub trait MessageProtocol {
    /// The line that sending `message` gives.
    spec fn sending_line(&self, message: Seq<char>) -> Seq<char>;

    /// Sends `message` and returns the line that says so.
    fn send_message(&self, message: &str) -> (line: String)
        ensures
            line@ == self.sending_line(message@),
    ;

    /// The message that is received.
    spec fn received(&self) -> Seq<char>;

    /// The line that receiving gives.
    spec fn receiving_line(&self) -> Seq<char>;

    /// Receives a message: the message, and the line that says so.
    fn receive_message(&self) -> (received: (String, String))
        ensures
            received.0@ == self.received(),
            received.1@ == self.receiving_line(),
    ;
}

/// Processes data.
pub trait DataProcessor {
    /// The line that processing `data` gives.
    spec fn processing_line(&self, data: Seq<char>) -> Seq<char>;

    /// Processes `data` and returns the line that says so.
    fn process_data(&self, data: &str) -> (line: String)
        ensures
            line@ == self.processing_line(data@),
    ;
}

/// Handles the connections of a file sharing peer.
#[derive(Debug)]
pub struct FileSharingConnectionHandler;

impl ConnectionHandler for FileSharingConnectionHandler {
    open spec fn connection_line(&self) -> Seq<char> {
        "Handling file sharing connection"@
    }

    fn handle_connection(&self) -> (line: String) {
        "Handling file sharing connection".to_string()
    }
}

/// The messages of a file sharing peer.
#[derive(Debug)]
pub struct FileSharingMessageProtocol;

impl MessageProtocol for FileSharingMessageProtocol {
    open spec fn sending_line(&self, message: Seq<char>) -> Seq<char> {
        "Sending file sharing message: "@ + message
    }

    fn send_message(&self, message: &str) -> (line: String) {
        let mut line = String::from_str("Sending file sharing message: ");
        line.append(message);
        line
    }

    open spec fn received(&self) -> Seq<char> {
        "File sharing message"@
    }

    open spec fn receiving_line(&self) -> Seq<char> {
        "Receiving file sharing message"@
    }

    fn receive_message(&self) -> (received: (String, String)) {
        let line = "Receiving file sharing message".to_string();
        ("File sharing message".to_string(), line)
    }
}

/// Processes the data of a file sharing peer.
#[derive(Debug)]
pub struct FileSharingDataProcessor;

impl DataProcessor for FileSharingDataProcessor {
    open spec fn processing_line(&self, data: Seq<char>) -> Seq<char> {
        "Processing file sharing data: "@ + data
    }

    fn process_data(&self, data: &str) -> (line: String) {
        let mut line = String::from_str("Processing file sharing data: ");
        line.append(data);
        line
    }
}

/// Handles the connections of a chat peer.
#[derive(Debug)]
pub struct ChatConnectionHandler;

impl ConnectionHandler for ChatConnectionHandler {
    open spec fn connection_line(&self) -> Seq<char> {
        "Handling chat connection"@
    }

    fn handle_connection(&self) -> (line: String) {
        "Handling chat connection".to_string()
    }
}

/// The messages of a chat peer.
#[derive(Debug)]
pub struct ChatMessageProtocol;

impl MessageProtocol for ChatMessageProtocol {
    open spec fn sending_line(&self, message: Seq<char>) -> Seq<char> {
        "Sending chat message: "@ + message
    }

    fn send_message(&self, message: &str) -> (line: String) {
        let mut line = String::from_str("Sending chat message: ");
        line.append(message);
        line
    }

    open spec fn received(&self) -> Seq<char> {
        "Chat message"@
    }

    open spec fn receiving_line(&self) -> Seq<char> {
        "Receiving chat message"@
    }

    fn receive_message(&self) -> (received: (String, String)) {
        let line = "Receiving chat message".to_string();
        ("Chat message".to_string(), line)
    }
}

/// Processes the data of a chat peer.
#[derive(Debug)]
pub struct ChatDataProcessor;

impl DataProcessor for ChatDataProcessor {
    open spec fn processing_line(&self, data: Seq<char>) -> Seq<char> {
        "Processing chat data: "@ + data
    }

    fn process_data(&self, data: &str) -> (line: String) {
        let mut line = String::from_str("Processing chat data: ");
        line.append(data);
        line
    }
}

/// Handles the connections of a streaming peer.
#[derive(Debug)]
pub struct StreamingConnectionHandler;

impl ConnectionHandler for StreamingConnectionHandler {
    open spec fn connection_line(&self) -> Seq<char> {
        "Handling streaming connection"@
    }

    fn handle_connection(&self) -> (line: String) {
        "Handling streaming connection".to_string()
    }
}

/// The messages of a streaming peer.
#[derive(Debug)]
pub struct StreamingMessageProtocol;

impl MessageProtocol for StreamingMessageProtocol {
    open spec fn sending_line(&self, message: Seq<char>) -> Seq<char> {
        "Sending streaming message: "@ + message
    }

    fn send_message(&self, message: &str) -> (line: String) {
        let mut line = String::from_str("Sending streaming message: ");
        line.append(message);
        line
    }

    open spec fn received(&self) -> Seq<char> {
        "Streaming message"@
    }

    open spec fn receiving_line(&self) -> Seq<char> {
        "Receiving streaming message"@
    }

    fn receive_message(&self) -> (received: (String, String)) {
        let line = "Receiving streaming message".to_string();
        ("Streaming message".to_string(), line)
    }
}

/// Processes the data of a streaming peer.
#[derive(Debug)]
pub struct StreamingDataProcessor;

impl DataProcessor for StreamingDataProcessor {
    open spec fn processing_line(&self, data: Seq<char>) -> Seq<char> {
        "Processing streaming data: "@ + data
    }

    fn process_data(&self, data: &str) -> (line: String) {
        let mut line = String::from_str("Processing streaming data: ");
        line.append(data);
        line
    }
}

/// Makes the parts of one kind of peer.
pub trait PeerFactory {
    /// The connection handler this factory makes.
    type Handler: ConnectionHandler;

    /// The message protocol this factory makes.
    type Protocol: MessageProtocol;

    /// The data processor this factory makes.
    type Processor: DataProcessor;

    /// Makes a connection handler.
    fn create_connection_handler(&self) -> (handler: Self::Handler);

    /// Makes a message protocol.
    fn create_message_protocol(&self) -> (protocol: Self::Protocol);

    /// Makes a data processor.
    fn create_data_processor(&self) -> (processor: Self::Processor);
}

/// Makes the parts of a file sharing peer.
#[derive(Debug)]
pub struct FileSharingPeerFactory;

impl PeerFactory for FileSharingPeerFactory {
    type Handler = FileSharingConnectionHandler;

    type Protocol = FileSharingMessageProtocol;

    type Processor = FileSharingDataProcessor;

    fn create_connection_handler(&self) -> (handler: FileSharingConnectionHandler)
        ensures
            handler == FileSharingConnectionHandler,
    {
        FileSharingConnectionHandler
    }

    fn create_message_protocol(&self) -> (protocol: FileSharingMessageProtocol)
        ensures
            protocol == FileSharingMessageProtocol,
    {
        FileSharingMessageProtocol
    }

    fn create_data_processor(&self) -> (processor: FileSharingDataProcessor)
        ensures
            processor == FileSharingDataProcessor,
    {
        FileSharingDataProcessor
    }
}

/// Makes the parts of a chat peer.
#[derive(Debug)]
pub struct ChatPeerFactory;

impl PeerFactory for ChatPeerFactory {
    type Handler = ChatConnectionHandler;

    type Protocol = ChatMessageProtocol;

    type Processor = ChatDataProcessor;

    fn create_connection_handler(&self) -> (handler: ChatConnectionHandler)
        ensures
            handler == ChatConnectionHandler,
    {
        ChatConnectionHandler
    }

    fn create_message_protocol(&self) -> (protocol: ChatMessageProtocol)
        ensures
            protocol == ChatMessageProtocol,
    {
        ChatMessageProtocol
    }

    fn create_data_processor(&self) -> (processor: ChatDataProcessor)
        ensures
            processor == ChatDataProcessor,
    {
        ChatDataProcessor
    }
}

/// Makes the parts of a streaming peer.
#[derive(Debug)]
pub struct StreamingPeerFactory;

impl PeerFactory for StreamingPeerFactory {
    type Handler = StreamingConnectionHandler;

    type Protocol = StreamingMessageProtocol;

    type Processor = StreamingDataProcessor;

    fn create_connection_handler(&self) -> (handler: StreamingConnectionHandler)
        ensures
            handler == StreamingConnectionHandler,
    {
        StreamingConnectionHandler
    }

    fn create_message_protocol(&self) -> (protocol: StreamingMessageProtocol)
        ensures
            protocol == StreamingMessageProtocol,
    {
        StreamingMessageProtocol
    }

    fn create_data_processor(&self) -> (processor: StreamingDataProcessor)
        ensures
            processor == StreamingDataProcessor,
    {
        StreamingDataProcessor
    }
}

} // verus!
