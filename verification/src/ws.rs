use vstd::prelude::*;
use crate::text::{eq_ignore_ascii_case, eq_ignore_ascii_case_spec, strip_line_end, strip_line_end_spec, trim, trim_spec};

verus! {

/// A websocket message, as the decision logic sees it.
pub enum Frame {
    Text(String),
    Binary(Vec<u8>),
    Ping(Vec<u8>),
    Pong(Vec<u8>),
    Close,
    /// A raw frame of another kind.
    Raw,
}

/// What the server's connection loop learns in one turn.
pub enum ServerEvent {
    Received(Frame),
    ReceiveError,
    StreamEnded,
    /// Nothing arrived within the idle timeout.
    IdleTimeout,
}

/// What the server's connection loop does next.
pub enum ServerAction {
    Continue,
    Reply(Frame),
    Stop,
    /// Send a close frame, then stop.
    CloseAndStop,
}

/// The text the server answers every text message with.
pub open spec fn server_reply_text() -> Seq<char> {
    "응답을 받았음."@
}

/// One turn of the server's connection loop: text is answered, a ping is answered
/// with a pong carrying the same payload, binary data and pongs are only noted, and
/// a close frame, another frame kind, an error, the end of the stream or the idle
/// timeout end the connection (the timeout with a close frame of its own).
pub fn server_step(event: ServerEvent) -> (r: ServerAction)
    ensures
        match event {
            ServerEvent::Received(Frame::Text(_)) => r matches ServerAction::Reply(Frame::Text(t))
                && t@ == server_reply_text(),
            ServerEvent::Received(Frame::Binary(_)) => r is Continue,
            ServerEvent::Received(Frame::Ping(p)) => r == ServerAction::Reply(Frame::Pong(p)),
            ServerEvent::Received(Frame::Pong(_)) => r is Continue,
            ServerEvent::Received(Frame::Close) => r is Stop,
            ServerEvent::Received(Frame::Raw) => r is Stop,
            ServerEvent::ReceiveError => r is Stop,
            ServerEvent::StreamEnded => r is Stop,
            ServerEvent::IdleTimeout => r is CloseAndStop,
        },
{
    match event {
        ServerEvent::Received(Frame::Text(_)) => ServerAction::Reply(
            Frame::Text("응답을 받았음.".to_string()),
        ),
        ServerEvent::Received(Frame::Binary(_)) => ServerAction::Continue,
        ServerEvent::Received(Frame::Ping(p)) => ServerAction::Reply(Frame::Pong(p)),
        ServerEvent::Received(Frame::Pong(_)) => ServerAction::Continue,
        ServerEvent::Received(Frame::Close) => ServerAction::Stop,
        ServerEvent::Received(Frame::Raw) => ServerAction::Stop,
        ServerEvent::ReceiveError => ServerAction::Stop,
        ServerEvent::StreamEnded => ServerAction::Stop,
        ServerEvent::IdleTimeout => ServerAction::CloseAndStop,
    }
}

/// What one line typed by the user asks the client to do.
pub enum InputAction {
    /// `quit` or `exit`, in any ASCII case.
    Quit,
    /// Nothing but white space.
    Skip,
    /// Send this text.
    Send(String),
}

/// The typed line without its line ending and surrounding white space.
pub open spec fn input_text(line: Seq<char>) -> Seq<char> {
    trim_spec(strip_line_end_spec(line))
}

/// The typed line is a command to leave.
pub open spec fn is_quit_command(text: Seq<char>) -> bool {
    eq_ignore_ascii_case_spec(text, "quit"@) || eq_ignore_ascii_case_spec(text, "exit"@)
}

/// Reads one typed line: `quit` or `exit` (in any ASCII case) leaves, a blank line
/// is skipped, anything else is sent as its trimmed text.
pub fn input_action(line: &str) -> (r: InputAction)
    ensures
        is_quit_command(input_text(line@)) ==> r is Quit,
        !is_quit_command(input_text(line@)) && input_text(line@).len() == 0 ==> r is Skip,
        !is_quit_command(input_text(line@)) && input_text(line@).len() > 0 ==> (r matches InputAction::Send(t)
            && t@ == input_text(line@)),
{
    broadcast use vstd::string::group_string_axioms;

    let text = trim(strip_line_end(line));
    if eq_ignore_ascii_case(text, "quit") || eq_ignore_ascii_case(text, "exit") {
        InputAction::Quit
    } else if text.is_empty() {
        InputAction::Skip
    } else {
        InputAction::Send(text.to_string())
    }
}

/// What the client's loop learns in one turn.
pub enum ClientEvent {
    /// A message on the local signal channel.
    Signal(String),
    /// The local signal channel was closed.
    SignalClosed,
    Received(Frame),
    ReceiveError,
    Disconnected,
    /// A line typed by the user (with its line ending).
    Input(String),
    /// Standard input reached its end.
    InputClosed,
    /// The keep-alive timer fired.
    PingTick,
}

/// What the client's loop does next.
pub enum ClientAction {
    Continue,
    Send(Frame),
    /// Leave the loop, then send a close frame and close the connection.
    Stop,
    /// The user asked to leave: say goodbye, then do what `Stop` does.
    Leave,
    /// The server closed the connection: return at once.
    Finish,
}

/// One turn of the client's loop.
pub fn client_step(event: ClientEvent) -> (r: ClientAction)
    ensures
        match event {
            ClientEvent::Signal(_) => r is Continue,
            ClientEvent::SignalClosed => r is Stop,
            ClientEvent::Received(Frame::Close) => r is Finish,
            ClientEvent::Received(_) => r is Continue,
            ClientEvent::ReceiveError => r is Stop,
            ClientEvent::Disconnected => r is Stop,
            ClientEvent::Input(line) => {
                &&& is_quit_command(input_text(line@)) ==> r is Leave
                &&& !is_quit_command(input_text(line@)) && input_text(line@).len() == 0
                    ==> r is Continue
                &&& !is_quit_command(input_text(line@)) && input_text(line@).len() > 0
                    ==> (r matches ClientAction::Send(Frame::Text(t)) && t@ == input_text(line@))
            },
            ClientEvent::InputClosed => r is Stop,
            ClientEvent::PingTick => r matches ClientAction::Send(Frame::Ping(p)) && p@.len() == 0,
        },
{
    match event {
        ClientEvent::Signal(_) => ClientAction::Continue,
        ClientEvent::SignalClosed => ClientAction::Stop,
        ClientEvent::Received(Frame::Close) => ClientAction::Finish,
        ClientEvent::Received(_) => ClientAction::Continue,
        ClientEvent::ReceiveError => ClientAction::Stop,
        ClientEvent::Disconnected => ClientAction::Stop,
        ClientEvent::Input(line) => match input_action(line.as_str()) {
            InputAction::Quit => ClientAction::Leave,
            InputAction::Skip => ClientAction::Continue,
            InputAction::Send(t) => ClientAction::Send(Frame::Text(t)),
        },
        ClientEvent::InputClosed => ClientAction::Stop,
        ClientEvent::PingTick => ClientAction::Send(Frame::Ping(Vec::new())),
    }
}

/// What the quote stream's loop learns in one turn.
pub enum QuoteEvent {
    Received(Frame),
    ReceiveError,
    Disconnected,
    /// The keep-alive timer fired.
    PingTick,
}

/// What the quote stream's loop does next.
pub enum QuoteAction {
    Continue,
    Send(Frame),
    /// The stream ended: return.
    Finish,
}

/// One turn of the quote stream's loop: every message and every error is only
/// shown, the end of the stream finishes, and the timer sends the text `PING`.
pub fn quote_step(event: QuoteEvent) -> (r: QuoteAction)
    ensures
        match event {
            QuoteEvent::Received(_) => r is Continue,
            QuoteEvent::ReceiveError => r is Continue,
            QuoteEvent::Disconnected => r is Finish,
            QuoteEvent::PingTick => r matches QuoteAction::Send(Frame::Text(t)) && t@ == "PING"@,
        },
{
    match event {
        QuoteEvent::Received(_) => QuoteAction::Continue,
        QuoteEvent::ReceiveError => QuoteAction::Continue,
        QuoteEvent::Disconnected => QuoteAction::Finish,
        QuoteEvent::PingTick => QuoteAction::Send(Frame::Text("PING".to_string())),
    }
}

} // verus!
