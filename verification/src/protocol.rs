//! The wire protocol of the control socket: one colon-separated text message
//! per request and per response.
//!
//! Field 0 is a lower-case command keyword, the other fields are positional
//! arguments. The separator is never escaped, so an argument must not hold a
//! colon.

use crate::client::openvpn::Protocol;
use crate::client::Pid;
use crate::text::{
    decimal, eq_ignore_ascii_case, fold_ascii, has_char, join, lemma_join_push,
    lemma_parse_decimal, lemma_split_join, lemma_split_nonempty, same_text, split, split_text,
    views,
};
use vstd::prelude::*;
use vstd::utf8::{
    decode_utf8, encode_utf8, encode_utf8_decode_utf8, encode_utf8_valid_utf8, valid_utf8,
};

verus! {

/// Why a wire message was not understood.
#[derive(Debug, Clone, Copy, PartialEq, Eq, Structural)]
pub enum DecodeErrorKind {
    /// The command keyword is none of this protocol.
    UnknownCommand,
    /// The command is known but its arguments are not: wrong number, or not
    /// one of the fixed words that it takes.
    IncorrectArguments,
    /// The text in the protocol argument names no transport protocol.
    InvalidProtocol,
    /// The text in the process identifier argument is no 32-bit number.
    InvalidPid,
}

/// A wire message that was not understood.
#[derive(Debug)]
pub struct DecodeError {
    pub kind: DecodeErrorKind,
    /// The offending message, as it was received.
    pub message: String,
}

impl DecodeError {
    /// A short description of the failure.
    pub fn describe(&self) -> (text: &'static str)
        ensures
            text@ == match self.kind {
                DecodeErrorKind::UnknownCommand => "no command matched"@,
                DecodeErrorKind::IncorrectArguments => "incorrect arguments"@,
                DecodeErrorKind::InvalidProtocol => "invalid protocol"@,
                DecodeErrorKind::InvalidPid => "invalid process id"@,
            },
    {
        match self.kind {
            DecodeErrorKind::UnknownCommand => "no command matched",
            DecodeErrorKind::IncorrectArguments => "incorrect arguments",
            DecodeErrorKind::InvalidProtocol => "invalid protocol",
            DecodeErrorKind::InvalidPid => "invalid process id",
        }
    }
}

/// A value that travels over the control socket.
pub trait SocketProtocol: Sized + View {
    /// What a wire message decodes to.
    spec fn decoded(data: Seq<char>) -> Result<Self::V, DecodeErrorKind>;

    /// The wire message of a value.
    spec fn encoded(value: Self::V) -> Seq<char>;

    /// Decodes one message. A failure carries the message itself.
    fn deserialize(data: &str) -> (r: Result<Self, DecodeError>)
        ensures
            match r {
                Ok(value) => Self::decoded(data@) == Ok::<Self::V, DecodeErrorKind>(value@),
                Err(e) => Self::decoded(data@) == Err::<Self::V, DecodeErrorKind>(e.kind)
                    && e.message@ == data@,
            },
    ;

    /// Encodes the value as the UTF-8 bytes of its message.
    fn serialize(&self) -> (bytes: Vec<u8>)
        ensures
            bytes@ == encode_utf8(Self::encoded(self@)),
    ;
}

/// What a client asks of the daemon.
#[derive(Debug, PartialEq, Eq)]
pub enum Request {
    Status,
    Disconnect,
    /// Connect to the server with this identifier over this protocol.
    Connect(String, Protocol),
    /// Switch the killswitch on or off.
    Killswitch(bool),
}

/// What the daemon answers.
#[derive(Debug)]
pub enum Response {
    Status(ServerStatus),
}

/// The state of the tunnel as reported to a client.
#[derive(Debug)]
pub enum ServerStatus {
    Connected { name: String, pid: Pid, protocol: Protocol },
    Disconnected,
}

pub enum RequestView {
    Status,
    Disconnect,
    Connect(Seq<char>, Protocol),
    Killswitch(bool),
}

pub enum ServerStatusView {
    Connected { name: Seq<char>, pid: u32, protocol: Protocol },
    Disconnected,
}

pub enum ResponseView {
    Status(ServerStatusView),
}

impl View for Request {
    type V = RequestView;

    open spec fn view(&self) -> RequestView {
        match self {
            Request::Status => RequestView::Status,
            Request::Disconnect => RequestView::Disconnect,
            Request::Connect(id, protocol) => RequestView::Connect(id@, *protocol),
            Request::Killswitch(enable) => RequestView::Killswitch(*enable),
        }
    }
}

impl View for ServerStatus {
    type V = ServerStatusView;

    open spec fn view(&self) -> ServerStatusView {
        match self {
            ServerStatus::Connected { name, pid, protocol } => ServerStatusView::Connected {
                name: name@,
                pid: pid@,
                protocol: *protocol,
            },
            ServerStatus::Disconnected => ServerStatusView::Disconnected,
        }
    }
}

impl View for Response {
    type V = ResponseView;

    open spec fn view(&self) -> ResponseView {
        match self {
            Response::Status(status) => ResponseView::Status(status@),
        }
    }
}

/// The word that stands for a switch position.
pub open spec fn switch_word(on: bool) -> Seq<char> {
    if on {
        "true"@
    } else {
        "false"@
    }
}

/// The fields of a request message.
pub open spec fn request_fields(request: RequestView) -> Seq<Seq<char>> {
    match request {
        RequestView::Status => seq!["status"@],
        RequestView::Disconnect => seq!["disconnect"@],
        RequestView::Connect(id, protocol) => seq!["connect"@, id, protocol.name()],
        RequestView::Killswitch(enable) => seq!["killswitch"@, switch_word(enable)],
    }
}

/// The request that a list of fields stands for.
pub open spec fn request_of_fields(fields: Seq<Seq<char>>) -> Result<
    RequestView,
    DecodeErrorKind,
> {
    let command = fields[0];
    let args = fields.skip(1);
    if command == "status"@ {
        if args.len() == 0 {
            Ok(RequestView::Status)
        } else {
            Err(DecodeErrorKind::IncorrectArguments)
        }
    } else if command == "disconnect"@ {
        if args.len() == 0 {
            Ok(RequestView::Disconnect)
        } else {
            Err(DecodeErrorKind::IncorrectArguments)
        }
    } else if command == "connect"@ {
        if args.len() == 2 {
            match Protocol::named(args[1], true) {
                Some(protocol) => Ok(RequestView::Connect(args[0], protocol)),
                None => Err(DecodeErrorKind::InvalidProtocol),
            }
        } else {
            Err(DecodeErrorKind::IncorrectArguments)
        }
    } else if command == "killswitch"@ {
        if args.len() == 1 && args[0] == "true"@ {
            Ok(RequestView::Killswitch(true))
        } else if args.len() == 1 && args[0] == "false"@ {
            Ok(RequestView::Killswitch(false))
        } else {
            Err(DecodeErrorKind::IncorrectArguments)
        }
    } else {
        Err(DecodeErrorKind::UnknownCommand)
    }
}

/// The fields of a response message.
pub open spec fn response_fields(response: ResponseView) -> Seq<Seq<char>> {
    match response {
        ResponseView::Status(ServerStatusView::Disconnected) => seq!["status"@, "disconnected"@],
        ResponseView::Status(ServerStatusView::Connected { name, pid, protocol }) => seq![
            "status"@,
            "connected"@,
            decimal(pid as nat),
            name,
            protocol.name(),
        ],
    }
}

/// The response that a list of fields stands for.
pub open spec fn response_of_fields(fields: Seq<Seq<char>>) -> Result<
    ResponseView,
    DecodeErrorKind,
> {
    let command = fields[0];
    let args = fields.skip(1);
    if command == "status"@ {
        if args.len() == 1 && args[0] == "disconnected"@ {
            Ok(ResponseView::Status(ServerStatusView::Disconnected))
        } else if args.len() == 4 && args[0] == "connected"@ {
            match Pid::parse(args[1]) {
                None => Err(DecodeErrorKind::InvalidPid),
                Some(pid) => match Protocol::named(args[3], true) {
                    None => Err(DecodeErrorKind::InvalidProtocol),
                    Some(protocol) => Ok(
                        ResponseView::Status(
                            ServerStatusView::Connected { name: args[2], pid, protocol },
                        ),
                    ),
                },
            }
        } else {
            Err(DecodeErrorKind::IncorrectArguments)
        }
    } else {
        Err(DecodeErrorKind::UnknownCommand)
    }
}

/// What a request message decodes to.
pub open spec fn decode_request(message: Seq<char>) -> Result<RequestView, DecodeErrorKind> {
    request_of_fields(split(message, ':'))
}

/// The message of a request.
pub open spec fn encode_request(request: RequestView) -> Seq<char> {
    join(request_fields(request), ':')
}

/// What a response message decodes to.
pub open spec fn decode_response(message: Seq<char>) -> Result<ResponseView, DecodeErrorKind> {
    response_of_fields(split(message, ':'))
}

/// The message of a response.
pub open spec fn encode_response(response: ResponseView) -> Seq<char> {
    join(response_fields(response), ':')
}

/// Cuts a message into its command keyword and its arguments.
pub fn split_message<'a>(msg: &'a str) -> (parts: (&'a str, Vec<&'a str>))
    ensures
        parts.0@ == split(msg@, ':')[0],
        views(parts.1@) == split(msg@, ':').skip(1),
{
    let mut fields = split_text(msg, ':');
    proof {
        lemma_split_nonempty(msg@, ':');
        assert(views(fields@).len() == fields@.len());
    }
    let ghost all = fields@;
    let command = fields.remove(0);
    proof {
        assert(command@ == views(all)[0]);
        assert(views(fields@) =~= views(all).skip(1));
    }
    (command, fields)
}

fn failure(kind: DecodeErrorKind, data: &str) -> (e: DecodeError)
    ensures
        e.kind == kind,
        e.message@ == data@,
{
    DecodeError { kind, message: data.to_owned() }
}

/// Appends a colon and one more field to a message under construction.
fn push_field(out: &mut String, field: &str, Ghost(fields): Ghost<Seq<Seq<char>>>)
    requires
        fields.len() >= 1,
        old(out)@ == join(fields, ':'),
    ensures
        final(out)@ == join(fields.push(field@), ':'),
{
    proof {
        reveal_strlit(":");
        assert(":"@ =~= seq![':']);
        lemma_join_push(fields, field@, ':');
    }
    out.append(":");
    out.append(field);
}

/// Starts a message with its command keyword.
fn start_message(command: &str) -> (out: String)
    ensures
        out@ == join(seq![command@], ':'),
{
    command.to_owned()
}

impl Request {
    /// The message of this request, as text.
    pub fn message(&self) -> (out: String)
        ensures
            out@ == encode_request(self@),
    {
        match self {
            Request::Status => start_message("status"),
            Request::Disconnect => start_message("disconnect"),
            Request::Connect(id, protocol) => {
                let mut out = start_message("connect");
                let ghost f1 = seq!["connect"@];
                let ghost f2 = f1.push(id@);
                push_field(&mut out, id.as_str(), Ghost(f1));
                push_field(&mut out, protocol.as_str(), Ghost(f2));
                assert(f2.push(protocol.name()) =~= request_fields(self@));
                out
            },
            Request::Killswitch(enable) => {
                let mut out = start_message("killswitch");
                let word = if *enable {
                    "true"
                } else {
                    "false"
                };
                let ghost f1 = seq!["killswitch"@];
                push_field(&mut out, word, Ghost(f1));
                assert(f1.push(word@) =~= request_fields(self@));
                out
            },
        }
    }
}

impl Response {
    /// The message of this response, as text.
    pub fn message(&self) -> (out: String)
        ensures
            out@ == encode_response(self@),
    {
        match self {
            Response::Status(ServerStatus::Disconnected) => {
                let mut out = start_message("status");
                let ghost f1 = seq!["status"@];
                push_field(&mut out, "disconnected", Ghost(f1));
                assert(f1.push("disconnected"@) =~= response_fields(self@));
                out
            },
            Response::Status(ServerStatus::Connected { name, pid, protocol }) => {
                let mut out = start_message("status");
                let number = pid.to_string();
                let ghost f1 = seq!["status"@];
                let ghost f2 = f1.push("connected"@);
                let ghost f3 = f2.push(number@);
                let ghost f4 = f3.push(name@);
                push_field(&mut out, "connected", Ghost(f1));
                push_field(&mut out, number.as_str(), Ghost(f2));
                push_field(&mut out, name.as_str(), Ghost(f3));
                push_field(&mut out, protocol.as_str(), Ghost(f4));
                assert(f4.push(protocol.name()) =~= response_fields(self@));
                out
            },
        }
    }
}

impl SocketProtocol for Request {
    open spec fn decoded(data: Seq<char>) -> Result<RequestView, DecodeErrorKind> {
        decode_request(data)
    }

    open spec fn encoded(value: RequestView) -> Seq<char> {
        encode_request(value)
    }

    fn deserialize(data: &str) -> (r: Result<Request, DecodeError>) {
        let (command, args) = split_message(data);
        proof {
            assert(views(args@).len() == args@.len());
            assert forall|i: int| 0 <= i < args@.len() implies views(args@)[i] == args@[i]@ by {}
        }
        if same_text(command, "status") {
            if args.len() == 0 {
                Ok(Request::Status)
            } else {
                Err(failure(DecodeErrorKind::IncorrectArguments, data))
            }
        } else if same_text(command, "disconnect") {
            if args.len() == 0 {
                Ok(Request::Disconnect)
            } else {
                Err(failure(DecodeErrorKind::IncorrectArguments, data))
            }
        } else if same_text(command, "connect") {
            if args.len() == 2 {
                match Protocol::from_str(args[1], true) {
                    Ok(protocol) => Ok(Request::Connect(args[0].to_owned(), protocol)),
                    Err(_) => Err(failure(DecodeErrorKind::InvalidProtocol, data)),
                }
            } else {
                Err(failure(DecodeErrorKind::IncorrectArguments, data))
            }
        } else if same_text(command, "killswitch") {
            if args.len() == 1 && same_text(args[0], "true") {
                Ok(Request::Killswitch(true))
            } else if args.len() == 1 && same_text(args[0], "false") {
                Ok(Request::Killswitch(false))
            } else {
                Err(failure(DecodeErrorKind::IncorrectArguments, data))
            }
        } else {
            Err(failure(DecodeErrorKind::UnknownCommand, data))
        }
    }

    fn serialize(&self) -> (bytes: Vec<u8>) {
        self.message().as_str().as_bytes_vec()
    }
}

impl SocketProtocol for Response {
    open spec fn decoded(data: Seq<char>) -> Result<ResponseView, DecodeErrorKind> {
        decode_response(data)
    }

    open spec fn encoded(value: ResponseView) -> Seq<char> {
        encode_response(value)
    }

    fn deserialize(data: &str) -> (r: Result<Response, DecodeError>) {
        let (command, args) = split_message(data);
        proof {
            assert(views(args@).len() == args@.len());
            assert forall|i: int| 0 <= i < args@.len() implies views(args@)[i] == args@[i]@ by {}
        }
        if same_text(command, "status") {
            if args.len() == 1 && same_text(args[0], "disconnected") {
                Ok(Response::Status(ServerStatus::Disconnected))
            } else if args.len() == 4 && same_text(args[0], "connected") {
                match Pid::try_from(args[1].to_owned()) {
                    Err(_) => Err(failure(DecodeErrorKind::InvalidPid, data)),
                    Ok(pid) => match Protocol::from_str(args[3], true) {
                        Err(_) => Err(failure(DecodeErrorKind::InvalidProtocol, data)),
                        Ok(protocol) => {
                            proof {
                                pid.lemma_view();
                            }
                            Ok(
                                Response::Status(
                                    ServerStatus::Connected {
                                        name: args[2].to_owned(),
                                        pid,
                                        protocol,
                                    },
                                ),
                            )
                        },
                    },
                }
            } else {
                Err(failure(DecodeErrorKind::IncorrectArguments, data))
            }
        } else {
            Err(failure(DecodeErrorKind::UnknownCommand, data))
        }
    }

    fn serialize(&self) -> (bytes: Vec<u8>) {
        self.message().as_str().as_bytes_vec()
    }
}

/// What is known of the fixed words of the protocol: none holds a colon,
/// the command keywords differ from each other, and so do the words of one
/// argument position.
pub proof fn lemma_words()
    ensures
        !has_char("status"@, ':'),
        !has_char("disconnect"@, ':'),
        !has_char("connect"@, ':'),
        !has_char("killswitch"@, ':'),
        !has_char("true"@, ':'),
        !has_char("false"@, ':'),
        !has_char("connected"@, ':'),
        !has_char("disconnected"@, ':'),
        !has_char("udp"@, ':'),
        !has_char("tcp"@, ':'),
        "status"@ != "disconnect"@,
        "status"@ != "connect"@,
        "status"@ != "killswitch"@,
        "disconnect"@ != "connect"@,
        "disconnect"@ != "killswitch"@,
        "connect"@ != "killswitch"@,
        "true"@ != "false"@,
        "connected"@ != "disconnected"@,
        !eq_ignore_ascii_case("udp"@, "tcp"@),
{
    reveal_strlit("status");
    reveal_strlit("disconnect");
    reveal_strlit("connect");
    reveal_strlit("killswitch");
    reveal_strlit("true");
    reveal_strlit("false");
    reveal_strlit("connected");
    reveal_strlit("disconnected");
    reveal_strlit("udp");
    reveal_strlit("tcp");
    assert("status"@[0] != "disconnect"@[0]);
    assert("status"@[0] != "connect"@[0]);
    assert("status"@[0] != "killswitch"@[0]);
    assert("disconnect"@[0] != "connect"@[0]);
    assert("disconnect"@[0] != "killswitch"@[0]);
    assert("connect"@[0] != "killswitch"@[0]);
    assert("true"@[0] != "false"@[0]);
    assert("connected"@[0] != "disconnected"@[0]);
    assert(fold_ascii("udp"@[0]) != fold_ascii("tcp"@[0]));
}

/// Every protocol is read back from its own name.
pub proof fn lemma_protocol_round_trip(protocol: Protocol)
    ensures
        Protocol::named(protocol.name(), true) == Some(protocol),
        Protocol::named(protocol.name(), false) == Some(protocol),
        !has_char(protocol.name(), ':'),
{
    lemma_words();
    assert("udp"@ != "tcp"@) by {
        reveal_strlit("udp");
        reveal_strlit("tcp");
        assert("udp"@[0] != "tcp"@[0]);
    }
}

/// Decoding the message of a request gives the request back, for every
/// request whose server identifier holds no colon.
pub proof fn lemma_request_round_trip(request: RequestView)
    requires
        request matches RequestView::Connect(id, _) ==> !has_char(id, ':'),
    ensures
        decode_request(encode_request(request)) == Ok::<RequestView, DecodeErrorKind>(request),
{
    lemma_words();
    let fields = request_fields(request);
    match request {
        RequestView::Connect(id, protocol) => {
            lemma_protocol_round_trip(protocol);
        },
        _ => {},
    }
    assert forall|i: int| 0 <= i < fields.len() implies !has_char(#[trigger] fields[i], ':') by {}
    lemma_split_join(fields, ':');
}

/// Decoding the message of a response gives the response back, for every
/// response whose server name holds no colon.
pub proof fn lemma_response_round_trip(response: ResponseView)
    requires
        response matches ResponseView::Status(ServerStatusView::Connected { name, .. })
            ==> !has_char(name, ':'),
    ensures
        decode_response(encode_response(response)) == Ok::<ResponseView, DecodeErrorKind>(
            response,
        ),
{
    lemma_words();
    let fields = response_fields(response);
    match response {
        ResponseView::Status(ServerStatusView::Connected { name, pid, protocol }) => {
            lemma_protocol_round_trip(protocol);
            lemma_parse_decimal(pid);
        },
        _ => {},
    }
    assert forall|i: int| 0 <= i < fields.len() implies !has_char(#[trigger] fields[i], ':') by {}
    lemma_split_join(fields, ':');
}

/// A request message is refused as unknown exactly when its first field is
/// none of the four command keywords.
pub proof fn lemma_request_keyword(message: Seq<char>)
    ensures
        decode_request(message) == Err::<RequestView, DecodeErrorKind>(
            DecodeErrorKind::UnknownCommand,
        ) <==> {
            let command = split(message, ':')[0];
            command != "status"@ && command != "disconnect"@ && command != "connect"@ && command
                != "killswitch"@
        },
{
}

/// The bytes that a request is sent as are valid UTF-8, and the text that
/// they stand for decodes to the request, for every request whose server
/// identifier holds no colon.
pub proof fn lemma_request_bytes_round_trip(request: RequestView)
    requires
        request matches RequestView::Connect(id, _) ==> !has_char(id, ':'),
    ensures
        valid_utf8(encode_utf8(encode_request(request))),
        decode_request(decode_utf8(encode_utf8(encode_request(request)))) == Ok::<
            RequestView,
            DecodeErrorKind,
        >(request),
{
    encode_utf8_valid_utf8(encode_request(request));
    encode_utf8_decode_utf8(encode_request(request));
    lemma_request_round_trip(request);
}

/// The bytes that a response is sent as are valid UTF-8, and the text that
/// they stand for decodes to the response, for every response whose server
/// name holds no colon.
pub proof fn lemma_response_bytes_round_trip(response: ResponseView)
    requires
        response matches ResponseView::Status(ServerStatusView::Connected { name, .. })
            ==> !has_char(name, ':'),
    ensures
        valid_utf8(encode_utf8(encode_response(response))),
        decode_response(decode_utf8(encode_utf8(encode_response(response)))) == Ok::<
            ResponseView,
            DecodeErrorKind,
        >(response),
{
    encode_utf8_valid_utf8(encode_response(response));
    encode_utf8_decode_utf8(encode_response(response));
    lemma_response_round_trip(response);
}

} // verus!
