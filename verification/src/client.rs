//! The client: the connection to a front, and the two pumps that carry data through it.

use vstd::prelude::*;

use crate::header::HttpError;
use crate::message::Request;
use crate::net::SocketAddr;
use crate::request::{
    create_read_request, create_write_request, is_read_request, is_write_request,
};
use crate::session_id::{is_random_uuid, Uuid};
use crate::tls_stream::{
    has_h2, invalid_hostname_message, offers_h2, server_name_of, TlsError, TlsStream,
};
use crate::{DomainFronting, Error, FrontingView};

verus! {

/// Where the pump for outgoing data stands.
#[derive(Clone, Copy, Debug, PartialEq, Eq, Structural)]
pub enum OutgoingState {
    /// The next chunk can be sent.
    Ready,
    /// The response to the last chunk is still to come.
    Waiting,
    /// Nothing more will be sent.
    Ended,
}

/// What the pump for outgoing data has done so far.
pub ghost struct OutgoingView {
    pub fronting: FrontingView,
    pub session_id: Uuid,
    pub state: OutgoingState,
    /// No request has been acknowledged yet.
    pub first: bool,
    /// The bytes of the request that waits for its response.
    pub in_flight: Seq<u8>,
    /// The bytes that the proxy has acknowledged.
    pub delivered: Seq<u8>,
}

impl OutgoingView {
    /// A pump that has sent nothing yet.
    pub open spec fn start(fronting: FrontingView, session_id: Uuid) -> OutgoingView {
        OutgoingView {
            fronting,
            session_id,
            state: OutgoingState::Ready,
            first: true,
            in_flight: Seq::empty(),
            delivered: Seq::empty(),
        }
    }

    /// After a chunk was sent.
    pub open spec fn sent(self, chunk: Seq<u8>) -> OutgoingView {
        OutgoingView { state: OutgoingState::Waiting, in_flight: chunk, ..self }
    }

    /// After the proxy has acknowledged a chunk.
    pub open spec fn acknowledged(self) -> OutgoingView {
        OutgoingView {
            state: OutgoingState::Ready,
            first: false,
            in_flight: Seq::empty(),
            delivered: self.delivered + self.in_flight,
            ..self
        }
    }

    /// After the last chunk.
    pub open spec fn ended(self) -> OutgoingView {
        OutgoingView { state: OutgoingState::Ended, ..self }
    }
}

/// Sends what the caller writes to the proxy, one request per chunk.
///
/// In theory all data could be streamed in a single request, but some reverse proxies forward
/// nothing of a request body before its end.
pub struct OutgoingPump {
    config: DomainFronting,
    session_id: Uuid,
    state: OutgoingState,
    first: bool,
    in_flight: Ghost<Seq<u8>>,
    delivered: Ghost<Seq<u8>>,
}

impl View for OutgoingPump {
    type V = OutgoingView;

    closed spec fn view(&self) -> OutgoingView {
        OutgoingView {
            fronting: self.config@,
            session_id: self.session_id,
            state: self.state,
            first: self.first,
            in_flight: self.in_flight@,
            delivered: self.delivered@,
        }
    }
}

impl OutgoingPump {
    /// A pump that has sent nothing yet.
    pub fn new(session_id: Uuid, config: DomainFronting) -> (pump: OutgoingPump)
        ensures
            pump@ == OutgoingView::start(config@, session_id),
            pump@.fronting == config@,
            pump@.session_id == session_id,
            pump@.first,
    {
        OutgoingPump {
            config,
            session_id,
            state: OutgoingState::Ready,
            first: true,
            in_flight: Ghost(Seq::empty()),
            delivered: Ghost(Seq::empty()),
        }
    }

    /// Where the pump stands.
    pub fn state(&self) -> (state: OutgoingState)
        ensures
            state == self@.state,
    {
        self.state
    }

    /// Turns the next chunk into a request. Without a further chunk the pump has finished.
    ///
    /// A chunk is sent only when the one before is acknowledged. The pump finishes well only when
    /// the caller has closed its end.
    pub fn next_request<H>(&mut self, chunk: Option<Vec<u8>>) -> (result: Result<
        Option<Request>,
        Error<H>,
    >)
        requires
            old(self)@.state == OutgoingState::Ready,
        ensures
            match chunk {
                None => result == Ok::<Option<Request>, Error<H>>(None) && final(self)@ == old(
                    self,
                )@.ended(),
                Some(chunk) => exists|path: Uuid, built: Result<Request, HttpError>|
                    {
                        &&& is_random_uuid(path.bits)
                        &&& #[trigger] is_write_request(
                            old(self)@.fronting,
                            old(self)@.session_id,
                            path,
                            chunk@,
                            old(self)@.first,
                            built,
                        )
                        &&& match built {
                            Ok(request) => {
                                &&& result == Ok::<Option<Request>, Error<H>>(Some(request))
                                &&& final(self)@ == old(self)@.sent(chunk@)
                            },
                            Err(error) => {
                                &&& result == Err::<Option<Request>, Error<H>>(Error::Http(error))
                                &&& final(self)@ == old(self)@.ended()
                            },
                        }
                    },
            },
    {
        let chunk = match chunk {
            Some(chunk) => chunk,
            None => {
                self.state = OutgoingState::Ended;
                return Ok(None);
            },
        };
        let ghost bytes = chunk@;
        let built = create_write_request(&self.config, self.session_id, chunk, self.first);
        proof {
            let path = choose|path: Uuid|
                is_random_uuid(path.bits) && #[trigger] is_write_request(
                    self@.fronting,
                    self@.session_id,
                    path,
                    bytes,
                    self@.first,
                    built,
                );
            assert(is_write_request(
                old(self)@.fronting,
                old(self)@.session_id,
                path,
                bytes,
                old(self)@.first,
                built,
            ));
        }
        match built {
            Ok(request) => {
                self.state = OutgoingState::Waiting;
                self.in_flight = Ghost(bytes);
                Ok(Some(request))
            },
            Err(error) => {
                self.state = OutgoingState::Ended;
                Err(Error::Http(error))
            },
        }
    }

    /// Takes the status of the response to the last request, or the failure to get one.
    ///
    /// Only `204 No Content` acknowledges a request. From then on a session need not be opened.
    /// After anything else nothing more is sent.
    pub fn acknowledge<H>(&mut self, response: Result<u16, H>) -> (result: Result<(), Error<H>>)
        requires
            old(self)@.state == OutgoingState::Waiting,
        ensures
            match response {
                Ok(status) => if status == 204 {
                    &&& result == Ok::<(), Error<H>>(())
                    &&& final(self)@ == old(self)@.acknowledged()
                } else {
                    &&& result == Err::<(), Error<H>>(Error::HttpStatusCode(status))
                    &&& final(self)@ == old(self)@.ended()
                },
                Err(error) => {
                    &&& result == Err::<(), Error<H>>(Error::Hyper(error))
                    &&& final(self)@ == old(self)@.ended()
                },
            },
    {
        match response {
            Ok(204) => {
                self.state = OutgoingState::Ready;
                self.first = false;
                self.delivered = Ghost(self.delivered@ + self.in_flight@);
                self.in_flight = Ghost(Seq::empty());
                Ok(())
            },
            Ok(status) => {
                self.state = OutgoingState::Ended;
                Err(Error::HttpStatusCode(status))
            },
            Err(error) => {
                self.state = OutgoingState::Ended;
                Err(Error::Hyper(error))
            },
        }
    }
}

/// Where the pump for incoming data stands.
#[derive(Clone, Copy, Debug, PartialEq, Eq, Structural)]
pub enum IncomingState {
    /// The read request is still to be sent.
    Requesting,
    /// The response to the read request is still to come.
    Waiting,
    /// The body of the response is being read.
    Streaming,
    /// Nothing more will be read.
    Ended,
}

/// What the pump for incoming data has done so far.
pub ghost struct IncomingView {
    pub fronting: FrontingView,
    pub session_id: Uuid,
    pub state: IncomingState,
    /// The data of the frames so far, in their order.
    pub received: Seq<u8>,
}

impl IncomingView {
    /// A pump that has asked for nothing yet.
    pub open spec fn start(fronting: FrontingView, session_id: Uuid) -> IncomingView {
        IncomingView {
            fronting,
            session_id,
            state: IncomingState::Requesting,
            received: Seq::empty(),
        }
    }

    /// After the read request was sent.
    pub open spec fn asked(self) -> IncomingView {
        IncomingView { state: IncomingState::Waiting, ..self }
    }

    /// After the response has begun.
    pub open spec fn responded(self) -> IncomingView {
        IncomingView { state: IncomingState::Streaming, ..self }
    }

    /// After a frame with data.
    pub open spec fn got(self, data: Seq<u8>) -> IncomingView {
        IncomingView { received: self.received + data, ..self }
    }

    /// After the last frame.
    pub open spec fn ended(self) -> IncomingView {
        IncomingView { state: IncomingState::Ended, ..self }
    }
}

/// A frame of a response body.
#[derive(Debug)]
pub enum Frame {
    Data(Vec<u8>),
    Trailers,
}

/// What to hand to the caller.
#[derive(Debug)]
pub enum Forward<H> {
    /// These bytes.
    Data(Vec<u8>),
    /// Nothing: the frame holds no data.
    Nothing,
    /// This error, and then nothing more.
    Failure(H),
    /// The end of the data.
    End,
}

/// Reads what the proxy has for the caller, out of the response to one request.
pub struct IncomingPump {
    config: DomainFronting,
    session_id: Uuid,
    state: IncomingState,
    received: Ghost<Seq<u8>>,
}

impl View for IncomingPump {
    type V = IncomingView;

    closed spec fn view(&self) -> IncomingView {
        IncomingView {
            fronting: self.config@,
            session_id: self.session_id,
            state: self.state,
            received: self.received@,
        }
    }
}

impl IncomingPump {
    /// A pump that has asked for nothing yet.
    pub fn new(session_id: Uuid, config: DomainFronting) -> (pump: IncomingPump)
        ensures
            pump@ == IncomingView::start(config@, session_id),
            pump@.fronting == config@,
            pump@.session_id == session_id,
    {
        IncomingPump {
            config,
            session_id,
            state: IncomingState::Requesting,
            received: Ghost(Seq::empty()),
        }
    }

    /// Where the pump stands.
    pub fn state(&self) -> (state: IncomingState)
        ensures
            state == self@.state,
    {
        self.state
    }

    /// The request whose response carries the data. There is one per connection.
    pub fn request<H>(&mut self) -> (result: Result<Request, Error<H>>)
        requires
            old(self)@.state == IncomingState::Requesting,
        ensures
            exists|path: Uuid, built: Result<Request, HttpError>|
                {
                    &&& is_random_uuid(path.bits)
                    &&& #[trigger] is_read_request(
                        old(self)@.fronting,
                        old(self)@.session_id,
                        path,
                        built,
                    )
                    &&& match built {
                        Ok(request) => {
                            &&& result == Ok::<Request, Error<H>>(request)
                            &&& final(self)@ == old(self)@.asked()
                        },
                        Err(error) => {
                            &&& result == Err::<Request, Error<H>>(Error::Http(error))
                            &&& final(self)@ == old(self)@.ended()
                        },
                    }
                },
    {
        let built = create_read_request(&self.config, self.session_id);
        proof {
            let path = choose|path: Uuid|
                is_random_uuid(path.bits) && #[trigger] is_read_request(
                    self@.fronting,
                    self@.session_id,
                    path,
                    built,
                );
            assert(is_read_request(old(self)@.fronting, old(self)@.session_id, path, built));
        }
        match built {
            Ok(request) => {
                self.state = IncomingState::Waiting;
                Ok(request)
            },
            Err(error) => {
                self.state = IncomingState::Ended;
                Err(Error::Http(error))
            },
        }
    }

    /// Takes the status of the response, or the failure to get one. Any success will do.
    pub fn on_response<H>(&mut self, response: Result<u16, H>) -> (result: Result<(), Error<H>>)
        requires
            old(self)@.state == IncomingState::Waiting,
        ensures
            match response {
                Ok(status) => if 200 <= status <= 299 {
                    &&& result == Ok::<(), Error<H>>(())
                    &&& final(self)@ == old(self)@.responded()
                } else {
                    &&& result == Err::<(), Error<H>>(Error::HttpStatusCode(status))
                    &&& final(self)@ == old(self)@.ended()
                },
                Err(error) => {
                    &&& result == Err::<(), Error<H>>(Error::Hyper(error))
                    &&& final(self)@ == old(self)@.ended()
                },
            },
    {
        match response {
            Ok(status) => if 200 <= status && status <= 299 {
                self.state = IncomingState::Streaming;
                Ok(())
            } else {
                self.state = IncomingState::Ended;
                Err(Error::HttpStatusCode(status))
            },
            Err(error) => {
                self.state = IncomingState::Ended;
                Err(Error::Hyper(error))
            },
        }
    }

    /// Takes the next frame of the body, its failure or its end.
    pub fn on_frame<H>(&mut self, frame: Option<Result<Frame, H>>) -> (forward: Forward<H>)
        requires
            old(self)@.state == IncomingState::Streaming,
        ensures
            match frame {
                None => {
                    &&& forward == Forward::<H>::End
                    &&& final(self)@ == old(self)@.ended()
                },
                Some(Err(error)) => {
                    &&& forward == Forward::<H>::Failure(error)
                    &&& final(self)@ == old(self)@.ended()
                },
                Some(Ok(Frame::Data(data))) => {
                    &&& forward == Forward::<H>::Data(data)
                    &&& final(self)@ == old(self)@.got(data@)
                },
                Some(Ok(Frame::Trailers)) => {
                    &&& forward == Forward::<H>::Nothing
                    &&& final(self)@ == old(self)@
                },
            },
    {
        match frame {
            None => {
                self.state = IncomingState::Ended;
                Forward::End
            },
            Some(Err(error)) => {
                self.state = IncomingState::Ended;
                Forward::Failure(error)
            },
            Some(Ok(Frame::Data(data))) => {
                self.received = Ghost(self.received@ + data@);
                Forward::Data(data)
            },
            Some(Ok(Frame::Trailers)) => Forward::Nothing,
        }
    }

    /// Takes note that the caller no longer reads.
    pub fn on_reader_gone(&mut self)
        ensures
            final(self)@ == old(self)@.ended(),
    {
        self.state = IncomingState::Ended;
    }
}

/// The two directions of a tunnel, under one session.
pub struct ProxyConnection {
    pub incoming: IncomingPump,
    pub outgoing: OutgoingPump,
    /// Which of the HTTP connections carries the incoming data.
    pub incoming_stream: u8,
    /// Which of the HTTP connections carries the outgoing data.
    pub outgoing_stream: u8,
}

/// The state of the background task that does the I/O of a connection.
#[derive(Debug)]
pub enum IoTask {
    Running,
    Failed(std::io::Error),
    Finished,
}

/// The bytes of several buffers, one behind the other.
pub open spec fn merged(bufs: Seq<&[u8]>) -> Seq<u8>
    decreases bufs.len(),
{
    if bufs.len() == 0 {
        Seq::empty()
    } else {
        merged(bufs.drop_last()) + bufs.last()@
    }
}

impl ProxyConnection {
    /// A connection that has carried nothing yet, under the given session.
    pub open spec fn is_fresh(self, session_id: Uuid, fronting: FrontingView) -> bool {
        &&& self.incoming@ == IncomingView::start(fronting, session_id)
        &&& self.outgoing@ == OutgoingView::start(fronting, session_id)
    }

    /// Starts a tunnel under a fresh session.
    pub fn start_proxy(
        incoming_stream: u8,
        outgoing_stream: u8,
        config: &DomainFronting,
    ) -> (connection: ProxyConnection)
        ensures
            exists|session_id: Uuid|
                is_random_uuid(session_id.bits) && #[trigger] connection.is_fresh(
                    session_id,
                    config@,
                ),
            connection.incoming@.fronting == config@,
            connection.outgoing@.fronting == config@,
            connection.incoming@.session_id == connection.outgoing@.session_id,
            connection.incoming_stream == incoming_stream,
            connection.outgoing_stream == outgoing_stream,
    {
        let session_id = Uuid::new_v4();
        let connection = ProxyConnection {
            incoming: IncomingPump::new(session_id, config.clone()),
            outgoing: OutgoingPump::new(session_id, config.clone()),
            incoming_stream,
            outgoing_stream,
        };
        assert(connection.is_fresh(session_id, config@));
        connection
    }

    /// Starts a tunnel after HTTP/1.1 handshakes over two streams: one to receive, one to send.
    ///
    /// HTTP/1.1 can in theory carry both bodies at once, but many implementations do not.
    pub fn http1_1_from_streams<H>(
        handshakes: Result<(), H>,
        config: &DomainFronting,
    ) -> (result: Result<ProxyConnection, Error<H>>)
        ensures
            match (handshakes, result) {
                (Ok(()), Ok(connection)) => {
                    &&& exists|session_id: Uuid|
                        is_random_uuid(session_id.bits) && #[trigger] connection.is_fresh(
                            session_id,
                            config@,
                        )
                    &&& connection.incoming_stream == 0
                    &&& connection.outgoing_stream == 1
                },
                (Err(failure), Err(Error::Hyper(error))) => error == failure,
                _ => false,
            },
    {
        match handshakes {
            Ok(()) => Ok(ProxyConnection::start_proxy(0, 1, config)),
            Err(error) => Err(Error::Hyper(error)),
        }
    }

    /// Starts a tunnel after an HTTP/2 handshake over one stream, which carries both directions.
    pub fn http2_from_stream<H>(handshake: Result<(), H>, config: &DomainFronting) -> (result:
        Result<ProxyConnection, Error<H>>)
        ensures
            match (handshake, result) {
                (Ok(()), Ok(connection)) => {
                    &&& exists|session_id: Uuid|
                        is_random_uuid(session_id.bits) && #[trigger] connection.is_fresh(
                            session_id,
                            config@,
                        )
                    &&& connection.incoming_stream == 0
                    &&& connection.outgoing_stream == 0
                },
                (Err(failure), Err(Error::Hyper(error))) => error == failure,
                _ => false,
            },
    {
        match handshake {
            Ok(()) => Ok(ProxyConnection::start_proxy(0, 0, config)),
            Err(error) => Err(Error::Hyper(error)),
        }
    }

    /// Tells whether the connection can be read from and written to. That the I/O task has failed
    /// is an error.
    ///
    /// A task that has finished well is none: it finishes once the caller has shut its end down
    /// and the response has ended. What is left of the data can still be read, up to its end.
    pub fn check_io_task(task: IoTask) -> (result: Result<(), std::io::Error>)
        ensures
            match task {
                IoTask::Failed(failure) => result == Err::<(), std::io::Error>(failure),
                IoTask::Running | IoTask::Finished => result == Ok::<(), std::io::Error>(()),
            },
    {
        match task {
            IoTask::Failed(error) => Err(error),
            IoTask::Running | IoTask::Finished => Ok(()),
        }
    }

    /// Merges several buffers into one, because each write becomes one request.
    pub fn merge_buffers(bufs: &Vec<&[u8]>) -> (contiguous: Vec<u8>)
        ensures
            contiguous@ == merged(bufs@),
    {
        let mut contiguous: Vec<u8> = Vec::new();
        let mut i: usize = 0;
        while i < bufs.len()
            invariant
                i <= bufs.len(),
                contiguous@ == merged(bufs@.take(i as int)),
            decreases bufs.len() - i,
        {
            contiguous.extend_from_slice(bufs[i]);
            i = i + 1;
            assert(bufs@.take(i as int).drop_last() =~= bufs@.take(i - 1));
        }
        assert(bufs@.take(i as int) =~= bufs@);
        contiguous
    }

    /// Writes of several buffers at once are merged, so they are worth making.
    pub fn is_write_vectored(&self) -> (vectored: bool)
        ensures
            vectored,
    {
        true
    }
}

/// The version of HTTP that is spoken with the front.
#[derive(Clone, Copy, Debug, PartialEq, Eq, Structural)]
pub enum Version {
    Http1_1,
    Http2,
}

impl Version {
    /// The number of streams that a version needs: HTTP/1.1 takes one per direction.
    pub open spec fn streams(self) -> u8 {
        match self {
            Version::Http1_1 => 2,
            Version::Http2 => 1,
        }
    }
}

/// What is to be done next to connect to a front.
#[derive(Clone, Copy, Debug, PartialEq, Eq, Structural)]
pub enum Step {
    /// Open a TCP connection for this stream.
    Dial { stream: u8 },
    /// Do the TLS handshake over this stream.
    Secure { stream: u8 },
    /// Do the HTTP handshake over each stream.
    Handshake,
}

/// What a [`ProxyConfig`] says.
pub ghost struct ProxyConfigView {
    pub addr: SocketAddr,
    pub fronting: FrontingView,
}

/// What is known of a connection in the making.
pub ghost struct ConnectingView {
    pub proxy: ProxyConfigView,
    pub version: Version,
    /// Whether the TLS configuration offers HTTP/2, or `None` without TLS.
    pub offers_h2: Option<bool>,
    pub step: Step,
    /// The server name for the TLS handshakes, once it is needed.
    pub server_name: Seq<char>,
}

impl ConnectingView {
    /// A connection in the making, whose streams are still to be opened.
    pub open spec fn start(
        proxy: ProxyConfigView,
        version: Version,
        offers_h2: Option<bool>,
    ) -> ConnectingView {
        ConnectingView {
            proxy,
            version,
            offers_h2,
            step: Step::Dial { stream: 0 },
            server_name: Seq::empty(),
        }
    }

    /// What follows when all streams are open: with TLS the protocols must fit the version of
    /// HTTP, and the front must have a host name.
    pub open spec fn streams_open<H>(self, result: Result<ConnectingView, Error<H>>) -> bool {
        match self.offers_h2 {
            None => result == Ok::<ConnectingView, Error<H>>(
                ConnectingView { step: Step::Handshake, ..self },
            ),
            Some(offers_h2) => if offers_h2 != (self.version == Version::Http2) {
                result == Err::<ConnectingView, Error<H>>(Error::MisconfiguredAlpn)
            } else {
                let host = self.proxy.fronting.front_host();
                match server_name_of(host) {
                    Some(name) => result == Ok::<ConnectingView, Error<H>>(
                        ConnectingView {
                            step: Step::Secure { stream: 0 },
                            server_name: name,
                            ..self
                        },
                    ),
                    None => match result {
                        Err(Error::Tls(TlsError::InvalidInput(message))) => message@
                            == invalid_hostname_message(host),
                        _ => false,
                    },
                }
            },
        }
    }
}

/// The view of a connection in the making, where there is one.
pub open spec fn connecting_view<H>(result: Result<Connecting, Error<H>>) -> Result<
    ConnectingView,
    Error<H>,
> {
    match result {
        Ok(connecting) => Ok(connecting@),
        Err(error) => Err(error),
    }
}

/// A connection to a front in the making.
#[derive(Debug)]
pub struct Connecting {
    proxy: ProxyConfig,
    version: Version,
    offers_h2: Option<bool>,
    step: Step,
    server_name: String,
}

impl View for Connecting {
    type V = ConnectingView;

    closed spec fn view(&self) -> ConnectingView {
        ConnectingView {
            proxy: self.proxy@,
            version: self.version,
            offers_h2: self.offers_h2,
            step: self.step,
            server_name: self.server_name@,
        }
    }
}

impl Connecting {
    /// A connection whose streams are still to be opened.
    fn start(proxy: &ProxyConfig, version: Version, offers_h2: Option<bool>) -> (connecting:
        Connecting)
        ensures
            connecting@ == ConnectingView::start(proxy@, version, offers_h2),
    {
        let server_name = String::new();
        assert(server_name@ =~= Seq::empty());
        Connecting {
            proxy: proxy.clone(),
            version,
            offers_h2,
            step: Step::Dial { stream: 0 },
            server_name,
        }
    }

    /// Goes on from open streams.
    fn open_streams<H>(&mut self) -> (result: Result<(), Error<H>>)
        ensures
            match result {
                Ok(()) => old(self)@.streams_open::<H>(Ok(final(self)@)),
                Err(error) => old(self)@.streams_open::<H>(Err(error)) && final(self)@ == old(
                    self,
                )@,
            },
    {
        let offers_h2 = match self.offers_h2 {
            Some(offers_h2) => offers_h2,
            None => {
                self.step = Step::Handshake;
                return Ok(());
            },
        };
        if offers_h2 != (self.version == Version::Http2) {
            return Err(Error::MisconfiguredAlpn);
        }
        match TlsStream::connect_with_config(0u8, self.proxy.domain_fronting.front_host()) {
            Ok(tls) => {
                self.step = Step::Secure { stream: tls.stream };
                self.server_name = tls.server_name;
                Ok(())
            },
            Err(error) => Err(Error::Tls(error)),
        }
    }

    /// What is to be done next.
    pub fn step(&self) -> (step: Step)
        ensures
            step == self@.step,
    {
        self.step
    }

    /// The address to open streams to.
    pub fn addr(&self) -> (addr: SocketAddr)
        ensures
            addr == self@.proxy.addr,
    {
        self.proxy.addr
    }

    /// The version of HTTP to speak.
    pub fn version(&self) -> (version: Version)
        ensures
            version == self@.version,
    {
        self.version
    }

    /// The server name for the TLS handshakes.
    pub fn server_name(&self) -> (name: &str)
        ensures
            name@ == self@.server_name,
    {
        self.server_name.as_str()
    }

    /// Takes note of a TCP connection that was opened, or could not be.
    pub fn dialed<H>(&mut self, outcome: Result<(), std::io::Error>) -> (result: Result<
        (),
        Error<H>,
    >)
        requires
            old(self)@.step is Dial,
        ensures
            match outcome {
                Err(failure) => {
                    &&& result == Err::<(), Error<H>>(Error::Connection(failure))
                    &&& final(self)@ == old(self)@
                },
                Ok(()) => if old(self)@.step->Dial_stream + 1 < old(self)@.version.streams() {
                    &&& result == Ok::<(), Error<H>>(())
                    &&& final(self)@ == (ConnectingView {
                        step: Step::Dial { stream: (old(self)@.step->Dial_stream + 1) as u8 },
                        ..old(self)@
                    })
                } else {
                    match result {
                        Ok(()) => old(self)@.streams_open::<H>(Ok(final(self)@)),
                        Err(error) => old(self)@.streams_open::<H>(Err(error)) && final(self)@
                            == old(self)@,
                    }
                },
            },
    {
        if let Err(error) = outcome {
            return Err(Error::Connection(error));
        }
        if let (Version::Http1_1, Step::Dial { stream: 0 }) = (self.version, self.step) {
            self.step = Step::Dial { stream: 1 };
            Ok(())
        } else {
            self.open_streams()
        }
    }

    /// Takes note of a TLS handshake that succeeded or failed.
    pub fn secured<H>(&mut self, outcome: Result<(), std::io::Error>) -> (result: Result<
        (),
        Error<H>,
    >)
        requires
            old(self)@.step is Secure,
        ensures
            match outcome {
                Err(failure) => {
                    &&& result == Err::<(), Error<H>>(Error::Tls(TlsError::Io(failure)))
                    &&& final(self)@ == old(self)@
                },
                Ok(()) => {
                    &&& result == Ok::<(), Error<H>>(())
                    &&& final(self)@ == (ConnectingView {
                        step: if old(self)@.step->Secure_stream + 1 < old(
                            self,
                        )@.version.streams() {
                            Step::Secure { stream: (old(self)@.step->Secure_stream + 1) as u8 }
                        } else {
                            Step::Handshake
                        },
                        ..old(self)@
                    })
                },
            },
    {
        if let Err(error) = outcome {
            return Err(Error::Tls(TlsError::Io(error)));
        }
        if let (Version::Http1_1, Step::Secure { stream: 0 }) = (self.version, self.step) {
            self.step = Step::Secure { stream: 1 };
        } else {
            self.step = Step::Handshake;
        }
        Ok(())
    }

    /// Takes note of the HTTP handshakes, and starts the tunnel where they succeeded.
    pub fn handshaken<H>(self, outcome: Result<(), H>) -> (result: Result<
        ProxyConnection,
        Error<H>,
    >)
        requires
            self@.step == Step::Handshake,
        ensures
            match (outcome, result) {
                (Ok(()), Ok(connection)) => {
                    &&& exists|session_id: Uuid|
                        is_random_uuid(session_id.bits) && #[trigger] connection.is_fresh(
                            session_id,
                            self@.proxy.fronting,
                        )
                    &&& connection.incoming_stream == 0
                    &&& connection.outgoing_stream == self@.version.streams() - 1
                },
                (Err(failure), Err(Error::Hyper(error))) => error == failure,
                _ => false,
            },
    {
        match self.version {
            Version::Http1_1 => ProxyConnection::http1_1_from_streams(
                outcome,
                &self.proxy.domain_fronting,
            ),
            Version::Http2 => ProxyConnection::http2_from_stream(
                outcome,
                &self.proxy.domain_fronting,
            ),
        }
    }
}

/// Configuration for connecting to a domain fronting proxy: the resolved address of the CDN and
/// the fronting configuration. Created by [`DomainFronting::proxy_config`].
#[derive(Debug)]
pub struct ProxyConfig {
    /// The resolved socket address of the CDN.
    pub addr: SocketAddr,
    /// The fronting configuration.
    domain_fronting: DomainFronting,
}

impl View for ProxyConfig {
    type V = ProxyConfigView;

    closed spec fn view(&self) -> ProxyConfigView {
        ProxyConfigView { addr: self.addr, fronting: self.domain_fronting@ }
    }
}

impl PartialEq for ProxyConfig {
    fn eq(&self, other: &ProxyConfig) -> (same: bool) {
        self.addr == other.addr && self.domain_fronting == other.domain_fronting
    }
}

impl vstd::std_specs::cmp::PartialEqSpecImpl for ProxyConfig {
    open spec fn obeys_eq_spec() -> bool {
        true
    }

    open spec fn eq_spec(&self, other: &ProxyConfig) -> bool {
        &&& self@.addr == other@.addr
        &&& self@.fronting.front.same(other@.fronting.front)
        &&& self@.fronting.proxy_host == other@.fronting.proxy_host
        &&& self@.fronting.session_key == other@.fronting.session_key
    }
}

impl Clone for ProxyConfig {
    fn clone(&self) -> (copy: ProxyConfig)
        ensures
            copy@ == self@,
    {
        ProxyConfig { addr: self.addr, domain_fronting: self.domain_fronting.clone() }
    }
}

impl ProxyConfig {
    /// Puts an address and a fronting configuration together.
    pub fn new(addr: SocketAddr, domain_fronting: DomainFronting) -> (config: ProxyConfig)
        ensures
            config@ == (ProxyConfigView { addr, fronting: domain_fronting@ }),
    {
        ProxyConfig { addr, domain_fronting }
    }

    /// Connects with HTTP/2, over a TCP connection with TLS.
    pub fn connect_https2(&self, alpn_protocols: &Vec<Vec<u8>>) -> (connecting: Connecting)
        ensures
            connecting@ == ConnectingView::start(
                self@,
                Version::Http2,
                Some(offers_h2(alpn_protocols@)),
            ),
    {
        Connecting::start(self, Version::Http2, Some(has_h2(alpn_protocols)))
    }

    /// Connects with HTTP/1.1, over two TCP connections with TLS.
    pub fn connect_https1_1(&self, alpn_protocols: &Vec<Vec<u8>>) -> (connecting: Connecting)
        ensures
            connecting@ == ConnectingView::start(
                self@,
                Version::Http1_1,
                Some(offers_h2(alpn_protocols@)),
            ),
    {
        Connecting::start(self, Version::Http1_1, Some(has_h2(alpn_protocols)))
    }

    /// Connects with HTTP/2 and TLS, over a stream that is open.
    ///
    /// The caller brings the transport and the TLS settings.
    pub fn connect_https2_over_stream<H>(&self, alpn_protocols: &Vec<Vec<u8>>) -> (result: Result<
        Connecting,
        Error<H>,
    >)
        ensures
            ConnectingView::start(
                self@,
                Version::Http2,
                Some(offers_h2(alpn_protocols@)),
            ).streams_open(connecting_view(result)),
    {
        let mut connecting = self.connect_https2(alpn_protocols);
        match connecting.open_streams() {
            Ok(()) => Ok(connecting),
            Err(error) => Err(error),
        }
    }

    /// Connects with HTTP/1.1 and TLS, over two streams that are open.
    ///
    /// The caller brings the transports and the TLS settings.
    pub fn connect_https1_1_over_streams<H>(&self, alpn_protocols: &Vec<Vec<u8>>) -> (result:
        Result<Connecting, Error<H>>)
        ensures
            ConnectingView::start(
                self@,
                Version::Http1_1,
                Some(offers_h2(alpn_protocols@)),
            ).streams_open(connecting_view(result)),
    {
        let mut connecting = self.connect_https1_1(alpn_protocols);
        match connecting.open_streams() {
            Ok(()) => Ok(connecting),
            Err(error) => Err(error),
        }
    }

    /// Connects with HTTP/1.1, over two TCP connections without TLS.
    pub fn connect_http1_1(&self) -> (connecting: Connecting)
        ensures
            connecting@ == ConnectingView::start(self@, Version::Http1_1, None),
    {
        Connecting::start(self, Version::Http1_1, None)
    }

    /// Connects with HTTP/1.1, over two streams that are open.
    ///
    /// Any transport will do, such as one in memory, or one with TLS of its own.
    pub fn connect_http1_1_over_streams(&self) -> (connecting: Connecting)
        ensures
            connecting@ == (ConnectingView {
                step: Step::Handshake,
                ..ConnectingView::start(self@, Version::Http1_1, None)
            }),
    {
        let mut connecting = self.connect_http1_1();
        connecting.step = Step::Handshake;
        connecting
    }

    /// Connects with HTTP/2, over a stream that is open.
    ///
    /// Any transport will do, such as one in memory, or one with TLS of its own.
    pub fn connect_http2_over_stream(&self) -> (connecting: Connecting)
        ensures
            connecting@ == (ConnectingView {
                step: Step::Handshake,
                ..ConnectingView::start(self@, Version::Http2, None)
            }),
    {
        let mut connecting = Connecting::start(self, Version::Http2, None);
        connecting.step = Step::Handshake;
        connecting
    }
}

} // verus!
