//! The server: it keeps the sessions, and decides on requests.

use std::collections::HashMap;

use vstd::prelude::*;

use crate::header::{
    ascii_text, build_bare_response, build_response, first_value, get_header, header_values,
    is_visible, lemma_fixed_names, lemma_fixed_values, three_headers, value_text,
};
use crate::message::{Method, RequestHead, Response};
use crate::net::SocketAddr;
use crate::session_id::{uuid_of_text, Uuid};
use crate::time::{deadline_after, start_timeout, Duration, Instant};
use crate::DomainFronting;

verus! {

/// Connects to upstream with TCP streams.
#[derive(Clone, Copy, Debug, PartialEq, Eq, Structural)]
pub struct TcpConnector;

impl Default for TcpConnector {
    fn default() -> (connector: TcpConnector)
        ensures
            connector == TcpConnector,
    {
        TcpConnector
    }
}

/// What a [`Config`] says.
pub ghost struct ConfigView {
    pub upstream: SocketAddr,
    pub session_key: Seq<char>,
    pub total_timeout: Option<Duration>,
    pub idle_timeout: Option<Duration>,
}

/// The configuration of a server.
#[derive(Debug)]
pub struct Config {
    /// Address of the upstream host.
    pub upstream: SocketAddr,
    /// Name of the header that carries the session identifier.
    pub session_key: String,
    /// How long a session may last.
    pub total_timeout: Option<Duration>,
    /// How long a session may last while no data is sent in either direction.
    pub idle_timeout: Option<Duration>,
}

impl View for Config {
    type V = ConfigView;

    open spec fn view(&self) -> ConfigView {
        ConfigView {
            upstream: self.upstream,
            session_key: self.session_key@,
            total_timeout: self.total_timeout,
            idle_timeout: self.idle_timeout,
        }
    }
}

impl Clone for Config {
    fn clone(&self) -> (copy: Config)
        ensures
            copy@ == self@,
    {
        Config {
            upstream: self.upstream,
            session_key: self.session_key.clone(),
            total_timeout: self.total_timeout,
            idle_timeout: self.idle_timeout,
        }
    }
}

impl Config {
    /// A server for `upstream`, with the usual session header and without timeouts.
    pub fn new(upstream: SocketAddr) -> (config: Config)
        ensures
            config@ == (ConfigView {
                upstream,
                session_key: "X-Session"@,
                total_timeout: None,
                idle_timeout: None,
            }),
    {
        Config {
            upstream,
            session_key: DomainFronting::DEFAULT_SESSION_KEY.to_owned(),
            total_timeout: None,
            idle_timeout: None,
        }
    }

    /// The same with another session header.
    pub fn with_session_key(self, session_key: String) -> (config: Config)
        ensures
            config@ == (ConfigView { session_key: session_key@, ..self@ }),
    {
        Config { session_key, ..self }
    }

    /// The same with a total timeout.
    pub fn with_total_timeout(self, total_timeout: Duration) -> (config: Config)
        ensures
            config@ == (ConfigView { total_timeout: Some(total_timeout), ..self@ }),
    {
        Config { total_timeout: Some(total_timeout), ..self }
    }

    /// The same with an idle timeout.
    pub fn with_idle_timeout(self, idle_timeout: Duration) -> (config: Config)
        ensures
            config@ == (ConfigView { idle_timeout: Some(idle_timeout), ..self@ }),
    {
        Config { idle_timeout: Some(idle_timeout), ..self }
    }

    /// Whether nothing ever ends a session.
    pub fn sessions_live_forever(&self) -> (forever: bool)
        ensures
            forever == (self.total_timeout is None && self.idle_timeout is None),
    {
        self.total_timeout.is_none() && self.idle_timeout.is_none()
    }
}

/// The numbers of bytes that went through a server.
#[derive(Clone, Copy, Debug, PartialEq, Eq, Structural)]
pub struct Stats {
    /// Sent to upstream.
    pub bytes_tx: u64,
    /// Received from upstream.
    pub bytes_rx: u64,
}

impl Default for Stats {
    fn default() -> (stats: Stats)
        ensures
            stats == (Stats { bytes_tx: 0, bytes_rx: 0 }),
    {
        Stats { bytes_tx: 0, bytes_rx: 0 }
    }
}

/// A count of bytes after some more, modulo 2 to the power of 64.
pub open spec fn counted(count: u64, more: nat) -> u64 {
    ((count + more) % 0x1_0000_0000_0000_0000) as u64
}

/// The counters of a server. They wrap around at their ends.
#[derive(Debug)]
pub struct AtomicStats {
    bytes_tx: u64,
    bytes_rx: u64,
}

impl View for AtomicStats {
    type V = Stats;

    closed spec fn view(&self) -> Stats {
        Stats { bytes_tx: self.bytes_tx, bytes_rx: self.bytes_rx }
    }
}

impl Default for AtomicStats {
    fn default() -> (stats: AtomicStats)
        ensures
            stats@ == (Stats { bytes_tx: 0, bytes_rx: 0 }),
    {
        AtomicStats { bytes_tx: 0, bytes_rx: 0 }
    }
}

impl AtomicStats {
    /// A copy of the counters.
    pub fn freeze(&self) -> (stats: Stats)
        ensures
            stats == self@,
    {
        Stats { bytes_tx: self.bytes_tx, bytes_rx: self.bytes_rx }
    }

    /// A copy of the counters, which are then zero.
    pub fn take(&mut self) -> (stats: Stats)
        ensures
            stats == old(self)@,
            final(self)@ == (Stats { bytes_tx: 0, bytes_rx: 0 }),
    {
        let stats = self.freeze();
        self.bytes_tx = 0;
        self.bytes_rx = 0;
        stats
    }

    /// Counts bytes that were sent to upstream.
    pub fn add_tx(&mut self, more: usize)
        ensures
            final(self)@ == (Stats { bytes_tx: counted(old(self)@.bytes_tx, more as nat), ..old(
                self,
            )@ }),
    {
        self.bytes_tx = self.bytes_tx.wrapping_add(more as u64);
    }

    /// Counts bytes that were received from upstream.
    pub fn add_rx(&mut self, more: usize)
        ensures
            final(self)@ == (Stats { bytes_rx: counted(old(self)@.bytes_rx, more as nat), ..old(
                self,
            )@ }),
    {
        self.bytes_rx = self.bytes_rx.wrapping_add(more as u64);
    }
}

/// Why a request is answered with `400 Bad Request`.
#[derive(Debug)]
pub enum RequestError {
    /// The tunnel does not use this method.
    UnexpectedMethod(String),
    /// There is no session header, or it holds no identifier.
    InvalidSessionId,
    /// The session has ended, and the request may not open it anew.
    ExpiredSession,
    /// There is no such session, and the request may not open it.
    NoSession,
    /// The body of the request could not be read to its end. Holds the text of the cause.
    Body(String),
    /// The session did not reply to the request. Holds the text of the cause.
    NoReply(String),
    /// The session is being read from already.
    MultipleReads,
}

impl RequestError {
    /// The text of the error.
    pub open spec fn text(self) -> Seq<char> {
        match self {
            RequestError::UnexpectedMethod(method) => "Unexpected HTTP method: "@ + method@,
            RequestError::InvalidSessionId => "Invalid/missing session ID"@,
            RequestError::ExpiredSession => "Expired session"@,
            RequestError::NoSession => "No session"@,
            RequestError::Body(cause) => cause@,
            RequestError::NoReply(cause) => cause@,
            RequestError::MultipleReads => "Multiple read requests are not allowed"@,
        }
    }

    /// The text of the error.
    pub fn message(&self) -> (message: String)
        ensures
            message@ == self.text(),
    {
        match self {
            RequestError::UnexpectedMethod(method) => {
                let mut message = "Unexpected HTTP method: ".to_owned();
                message.append(method.as_str());
                message
            },
            RequestError::InvalidSessionId => "Invalid/missing session ID".to_owned(),
            RequestError::ExpiredSession => "Expired session".to_owned(),
            RequestError::NoSession => "No session".to_owned(),
            RequestError::Body(cause) => cause.clone(),
            RequestError::NoReply(cause) => cause.clone(),
            RequestError::MultipleReads => "Multiple read requests are not allowed".to_owned(),
        }
    }
}

/// The session identifier in the headers of a request, if they hold one.
pub open spec fn session_id_of(
    headers: Map<Seq<char>, Seq<Seq<u8>>>,
    session_key: Seq<char>,
) -> Option<Uuid> {
    match first_value(headers, session_key) {
        Some(value) => if is_visible(value) {
            match uuid_of_text(ascii_text(value)) {
                Some(bits) => Some(Uuid { bits }),
                None => None,
            }
        } else {
            None
        },
        None => None,
    }
}

/// What a request does about its session, by the state of that session: without an entry, with
/// the entry of a session that has ended, or with one that is alive.
///
/// A session that is alive is used. Otherwise one is opened, which `None` stands for, unless the
/// method forbids it.
pub open spec fn admission<S>(method: Method, entry: Option<Option<S>>) -> Result<
    Option<S>,
    RequestError,
> {
    match entry {
        Some(Some(session)) => Ok(Some(session)),
        Some(None) => if method == Method::Patch {
            Err(RequestError::ExpiredSession)
        } else {
            Ok(None)
        },
        None => if method == Method::Patch {
            Err(RequestError::NoSession)
        } else {
            Ok(None)
        },
    }
}

/// Decides what a request does about its session.
pub fn let_in<S>(method: Method, entry: Option<Option<S>>) -> (result: Result<
    Option<S>,
    RequestError,
>)
    ensures
        result == admission(method, entry),
{
    let can_create_session = method != Method::Patch;
    match entry {
        Some(Some(session)) => Ok(Some(session)),
        Some(None) => if can_create_session {
            Ok(None)
        } else {
            Err(RequestError::ExpiredSession)
        },
        None => if can_create_session {
            Ok(None)
        } else {
            Err(RequestError::NoSession)
        },
    }
}

/// What a session is started with.
#[derive(Clone, Copy, Debug, PartialEq, Eq, Structural)]
pub struct SessionArgs {
    pub session_id: Uuid,
    pub upstream: SocketAddr,
    pub idle_timeout: Option<Duration>,
    /// When the session ends at the latest.
    pub total_deadline: Option<Instant>,
}

/// A request that was let through to its session.
#[derive(Debug)]
pub struct Admitted<S> {
    pub method: Method,
    pub session_id: Uuid,
    pub session: S,
}

impl<S> Admitted<S> {
    /// Whether the request reads from its session. Otherwise it writes to it.
    pub fn reads(&self) -> (reads: bool)
        ensures
            reads == (self.method == Method::Get),
    {
        self.method == Method::Get
    }
}

/// A request that was refused.
#[derive(Debug)]
pub struct Refusal {
    /// Why.
    pub error: RequestError,
    /// The response to it.
    pub response: Response,
}

/// What a server knows.
#[verifier::reject_recursive_types(R)]
pub ghost struct ServerView<R> {
    pub config: ConfigView,
    pub stats: Stats,
    /// The sessions, by the bits of their identifiers.
    pub sessions: Map<u128, R>,
}

impl<R> ServerView<R> {
    /// What a new session is started with.
    pub open spec fn session_args(self, session_id: Uuid, now: Instant) -> SessionArgs {
        SessionArgs {
            session_id,
            upstream: self.config.upstream,
            idle_timeout: self.config.idle_timeout,
            total_deadline: deadline_after(self.config.total_timeout, now),
        }
    }
}

/// The state of a session in a table: no entry, or what `upgrade` may say of the entry.
pub open spec fn is_entry<S, R, U: Fn(&R) -> Option<S>>(
    sessions: Map<u128, R>,
    session_id: Uuid,
    upgrade: U,
    entry: Option<Option<S>>,
) -> bool {
    match entry {
        None => !sessions.contains_key(session_id.bits),
        Some(alive) => {
            &&& sessions.contains_key(session_id.bits)
            &&& upgrade.ensures((&sessions[session_id.bits],), alive)
        },
    }
}

/// A request opens a session, and with it a connection to upstream: it is a `GET` or a `POST`, it
/// names the session, and that session is unknown or may have ended.
pub open spec fn is_opening<S, R, U: Fn(&R) -> Option<S>>(
    before: ServerView<R>,
    head: RequestHead,
    upgrade: U,
    id: Uuid,
) -> bool {
    &&& Method::named(head.method@) == Some(Method::Get) || Method::named(head.method@) == Some(
        Method::Post,
    )
    &&& session_id_of(header_values(head.headers), before.config.session_key) == Some(id)
    &&& before.sessions.contains_key(id.bits) ==> upgrade.ensures(
        (&before.sessions[id.bits],),
        None,
    )
}

/// What comes of a request: an error, or its session, which may have been opened for it.
pub open spec fn is_handling<S, R, U: Fn(&R) -> Option<S>, F: FnOnce(SessionArgs) -> (S, R)>(
    before: ServerView<R>,
    after: ServerView<R>,
    head: RequestHead,
    now: Instant,
    upgrade: U,
    spawn: F,
    result: Result<Admitted<S>, RequestError>,
) -> bool {
    match Method::named(head.method@) {
        None => {
            &&& result == Err::<Admitted<S>, RequestError>(
                RequestError::UnexpectedMethod(head.method),
            )
            &&& after == before
        },
        Some(method) => match session_id_of(
            header_values(head.headers),
            before.config.session_key,
        ) {
            None => {
                &&& result == Err::<Admitted<S>, RequestError>(RequestError::InvalidSessionId)
                &&& after == before
            },
            Some(id) => exists|entry: Option<Option<S>>|
                {
                    &&& #[trigger] is_entry(before.sessions, id, upgrade, entry)
                    &&& is_served(before, after, method, id, now, entry, spawn, result)
                },
        },
    }
}

/// What comes of a request for a session in the given state.
pub open spec fn is_served<S, R, F: FnOnce(SessionArgs) -> (S, R)>(
    before: ServerView<R>,
    after: ServerView<R>,
    method: Method,
    id: Uuid,
    now: Instant,
    entry: Option<Option<S>>,
    spawn: F,
    result: Result<Admitted<S>, RequestError>,
) -> bool {
    match admission(method, entry) {
        Err(error) => {
            &&& result == Err::<Admitted<S>, RequestError>(error)
            &&& after == before
        },
        Ok(Some(session)) => {
            &&& result == Ok::<Admitted<S>, RequestError>(
                Admitted { method, session_id: id, session },
            )
            &&& after == before
        },
        Ok(None) => exists|session: S, reference: R|
            {
                &&& #[trigger] spawn.ensures(
                    (before.session_args(id, now),),
                    (session, reference),
                )
                &&& result == Ok::<Admitted<S>, RequestError>(
                    Admitted { method, session_id: id, session },
                )
                &&& after == (ServerView {
                    sessions: before.sessions.insert(id.bits, reference),
                    ..before
                })
            },
    }
}

/// Domain fronting server. Decides on HTTP requests, and keeps the sessions that proxy data
/// to upstream.
///
/// `C` connects to upstream. `R` refers to a session without keeping it alive.
#[verifier::reject_recursive_types(R)]
pub struct Server<C, R> {
    config: Config,
    connector: C,
    stats: AtomicStats,
    sessions: HashMap<u128, R>,
}

impl<C, R> View for Server<C, R> {
    type V = ServerView<R>;

    closed spec fn view(&self) -> ServerView<R> {
        ServerView { config: self.config@, stats: self.stats@, sessions: self.sessions@ }
    }
}

impl<R> Server<TcpConnector, R> {
    /// A server with the TCP connector.
    pub fn new(config: Config) -> (server: Server<TcpConnector, R>)
        ensures
            server@ == (ServerView::<R> {
                config: config@,
                stats: Stats { bytes_tx: 0, bytes_rx: 0 },
                sessions: Map::empty(),
            }),
            server.spec_connector() == TcpConnector,
    {
        Server::with_connector(config, TcpConnector)
    }
}

impl<C, R> Server<C, R> {
    /// How the server connects to upstream.
    pub closed spec fn spec_connector(&self) -> C {
        self.connector
    }

    /// A server with a connector of the caller's.
    pub fn with_connector(config: Config, connector: C) -> (server: Server<C, R>)
        ensures
            server@ == (ServerView::<R> {
                config: config@,
                stats: Stats { bytes_tx: 0, bytes_rx: 0 },
                sessions: Map::empty(),
            }),
            server.spec_connector() == connector,
    {
        broadcast use vstd::std_specs::hash::group_hash_axioms;

        Server { config, connector, stats: AtomicStats::default(), sessions: HashMap::new() }
    }

    /// How the server connects to upstream.
    pub fn connector(&self) -> (connector: &C)
        ensures
            *connector == self.spec_connector(),
    {
        &self.connector
    }

    /// The configuration of the server.
    pub fn config(&self) -> (config: &Config)
        ensures
            config@ == self@.config,
    {
        &self.config
    }

    /// The session identifier of a request, if its headers hold one.
    pub fn session_id(&self, headers: &http::HeaderMap<http::HeaderValue>) -> (id: Option<Uuid>)
        ensures
            id == session_id_of(header_values(*headers), self@.config.session_key),
    {
        let value = match get_header(headers, self.config.session_key.as_str()) {
            Some(value) => value,
            None => return None,
        };
        match value_text(&value) {
            Some(text) => Uuid::from_text(text.as_str()),
            None => None,
        }
    }

    /// What to start a new session with.
    fn new_session(&self, session_id: Uuid, now: Instant) -> (args: SessionArgs)
        ensures
            args == self@.session_args(session_id, now),
    {
        SessionArgs {
            session_id,
            upstream: self.config.upstream,
            idle_timeout: self.config.idle_timeout,
            total_deadline: start_timeout(self.config.total_timeout, now),
        }
    }

    /// Finds the session that a request is for, or opens it.
    ///
    /// `upgrade` gets hold of a session that is alive, and `spawn` starts one: it may be called
    /// only where the request opens a session, and only for that session.
    pub fn handle_request_inner<S, U: Fn(&R) -> Option<S>, F: FnOnce(SessionArgs) -> (S, R)>(
        &mut self,
        head: RequestHead,
        now: Instant,
        upgrade: U,
        spawn: F,
    ) -> (result: Result<Admitted<S>, RequestError>)
        requires
            forall|reference: &R| #[trigger] upgrade.requires((reference,)),
            forall|id: Uuid| #[trigger]
                is_opening(old(self)@, head, upgrade, id) ==> spawn.requires(
                    (old(self)@.session_args(id, now),),
                ),
        ensures
            final(self).spec_connector() == old(self).spec_connector(),
            is_handling(old(self)@, final(self)@, head, now, upgrade, spawn, result),
    {
        broadcast use vstd::std_specs::hash::group_hash_axioms;

        let method = match Method::from_name(head.method.as_str()) {
            Some(method) => method,
            None => return Err(RequestError::UnexpectedMethod(head.method)),
        };
        let session_id = match self.session_id(&head.headers) {
            Some(session_id) => session_id,
            None => return Err(RequestError::InvalidSessionId),
        };
        let entry = match self.sessions.get(&session_id.bits) {
            Some(reference) => Some(upgrade(reference)),
            None => None,
        };
        assert(is_entry(old(self)@.sessions, session_id, upgrade, entry));
        match let_in(method, entry) {
            Err(error) => Err(error),
            Ok(Some(session)) => Ok(Admitted { method, session_id, session }),
            Ok(None) => {
                assert(is_opening(old(self)@, head, upgrade, session_id));
                let args = self.new_session(session_id, now);
                let (session, reference) = spawn(args);
                self.sessions.insert(session_id.bits, reference);
                Ok(Admitted { method, session_id, session })
            },
        }
    }
    /// Finds the session that a request is for, or opens it, or answers the request with
    /// `400 Bad Request` where that cannot be. Calls `spawn` only where the request opens a
    /// session.
    pub fn handle_request<S, U: Fn(&R) -> Option<S>, F: FnOnce(SessionArgs) -> (S, R)>(
        &mut self,
        head: RequestHead,
        now: Instant,
        upgrade: U,
        spawn: F,
    ) -> (result: Result<Admitted<S>, Refusal>)
        requires
            forall|reference: &R| #[trigger] upgrade.requires((reference,)),
            forall|id: Uuid| #[trigger]
                is_opening(old(self)@, head, upgrade, id) ==> spawn.requires(
                    (old(self)@.session_args(id, now),),
                ),
        ensures
            final(self).spec_connector() == old(self).spec_connector(),
            exists|handling: Result<Admitted<S>, RequestError>|
                {
                    &&& #[trigger] is_handling(
                        old(self)@,
                        final(self)@,
                        head,
                        now,
                        upgrade,
                        spawn,
                        handling,
                    )
                    &&& match handling {
                        Ok(admitted) => result == Ok::<Admitted<S>, Refusal>(admitted),
                        Err(error) => {
                            &&& result is Err
                            &&& result->Err_0.error == error
                            &&& result->Err_0.response.is_bare(400)
                        },
                    }
                },
    {
        match self.handle_request_inner(head, now, upgrade, spawn) {
            Ok(admitted) => Ok(admitted),
            Err(error) => Err(Refusal { error, response: bad_request() }),
        }
    }

    /// Forgets a session that has ended. Whatever is kept under its identifier goes.
    pub fn remove_session(&mut self, session_id: Uuid)
        ensures
            final(self).spec_connector() == old(self).spec_connector(),
            final(self)@ == (ServerView {
                sessions: old(self)@.sessions.remove(session_id.bits),
                ..old(self)@
            }),
    {
        broadcast use vstd::std_specs::hash::group_hash_axioms;

        let _ = self.sessions.remove(&session_id.bits);
        assert(self.sessions@ =~= old(self).sessions@.remove(session_id.bits));
    }

    /// The counters, for a request or a stream to add to.
    pub fn stats_mut(&mut self) -> (stats: &mut AtomicStats)
        ensures
            stats@ == old(self)@.stats,
            final(self)@ == (ServerView { stats: final(stats)@, ..old(self)@ }),
            final(self).spec_connector() == old(self).spec_connector(),
    {
        &mut self.stats
    }

    /// The counts since the last call.
    pub fn take_stats(&mut self) -> (stats: Stats)
        ensures
            stats == old(self)@.stats,
            final(self)@ == (ServerView {
                stats: Stats { bytes_tx: 0, bytes_rx: 0 },
                ..old(self)@
            }),
            final(self).spec_connector() == old(self).spec_connector(),
    {
        self.stats.take()
    }
}

/// The response with status `400` and no headers.
pub fn bad_request() -> (response: Response)
    ensures
        response.is_bare(400),
{
    bare_response(400)
}

/// A response without headers.
fn bare_response(status: u16) -> (response: Response)
    requires
        100 <= status <= 999,
    ensures
        response.is_bare(status),
{
    let (status, headers) = build_bare_response(status).unwrap();
    Response { status, headers }
}

/// Turns what became of a request into its response: an error is answered with
/// `400 Bad Request`.
pub fn answer(outcome: Result<Response, RequestError>) -> (response: Response)
    ensures
        match outcome {
            Ok(given) => response == given,
            Err(_) => response.is_bare(400),
        },
{
    match outcome {
        Ok(response) => response,
        Err(_) => bad_request(),
    }
}

/// How far the body of a write request has got.
pub ghost struct WriteView {
    /// The bytes of the body so far.
    pub offered: Seq<u8>,
    /// The bytes that the session has not replied to yet.
    pub in_flight: Seq<u8>,
}

impl WriteView {
    /// Before anything of the body is read.
    pub open spec fn start() -> WriteView {
        WriteView { offered: Seq::empty(), in_flight: Seq::empty() }
    }

    /// After a further piece of the body.
    pub open spec fn took(self, data: Seq<u8>) -> WriteView {
        WriteView { offered: self.offered + data, in_flight: data }
    }

    /// After the reply of the session.
    pub open spec fn replied(self) -> WriteView {
        WriteView { in_flight: Seq::empty(), ..self }
    }

    /// The status of the response: there must have been something to write.
    pub open spec fn status(self) -> u16 {
        if self.offered.len() == 0 {
            400
        } else {
            204
        }
    }
}

/// Streams the body of a request to a session.
pub struct WriteRequest {
    total: usize,
    in_flight: usize,
    log: Ghost<WriteView>,
}

impl View for WriteRequest {
    type V = WriteView;

    closed spec fn view(&self) -> WriteView {
        self.log@
    }
}

impl WriteRequest {
    #[verifier::type_invariant]
    spec fn counts_match(self) -> bool {
        &&& self.total == if self.log@.offered.len() <= usize::MAX {
            self.log@.offered.len() as usize
        } else {
            usize::MAX
        }
        &&& self.in_flight == self.log@.in_flight.len()
    }

    /// Starts to stream.
    pub fn start() -> (write: WriteRequest)
        ensures
            write@ == WriteView::start(),
    {
        WriteRequest { total: 0, in_flight: 0, log: Ghost(WriteView::start()) }
    }

    /// Takes the next piece of the body, its failure or its end. A piece is for the session.
    pub fn on_data(self, data: Option<Result<Vec<u8>, String>>) -> (result: (
        WriteRequest,
        Result<Option<Vec<u8>>, RequestError>,
    ))
        ensures
            match data {
                None => {
                    &&& result.1 == Ok::<Option<Vec<u8>>, RequestError>(None)
                    &&& result.0@ == self@
                },
                Some(Err(cause)) => {
                    &&& result.1 == Err::<Option<Vec<u8>>, RequestError>(RequestError::Body(cause))
                    &&& result.0@ == self@
                },
                Some(Ok(data)) => {
                    &&& result.1 == Ok::<Option<Vec<u8>>, RequestError>(Some(data))
                    &&& result.0@ == self@.took(data@)
                },
            },
    {
        proof {
            use_type_invariant(&self);
        }
        match data {
            None => (self, Ok(None)),
            Some(Err(cause)) => (self, Err(RequestError::Body(cause))),
            Some(Ok(data)) => {
                let next = WriteRequest {
                    total: self.total.saturating_add(data.len()),
                    in_flight: data.len(),
                    log: Ghost(self.log@.took(data@)),
                };
                (next, Ok(Some(data)))
            },
        }
    }

    /// Takes the reply of the session to a piece, or the news that there will be none.
    pub fn on_reply(self, reply: Result<(), String>, stats: &mut AtomicStats) -> (result: (
        WriteRequest,
        Result<(), RequestError>,
    ))
        ensures
            match reply {
                Ok(()) => {
                    &&& result.1 == Ok::<(), RequestError>(())
                    &&& result.0@ == self@.replied()
                    &&& final(stats)@ == (Stats {
                        bytes_tx: counted(old(stats)@.bytes_tx, self@.in_flight.len()),
                        ..old(stats)@
                    })
                },
                Err(cause) => {
                    &&& result.1 == Err::<(), RequestError>(RequestError::NoReply(cause))
                    &&& result.0@ == self@
                    &&& final(stats)@ == old(stats)@
                },
            },
    {
        proof {
            use_type_invariant(&self);
        }
        match reply {
            Ok(()) => {
                stats.add_tx(self.in_flight);
                let next = WriteRequest {
                    total: self.total,
                    in_flight: 0,
                    log: Ghost(self.log@.replied()),
                };
                (next, Ok(()))
            },
            Err(cause) => (self, Err(RequestError::NoReply(cause))),
        }
    }

    /// The response once the whole body is with the session.
    pub fn finish(self) -> (response: Response)
        ensures
            response.is_bare(self@.status()),
    {
        proof {
            use_type_invariant(&self);
        }
        if self.total == 0 {
            bad_request()
        } else {
            bare_response(204)
        }
    }
}

/// A response whose body streams the data of a session.
pub open spec fn is_stream_response(response: Response) -> bool {
    &&& response.status == 200
    &&& header_values(response.headers) == three_headers(
        ("content-type"@, "application/octet-stream"@),
        ("cache-control"@, "no-cache, no-store, no-transform"@),
        ("transfer-encoding"@, "chunked"@),
    )
}

/// Answers a read request by what the session gave: its data, or nothing where another request
/// has got it.
pub fn handle_read_request<T>(reply: Result<Option<T>, String>) -> (result: Result<
    (Response, T),
    RequestError,
>)
    ensures
        match reply {
            Err(cause) => result == Err::<(Response, T), RequestError>(
                RequestError::NoReply(cause),
            ),
            Ok(None) => result == Err::<(Response, T), RequestError>(RequestError::MultipleReads),
            Ok(Some(stream)) => match result {
                Ok((response, body)) => is_stream_response(response) && body == stream,
                Err(_) => false,
            },
        },
{
    let stream = match reply {
        Ok(Some(stream)) => stream,
        Ok(None) => return Err(RequestError::MultipleReads),
        Err(cause) => return Err(RequestError::NoReply(cause)),
    };
    proof {
        lemma_fixed_names();
        lemma_fixed_values();
    }
    let (status, headers) = build_response(
        200,
        ("content-type", "application/octet-stream"),
        ("cache-control", "no-cache, no-store, no-transform"),
        ("transfer-encoding", "chunked"),
    ).unwrap();
    Ok((Response { status, headers }, stream))
}

} // verus!
