//! What holds of the client and the server together.

use vstd::prelude::*;
use vstd::utf8::encode_utf8;

use crate::client::{
    ConnectingView, IncomingState, IncomingView, OutgoingState, OutgoingView, ProxyConnection,
    Step, Version,
};
use crate::header::{
    appended, ascii_text, first_value, header_name_char, header_values, is_header_name,
    lemma_fixed_names, lemma_lookup_name, three_headers, HeaderText,
};
use crate::message::{law_method_names, Method, Request, RequestHead};
use crate::request::{
    host_header, is_read_request, is_request, is_write_request, lemma_uuid_value, session_header,
};
use crate::server::{
    counted, is_handling, is_opening, session_id_of, Admitted, RequestError, ServerView,
    SessionArgs, Stats, WriteView,
};
use crate::session::{SessionView, StreamView};
use crate::session_id::{law_uuid_text_round_trip, uuid_text, Uuid};
use crate::text::{lower, lower_char};
use crate::time::{deadline_after, has_come, Instant};
use crate::tls_stream::server_name_of;
use crate::FrontingView;

verus! {

/// A name is a header name in whatever case its letters are.
proof fn lemma_lower_name(a: Seq<char>, b: Seq<char>)
    requires
        is_header_name(a),
        lower(a) == lower(b),
    ensures
        is_header_name(b),
{
    assert(a.len() == lower(a).len());
    assert(b.len() == lower(b).len());
    assert forall|i: int| 0 <= i < b.len() implies header_name_char(#[trigger] b[i]) by {
        assert(lower(a)[i] == lower(b)[i]);
        assert(lower(a)[i] == lower_char(a[i]));
        assert(lower(b)[i] == lower_char(b[i]));
        assert(header_name_char(a[i]));
    }
}

/// The session identifier is found where it stands behind two other headers.
proof fn lemma_session_header(
    fronting: FrontingView,
    session_id: Uuid,
    middle: HeaderText,
    session_key: Seq<char>,
)
    requires
        is_header_name(fronting.session_key),
        lower(session_key) == lower(fronting.session_key),
        lower(fronting.session_key) != lower("host"@),
        lower(fronting.session_key) != lower(middle.0),
    ensures
        session_id_of(
            three_headers(
                host_header(fronting),
                middle,
                session_header(fronting, session_id),
            ),
            session_key,
        ) == Some(session_id),
{
    let text = uuid_text(session_id.bits);
    let value = encode_utf8(text);
    lemma_lower_name(fronting.session_key, session_key);
    lemma_lookup_name(session_key);
    lemma_uuid_value(session_id.bits);
    law_uuid_text_round_trip(session_id.bits);
    let headers = three_headers(
        host_header(fronting),
        middle,
        session_header(fronting, session_id),
    );
    assert(headers[lower(session_key)] =~= seq![value]);
    assert(first_value(headers, session_key) == Some(value));
    assert forall|i: int| 0 <= i < value.len() implies 32 <= (#[trigger] value[i]) < 127 by {
        assert(value[i] == text[i] as u8);
        assert(' ' <= text[i] <= '~');
    }
    assert(ascii_text(value) =~= text) by {
        assert forall|i: int| 0 <= i < text.len() implies ascii_text(value)[i] == text[i] by {
            assert(value[i] == text[i] as u8);
            assert(' ' <= text[i] <= '~');
        }
    }
}

/// The server finds in a write request the session that the client wrote to, under a session key
/// that differs at most in case, and the first write may open a session while the others may not.
/// The session key must be none of the other headers of the request.
pub proof fn law_write_request_finds_session(
    fronting: FrontingView,
    session_id: Uuid,
    path: Uuid,
    body: Seq<u8>,
    can_create_session: bool,
    request: Request,
    session_key: Seq<char>,
)
    requires
        is_write_request(fronting, session_id, path, body, can_create_session, Ok(request)),
        lower(session_key) == lower(fronting.session_key),
        lower(fronting.session_key) != "host"@,
        lower(fronting.session_key) != "content-type"@,
    ensures
        session_id_of(header_values(request.headers), session_key) == Some(session_id),
        Method::named(request.method.name()) == Some(
            if can_create_session {
                Method::Post
            } else {
                Method::Patch
            },
        ),
        request.body@ == body,
{
    lemma_fixed_names();
    law_method_names(request.method);
    lemma_session_header(
        fronting,
        session_id,
        ("content-type"@, "application/octet-stream"@),
        session_key,
    );
}

/// The server finds in a read request the session that the client reads from, under a session key
/// that differs at most in case. The session key must be none of the other headers of the request.
pub proof fn law_read_request_finds_session(
    fronting: FrontingView,
    session_id: Uuid,
    path: Uuid,
    request: Request,
    session_key: Seq<char>,
)
    requires
        is_read_request(fronting, session_id, path, Ok(request)),
        lower(session_key) == lower(fronting.session_key),
        lower(fronting.session_key) != "host"@,
        lower(fronting.session_key) != "accept"@,
    ensures
        session_id_of(header_values(request.headers), session_key) == Some(session_id),
        Method::named(request.method.name()) == Some(Method::Get),
{
    lemma_fixed_names();
    law_method_names(request.method);
    lemma_session_header(fronting, session_id, ("accept"@, "*/*"@), session_key);
}

/// Every request names the proxy host, and not the front, in its `Host` header.
pub proof fn law_requests_name_the_proxy(
    fronting: FrontingView,
    session_id: Uuid,
    path: Uuid,
    method: Method,
    middle: HeaderText,
    body: Seq<u8>,
    request: Request,
)
    requires
        is_request(fronting, session_id, path, method, middle, body, Ok(request)),
    ensures
        first_value(header_values(request.headers), "host"@) == Some(
            encode_utf8(fronting.proxy_host),
        ),
{
    lemma_fixed_names();
    lemma_lookup_name("host"@);
    let one = appended(Map::empty(), "host"@, fronting.proxy_host);
    let two = appended(one, middle.0, middle.1);
    let three = appended(two, fronting.session_key, uuid_text(session_id.bits));
    assert(one[lower("host"@)][0] == encode_utf8(fronting.proxy_host));
    assert(two[lower("host"@)][0] == encode_utf8(fronting.proxy_host));
    assert(three[lower("host"@)][0] == encode_utf8(fronting.proxy_host));
}

/// TLS handshakes begin only with protocols that fit the version of HTTP, and name the front, and
/// not the proxy host.
pub proof fn law_handshakes_name_the_front<H>(before: ConnectingView, after: ConnectingView)
    requires
        before.offers_h2 is Some,
        before.streams_open::<H>(Ok(after)),
    ensures
        before.offers_h2 == Some(before.version == Version::Http2),
        after.step == (Step::Secure { stream: 0 }),
        server_name_of(before.proxy.fronting.front_host()) == Some(after.server_name),
{
}

/// A request that is refused changes nothing, and opens no connection to upstream.
pub proof fn law_refusal_changes_nothing<
    S,
    R,
    U: Fn(&R) -> Option<S>,
    F: FnOnce(SessionArgs) -> (S, R),
>(
    before: ServerView<R>,
    after: ServerView<R>,
    head: RequestHead,
    now: Instant,
    upgrade: U,
    spawn: F,
    error: RequestError,
)
    requires
        is_handling(before, after, head, now, upgrade, spawn, Err::<Admitted<S>, _>(error)),
    ensures
        after == before,
        forall|id: Uuid| !#[trigger] is_opening(before, head, upgrade, id),
{
}

/// `PATCH` opens no session, and no connection to upstream.
pub proof fn law_patch_opens_nothing<
    S,
    R,
    U: Fn(&R) -> Option<S>,
    F: FnOnce(SessionArgs) -> (S, R),
>(
    before: ServerView<R>,
    after: ServerView<R>,
    head: RequestHead,
    now: Instant,
    upgrade: U,
    spawn: F,
    result: Result<Admitted<S>, RequestError>,
)
    requires
        Method::named(head.method@) == Some(Method::Patch),
        is_handling(before, after, head, now, upgrade, spawn, result),
    ensures
        after == before,
        forall|id: Uuid| !#[trigger] is_opening(before, head, upgrade, id),
        result is Ok ==> before.sessions.contains_key(result->Ok_0.session_id.bits),
{
}

/// No connection to upstream is opened for a method that the tunnel does not use, for `PATCH`, for
/// a request without a session identifier, or for a session that is alive.
pub proof fn law_no_needless_connection<S, R, U: Fn(&R) -> Option<S>>(
    before: ServerView<R>,
    head: RequestHead,
    upgrade: U,
)
    requires
        ({
            let session_id = session_id_of(
                header_values(head.headers),
                before.config.session_key,
            );
            ||| Method::named(head.method@) is None
            ||| Method::named(head.method@) == Some(Method::Patch)
            ||| session_id is None
            ||| {
                &&& before.sessions.contains_key(session_id->0.bits)
                &&& forall|found: Option<S>| #[trigger]
                    upgrade.ensures((&before.sessions[session_id->0.bits],), found)
                        ==> found is Some
            }
        }),
    ensures
        forall|id: Uuid| !#[trigger] is_opening(before, head, upgrade, id),
{
}

/// A `GET` or a `POST` for a session that is unknown, or that has ended, opens a connection to the
/// upstream of the server, with its timeouts, and the session takes the place of the ended one.
pub proof fn law_opening<S, R, U: Fn(&R) -> Option<S>, F: FnOnce(SessionArgs) -> (S, R)>(
    before: ServerView<R>,
    after: ServerView<R>,
    head: RequestHead,
    now: Instant,
    upgrade: U,
    spawn: F,
    result: Result<Admitted<S>, RequestError>,
    session_id: Uuid,
)
    requires
        is_opening(before, head, upgrade, session_id),
        before.sessions.contains_key(session_id.bits) ==> forall|found: Option<S>| #[trigger]
            upgrade.ensures((&before.sessions[session_id.bits],), found) ==> found is None,
        is_handling(before, after, head, now, upgrade, spawn, result),
    ensures
        result is Ok,
        after.sessions.contains_key(session_id.bits),
        spawn.ensures(
            (
                SessionArgs {
                    session_id,
                    upstream: before.config.upstream,
                    idle_timeout: before.config.idle_timeout,
                    total_deadline: deadline_after(before.config.total_timeout, now),
                },
            ),
            (result->Ok_0.session, after.sessions[session_id.bits]),
        ),
{
}

/// `GET` and `POST` with a session identifier are always let through to a session of that
/// identifier, which the server knows from then on.
pub proof fn law_get_and_post_reach_a_session<
    S,
    R,
    U: Fn(&R) -> Option<S>,
    F: FnOnce(SessionArgs) -> (S, R),
>(
    before: ServerView<R>,
    after: ServerView<R>,
    head: RequestHead,
    now: Instant,
    upgrade: U,
    spawn: F,
    result: Result<Admitted<S>, RequestError>,
    session_id: Uuid,
)
    requires
        Method::named(head.method@) == Some(Method::Get) || Method::named(head.method@) == Some(
            Method::Post,
        ),
        session_id_of(header_values(head.headers), before.config.session_key) == Some(session_id),
        is_handling(before, after, head, now, upgrade, spawn, result),
    ensures
        result is Ok,
        result->Ok_0.session_id == session_id,
        Method::named(head.method@) == Some(result->Ok_0.method),
        after.sessions.contains_key(session_id.bits),
{
}

/// A session that is alive is used by every method, and neither a session nor a connection to
/// upstream is opened in its place.
pub proof fn law_live_session_is_used<
    S,
    R,
    U: Fn(&R) -> Option<S>,
    F: FnOnce(SessionArgs) -> (S, R),
>(
    before: ServerView<R>,
    after: ServerView<R>,
    head: RequestHead,
    now: Instant,
    upgrade: U,
    spawn: F,
    result: Result<Admitted<S>, RequestError>,
    session_id: Uuid,
)
    requires
        Method::named(head.method@) is Some,
        session_id_of(header_values(head.headers), before.config.session_key) == Some(session_id),
        before.sessions.contains_key(session_id.bits),
        forall|found: Option<S>| #[trigger]
            upgrade.ensures((&before.sessions[session_id.bits],), found) ==> found is Some,
        is_handling(before, after, head, now, upgrade, spawn, result),
    ensures
        result is Ok,
        upgrade.ensures((&before.sessions[session_id.bits],), Some(result->Ok_0.session)),
        after == before,
        forall|id: Uuid| !#[trigger] is_opening(before, head, upgrade, id),
{
}

/// A write of the client reaches the session that it is for: the first one always, and opens the
/// session where that is needed. The client and the server must agree on the session key, up to
/// case, and it must be none of the other headers.
pub proof fn law_writes_reach_their_session<
    S,
    R,
    U: Fn(&R) -> Option<S>,
    F: FnOnce(SessionArgs) -> (S, R),
>(
    fronting: FrontingView,
    session_id: Uuid,
    path: Uuid,
    body: Seq<u8>,
    first: bool,
    request: Request,
    before: ServerView<R>,
    after: ServerView<R>,
    head: RequestHead,
    now: Instant,
    upgrade: U,
    spawn: F,
    result: Result<Admitted<S>, RequestError>,
)
    requires
        is_write_request(fronting, session_id, path, body, first, Ok(request)),
        lower(before.config.session_key) == lower(fronting.session_key),
        lower(fronting.session_key) != "host"@,
        lower(fronting.session_key) != "content-type"@,
        head.method@ == request.method.name(),
        head.headers == request.headers,
        is_handling(before, after, head, now, upgrade, spawn, result),
    ensures
        first ==> result is Ok && after.sessions.contains_key(session_id.bits),
        match result {
            Ok(admitted) => {
                &&& admitted.session_id == session_id
                &&& admitted.method == request.method
            },
            Err(error) => error == if before.sessions.contains_key(session_id.bits) {
                RequestError::ExpiredSession
            } else {
                RequestError::NoSession
            },
        },
{
    law_write_request_finds_session(
        fronting,
        session_id,
        path,
        body,
        first,
        request,
        before.config.session_key,
    );
}

/// A read of the client always reaches the session that it is for, and opens the session where
/// that is needed. The client and the server must agree on the session key, up to case, and it
/// must be none of the other headers.
pub proof fn law_reads_reach_their_session<
    S,
    R,
    U: Fn(&R) -> Option<S>,
    F: FnOnce(SessionArgs) -> (S, R),
>(
    fronting: FrontingView,
    session_id: Uuid,
    path: Uuid,
    request: Request,
    before: ServerView<R>,
    after: ServerView<R>,
    head: RequestHead,
    now: Instant,
    upgrade: U,
    spawn: F,
    result: Result<Admitted<S>, RequestError>,
)
    requires
        is_read_request(fronting, session_id, path, Ok(request)),
        lower(before.config.session_key) == lower(fronting.session_key),
        lower(fronting.session_key) != "host"@,
        lower(fronting.session_key) != "accept"@,
        head.method@ == request.method.name(),
        head.headers == request.headers,
        is_handling(before, after, head, now, upgrade, spawn, result),
    ensures
        result is Ok,
        result->Ok_0.session_id == session_id,
        result->Ok_0.method == Method::Get,
        after.sessions.contains_key(session_id.bits),
{
    law_read_request_finds_session(
        fronting,
        session_id,
        path,
        request,
        before.config.session_key,
    );
}

/// All requests with one identifier go to one session, and to its one connection to upstream: what
/// the first opened, a later one with any method finds, for as long as the session is alive, and
/// opens no further connection.
pub proof fn law_one_session_per_identifier<
    S,
    R,
    U: Fn(&R) -> Option<S>,
    F: FnOnce(SessionArgs) -> (S, R),
    V: Fn(&R) -> Option<S>,
    G: FnOnce(SessionArgs) -> (S, R),
>(
    before: ServerView<R>,
    opened: ServerView<R>,
    head: RequestHead,
    now: Instant,
    upgrade: U,
    spawn: F,
    first: Admitted<S>,
    after: ServerView<R>,
    later_head: RequestHead,
    later: Instant,
    later_upgrade: V,
    later_spawn: G,
    second: Result<Admitted<S>, RequestError>,
)
    requires
        is_handling(before, opened, head, now, upgrade, spawn, Ok(first)),
        !before.sessions.contains_key(first.session_id.bits),
        forall|args: SessionArgs, session: S, reference: R, found: Option<S>|
            #[trigger] spawn.ensures((args,), (session, reference))
                && #[trigger] later_upgrade.ensures((&reference,), found) ==> found == Some(
                session,
            ),
        Method::named(later_head.method@) is Some,
        session_id_of(header_values(later_head.headers), opened.config.session_key) == Some(
            first.session_id,
        ),
        is_handling(opened, after, later_head, later, later_upgrade, later_spawn, second),
    ensures
        second is Ok,
        second->Ok_0.session == first.session,
        second->Ok_0.session_id == first.session_id,
        after == opened,
        forall|id: Uuid| !#[trigger] is_opening(opened, later_head, later_upgrade, id),
{
}

/// A request for one session leaves every other alone.
pub proof fn law_sessions_are_separate<
    S,
    R,
    U: Fn(&R) -> Option<S>,
    F: FnOnce(SessionArgs) -> (S, R),
>(
    before: ServerView<R>,
    after: ServerView<R>,
    head: RequestHead,
    now: Instant,
    upgrade: U,
    spawn: F,
    result: Result<Admitted<S>, RequestError>,
    other: Uuid,
)
    requires
        session_id_of(header_values(head.headers), before.config.session_key) != Some(other),
        is_handling(before, after, head, now, upgrade, spawn, result),
    ensures
        after.sessions.contains_key(other.bits) == before.sessions.contains_key(other.bits),
        before.sessions.contains_key(other.bits) ==> after.sessions[other.bits]
            == before.sessions[other.bits],
        after.config == before.config,
        after.stats == before.stats,
{
}

/// Every entry of a session table refers to the session of its identifier, by what the references
/// say whose session they are.
pub open spec fn is_owned<R>(sessions: Map<u128, R>, owner: spec_fn(R) -> Uuid) -> bool {
    forall|bits: u128| #[trigger]
        sessions.contains_key(bits) ==> owner(sessions[bits]).bits == bits
}

/// A request only ever reaches the session of its own identifier, and the entries of the table
/// stay with theirs, also when a session is forgotten. `reference_owner` and `session_owner` say
/// whose session a reference and a session are: what is started for an identifier is that one's,
/// and what a reference gives hold of is the session that it refers to.
pub proof fn law_requests_reach_their_own_session<
    S,
    R,
    U: Fn(&R) -> Option<S>,
    F: FnOnce(SessionArgs) -> (S, R),
>(
    before: ServerView<R>,
    after: ServerView<R>,
    head: RequestHead,
    now: Instant,
    upgrade: U,
    spawn: F,
    result: Result<Admitted<S>, RequestError>,
    session_owner: spec_fn(S) -> Uuid,
    reference_owner: spec_fn(R) -> Uuid,
    forgotten: Uuid,
)
    requires
        is_owned(before.sessions, reference_owner),
        forall|args: SessionArgs, session: S, reference: R| #[trigger]
            spawn.ensures((args,), (session, reference)) ==> session_owner(session)
                == args.session_id && reference_owner(reference) == args.session_id,
        forall|reference: R, session: S| #[trigger]
            upgrade.ensures((&reference,), Some(session)) ==> session_owner(session)
                == reference_owner(reference),
        is_handling(before, after, head, now, upgrade, spawn, result),
    ensures
        is_owned(after.sessions, reference_owner),
        is_owned(after.sessions.remove(forgotten.bits), reference_owner),
        result is Ok ==> {
            &&& session_id_of(header_values(head.headers), before.config.session_key) == Some(
                result->Ok_0.session_id,
            )
            &&& session_owner(result->Ok_0.session) == result->Ok_0.session_id
        },
{
}

/// Once a request has taken the data of a session, no later one gets it, whatever the session
/// does in between.
pub proof fn law_one_reader<Rd, Wr>(session: SessionView<Rd, Wr>, bytes: Seq<u8>, now: Instant)
    requires
        session.reader is None,
    ensures
        session.read().reader is None,
        session.petted(now).reader is None,
        session.wrote(bytes, now).reader is None,
        session.streamed(true, now).reader is None,
{
}

/// A session ends when its idle timeout has passed since the last sign of life or when its total
/// deadline has come, and not before. Bytes that are written to upstream and frames that are read
/// from it are signs of life. A read that gives no frame is none.
pub proof fn law_timeouts<Rd, Wr>(
    session: SessionView<Rd, Wr>,
    bytes: Seq<u8>,
    alive: Instant,
    now: Instant,
)
    ensures
        ({
            let expired = {
                ||| session.idle_timeout is Some && alive.nanos + session.idle_timeout->0.nanos
                    <= now.nanos
                ||| has_come(session.total_deadline, now)
            };
            &&& session.petted(alive).is_expired(now) <==> expired
            &&& session.wrote(bytes, alive).is_expired(now) <==> expired
            &&& session.streamed(true, alive).is_expired(now) <==> expired
            &&& session.streamed(false, alive).is_expired(now) <==> session.is_expired(now)
        }),
{
}

/// Nothing that a session does puts its total deadline off: it is the total timeout of the server
/// after the opening of the session.
pub proof fn law_total_timeout<R, Rd, Wr>(
    server: ServerView<R>,
    session_id: Uuid,
    opened: Instant,
    reader: Rd,
    writer: Wr,
    bytes: Seq<u8>,
    later: Instant,
    now: Instant,
)
    ensures
        ({
            let args = server.session_args(session_id, opened);
            let session = SessionView::start(args, reader, writer, later);
            &&& has_come(session.total_deadline, now) <==> server.config.total_timeout is Some
                && opened.nanos + server.config.total_timeout->0.nanos <= now.nanos
            &&& session.petted(later).total_deadline == session.total_deadline
            &&& session.wrote(bytes, later).total_deadline == session.total_deadline
            &&& session.read().total_deadline == session.total_deadline
            &&& session.streamed(true, later).total_deadline == session.total_deadline
        }),
{
}

/// Counting bytes in two steps is counting them in one.
pub proof fn law_counts_add_up(count: u64, a: nat, b: nat)
    ensures
        counted(counted(count, a), b) == counted(count, a + b),
{
    let m: int = 0x1_0000_0000_0000_0000;
    vstd::arithmetic::div_mod::lemma_mod_bound(count + a, m);
    vstd::arithmetic::div_mod::lemma_add_mod_noop_right(b as int, count + a, m);
}

/// What is done to the counters of a server.
pub ghost enum CountStep {
    /// Bytes were sent to upstream.
    Tx(nat),
    /// Bytes were received from upstream.
    Rx(nat),
    /// The counts were taken.
    Take,
}

/// The counters, and the sums of what was taken from them.
pub ghost struct Counts {
    pub held: Stats,
    pub taken_tx: nat,
    pub taken_rx: nat,
}

impl Counts {
    /// After a step.
    pub open spec fn step(self, step: CountStep) -> Counts {
        match step {
            CountStep::Tx(more) => Counts {
                held: Stats { bytes_tx: counted(self.held.bytes_tx, more), ..self.held },
                ..self
            },
            CountStep::Rx(more) => Counts {
                held: Stats { bytes_rx: counted(self.held.bytes_rx, more), ..self.held },
                ..self
            },
            CountStep::Take => Counts {
                held: Stats { bytes_tx: 0, bytes_rx: 0 },
                taken_tx: self.taken_tx + self.held.bytes_tx as nat,
                taken_rx: self.taken_rx + self.held.bytes_rx as nat,
            },
        }
    }

    /// After several steps.
    pub open spec fn steps(self, steps: Seq<CountStep>) -> Counts
        decreases steps.len(),
    {
        if steps.len() == 0 {
            self
        } else {
            self.steps(steps.drop_last()).step(steps.last())
        }
    }
}

/// All bytes that steps count as sent.
pub open spec fn added_tx(steps: Seq<CountStep>) -> nat
    decreases steps.len(),
{
    if steps.len() == 0 {
        0
    } else {
        added_tx(steps.drop_last()) + match steps.last() {
            CountStep::Tx(more) => more,
            _ => 0,
        }
    }
}

/// All bytes that steps count as received.
pub open spec fn added_rx(steps: Seq<CountStep>) -> nat
    decreases steps.len(),
{
    if steps.len() == 0 {
        0
    } else {
        added_rx(steps.drop_last()) + match steps.last() {
            CountStep::Rx(more) => more,
            _ => 0,
        }
    }
}

/// Nothing that is counted is lost, and nothing is reported twice: in whatever order bytes are
/// counted and counts are taken, what a counter started with and what was added to it is what was
/// taken from it and what it holds, as long as that fits the counter.
pub proof fn law_counts_are_kept(start: Stats, steps: Seq<CountStep>)
    ensures
        ({
            let after = Counts { held: start, taken_tx: 0, taken_rx: 0 }.steps(steps);
            &&& start.bytes_tx + added_tx(steps) <= u64::MAX ==> start.bytes_tx + added_tx(steps)
                == after.taken_tx + after.held.bytes_tx
            &&& start.bytes_rx + added_rx(steps) <= u64::MAX ==> start.bytes_rx + added_rx(steps)
                == after.taken_rx + after.held.bytes_rx
        }),
    decreases steps.len(),
{
    if steps.len() > 0 {
        law_counts_are_kept(start, steps.drop_last());
    }
}

/// Bytes that arrive at a point in time.
pub ghost struct Piece {
    pub data: Seq<u8>,
    pub at: Instant,
}

/// The bytes of pieces, one behind the other.
pub open spec fn data_of(pieces: Seq<Piece>) -> Seq<u8>
    decreases pieces.len(),
{
    if pieces.len() == 0 {
        Seq::empty()
    } else {
        data_of(pieces.drop_last()) + pieces.last().data
    }
}

/// A write request after pieces that the session has replied to.
pub open spec fn took_pieces(write: WriteView, pieces: Seq<Piece>) -> WriteView
    decreases pieces.len(),
{
    if pieces.len() == 0 {
        write
    } else {
        took_pieces(write, pieces.drop_last()).took(pieces.last().data).replied()
    }
}

/// A session after pieces that it wrote to upstream.
pub open spec fn wrote_pieces<Rd, Wr>(
    session: SessionView<Rd, Wr>,
    pieces: Seq<Piece>,
) -> SessionView<Rd, Wr>
    decreases pieces.len(),
{
    if pieces.len() == 0 {
        session
    } else {
        wrote_pieces(session, pieces.drop_last()).wrote(pieces.last().data, pieces.last().at)
    }
}

/// The counters after pieces that the session has replied to.
pub open spec fn counted_pieces(stats: Stats, pieces: Seq<Piece>) -> Stats
    decreases pieces.len(),
{
    if pieces.len() == 0 {
        stats
    } else {
        let before = counted_pieces(stats, pieces.drop_last());
        let taken = WriteView::start().took(pieces.last().data).in_flight;
        Stats { bytes_tx: counted(before.bytes_tx, taken.len()), ..before }
    }
}

/// A client and its session.
#[verifier::reject_recursive_types(Rd)]
#[verifier::reject_recursive_types(Wr)]
pub ghost struct Upload<Rd, Wr> {
    pub client: OutgoingView,
    pub session: SessionView<Rd, Wr>,
    pub stats: Stats,
}

impl<Rd, Wr> Upload<Rd, Wr> {
    /// After the client has sent a chunk, which reached the session in pieces, and has seen the
    /// response of the server.
    pub open spec fn round(self, pieces: Seq<Piece>) -> Upload<Rd, Wr> {
        let sent = self.client.sent(data_of(pieces));
        Upload {
            client: if took_pieces(WriteView::start(), pieces).status() == 204 {
                sent.acknowledged()
            } else {
                sent.ended()
            },
            session: wrote_pieces(self.session, pieces),
            stats: counted_pieces(self.stats, pieces),
        }
    }

    /// After several chunks.
    pub open spec fn rounds(self, chunks: Seq<Seq<Piece>>) -> Upload<Rd, Wr>
        decreases chunks.len(),
    {
        if chunks.len() == 0 {
            self
        } else {
            self.rounds(chunks.drop_last()).round(chunks.last())
        }
    }
}

/// The bytes of several chunks, one behind the other.
pub open spec fn data_of_all(chunks: Seq<Seq<Piece>>) -> Seq<u8>
    decreases chunks.len(),
{
    if chunks.len() == 0 {
        Seq::empty()
    } else {
        data_of_all(chunks.drop_last()) + data_of(chunks.last())
    }
}

/// What pieces do to the two ends and to the counters.
proof fn lemma_pieces<Rd, Wr>(
    write: WriteView,
    session: SessionView<Rd, Wr>,
    stats: Stats,
    pieces: Seq<Piece>,
)
    ensures
        took_pieces(write, pieces).offered == write.offered + data_of(pieces),
        wrote_pieces(session, pieces).sent == session.sent + data_of(pieces),
        counted_pieces(stats, pieces) == (Stats {
            bytes_tx: counted(stats.bytes_tx, data_of(pieces).len()),
            ..stats
        }),
    decreases pieces.len(),
{
    if pieces.len() == 0 {
        assert(write.offered + data_of(pieces) =~= write.offered);
        assert(session.sent + data_of(pieces) =~= session.sent);
    } else {
        let front = pieces.drop_last();
        lemma_pieces(write, session, stats, front);
        assert(write.offered + data_of(front) + pieces.last().data =~= write.offered + data_of(
            pieces,
        ));
        assert(session.sent + data_of(front) + pieces.last().data =~= session.sent + data_of(
            pieces,
        ));
        law_counts_add_up(stats.bytes_tx, data_of(front).len(), pieces.last().data.len());
    }
}

/// A chunk with at least one byte is acknowledged, in whatever pieces it arrives, and is then at
/// upstream: the client holds for delivered exactly what the session has written. A chunk without
/// a byte is not.
pub proof fn law_upload_round<Rd, Wr>(upload: Upload<Rd, Wr>, pieces: Seq<Piece>)
    ensures
        ({
            let chunk = data_of(pieces);
            let after = upload.round(pieces);
            &&& after.session.sent == upload.session.sent + chunk
            &&& after.client.delivered == upload.client.delivered + chunk
            &&& chunk.len() > 0 ==> !after.client.first
            &&& chunk.len() == 0 ==> after.client.first == upload.client.first
            &&& after.stats == (Stats {
                bytes_tx: counted(upload.stats.bytes_tx, chunk.len()),
                ..upload.stats
            })
        }),
{
    lemma_pieces(WriteView::start(), upload.session, upload.stats, pieces);
    assert(WriteView::start().offered + data_of(pieces) =~= data_of(pieces));
    if data_of(pieces).len() == 0 {
        assert(upload.client.delivered + data_of(pieces) =~= upload.client.delivered);
    }
}

/// The tunnel carries what the client writes to upstream intact and in order: after any number of
/// chunks, in whatever pieces they arrive, upstream has got the bytes of all, one behind the
/// other, and the client holds just those for delivered.
pub proof fn law_upload<Rd, Wr>(upload: Upload<Rd, Wr>, chunks: Seq<Seq<Piece>>)
    ensures
        ({
            let after = upload.rounds(chunks);
            &&& after.session.sent == upload.session.sent + data_of_all(chunks)
            &&& after.client.delivered == upload.client.delivered + data_of_all(chunks)
            &&& after.stats == (Stats {
                bytes_tx: counted(upload.stats.bytes_tx, data_of_all(chunks).len()),
                ..upload.stats
            })
        }),
    decreases chunks.len(),
{
    if chunks.len() == 0 {
        assert(upload.session.sent + data_of_all(chunks) =~= upload.session.sent);
        assert(upload.client.delivered + data_of_all(chunks) =~= upload.client.delivered);
    } else {
        let front = chunks.drop_last();
        law_upload(upload, front);
        law_upload_round(upload.rounds(front), chunks.last());
        assert(upload.session.sent + data_of_all(front) + data_of(chunks.last())
            =~= upload.session.sent + data_of_all(chunks));
        assert(upload.client.delivered + data_of_all(front) + data_of(chunks.last())
            =~= upload.client.delivered + data_of_all(chunks));
        law_counts_add_up(
            upload.stats.bytes_tx,
            data_of_all(front).len(),
            data_of(chunks.last()).len(),
        );
    }
}

/// A stream of the server after frames.
pub open spec fn streamed_pieces<Rd>(stream: StreamView<Rd>, frames: Seq<Piece>) -> StreamView<Rd>
    decreases frames.len(),
{
    if frames.len() == 0 {
        stream
    } else {
        streamed_pieces(stream, frames.drop_last()).sent(frames.last().data)
    }
}

/// The client after frames of the response body.
pub open spec fn got_pieces(client: IncomingView, frames: Seq<Piece>) -> IncomingView
    decreases frames.len(),
{
    if frames.len() == 0 {
        client
    } else {
        got_pieces(client, frames.drop_last()).got(frames.last().data)
    }
}

/// What frames do to the two ends.
proof fn lemma_frames<Rd>(stream: StreamView<Rd>, client: IncomingView, frames: Seq<Piece>)
    ensures
        streamed_pieces(stream, frames).streamed == stream.streamed + data_of(frames),
        got_pieces(client, frames).received == client.received + data_of(frames),
    decreases frames.len(),
{
    if frames.len() == 0 {
        assert(stream.streamed + data_of(frames) =~= stream.streamed);
        assert(client.received + data_of(frames) =~= client.received);
    } else {
        let front = frames.drop_last();
        lemma_frames(stream, client, front);
        assert(stream.streamed + data_of(front) + frames.last().data =~= stream.streamed
            + data_of(frames));
        assert(client.received + data_of(front) + frames.last().data =~= client.received
            + data_of(frames));
    }
}

/// The counters after frames.
pub open spec fn counted_frames(stats: Stats, frames: Seq<Piece>) -> Stats
    decreases frames.len(),
{
    if frames.len() == 0 {
        stats
    } else {
        let before = counted_frames(stats, frames.drop_last());
        Stats { bytes_rx: counted(before.bytes_rx, frames.last().data.len()), ..before }
    }
}

/// What frames do to the counters.
proof fn lemma_counted_frames(stats: Stats, frames: Seq<Piece>)
    ensures
        counted_frames(stats, frames) == (Stats {
            bytes_rx: counted(stats.bytes_rx, data_of(frames).len()),
            ..stats
        }),
    decreases frames.len(),
{
    if frames.len() > 0 {
        let front = frames.drop_last();
        lemma_counted_frames(stats, front);
        law_counts_add_up(stats.bytes_rx, data_of(front).len(), frames.last().data.len());
    }
}

/// The tunnel carries what upstream sends to the client intact and in order, and counts it: the
/// client gets the bytes that the server streamed, in whatever frames they arrive.
pub proof fn law_download<Rd>(
    reader: Rd,
    stats: Stats,
    fronting: FrontingView,
    session_id: Uuid,
    sent: Seq<Piece>,
    arrived: Seq<Piece>,
)
    requires
        data_of(arrived) == data_of(sent),
    ensures
        got_pieces(
            IncomingView::start(fronting, session_id).asked().responded(),
            arrived,
        ).received
            == streamed_pieces(StreamView::start(reader), sent).streamed,
        streamed_pieces(StreamView::start(reader), sent).streamed == data_of(sent),
        counted_frames(stats, sent) == (Stats {
            bytes_rx: counted(stats.bytes_rx, data_of(sent).len()),
            ..stats
        }),
{
    lemma_frames(
        StreamView::start(reader),
        IncomingView::start(fronting, session_id).asked().responded(),
        sent,
    );
    lemma_frames(
        StreamView::start(reader),
        IncomingView::start(fronting, session_id).asked().responded(),
        arrived,
    );
    lemma_counted_frames(stats, sent);
    assert(Seq::<u8>::empty() + data_of(sent) =~= data_of(sent));
}

/// A session together with the stream of its data.
#[verifier::reject_recursive_types(Rd)]
#[verifier::reject_recursive_types(Wr)]
pub ghost struct Connection<Rd, Wr> {
    pub session: SessionView<Rd, Wr>,
    pub stream: StreamView<Rd>,
}

/// What happens to a session of a server.
pub ghost enum Traffic {
    /// Bytes of a request for this identifier are written.
    Write { to: Uuid, piece: Piece },
    /// A frame is read for the stream of this identifier.
    Frame { from: Uuid, piece: Piece },
}

/// The connections of a server after something happened to one of them.
pub open spec fn moved<Rd, Wr>(
    connections: Map<Uuid, Connection<Rd, Wr>>,
    traffic: Traffic,
) -> Map<Uuid, Connection<Rd, Wr>> {
    match traffic {
        Traffic::Write { to, piece } => if connections.contains_key(to) {
            let connection = connections[to];
            connections.insert(
                to,
                Connection {
                    session: connection.session.wrote(piece.data, piece.at),
                    ..connection
                },
            )
        } else {
            connections
        },
        Traffic::Frame { from, piece } => if connections.contains_key(from) {
            let connection = connections[from];
            connections.insert(
                from,
                Connection {
                    session: connection.session.streamed(true, piece.at),
                    stream: connection.stream.sent(piece.data),
                },
            )
        } else {
            connections
        },
    }
}

/// The connections of a server after all of this happened.
pub open spec fn moved_all<Rd, Wr>(
    connections: Map<Uuid, Connection<Rd, Wr>>,
    traffic: Seq<Traffic>,
) -> Map<Uuid, Connection<Rd, Wr>>
    decreases traffic.len(),
{
    if traffic.len() == 0 {
        connections
    } else {
        moved(moved_all(connections, traffic.drop_last()), traffic.last())
    }
}

/// The bytes that requests for one identifier brought, one behind the other.
pub open spec fn written_for(id: Uuid, traffic: Seq<Traffic>) -> Seq<u8>
    decreases traffic.len(),
{
    if traffic.len() == 0 {
        Seq::empty()
    } else {
        let before = written_for(id, traffic.drop_last());
        match traffic.last() {
            Traffic::Write { to, piece } => if to == id {
                before + piece.data
            } else {
                before
            },
            Traffic::Frame { .. } => before,
        }
    }
}

/// The bytes that were read from the upstream of one identifier, one behind the other.
pub open spec fn read_for(id: Uuid, traffic: Seq<Traffic>) -> Seq<u8>
    decreases traffic.len(),
{
    if traffic.len() == 0 {
        Seq::empty()
    } else {
        let before = read_for(id, traffic.drop_last());
        match traffic.last() {
            Traffic::Frame { from, piece } => if from == id {
                before + piece.data
            } else {
                before
            },
            Traffic::Write { .. } => before,
        }
    }
}

/// The bytes of one identifier reach and come from its own connection only: whatever the requests
/// and streams of all sessions do in between, upstream of a session gets just the bytes of the
/// requests for it, in their order, and its stream gives just the bytes of its own upstream.
pub proof fn law_bytes_stay_in_their_session<Rd, Wr>(
    connections: Map<Uuid, Connection<Rd, Wr>>,
    traffic: Seq<Traffic>,
    id: Uuid,
)
    requires
        connections.contains_key(id),
    ensures
        ({
            let after = moved_all(connections, traffic);
            &&& after.contains_key(id)
            &&& after[id].session.sent == connections[id].session.sent + written_for(id, traffic)
            &&& after[id].stream.streamed == connections[id].stream.streamed + read_for(
                id,
                traffic,
            )
        }),
    decreases traffic.len(),
{
    let sent = connections[id].session.sent;
    let streamed = connections[id].stream.streamed;
    if traffic.len() == 0 {
        assert(sent + written_for(id, traffic) =~= sent);
        assert(streamed + read_for(id, traffic) =~= streamed);
    } else {
        let front = traffic.drop_last();
        law_bytes_stay_in_their_session(connections, front, id);
        match traffic.last() {
            Traffic::Write { to, piece } => {
                assert(sent + written_for(id, front) + piece.data =~= sent + (written_for(
                    id,
                    front,
                ) + piece.data));
            },
            Traffic::Frame { from, piece } => {
                assert(streamed + read_for(id, front) + piece.data =~= streamed + (read_for(
                    id,
                    front,
                ) + piece.data));
            },
        }
    }
}

/// What happens to the two pumps of a connection.
pub ghost enum PumpStep {
    /// The read request was sent.
    Asked,
    /// A chunk was sent.
    Sent(Seq<u8>),
    /// The proxy has acknowledged a chunk.
    Acknowledged,
    /// The last chunk was sent, or one was refused.
    Stopped,
    /// The response has begun.
    Responded,
    /// Data has arrived.
    Got(Seq<u8>),
    /// The response has ended.
    Ended,
}

/// The two pumps of a connection after some steps.
pub open spec fn pumped(
    incoming: IncomingView,
    outgoing: OutgoingView,
    steps: Seq<PumpStep>,
) -> (IncomingView, OutgoingView)
    decreases steps.len(),
{
    if steps.len() == 0 {
        (incoming, outgoing)
    } else {
        let (incoming, outgoing) = pumped(incoming, outgoing, steps.drop_last());
        match steps.last() {
            PumpStep::Sent(chunk) => (incoming, outgoing.sent(chunk)),
            PumpStep::Acknowledged => (incoming, outgoing.acknowledged()),
            PumpStep::Stopped => (incoming, outgoing.ended()),
            PumpStep::Asked => (incoming.asked(), outgoing),
            PumpStep::Responded => (incoming.responded(), outgoing),
            PumpStep::Got(data) => (incoming.got(data), outgoing),
            PumpStep::Ended => (incoming.ended(), outgoing),
        }
    }
}

/// The pumps of a connection keep its session and its configuration.
proof fn lemma_pumped(incoming: IncomingView, outgoing: OutgoingView, steps: Seq<PumpStep>)
    ensures
        ({
            let (later_incoming, later_outgoing) = pumped(incoming, outgoing, steps);
            &&& later_incoming.session_id == incoming.session_id
            &&& later_incoming.fronting == incoming.fronting
            &&& later_outgoing.session_id == outgoing.session_id
            &&& later_outgoing.fronting == outgoing.fronting
        }),
    decreases steps.len(),
{
    if steps.len() > 0 {
        lemma_pumped(incoming, outgoing, steps.drop_last());
    }
}

/// There is one `GET` per connection: once the read request is sent, or could not be built, no
/// step leads back to where one can be sent.
pub proof fn law_one_read_request(
    incoming: IncomingView,
    outgoing: OutgoingView,
    steps: Seq<PumpStep>,
)
    ensures
        pumped(incoming.asked(), outgoing, steps).0.state != IncomingState::Requesting,
        pumped(incoming.ended(), outgoing, steps).0.state != IncomingState::Requesting,
    decreases steps.len(),
{
    if steps.len() > 0 {
        law_one_read_request(incoming, outgoing, steps.drop_last());
    }
}

/// Chunks take turns: after a chunk is sent no other can be sent before it is acknowledged, and
/// nothing can be sent after a refusal or after the end.
pub proof fn law_chunks_take_turns(outgoing: OutgoingView, chunk: Seq<u8>)
    ensures
        outgoing.sent(chunk).state == OutgoingState::Waiting,
        outgoing.sent(chunk).acknowledged().state == OutgoingState::Ready,
        outgoing.sent(chunk).ended().state == OutgoingState::Ended,
        outgoing.ended().state == OutgoingState::Ended,
{
}

/// A request carries a session identifier as the last value of the session header.
pub open spec fn carries(request: Request, fronting: FrontingView, session_id: Uuid) -> bool {
    let headers = header_values(request.headers);
    let key = lower(fronting.session_key);
    &&& headers.contains_key(key)
    &&& headers[key].len() > 0
    &&& headers[key].last() == encode_utf8(uuid_text(session_id.bits))
}

/// All requests of a connection, at whatever point of its life, carry the one session identifier
/// that it started with. The side that receives only ever asks with `GET`. The side that sends
/// only ever uses `POST` and `PATCH`.
pub proof fn law_requests_of_a_connection(
    connection: ProxyConnection,
    fronting: FrontingView,
    session_id: Uuid,
    steps: Seq<PumpStep>,
    path: Uuid,
    chunk: Seq<u8>,
    read: Request,
    write: Request,
)
    requires
        connection.is_fresh(session_id, fronting),
        ({
            let (incoming, outgoing) = pumped(
                connection.incoming@,
                connection.outgoing@,
                steps,
            );
            &&& is_read_request(incoming.fronting, incoming.session_id, path, Ok(read))
            &&& is_write_request(
                outgoing.fronting,
                outgoing.session_id,
                path,
                chunk,
                outgoing.first,
                Ok(write),
            )
        }),
    ensures
        carries(read, fronting, session_id),
        carries(write, fronting, session_id),
        read.method == Method::Get,
        write.method == Method::Post || write.method == Method::Patch,
{
    lemma_pumped(connection.incoming@, connection.outgoing@, steps);
}

} // verus!
