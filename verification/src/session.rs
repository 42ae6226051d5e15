//! A session of the server: one upstream connection, with its timeouts.

use vstd::prelude::*;

use crate::server::{counted, AtomicStats, SessionArgs, Stats};
use crate::session_id::Uuid;
use crate::time::{deadline_after, has_come, reached, start_timeout, Duration, Instant};

verus! {

/// What a session knows.
#[verifier::reject_recursive_types(Rd)]
#[verifier::reject_recursive_types(Wr)]
pub ghost struct SessionView<Rd, Wr> {
    pub session_id: Uuid,
    /// The read half of the upstream connection, until a request takes it.
    pub reader: Option<Rd>,
    /// The write half of the upstream connection.
    pub writer: Wr,
    pub idle_timeout: Option<Duration>,
    /// When the session ends unless data is sent before.
    pub idle_deadline: Option<Instant>,
    /// When the session ends at the latest.
    pub total_deadline: Option<Instant>,
    /// The bytes that were written to upstream.
    pub sent: Seq<u8>,
}

impl<Rd, Wr> SessionView<Rd, Wr> {
    /// A session right after it has connected to upstream.
    pub open spec fn start(args: SessionArgs, reader: Rd, writer: Wr, now: Instant) -> Self {
        SessionView {
            session_id: args.session_id,
            reader: Some(reader),
            writer,
            idle_timeout: args.idle_timeout,
            idle_deadline: deadline_after(args.idle_timeout, now),
            total_deadline: args.total_deadline,
            sent: Seq::empty(),
        }
    }

    /// After a sign of life.
    pub open spec fn petted(self, now: Instant) -> Self {
        SessionView { idle_deadline: deadline_after(self.idle_timeout, now), ..self }
    }

    /// After a request took the read half.
    pub open spec fn read(self) -> Self {
        SessionView { reader: None, ..self }
    }

    /// After bytes were written to upstream.
    pub open spec fn wrote(self, bytes: Seq<u8>, now: Instant) -> Self {
        SessionView { sent: self.sent + bytes, ..self.petted(now) }
    }

    /// After a read from upstream, which gave a frame or none.
    pub open spec fn streamed(self, frame: bool, now: Instant) -> Self {
        if frame {
            self.petted(now)
        } else {
            self
        }
    }

    /// A deadline of the session has come.
    pub open spec fn is_expired(self, now: Instant) -> bool {
        has_come(self.idle_deadline, now) || has_come(self.total_deadline, now)
    }
}

/// A session: one connection to upstream.
pub struct Session<Rd, Wr> {
    session_id: Uuid,
    upstream_read: Option<Rd>,
    upstream_write: Wr,
    idle_timeout: Option<Duration>,
    idle_deadline: Option<Instant>,
    total_deadline: Option<Instant>,
    sent: Ghost<Seq<u8>>,
}

impl<Rd, Wr> View for Session<Rd, Wr> {
    type V = SessionView<Rd, Wr>;

    closed spec fn view(&self) -> SessionView<Rd, Wr> {
        SessionView {
            session_id: self.session_id,
            reader: self.upstream_read,
            writer: self.upstream_write,
            idle_timeout: self.idle_timeout,
            idle_deadline: self.idle_deadline,
            total_deadline: self.total_deadline,
            sent: self.sent@,
        }
    }
}

/// When a session that starts to connect to upstream counts as idle.
pub fn connect_deadline(args: &SessionArgs, now: Instant) -> (deadline: Option<Instant>)
    ensures
        deadline == deadline_after(args.idle_timeout, now),
{
    start_timeout(args.idle_timeout, now)
}

impl<Rd, Wr> Session<Rd, Wr> {
    /// Starts a session by what the connecting to upstream gave.
    pub fn on_start(
        args: SessionArgs,
        connected: Result<(Rd, Wr), std::io::Error>,
        now: Instant,
    ) -> (result: Result<Session<Rd, Wr>, std::io::Error>)
        ensures
            match (connected, result) {
                (Ok((reader, writer)), Ok(session)) => {
                    &&& session@ == SessionView::start(args, reader, writer, now)
                    &&& session@.session_id == args.session_id
                    &&& session@.reader == Some(reader)
                    &&& session@.writer == writer
                    &&& session@.idle_timeout == args.idle_timeout
                    &&& session@.total_deadline == args.total_deadline
                },
                (Err(failure), Err(error)) => error == failure,
                _ => false,
            },
    {
        let (upstream_read, upstream_write) = match connected {
            Ok(halves) => halves,
            Err(error) => return Err(error),
        };
        let mut session = Session {
            session_id: args.session_id,
            upstream_read: Some(upstream_read),
            upstream_write,
            idle_timeout: args.idle_timeout,
            idle_deadline: None,
            total_deadline: args.total_deadline,
            sent: Ghost(Seq::empty()),
        };
        let _ = session.pet_idle_watchdog(now);
        Ok(session)
    }

    /// Starts the idle timeout anew, and says when it will have run out.
    pub fn pet_idle_watchdog(&mut self, now: Instant) -> (deadline: Option<Instant>)
        ensures
            final(self)@ == old(self)@.petted(now),
            deadline == final(self)@.idle_deadline,
            final(self)@.reader == old(self)@.reader,
            final(self)@.sent == old(self)@.sent,
            final(self)@.idle_timeout == old(self)@.idle_timeout,
            final(self)@.total_deadline == old(self)@.total_deadline,
    {
        self.idle_deadline = start_timeout(self.idle_timeout, now);
        self.idle_deadline
    }

    /// Hands out the data of upstream. There can only ever be one reader: a further request gets
    /// nothing.
    pub fn handle_read(&mut self) -> (stream: Option<StreamState<Rd>>)
        ensures
            final(self)@ == old(self)@.read(),
            final(self)@.reader is None,
            final(self)@.sent == old(self)@.sent,
            final(self)@.idle_deadline == old(self)@.idle_deadline,
            match old(self)@.reader {
                Some(reader) => match stream {
                    Some(stream) => stream@ == StreamView::start(reader) && stream@.reader
                        == reader,
                    None => false,
                },
                None => stream is None,
            },
    {
        match self.upstream_read.take() {
            Some(reader) => Some(StreamState { reader, streamed: Ghost(Seq::empty()) }),
            None => None,
        }
    }

    /// The write half of the upstream connection.
    pub fn upstream_write(&mut self) -> (writer: &mut Wr)
        ensures
            *writer == old(self)@.writer,
            final(self)@ == (SessionView { writer: *final(writer), ..old(self)@ }),
    {
        &mut self.upstream_write
    }

    /// Takes note of bytes that were written to upstream, or could not be. Says whether the
    /// session goes on.
    pub fn handle_write(
        &mut self,
        bytes: &Vec<u8>,
        written: Result<(), std::io::Error>,
        now: Instant,
    ) -> (goes_on: bool)
        ensures
            match written {
                Ok(()) => {
                    &&& goes_on
                    &&& final(self)@ == old(self)@.wrote(bytes@, now)
                    &&& final(self)@.sent == old(self)@.sent + bytes@
                },
                Err(_) => !goes_on && final(self)@ == old(self)@,
            },
            final(self)@.reader == old(self)@.reader,
            final(self)@.idle_timeout == old(self)@.idle_timeout,
            final(self)@.total_deadline == old(self)@.total_deadline,
    {
        match written {
            Ok(()) => {
                self.sent = Ghost(self.sent@ + bytes@);
                let _ = self.pet_idle_watchdog(now);
                true
            },
            Err(_) => false,
        }
    }

    /// Takes note of what a read gave to the stream of the session, of which only matters whether
    /// it is a frame: that is a sign of life.
    pub fn handle_frame<T>(&mut self, frame: &Option<T>, now: Instant)
        ensures
            final(self)@ == old(self)@.streamed(frame is Some, now),
            final(self)@.reader == old(self)@.reader,
            final(self)@.sent == old(self)@.sent,
            final(self)@.idle_timeout == old(self)@.idle_timeout,
            final(self)@.total_deadline == old(self)@.total_deadline,
    {
        if frame.is_some() {
            let _ = self.pet_idle_watchdog(now);
        }
    }

    /// The identifier of the session.
    pub fn session_id(&self) -> (session_id: Uuid)
        ensures
            session_id == self@.session_id,
    {
        self.session_id
    }

    /// When the session ends unless data is sent before.
    pub fn idle_deadline(&self) -> (deadline: Option<Instant>)
        ensures
            deadline == self@.idle_deadline,
    {
        self.idle_deadline
    }

    /// Whether a deadline of the session has come.
    pub fn expired(&self, now: Instant) -> (expired: bool)
        ensures
            expired == self@.is_expired(now),
    {
        reached(self.idle_deadline, now) || reached(self.total_deadline, now)
    }

    /// Ends the session. Says which entry the server is to forget.
    pub fn close(self) -> (session_id: Uuid)
        ensures
            session_id == self@.session_id,
    {
        self.session_id
    }
}

/// How far the data of upstream has been streamed.
#[verifier::reject_recursive_types(Rd)]
pub ghost struct StreamView<Rd> {
    pub reader: Rd,
    /// The bytes of the frames so far, in their order.
    pub streamed: Seq<u8>,
}

impl<Rd> StreamView<Rd> {
    /// Before the first read.
    pub open spec fn start(reader: Rd) -> StreamView<Rd> {
        StreamView { reader, streamed: Seq::empty() }
    }

    /// After a frame.
    pub open spec fn sent(self, bytes: Seq<u8>) -> StreamView<Rd> {
        StreamView { streamed: self.streamed + bytes, ..self }
    }
}

/// What came of a read from upstream.
#[derive(Debug)]
pub enum ReadOutcome {
    /// The session ended before.
    Cancelled,
    /// The read failed.
    Failed,
    /// These bytes were read. Upstream is at its end when there are none.
    Data(Vec<u8>),
}

/// The bytes of the next frame after a read, if there is one.
pub open spec fn frame_of(outcome: ReadOutcome) -> Option<Vec<u8>> {
    match outcome {
        ReadOutcome::Data(bytes) => if bytes.len() >= 1 {
            Some(bytes)
        } else {
            None
        },
        _ => None,
    }
}

/// Streams the data of upstream into the body of a response.
pub struct StreamState<Rd> {
    reader: Rd,
    streamed: Ghost<Seq<u8>>,
}

impl<Rd> View for StreamState<Rd> {
    type V = StreamView<Rd>;

    closed spec fn view(&self) -> StreamView<Rd> {
        StreamView { reader: self.reader, streamed: self.streamed@ }
    }
}

impl<Rd> StreamState<Rd> {
    /// By how much to enlarge a read buffer of the given capacity before a read.
    pub fn reserve(capacity: usize) -> (additional: usize)
        ensures
            additional == if capacity < 1024 {
                4096usize
            } else {
                0
            },
    {
        if capacity < 1024 {
            4096
        } else {
            0
        }
    }

    /// The read half of the upstream connection.
    pub fn reader(&mut self) -> (reader: &mut Rd)
        ensures
            *reader == old(self)@.reader,
            final(self)@ == (StreamView { reader: *final(reader), ..old(self)@ }),
    {
        &mut self.reader
    }

    /// Turns what a read gave into the next frame, and counts its bytes. Without a frame the
    /// stream has ended. A frame is for [`Session::handle_frame`] too.
    pub fn next(&mut self, outcome: ReadOutcome, stats: &mut AtomicStats) -> (frame: Option<
        Vec<u8>,
    >)
        ensures
            frame == frame_of(outcome),
            match frame {
                Some(bytes) => {
                    &&& final(self)@ == old(self)@.sent(bytes@)
                    &&& final(stats)@ == (Stats {
                        bytes_rx: counted(old(stats)@.bytes_rx, bytes@.len()),
                        ..old(stats)@
                    })
                },
                None => final(self)@ == old(self)@ && final(stats)@ == old(stats)@,
            },
    {
        match outcome {
            ReadOutcome::Data(bytes) => if bytes.len() >= 1 {
                stats.add_rx(bytes.len());
                self.streamed = Ghost(self.streamed@ + bytes@);
                Some(bytes)
            } else {
                None
            },
            _ => None,
        }
    }
}

} // verus!
