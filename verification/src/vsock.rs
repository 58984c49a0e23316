//! Streams between the guest's vsock and the host's Unix sockets.

use vstd::prelude::*;

verus! {

/// The largest number of connections.
pub const MAX_CONNECTIONS: usize = 1023;

/// The length of the queue of packets to the guest.
pub const MUXER_RXQ_SIZE: usize = 256;

/// The length of the queue of connections to end.
pub const MUXER_KILLQ_SIZE: usize = 128;

/// What goes wrong with the host's side.
#[derive(Debug)]
pub enum Error {
    /// A text is not UTF-8.
    ConvertFromUtf8,
    /// A descriptor cannot be watched.
    EpollAdd,
    /// There is no descriptor to watch others with.
    EpollFdCreate,
    /// The host asked for a port that is not valid.
    InvalidPortRequest,
    /// A number cannot be read.
    ParseInteger,
    /// The port of a stream cannot be read.
    ReadStreamPort(Box<Error>),
    /// A connection cannot be accepted.
    UnixAccept,
    /// A socket cannot be bound.
    UnixBind,
    /// A socket cannot be reached.
    UnixConnect,
    /// A socket cannot be read.
    UnixRead,
    /// There are too many connections.
    TooManyConnections,
}

impl Error {
    /// The error in words.
    pub open spec fn text(&self) -> Seq<char> {
        match self {
            Error::ConvertFromUtf8 => "Error converting from UTF-8"@,
            Error::EpollAdd => "Error registering a new epoll-listening FD"@,
            Error::EpollFdCreate => "Error creating an epoll FD"@,
            Error::InvalidPortRequest => {
                "The host made an invalid vsock port connection request"@
            },
            Error::ParseInteger => "Error parsing integer"@,
            Error::ReadStreamPort(_) => "Error reading stream port"@,
            Error::UnixAccept => {
                "Error accepting a new connection from the host-side Unix socket"@
            },
            Error::UnixBind => "Error binding to the host-side Unix socket"@,
            Error::UnixConnect => "Error connecting to a host-side Unix socket"@,
            Error::UnixRead => "Error reading from host-side Unix socket"@,
            Error::TooManyConnections => "Muxer connection limit reached"@,
        }
    }

    /// The error in words.
    pub fn message(&self) -> (r: &'static str)
        ensures
            r@ == self.text(),
    {
        match self {
            Error::ConvertFromUtf8 => "Error converting from UTF-8",
            Error::EpollAdd => "Error registering a new epoll-listening FD",
            Error::EpollFdCreate => "Error creating an epoll FD",
            Error::InvalidPortRequest => "The host made an invalid vsock port connection request",
            Error::ParseInteger => "Error parsing integer",
            Error::ReadStreamPort(_) => "Error reading stream port",
            Error::UnixAccept => "Error accepting a new connection from the host-side Unix socket",
            Error::UnixBind => "Error binding to the host-side Unix socket",
            Error::UnixConnect => "Error connecting to a host-side Unix socket",
            Error::UnixRead => "Error reading from host-side Unix socket",
            Error::TooManyConnections => "Muxer connection limit reached",
        }
    }
}

/// A stream over a file that was handed over, with the socket on which the first reply is due.
#[derive(Debug)]
pub struct HybridStream<F, U> {
    /// The file.
    pub hybrid_stream: F,
    /// The socket for the first reply, until that is sent.
    pub slave_stream: Option<U>,
}

/// A stream of the host: a socket of type `U`, or a file of type `F`.
#[derive(Debug)]
pub enum StreamVsock<F, U> {
    /// A socket.
    UnixStream(U),
    /// A file that was handed over.
    HybridStream(HybridStream<F, U>),
}

/// Where data goes.
#[derive(Debug)]
pub enum WriteTarget<'a, F, U> {
    /// To the stream's socket.
    Socket(&'a mut U),
    /// To the socket for the first reply, which is given up afterwards.
    Reply(U),
    /// To the stream's file.
    File(&'a mut F),
}

/// Where data comes from.
#[derive(Debug)]
pub enum ReadSource<'a, F, U> {
    /// From the stream's socket.
    Socket(&'a mut U),
    /// From the stream's file.
    File(&'a mut F),
}

/// A file does not have what was asked for.
#[derive(Clone, Copy, Debug, PartialEq, Eq, Structural)]
pub struct NotSupported;

/// The stream after one write: the socket for the first reply is gone.
pub open spec fn after_write<F, U>(s: StreamVsock<F, U>) -> StreamVsock<F, U> {
    match s {
        StreamVsock::UnixStream(u) => StreamVsock::UnixStream(u),
        StreamVsock::HybridStream(h) => StreamVsock::HybridStream(
            HybridStream { slave_stream: None, ..h },
        ),
    }
}

/// Whether the next write goes to the socket for the first reply.
pub open spec fn replies<F, U>(s: StreamVsock<F, U>) -> bool {
    s matches StreamVsock::HybridStream(h) && h.slave_stream is Some
}

/// The descriptor flags of a file that blocks or does not; `nonblock` is the flag for that.
pub open spec fn blocking_flags(flags: i32, nonblock: i32, nonblocking: bool) -> i32 {
    if nonblocking {
        flags | nonblock
    } else {
        flags & !nonblock
    }
}

/// The descriptor flags of a file that blocks or does not; `nonblock` is the flag for that.
pub fn set_nonblocking_flags(flags: i32, nonblock: i32, nonblocking: bool) -> (r: i32)
    ensures
        r == blocking_flags(flags, nonblock, nonblocking),
{
    if nonblocking {
        flags | nonblock
    } else {
        flags & !nonblock
    }
}

impl<F, U> StreamVsock<F, U> {
    /// Where the next data goes. On a file that was handed over, the first write goes to the socket
    /// for the reply, and all others to the file.
    pub fn write_target(&mut self) -> (r: WriteTarget<'_, F, U>)
        ensures
            match *old(self) {
                StreamVsock::UnixStream(u) => r matches WriteTarget::Socket(s) && *s == u
                    && *final(self) == StreamVsock::<F, U>::UnixStream(*final(s)),
                StreamVsock::HybridStream(h) => match h.slave_stream {
                    Some(u) => r == WriteTarget::<F, U>::Reply(u) && *final(self) == after_write(
                        *old(self),
                    ),
                    None => r matches WriteTarget::File(f) && *f == h.hybrid_stream && *final(self)
                        == StreamVsock::<F, U>::HybridStream(
                        HybridStream { hybrid_stream: *final(f), slave_stream: None },
                    ),
                },
            },
    {
        match self {
            StreamVsock::UnixStream(u) => WriteTarget::Socket(u),
            StreamVsock::HybridStream(h) => {
                match h.slave_stream.take() {
                    Some(u) => WriteTarget::Reply(u),
                    None => WriteTarget::File(&mut h.hybrid_stream),
                }
            },
        }
    }

    /// Where data comes from.
    pub fn read_source(&mut self) -> (r: ReadSource<'_, F, U>)
        ensures
            match *old(self) {
                StreamVsock::UnixStream(u) => r matches ReadSource::Socket(s) && *s == u
                    && *final(self) == StreamVsock::<F, U>::UnixStream(*final(s)),
                StreamVsock::HybridStream(h) => r matches ReadSource::File(f) && *f
                    == h.hybrid_stream && *final(self) == StreamVsock::<F, U>::HybridStream(
                    HybridStream { hybrid_stream: *final(f), ..h },
                ),
            },
    {
        match self {
            StreamVsock::UnixStream(u) => ReadSource::Socket(u),
            StreamVsock::HybridStream(h) => ReadSource::File(&mut h.hybrid_stream),
        }
    }

    /// The socket of the stream. A file has no timeouts, and no descriptors come with its data.
    pub fn socket(&self) -> (r: Result<&U, NotSupported>)
        ensures
            match *self {
                StreamVsock::UnixStream(u) => r matches Ok(s) && *s == u,
                StreamVsock::HybridStream(_) => r matches Err(_),
            },
    {
        match self {
            StreamVsock::UnixStream(u) => Ok(u),
            StreamVsock::HybridStream(_) => Err(NotSupported),
        }
    }
}

/// Only the first write to a stream can be a reply.
pub proof fn law_one_reply<F, U>(s: StreamVsock<F, U>)
    ensures
        !replies(after_write(s)),
        after_write(after_write(s)) == after_write(s),
{
}

/// Setting or clearing the flag sets or clears it and leaves every other flag as it was.
pub proof fn law_only_nonblock_changes(flags: i32, nonblock: i32, nonblocking: bool)
    ensures
        blocking_flags(flags, nonblock, nonblocking) & nonblock == (if nonblocking {
            nonblock
        } else {
            0
        }),
        blocking_flags(flags, nonblock, nonblocking) & !nonblock == flags & !nonblock,
{
    assert((flags | nonblock) & nonblock == nonblock) by (bit_vector);
    assert((flags & !nonblock) & nonblock == 0) by (bit_vector);
    assert((flags | nonblock) & !nonblock == flags & !nonblock) by (bit_vector);
    assert((flags & !nonblock) & !nonblock == flags & !nonblock) by (bit_vector);
}

/// Setting a stream to block or not sets or clears the one flag and keeps every other.
pub proof fn law_one_flag_is_set(flags: i32, nonblock: i32, nonblocking: bool, r: i32)
    requires
        call_ensures(set_nonblocking_flags, (flags, nonblock, nonblocking), r),
    ensures
        nonblocking ==> r & nonblock == nonblock,
        !nonblocking ==> r & nonblock == 0,
        r & !nonblock == flags & !nonblock,
{
    law_only_nonblock_changes(flags, nonblock, nonblocking);
}

/// A Unix stream is written to as it is. A file with a peer that waits for a reply gives the reply
/// to the peer, once: from then on, and without such a peer, what is written goes to the file.
pub proof fn law_reply_then_file<'a, F, U>(
    stream: &'a mut StreamVsock<F, U>,
    r: WriteTarget<'a, F, U>,
)
    requires
        call_ensures(StreamVsock::<F, U>::write_target, (stream,), r),
    ensures
        r is Socket <==> *old(stream) is UnixStream,
        r is Reply <==> (*old(stream) matches StreamVsock::HybridStream(h) && h.slave_stream
            is Some),
        r is File <==> (*old(stream) matches StreamVsock::HybridStream(h) && h.slave_stream
            is None),
        *old(stream) is UnixStream <==> *final(stream) is UnixStream,
        r matches WriteTarget::Reply(u) ==> (*old(stream) matches StreamVsock::HybridStream(h)
            && h.slave_stream == Some(u) && (*final(stream) matches StreamVsock::HybridStream(after)
            && after.hybrid_stream == h.hybrid_stream && after.slave_stream is None)),
        *final(stream) matches StreamVsock::HybridStream(after) ==> after.slave_stream is None,
        r matches WriteTarget::Socket(s) ==> *old(stream) == StreamVsock::<F, U>::UnixStream(*s)
            && *final(stream) == StreamVsock::<F, U>::UnixStream(*final(s)),
        r matches WriteTarget::File(f) ==> *old(stream) == StreamVsock::<F, U>::HybridStream(
            HybridStream { hybrid_stream: *f, slave_stream: None },
        ) && *final(stream) == StreamVsock::<F, U>::HybridStream(
            HybridStream { hybrid_stream: *final(f), slave_stream: None },
        ),
{
}

/// What is read comes from the Unix stream or from the file, and never from the peer that waits for
/// a reply, which keeps waiting.
pub proof fn law_reads_leave_reply<'a, F, U>(
    stream: &'a mut StreamVsock<F, U>,
    r: ReadSource<'a, F, U>,
)
    requires
        call_ensures(StreamVsock::<F, U>::read_source, (stream,), r),
    ensures
        r is Socket <==> *old(stream) is UnixStream,
        r is File <==> *old(stream) is HybridStream,
        *old(stream) matches StreamVsock::HybridStream(h) ==> (
        *final(stream) matches StreamVsock::HybridStream(after) && after.slave_stream
            == h.slave_stream),
        r matches ReadSource::Socket(s) ==> *old(stream) == StreamVsock::<F, U>::UnixStream(*s)
            && *final(stream) == StreamVsock::<F, U>::UnixStream(*final(s)),
        r matches ReadSource::File(f) ==> (*old(stream) matches StreamVsock::HybridStream(h) && *f
            == h.hybrid_stream && (*final(stream) matches StreamVsock::HybridStream(after)
            && after.hybrid_stream == *final(f))),
{
}

/// Only a Unix stream has a socket.
pub proof fn law_only_unix_has_socket<F, U>(
    stream: StreamVsock<F, U>,
    r: Result<&U, NotSupported>,
)
    requires
        call_ensures(StreamVsock::<F, U>::socket, (&stream,), r),
    ensures
        r is Ok <==> stream is UnixStream,
        stream matches StreamVsock::UnixStream(u) ==> (r matches Ok(s) && *s == u),
{
}

/// Every [`Error`] is told in its own words.
pub proof fn law_error_in_words(e: Error, r: &'static str)
    requires
        call_ensures(Error::message, (&e,), r),
    ensures
        e is ConvertFromUtf8 ==> r@ == "Error converting from UTF-8"@,
        e is EpollAdd ==> r@ == "Error registering a new epoll-listening FD"@,
        e is EpollFdCreate ==> r@ == "Error creating an epoll FD"@,
        e is InvalidPortRequest ==> r@ == "The host made an invalid vsock port connection request"@,
        e is ParseInteger ==> r@ == "Error parsing integer"@,
        e is ReadStreamPort ==> r@ == "Error reading stream port"@,
        e is UnixAccept ==> r@ == "Error accepting a new connection from the host-side Unix socket"@,
        e is UnixBind ==> r@ == "Error binding to the host-side Unix socket"@,
        e is UnixConnect ==> r@ == "Error connecting to a host-side Unix socket"@,
        e is UnixRead ==> r@ == "Error reading from host-side Unix socket"@,
        e is TooManyConnections ==> r@ == "Muxer connection limit reached"@,
{
}

} // verus!
