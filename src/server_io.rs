use vstd::prelude::*;

verus! {

/// Which of the two stream kinds a server connection runs over.
#[derive(Clone, Copy, Debug, PartialEq, Eq, Structural)]
pub enum StreamKind {
    Plain,
    Encrypted,
}

/// A stream that can describe the connection it runs over.
pub trait Connected {
    /// What the stream tells about its connection.
    type ConnectInfo;

    /// The information the stream gives in its current state.
    spec fn info_spec(&self) -> Self::ConnectInfo;

    /// The stream's connection information.
    fn connect_info(&self) -> (r: Self::ConnectInfo)
        ensures
            r == self.info_spec(),
    ;
}

/// The marker for a stream that has no connection information to give.
#[derive(Clone, Copy, Debug, PartialEq, Eq, Structural)]
pub struct NoneConnectInfo;

/// A server connection: either the accepted stream itself, or that stream
/// after a completed handshake, boxed to keep the plain case small. The kind
/// is chosen at construction and never changes.
pub enum ServerIo<IO, Tls> {
    Io(IO),
    TlsIo(Box<Tls>),
}

/// A mutable borrow of the active case of a `ServerIo`.
pub enum ServerIoMut<'a, IO, Tls> {
    Io(&'a mut IO),
    TlsIo(&'a mut Tls),
}

/// A shared borrow of the active case of a `ServerIo`.
pub enum ServerIoRef<'a, IO, Tls> {
    Io(&'a IO),
    TlsIo(&'a Tls),
}

/// Connection information in the same two-case shape as `ServerIo`.
#[derive(Debug, PartialEq, Eq)]
pub enum ServerIoConnectInfo<A, B> {
    Io(A),
    TlsIo(B),
}

impl<IO, Tls> ServerIo<IO, Tls> {
    pub open spec fn kind_spec(&self) -> StreamKind {
        match self {
            ServerIo::Io(_) => StreamKind::Plain,
            ServerIo::TlsIo(_) => StreamKind::Encrypted,
        }
    }

    /// A plain server stream over `io`.
    pub fn new_io(io: IO) -> (r: Self)
        ensures
            r == ServerIo::<IO, Tls>::Io(io),
            r.kind_spec() == StreamKind::Plain,
    {
        ServerIo::Io(io)
    }

    /// An encrypted server stream over the handshake result `io`.
    pub fn new_tls_io(io: Tls) -> (r: Self)
        ensures
            r matches ServerIo::TlsIo(b) && *b == io,
            r.kind_spec() == StreamKind::Encrypted,
    {
        ServerIo::TlsIo(Box::new(io))
    }

    /// The kind the stream was built with.
    pub fn kind(&self) -> (r: StreamKind)
        ensures
            r == self.kind_spec(),
    {
        match self {
            ServerIo::Io(_) => StreamKind::Plain,
            ServerIo::TlsIo(_) => StreamKind::Encrypted,
        }
    }

    /// The plain stream, where that is the active case.
    pub fn as_plain(&self) -> (r: Option<&IO>)
        ensures
            self matches ServerIo::Io(io) ==> r == Some(io),
            self is TlsIo ==> r is None,
    {
        match self {
            ServerIo::Io(io) => Some(io),
            ServerIo::TlsIo(_) => None,
        }
    }

    /// The encrypted stream, where that is the active case.
    pub fn as_tls(&self) -> (r: Option<&Tls>)
        ensures
            self matches ServerIo::TlsIo(b) ==> r == Some(&**b),
            self is Io ==> r is None,
    {
        match self {
            ServerIo::Io(_) => None,
            ServerIo::TlsIo(b) => Some(&**b),
        }
    }

    /// A mutable borrow of the active case's stream, in that case: every
    /// read, write, flush or shutdown goes through it to that stream alone.
    pub fn active_mut(&mut self) -> (r: ServerIoMut<'_, IO, Tls>)
        ensures
            *old(self) matches ServerIo::Io(io) ==> (r matches ServerIoMut::Io(m) && *m == io
                && *final(self) == ServerIo::<IO, Tls>::Io(*final(m))),
            *old(self) matches ServerIo::TlsIo(b) ==> (r matches ServerIoMut::TlsIo(m) && *m
                == *b && *final(self) == ServerIo::<IO, Tls>::TlsIo(Box::new(*final(m)))),
    {
        match self {
            ServerIo::Io(io) => ServerIoMut::Io(io),
            ServerIo::TlsIo(b) => ServerIoMut::TlsIo(&mut **b),
        }
    }

    /// A shared borrow of the active case's stream, in that case.
    pub fn active_ref(&self) -> (r: ServerIoRef<'_, IO, Tls>)
        ensures
            self matches ServerIo::Io(io) ==> r == ServerIoRef::<IO, Tls>::Io(io),
            self matches ServerIo::TlsIo(b) ==> r == ServerIoRef::<IO, Tls>::TlsIo(&**b),
    {
        match self {
            ServerIo::Io(io) => ServerIoRef::Io(io),
            ServerIo::TlsIo(b) => ServerIoRef::TlsIo(&**b),
        }
    }

    /// Asks the active case for its connection information; the answer comes
    /// back in the same case, and the other case's stream is not touched.
    pub fn connect_info(&self) -> (r: ServerIoConnectInfo<IO::ConnectInfo, Tls::ConnectInfo>) where
        IO: Connected,
        Tls: Connected,

        ensures
            r.kind_spec() == self.kind_spec(),
            self matches ServerIo::Io(io) ==> r == ServerIoConnectInfo::<
                IO::ConnectInfo,
                Tls::ConnectInfo,
            >::Io(io.info_spec()),
            self matches ServerIo::TlsIo(b) ==> r == ServerIoConnectInfo::<
                IO::ConnectInfo,
                Tls::ConnectInfo,
            >::TlsIo(b.info_spec()),
    {
        match self {
            ServerIo::Io(io) => ServerIoConnectInfo::Io(io.connect_info()),
            ServerIo::TlsIo(io) => ServerIoConnectInfo::TlsIo(io.connect_info()),
        }
    }
}

impl<A, B> ServerIoConnectInfo<A, B> {
    pub open spec fn kind_spec(&self) -> StreamKind {
        match self {
            ServerIoConnectInfo::Io(_) => StreamKind::Plain,
            ServerIoConnectInfo::TlsIo(_) => StreamKind::Encrypted,
        }
    }

    /// The kind of connection the information describes.
    pub fn kind(&self) -> (r: StreamKind)
        ensures
            r == self.kind_spec(),
    {
        match self {
            ServerIoConnectInfo::Io(_) => StreamKind::Plain,
            ServerIoConnectInfo::TlsIo(_) => StreamKind::Encrypted,
        }
    }
}

/// Connection information of the same kind as a stream built plain is never
/// the encrypted case: a server that only ever builds plain streams never sees
/// encrypted connection information.
pub proof fn lemma_plain_stream_never_encrypted_info<IO, Tls, A, B>(
    io: IO,
    info: ServerIoConnectInfo<A, B>,
)
    requires
        info.kind_spec() == ServerIo::<IO, Tls>::Io(io).kind_spec(),
    ensures
        info is Io,
        !(info is TlsIo),
{
}

} // verus!
