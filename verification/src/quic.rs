use vstd::prelude::*;
use vstd::string::*;

verus! {

/// Why the QUIC transport refused an operation.
#[derive(Debug, Clone, Copy, PartialEq, Eq, Structural)]
pub enum TransportError {
    /// `connect` while a connection is open.
    AlreadyConnected,
    /// `send` or `next` without an open connection.
    NotConnected,
}

/// The message of a transport error.
pub open spec fn spec_transport_error_message(error: TransportError) -> Seq<char> {
    match error {
        TransportError::AlreadyConnected => "Already connected"@,
        TransportError::NotConnected => "Not connected"@,
    }
}

/// The message that a refused transport operation reports.
pub fn transport_error_message(error: TransportError) -> (message: String)
    ensures
        message@ == spec_transport_error_message(error),
{
    match error {
        TransportError::AlreadyConnected => String::from_str("Already connected"),
        TransportError::NotConnected => String::from_str("Not connected"),
    }
}

/// Whether a connection may be opened, given the open streams if any.
pub open spec fn connect_permission<S>(framed: Option<S>) -> Result<(), TransportError> {
    if framed is Some {
        Err(TransportError::AlreadyConnected)
    } else {
        Ok(())
    }
}

/// The connection state of the QUIC transport to the server: the framed
/// send and receive streams (`S`) of the open connection, if there is one.
pub struct QuicTransport<S> {
    framed: Option<S>,
}

impl<S> View for QuicTransport<S> {
    type V = Option<S>;

    closed spec fn view(&self) -> Option<S> {
        self.framed
    }
}

impl<S> QuicTransport<S> {
    /// Not connected.
    pub fn new() -> (t: Self)
        ensures
            t@ is None,
    {
        QuicTransport { framed: None }
    }

    /// Drops the connection, if any.
    pub fn disconnect(&mut self)
        ensures
            final(self)@ is None,
    {
        self.framed = None;
    }

    /// Whether a connection may be opened: only while there is none.
    pub fn check_can_connect(&self) -> (r: Result<(), TransportError>)
        ensures
            r == connect_permission(self@),
    {
        if self.framed.is_some() {
            Err(TransportError::AlreadyConnected)
        } else {
            Ok(())
        }
    }

    /// Keeps the streams of a connection that was opened after
    /// `check_can_connect` allowed it.
    pub fn connected(&mut self, streams: S)
        requires
            old(self)@ is None,
        ensures
            final(self)@ == Some(streams),
    {
        self.framed = Some(streams);
    }

    /// The streams of the open connection, to send on or receive from;
    /// `NotConnected` where there is none.
    pub fn streams(&mut self) -> (r: Result<&mut S, TransportError>)
        ensures
            old(self)@ is None ==> r == Err::<&mut S, TransportError>(TransportError::NotConnected) && final(self)@ is None,
            old(self)@ is Some ==> (r matches Ok(s) && *s == old(self)@->0 && final(self)@ == Some(*final(s))),
    {
        match &mut self.framed {
            Some(s) => Ok(s),
            None => Err(TransportError::NotConnected),
        }
    }
}

/// A transport connects once: while a connection is open a second `connect`
/// is refused; after `disconnect` one may connect again, and until then
/// there are no streams to send on.
pub proof fn law_connect_once<S>(streams: S)
    ensures
        connect_permission(Some(streams)) == Err::<(), TransportError>(TransportError::AlreadyConnected),
        connect_permission(None::<S>) is Ok,
{
}

} // verus!
