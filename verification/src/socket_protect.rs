use vstd::prelude::*;

verus! {

/// Why a socket could not be protected from the VPN.
#[derive(Debug)]
pub struct ProtectError {
    /// The socket's file descriptor.
    pub fd: i32,
    /// What the protector reported.
    pub reason: String,
}

/// What protecting `fd` with a protector that answered `outcome` gives.
pub open spec fn protect_outcome(fd: i32, outcome: Result<(), String>) -> Result<(), ProtectError> {
    match outcome {
        Ok(()) => Ok(()),
        Err(reason) => Err(ProtectError { fd, reason }),
    }
}

/// Protection succeeds exactly when the protector accepts the descriptor;
/// a refusal is an error that names the descriptor and carries the
/// protector's reason unchanged.
pub proof fn law_protect_outcome(fd: i32, outcome: Result<(), String>)
    ensures
        protect_outcome(fd, outcome) is Ok <==> outcome is Ok,
        outcome matches Err(reason) ==> (protect_outcome(fd, outcome) matches Err(e) && e.fd == fd && e.reason
            == reason),
{
}

/// Whether `r` is what protecting `fd` with `protector` may give: success
/// where there is no protector, and otherwise the protector's answer for
/// `fd`, an error naming the descriptor.
pub open spec fn protected_by<F: Fn(i32) -> Result<(), String>>(protector: Option<F>, fd: i32, r: Result<(), ProtectError>) -> bool {
    match protector {
        None => r is Ok,
        Some(f) => exists|outcome: Result<(), String>|
            call_ensures(f, (fd,), outcome) && r == protect_outcome(fd, outcome),
    }
}

/// Protects the socket with this file descriptor by the given protector:
/// without one there is nothing to do; with one, its answer is the outcome.
/// Taking the protector by reference lets a caller release any lock on the
/// installed one before calling it.
pub fn protect_fd_with<F: Fn(i32) -> Result<(), String>>(protector: Option<&F>, fd: i32) -> (r: Result<(), ProtectError>)
    requires
        protector matches Some(f) ==> call_requires(*f, (fd,)),
    ensures
        protected_by(match protector {
            Some(f) => Some(*f),
            None => None,
        }, fd, r),
{
    match protector {
        Some(p) => {
            let outcome = p(fd);
            let ghost answered = outcome;
            assert(call_ensures(*p, (fd,), answered));
            let r = match outcome {
                Ok(()) => Ok(()),
                Err(reason) => Err(ProtectError { fd, reason }),
            };
            assert(r == protect_outcome(fd, answered));
            r
        },
        None => Ok(()),
    }
}

/// The protector that keeps sockets of the VPN itself out of the VPN (on
/// Android, `VpnService.protect`), if one is installed.
pub struct SocketProtector<F> {
    protector: Option<F>,
}

impl<F> View for SocketProtector<F> {
    type V = Option<F>;

    closed spec fn view(&self) -> Option<F> {
        self.protector
    }
}

impl<F> SocketProtector<F> {
    /// No protector installed.
    pub fn new() -> (p: Self)
        ensures
            p@ is None,
    {
        SocketProtector { protector: None }
    }

    /// Installs a protector, or removes it with `None`.
    pub fn set_socket_protector(&mut self, protector: Option<F>)
        ensures
            final(self)@ == protector,
    {
        self.protector = protector;
    }

    /// The installed protector, if any.
    pub fn installed(&self) -> (protector: Option<&F>)
        ensures
            protector is Some <==> self@ is Some,
            protector is Some ==> *protector->0 == self@->0,
    {
        match &self.protector {
            Some(p) => Some(p),
            None => None,
        }
    }

}

impl<F: Fn(i32) -> Result<(), String>> SocketProtector<F> {
    /// Protects the socket with this file descriptor: without a protector
    /// there is nothing to do; with one, its answer is the outcome, an
    /// error naming the descriptor.
    pub fn protect_socket_fd(&self, fd: i32) -> (r: Result<(), ProtectError>)
        requires
            self@ matches Some(f) ==> call_requires(f, (fd,)),
        ensures
            protected_by(self@, fd, r),
    {
        protect_fd_with(self.installed(), fd)
    }

    /// Protects a socket made with `socket2`, given its file descriptor.
    pub fn protect_socket2(&self, fd: i32) -> (r: Result<(), ProtectError>)
        requires
            self@ matches Some(f) ==> call_requires(f, (fd,)),
        ensures
            protected_by(self@, fd, r),
    {
        self.protect_socket_fd(fd)
    }
}

/// The error of a TCP connection where every resolved address failed: the
/// last failure, or `none_resolved` where no address was resolved.
pub fn last_connect_error<E>(last_error: Option<E>, none_resolved: E) -> (e: E)
    ensures
        e == (match last_error {
            Some(err) => err,
            None => none_resolved,
        }),
{
    match last_error {
        Some(err) => err,
        None => none_resolved,
    }
}

/// Takes the outcome of one connection attempt: a connected stream ends the
/// search and is returned; a failure becomes the last error and the search
/// goes on with the next address.
pub fn record_connect_attempt<T, E>(last_error: &mut Option<E>, attempt: Result<T, E>) -> (stream: Option<T>)
    ensures
        attempt matches Ok(t) ==> stream == Some(t) && *final(last_error) == *old(last_error),
        attempt matches Err(e) ==> stream is None && *final(last_error) == Some(e),
{
    match attempt {
        Ok(t) => Some(t),
        Err(e) => {
            *last_error = Some(e);
            None
        },
    }
}

/// The outcome of trying the addresses in order with `record_connect_attempt`
/// and ending with `last_connect_error`, given what each attempt gives.
pub open spec fn connect_outcome<T, E>(attempts: Seq<Result<T, E>>, last_error: Option<E>, none_resolved: E) -> Result<T, E>
    decreases attempts.len(),
{
    if attempts.len() == 0 {
        Err(
            match last_error {
                Some(e) => e,
                None => none_resolved,
            },
        )
    } else {
        match attempts[0] {
            Ok(t) => Ok(t),
            Err(e) => connect_outcome(attempts.drop_first(), Some(e), none_resolved),
        }
    }
}

/// Connecting to a host gives the stream of the first address that
/// connects; where none does, the error of the last address tried; and where
/// no address was resolved, `none_resolved`.
pub proof fn law_first_connection_wins<T, E>(attempts: Seq<Result<T, E>>, none_resolved: E)
    ensures
        forall|k: int|
            0 <= k < attempts.len() && attempts[k] is Ok && (forall|j: int| 0 <= j < k ==> attempts[j] is Err)
                ==> #[trigger] attempts[k] == connect_outcome(attempts, None, none_resolved),
        (forall|j: int| 0 <= j < attempts.len() ==> attempts[j] is Err) && attempts.len() > 0
            ==> connect_outcome(attempts, None, none_resolved) == attempts.last(),
        attempts.len() == 0 ==> connect_outcome(attempts, None, none_resolved) == Err::<T, E>(none_resolved),
{
    lemma_connect_outcome(attempts, None, none_resolved);
}

proof fn lemma_connect_outcome<T, E>(attempts: Seq<Result<T, E>>, last_error: Option<E>, none_resolved: E)
    ensures
        forall|k: int|
            0 <= k < attempts.len() && attempts[k] is Ok && (forall|j: int| 0 <= j < k ==> attempts[j] is Err)
                ==> #[trigger] attempts[k] == connect_outcome(attempts, last_error, none_resolved),
        (forall|j: int| 0 <= j < attempts.len() ==> attempts[j] is Err) && attempts.len() > 0
            ==> connect_outcome(attempts, last_error, none_resolved) == attempts.last(),
    decreases attempts.len(),
{
    if attempts.len() > 0 {
        let rest = attempts.drop_first();
        match attempts[0] {
            Ok(t) => {
                assert forall|k: int|
                    0 <= k < attempts.len() && attempts[k] is Ok && (forall|j: int| 0 <= j < k ==> attempts[j] is Err)
                    implies #[trigger] attempts[k] == connect_outcome(attempts, last_error, none_resolved) by {
                    if k > 0 {
                        assert(attempts[0] is Err);
                    }
                }
            },
            Err(e) => {
                lemma_connect_outcome(rest, Some(e), none_resolved);
                assert forall|k: int|
                    0 <= k < attempts.len() && attempts[k] is Ok && (forall|j: int| 0 <= j < k ==> attempts[j] is Err)
                    implies #[trigger] attempts[k] == connect_outcome(attempts, last_error, none_resolved) by {
                    assert(k > 0);
                    assert(rest[k - 1] == attempts[k]);
                    assert forall|j: int| 0 <= j < k - 1 implies rest[j] is Err by {
                        assert(rest[j] == attempts[j + 1]);
                    }
                }
                if (forall|j: int| 0 <= j < attempts.len() ==> attempts[j] is Err) {
                    if rest.len() > 0 {
                        assert forall|j: int| 0 <= j < rest.len() implies rest[j] is Err by {
                            assert(rest[j] == attempts[j + 1]);
                        }
                        assert(rest.last() == attempts.last());
                    } else {
                        assert(attempts.last() == attempts[0]);
                    }
                }
            },
        }
    }
}

/// How the UDP socket of a local address is made.
#[derive(Debug, Clone, Copy, PartialEq, Eq, Structural)]
pub enum UdpSocketPlan {
    /// An IPv4 socket.
    V4,
    /// An IPv6 socket, set to accept IPv6 only or also IPv4; where
    /// `must_succeed` is false, a failure to set it is only logged.
    V6 { only_v6: bool, must_succeed: bool },
}

/// The UDP socket for a local address: IPv4 for an IPv4 address; for an
/// IPv6 address, dual-stack where allowed (a failure to enable it is
/// tolerated), and otherwise IPv6 only (a failure to set it is an error).
pub fn udp_socket_plan(local_is_ipv4: bool, allow_dual_stack: bool) -> (plan: UdpSocketPlan)
    ensures
        plan == (if local_is_ipv4 {
            UdpSocketPlan::V4
        } else if allow_dual_stack {
            UdpSocketPlan::V6 { only_v6: false, must_succeed: false }
        } else {
            UdpSocketPlan::V6 { only_v6: true, must_succeed: true }
        }),
{
    if local_is_ipv4 {
        UdpSocketPlan::V4
    } else if allow_dual_stack {
        UdpSocketPlan::V6 { only_v6: false, must_succeed: false }
    } else {
        UdpSocketPlan::V6 { only_v6: true, must_succeed: true }
    }
}

} // verus!
