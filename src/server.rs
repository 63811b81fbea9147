//! The server's control plane: the registry of per-connection control
//! channels, broadcast, shutdown and the accept loop's decisions.
use vstd::prelude::*;
use crate::error::SimpleSockleError;

verus! {

#[verifier::external_type_specification]
#[verifier::external_body]
#[verifier::reject_recursive_types(T)]
pub struct ExSender<T>(std::sync::mpsc::Sender<T>);

/// A message from the control plane to one connection worker.
#[derive(Debug, Clone, PartialEq, Eq)]
pub enum SockleServerMessage {
    /// Write this text to the connection.
    Send(String),
    /// Close the connection and end the worker.
    Shutdown,
}

/// Relies on `std::sync::mpsc::Sender::send`: queues the message, failing
/// when the receiving side is gone.
#[verifier::external_body]
fn post<T>(s: &std::sync::mpsc::Sender<T>, m: T) -> (delivered: bool) {
    s.send(m).is_ok()
}

#[verifier::external_type_specification]
#[verifier::external_body]
#[verifier::reject_recursive_types(T)]
pub struct ExMutex<T: ?Sized>(std::sync::Mutex<T>);

/// Relies on `std::sync::Mutex::new`: an unlocked mutex around `t`.
pub assume_specification<T>[ std::sync::Mutex::<T>::new ](t: T) -> std::sync::Mutex<T>;

/// The list of control channels, as the registry shares it between threads.
type SharedSenders = std::sync::Arc<std::sync::Mutex<Vec<std::sync::mpsc::Sender<SockleServerMessage>>>>;

/// Relies on `Arc::clone`: another pointer to the same mutex.
#[verifier::external_body]
fn share_senders(s: &SharedSenders) -> SharedSenders {
    std::sync::Arc::clone(s)
}

/// Relies on `Mutex::lock`: appends to the list while holding the lock. A
/// poisoned lock still hands out the list, which no holder leaves half
/// changed.
#[verifier::external_body]
fn push_locked(s: &SharedSenders, t: std::sync::mpsc::Sender<SockleServerMessage>) {
    s.lock().unwrap_or_else(|p| p.into_inner()).push(t)
}

/// Relies on `Mutex::lock`: the length of the list at one moment.
#[verifier::external_body]
fn len_locked(s: &SharedSenders) -> usize {
    s.lock().unwrap_or_else(|p| p.into_inner()).len()
}

/// Relies on `Mutex::lock`: a copy of the list at one moment.
#[verifier::external_body]
fn snapshot_locked(s: &SharedSenders) -> Vec<std::sync::mpsc::Sender<SockleServerMessage>> {
    s.lock().unwrap_or_else(|p| p.into_inner()).clone()
}

/// The shared, lock-guarded list of the control channels of the accepted
/// connections, in the order they were accepted. Every handle made by
/// [`ConnectionRegistry::share`] sees the same list; other threads may add
/// to it at any time, so what it holds is only known at one moment.
pub struct ConnectionRegistry {
    senders: SharedSenders,
}

impl ConnectionRegistry {
    /// An empty list that no other handle shares yet.
    pub fn new() -> ConnectionRegistry {
        ConnectionRegistry { senders: std::sync::Arc::new(std::sync::Mutex::new(Vec::new())) }
    }

    /// Another handle on the same list, for the accept loop.
    pub fn share(&self) -> ConnectionRegistry {
        ConnectionRegistry { senders: share_senders(&self.senders) }
    }

    /// Adds the control channel of a newly accepted connection.
    pub fn register(&self, s: std::sync::mpsc::Sender<SockleServerMessage>) {
        push_locked(&self.senders, s)
    }

    /// How many channels are registered, at one moment.
    pub fn count(&self) -> usize {
        len_locked(&self.senders)
    }

    /// The registered channels, at one moment.
    fn snapshot(&self) -> Vec<std::sync::mpsc::Sender<SockleServerMessage>> {
        snapshot_locked(&self.senders)
    }
}

/// A copy of `m`.
fn copy_message(m: &SockleServerMessage) -> (r: SockleServerMessage)
    ensures
        r == *m,
{
    match m {
        SockleServerMessage::Send(t) => SockleServerMessage::Send(t.clone()),
        SockleServerMessage::Shutdown => SockleServerMessage::Shutdown,
    }
}

/// Whether `handed` is one copy of `m` for each of `n` channels.
pub open spec fn one_copy_each(handed: Seq<SockleServerMessage>, n: nat, m: SockleServerMessage) -> bool {
    &&& handed.len() == n
    &&& forall|j: int| 0 <= j < handed.len() ==> handed[j] == m
}

/// Queues a copy of `m` on every channel of `senders`, in order, and
/// returns what was handed to each. A channel whose worker is gone does not
/// stop the others.
fn fan_out(
    senders: &Vec<std::sync::mpsc::Sender<SockleServerMessage>>,
    m: &SockleServerMessage,
) -> (handed: Ghost<Seq<SockleServerMessage>>)
    ensures
        one_copy_each(handed@, senders@.len(), *m),
{
    let ghost mut handed: Seq<SockleServerMessage> = Seq::empty();
    let mut i: usize = 0;
    while i < senders.len()
        invariant
            i <= senders.len(),
            one_copy_each(handed, i as nat, *m),
        decreases senders.len() - i,
    {
        let copy = copy_message(m);
        proof {
            handed = handed.push(copy);
        }
        let _ = post(&senders[i], copy);
        i = i + 1;
    }
    Ghost(handed)
}

/// The control plane of a server: the signal channel of its accept loop,
/// once it listens, and the registry of its connections.
pub struct SimpleSockleServer {
    thread_ctrl: Option<std::sync::mpsc::Sender<()>>,
    thread_senders: ConnectionRegistry,
}

impl SimpleSockleServer {
    /// Whether the accept loop has been started.
    pub closed spec fn listening(&self) -> bool {
        self.thread_ctrl is Some
    }

    /// A server that does not listen yet and has no connections.
    pub fn new() -> (s: Self)
        ensures
            !s.listening(),
    {
        SimpleSockleServer { thread_ctrl: None, thread_senders: ConnectionRegistry::new() }
    }

    /// Whether the accept loop has been started.
    pub fn is_listening(&self) -> (r: bool)
        ensures
            r == self.listening(),
    {
        self.thread_ctrl.is_some()
    }

    /// Records the signal channel of a newly started accept loop. A server
    /// listens once: a second call fails with `AlreadyListening` and
    /// changes nothing.
    pub fn start_listening(&mut self, ctrl: std::sync::mpsc::Sender<()>) -> (r: Result<
        (),
        SimpleSockleError,
    >)
        ensures
            old(self).listening() ==> r == Err::<(), SimpleSockleError>(
                SimpleSockleError::AlreadyListening,
            ) && *final(self) == *old(self),
            !old(self).listening() ==> r is Ok && final(self).listening(),
    {
        if self.thread_ctrl.is_some() {
            return Err(SimpleSockleError::AlreadyListening);
        }
        self.thread_ctrl = Some(ctrl);
        Ok(())
    }

    /// A handle on the registry, for the accept loop to register the
    /// connections it accepts.
    pub fn registry(&self) -> ConnectionRegistry {
        self.thread_senders.share()
    }

    /// Queues `msg` for every connection registered at that moment and
    /// returns what each of their channels was handed: one `Send(msg)`
    /// apiece. Best effort: a connection whose worker is gone is skipped.
    pub fn send(&self, msg: String) -> (handed: Ghost<Seq<SockleServerMessage>>)
        ensures
            forall|j: int|
                0 <= j < handed@.len() ==> handed@[j] == SockleServerMessage::Send(msg),
    {
        let senders = self.thread_senders.snapshot();
        let m = SockleServerMessage::Send(msg);
        let handed = fan_out(&senders, &m);
        handed
    }

    /// Signals the accept loop once; `false` when it cannot be reached.
    pub fn signal_listener(&self) -> (delivered: bool)
        ensures
            !self.listening() ==> !delivered,
    {
        match &self.thread_ctrl {
            Some(c) => post(c, ()),
            None => false,
        }
    }

    /// Asks every connection registered at that moment to shut down, then
    /// signals the accept loop to stop, and returns what each channel was
    /// handed (one `Shutdown` apiece) beside the result. Does not wait for
    /// the workers. Fails with `ListenerUnreachable` when the accept loop
    /// cannot be signalled, which is always so for a server that never
    /// listened.
    pub fn shutdown(&self) -> (out: (Ghost<Seq<SockleServerMessage>>, Result<(), SimpleSockleError>))
        ensures
            forall|j: int|
                0 <= j < out.0@.len() ==> out.0@[j] == SockleServerMessage::Shutdown,
            !self.listening() ==> out.1 == Err::<(), SimpleSockleError>(
                SimpleSockleError::ListenerUnreachable,
            ),
            out.1 is Err ==> out.1 == Err::<(), SimpleSockleError>(
                SimpleSockleError::ListenerUnreachable,
            ),
    {
        let senders = self.thread_senders.snapshot();
        let handed = fan_out(&senders, &SockleServerMessage::Shutdown);
        if self.signal_listener() {
            (handed, Ok(()))
        } else {
            (handed, Err(SimpleSockleError::ListenerUnreachable))
        }
    }

    /// How many connections have been registered, at one moment.
    pub fn connection_count(&self) -> usize {
        self.thread_senders.count()
    }
}

impl Default for SimpleSockleServer {
    fn default() -> (s: Self)
        ensures
            !s.listening(),
    {
        SimpleSockleServer::new()
    }
}

/// What one attempt of the non-blocking accept loop found.
#[derive(Debug, Clone, Copy, PartialEq, Eq, Structural)]
pub enum AcceptOutcome {
    /// A connection came in.
    Accepted,
    /// No connection was waiting.
    WouldBlock,
    /// The attempt failed.
    Failed,
}

/// What one look at the accept loop's signal channel found.
#[derive(Debug, Clone, Copy, PartialEq, Eq, Structural)]
pub enum SignalPoll {
    Signalled,
    Empty,
    /// The server side of the channel is gone.
    Disconnected,
}

/// What the accept loop does after one iteration.
#[derive(Debug, Clone, Copy, PartialEq, Eq, Structural)]
pub struct ListenerStep {
    /// Start a worker for the accepted connection.
    pub spawn_worker: bool,
    /// Sleep one poll interval before the next attempt.
    pub sleep: bool,
    /// Leave the loop.
    pub stop: bool,
}

/// Decides one iteration of the accept loop: an accepted connection gets a
/// worker, an empty backlog a pause, a failed attempt nothing (the loop goes
/// on), and the loop ends once it is signalled or its server is gone.
pub fn listener_step(a: AcceptOutcome, p: SignalPoll) -> (s: ListenerStep)
    ensures
        s.spawn_worker == (a == AcceptOutcome::Accepted),
        s.sleep == (a == AcceptOutcome::WouldBlock),
        s.stop == (p != SignalPoll::Empty),
{
    ListenerStep {
        spawn_worker: a == AcceptOutcome::Accepted,
        sleep: a == AcceptOutcome::WouldBlock,
        stop: p != SignalPoll::Empty,
    }
}

} // verus!
