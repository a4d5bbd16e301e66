//! The network context in which lookups run.

use vstd::prelude::*;

use crate::addr::SocketAddr;
use crate::text::text_of;

verus! {

/// A network namespace, named by a token.
#[derive(Debug)]
pub struct NetNamespace {
    token: String,
}

impl NetNamespace {
    /// The token that names the namespace.
    pub closed spec fn token_spec(self) -> Seq<char> {
        self.token@
    }

    pub fn new(token: String) -> (namespace: NetNamespace)
        ensures
            namespace.token_spec() == token@,
    {
        NetNamespace { token }
    }

    pub fn token(&self) -> (token: &str)
        ensures
            token@ == self.token_spec(),
    {
        self.token.as_str()
    }
}

/// What the sockets of an instance are bound to: a network namespace, and a
/// mark for the routing rules.
#[derive(Debug)]
pub struct SocketContext {
    pub netns: Option<NetNamespace>,
    pub socket_mark: Option<u32>,
}

/// What a network context says: the token of a namespace, and a mark.
#[verifier::ext_equal]
pub struct ContextView {
    pub netns: Option<Seq<char>>,
    pub socket_mark: Option<u32>,
}

/// The token of an optional namespace.
pub open spec fn token_of(netns: Option<NetNamespace>) -> Option<Seq<char>> {
    match netns {
        Some(namespace) => Some(namespace.token_spec()),
        None => None,
    }
}

impl View for SocketContext {
    type V = ContextView;

    open spec fn view(&self) -> ContextView {
        ContextView { netns: token_of(self.netns), socket_mark: self.socket_mark }
    }
}

/// The context of a socket that is bound to nothing.
pub open spec fn no_context() -> ContextView {
    ContextView { netns: None, socket_mark: None }
}

impl Default for SocketContext {
    fn default() -> (context: SocketContext)
        ensures
            context@ == no_context(),
    {
        SocketContext { netns: None, socket_mark: None }
    }
}

impl SocketContext {
    pub fn with_netns(self, netns: Option<NetNamespace>) -> (context: SocketContext)
        ensures
            context@ == (ContextView { netns: token_of(netns), ..self@ }),
    {
        SocketContext { netns, socket_mark: self.socket_mark }
    }

    pub fn with_socket_mark(self, socket_mark: Option<u32>) -> (context: SocketContext)
        ensures
            context@ == (ContextView { socket_mark, ..self@ }),
    {
        SocketContext { netns: self.netns, socket_mark }
    }
}

/// The network namespace to enter for a lookup, if any.
#[derive(Debug)]
pub struct NetNS {
    name: Option<String>,
}

impl NetNS {
    /// The name of the namespace.
    pub closed spec fn name_spec(self) -> Option<Seq<char>> {
        text_of(self.name)
    }

    pub fn new(name: Option<String>) -> (netns: NetNS)
        ensures
            netns.name_spec() == text_of(name),
    {
        NetNS { name }
    }

    pub fn name(&self) -> (name: Option<String>)
        ensures
            text_of(name) == self.name_spec(),
    {
        self.name.clone()
    }
}

/// The part of a socket context that decides how a lookup is routed.
#[derive(Debug, PartialEq, Eq, Hash)]
pub struct RuntimeDnsIoContext {
    pub netns: Option<String>,
    pub socket_mark: Option<u32>,
}

impl View for RuntimeDnsIoContext {
    type V = ContextView;

    open spec fn view(&self) -> ContextView {
        ContextView { netns: text_of(self.netns), socket_mark: self.socket_mark }
    }
}

/// Whether lookups in a context may run like any other lookup of the process:
/// the context binds nothing, and the platform protects no sockets.
pub open spec fn process_default(context: ContextView, native_protection: bool) -> bool {
    context.netns is None && context.socket_mark is None && !native_protection
}

impl Clone for RuntimeDnsIoContext {
    fn clone(&self) -> (copy: RuntimeDnsIoContext)
        ensures
            copy@ == self@,
    {
        RuntimeDnsIoContext { netns: self.netns.clone(), socket_mark: self.socket_mark }
    }
}

impl RuntimeDnsIoContext {
    pub fn from_socket_context(context: &SocketContext) -> (io_context: RuntimeDnsIoContext)
        ensures
            io_context@ == context@,
    {
        let netns = match &context.netns {
            Some(namespace) => Some(namespace.token().to_owned()),
            None => None,
        };
        RuntimeDnsIoContext { netns, socket_mark: context.socket_mark }
    }

    /// The namespace to enter for lookups in this context.
    pub fn netns(&self) -> (netns: NetNS)
        ensures
            netns.name_spec() == self@.netns,
    {
        NetNS::new(self.netns.clone())
    }

    /// Tells whether lookups in this context may run like any other lookup of
    /// the process. `native_protection` says whether the platform protects
    /// sockets.
    pub fn is_process_default(&self, native_protection: bool) -> (r: bool)
        ensures
            r == process_default(self@, native_protection),
    {
        self.netns.is_none() && self.socket_mark.is_none() && !native_protection
    }

    /// The context to bind the sockets of a lookup to.
    pub fn socket_context(&self) -> (context: SocketContext)
        ensures
            context@ == self@,
    {
        let netns = match &self.netns {
            Some(token) => Some(NetNamespace::new(token.clone())),
            None => None,
        };
        let empty: SocketContext = SocketContext::default();
        empty.with_netns(netns).with_socket_mark(self.socket_mark)
    }
}

/// How a TCP socket is bound.
#[derive(Debug)]
pub struct TcpBindOptions {
    pub context: SocketContext,
    pub local_addr: Option<SocketAddr>,
    /// The name of the device to bind to.
    pub bind_device: Option<String>,
    pub reuse_addr: bool,
}

/// How a UDP socket is bound.
#[derive(Debug)]
pub struct UdpBindOptions {
    pub context: SocketContext,
    pub local_addr: Option<SocketAddr>,
}

/// A span of time.
#[derive(Clone, Copy, Debug, PartialEq, Eq, Structural)]
pub struct Wait {
    pub secs: u64,
    pub nanos: u32,
}

/// How long a connection to a name server may take where nothing else is said.
pub open spec fn default_connect_wait() -> Wait {
    Wait { secs: 5, nanos: 0 }
}

/// What came of connecting to a name server: of making the socket, and of the
/// connection itself.
#[derive(Debug)]
pub enum ConnectEvent<S, E> {
    /// The connection was made in time.
    Connected(S),
    /// The socket or the connection failed in time.
    Failed(E),
    /// The connection was not made in time.
    TimedOut,
}

/// Why there is no connection to a name server.
#[derive(Debug)]
pub enum ConnectFailure<E> {
    Failed(E),
    TimedOut,
}

/// What connecting to a name server gives: the connection that was made in
/// time, or else why there is none. A failure that came in time is kept as it
/// is.
pub fn connect_result<S, E>(event: ConnectEvent<S, E>) -> (r: Result<S, ConnectFailure<E>>)
    ensures
        r == (match event {
            ConnectEvent::Connected(stream) => Ok::<S, ConnectFailure<E>>(stream),
            ConnectEvent::Failed(error) => Err(ConnectFailure::Failed(error)),
            ConnectEvent::TimedOut => Err(ConnectFailure::TimedOut),
        }),
{
    match event {
        ConnectEvent::Connected(stream) => Ok(stream),
        ConnectEvent::Failed(error) => Err(ConnectFailure::Failed(error)),
        ConnectEvent::TimedOut => Err(ConnectFailure::TimedOut),
    }
}

/// Makes the sockets of a resolver that is bound to a context.
#[derive(Debug)]
pub struct RuntimeDnsIoProvider {
    pub context: RuntimeDnsIoContext,
}

impl RuntimeDnsIoProvider {
    pub fn new(context: RuntimeDnsIoContext) -> (provider: RuntimeDnsIoProvider)
        ensures
            provider.context == context,
    {
        RuntimeDnsIoProvider { context }
    }

    /// How the socket of a TCP connection to a name server is bound: in the
    /// context, at the given address, to the device with the empty name, and
    /// without sharing the address.
    pub fn connect_tcp(&self, bind_addr: Option<SocketAddr>) -> (options: TcpBindOptions)
        ensures
            options.context@ == self.context@,
            options.local_addr == bind_addr,
            text_of(options.bind_device) == Some(Seq::<char>::empty()),
            !options.reuse_addr,
    {
        TcpBindOptions {
            context: self.context.socket_context(),
            local_addr: bind_addr,
            bind_device: Some(String::new()),
            reuse_addr: false,
        }
    }

    /// How long a TCP connection to a name server may take.
    pub fn connect_wait(wait_for: Option<Wait>) -> (wait: Wait)
        ensures
            wait == (match wait_for {
                Some(wait) => wait,
                None => default_connect_wait(),
            }),
    {
        match wait_for {
            Some(wait) => wait,
            None => Wait { secs: 5, nanos: 0 },
        }
    }

    /// How a UDP socket for a name server is bound: in the context, at the
    /// given address.
    pub fn bind_udp(&self, local_addr: SocketAddr) -> (options: UdpBindOptions)
        ensures
            options.context@ == self.context@,
            options.local_addr == Some(local_addr),
    {
        UdpBindOptions { context: self.context.socket_context(), local_addr: Some(local_addr) }
    }
}

} // verus!
