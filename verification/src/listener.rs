use vstd::prelude::*;

use crate::error::ServerError;
use crate::protocol::HttpVersion;

verus! {

/// The address a listener binds to.
#[derive(Clone, Copy, Debug)]
pub enum IpAddress {
    V4([u8; 4]),
    V6([u16; 8]),
}

/// What a listener is configured with: the port and interface it binds to
/// and the HTTP versions it is meant to serve.
pub struct ListenerSettings {
    pub port: u16,
    pub interface: IpAddress,
    pub protos: Vec<HttpVersion>,
}

/// A listener is opened as a TCP listener when its protocols include
/// HTTP/1.1 or HTTP/2.
pub open spec fn serves_tcp(protos: Seq<HttpVersion>) -> bool {
    exists|i: int| 0 <= i < protos.len() && (protos[i] == HttpVersion::Http11 || protos[i] == HttpVersion::Http2)
}

/// Whether the protocols include HTTP/1.1.
pub open spec fn lists_http11(protos: Seq<HttpVersion>) -> bool {
    protos.contains(HttpVersion::Http11)
}

impl ListenerSettings {
    /// Whether this listener is opened as a TCP listener.
    pub fn serves_tcp(&self) -> (tcp: bool)
        ensures
            tcp == serves_tcp(self.protos@),
    {
        let mut i: usize = 0;
        while i < self.protos.len()
            invariant
                i <= self.protos.len(),
                forall|j: int| 0 <= j < i ==> self.protos@[j] != HttpVersion::Http11 && self.protos@[j] != HttpVersion::Http2,
            decreases self.protos.len() - i,
        {
            let p = self.protos[i];
            if p == HttpVersion::Http11 || p == HttpVersion::Http2 {
                return true;
            }
            i = i + 1;
        }
        false
    }

    /// Whether the protocols include HTTP/1.1; a plain-text connection is
    /// handed to an HTTP/1.1 server only then.
    pub fn http11_only(&self) -> (listed: bool)
        ensures
            listed == lists_http11(self.protos@),
    {
        let mut i: usize = 0;
        while i < self.protos.len()
            invariant
                i <= self.protos.len(),
                forall|j: int| 0 <= j < i ==> self.protos@[j] != HttpVersion::Http11,
            decreases self.protos.len() - i,
        {
            if self.protos[i] == HttpVersion::Http11 {
                assert(self.protos@[i as int] == HttpVersion::Http11);
                return true;
            }
            i = i + 1;
        }
        false
    }

    /// A copy of these settings.
    pub fn duplicate(&self) -> (copy: ListenerSettings)
        ensures
            copy.port == self.port,
            copy.interface == self.interface,
            copy.protos@ == self.protos@,
    {
        let mut protos: Vec<HttpVersion> = Vec::new();
        let mut i: usize = 0;
        while i < self.protos.len()
            invariant
                i <= self.protos.len(),
                protos@ == self.protos@.take(i as int),
            decreases self.protos.len() - i,
        {
            protos.push(self.protos[i]);
            i = i + 1;
            assert(protos@ =~= self.protos@.take(i as int));
        }
        assert(self.protos@.take(self.protos.len() as int) =~= self.protos@);
        ListenerSettings { port: self.port, interface: self.interface, protos }
    }
}

/// A TCP listener: its settings, the virtual hosts it serves (a handle `H`
/// shared with the server) and, while it accepts connections, the task `T`
/// that runs its accept loop.
pub struct TcpListener<H, T> {
    task: Option<T>,
    config: ListenerSettings,
    hosts: H,
}

impl<H, T> TcpListener<H, T> {
    /// The task running the accept loop, if the listener is open.
    pub closed spec fn task_view(&self) -> Option<T> {
        self.task
    }

    /// The listener's settings.
    pub closed spec fn settings_view(&self) -> ListenerSettings {
        self.config
    }

    /// The hosts the listener serves.
    pub closed spec fn hosts_view(&self) -> H {
        self.hosts
    }

    /// Creates a listener for `config` that serves `hosts` and accepts nothing yet.
    pub fn with_hosts(config: ListenerSettings, hosts: H) -> (listener: Self)
        ensures
            listener.task_view() is None,
            listener.settings_view() == config,
            listener.hosts_view() == hosts,
    {
        TcpListener { task: None, config, hosts }
    }

    /// Replaces the virtual hosts the listener serves.
    pub fn set_hosts(&mut self, hosts: H)
        ensures
            final(self).hosts_view() == hosts,
            final(self).task_view() == old(self).task_view(),
            final(self).settings_view() == old(self).settings_view(),
    {
        self.hosts = hosts;
    }

    /// The listener's settings.
    pub fn settings(&self) -> (config: &ListenerSettings)
        ensures
            *config == self.settings_view(),
    {
        &self.config
    }

    /// The virtual hosts the listener serves.
    pub fn hosts(&self) -> (hosts: &H)
        ensures
            *hosts == self.hosts_view(),
    {
        &self.hosts
    }

    /// Whether an accept loop is attached.
    pub fn is_listening(&self) -> (listening: bool)
        ensures
            listening == self.task_view() is Some,
    {
        self.task.is_some()
    }

    /// Records the task that runs the accept loop once the socket is bound;
    /// it replaces any task attached before.
    pub fn attach_task(&mut self, task: T)
        ensures
            final(self).task_view() == Some(task),
            final(self).settings_view() == old(self).settings_view(),
            final(self).hosts_view() == old(self).hosts_view(),
    {
        self.task = Some(task);
    }

    /// Detaches the accept loop's task, which the caller cancels; a listener
    /// that is not open gives nothing.
    pub fn stop(&mut self) -> (task: Option<T>)
        ensures
            task == old(self).task_view(),
            final(self).task_view() is None,
            final(self).settings_view() == old(self).settings_view(),
            final(self).hosts_view() == old(self).hosts_view(),
    {
        self.task.take()
    }
}

impl<H: Default, T> TcpListener<H, T> {
    /// Creates a listener for `config` that serves the default hosts value
    /// (an empty table) and accepts nothing yet.
    pub fn new(config: ListenerSettings) -> (listener: Self)
        ensures
            listener.task_view() is None,
            listener.settings_view() == config,
            call_ensures(H::default, (), listener.hosts_view()),
    {
        TcpListener { task: None, config, hosts: H::default() }
    }
}

/// The TLS configuration built from the virtual hosts, or the error that
/// refuses to open a listener without one.
pub fn require_tls_config<C>(config: Option<C>) -> (result: Result<C, ServerError>)
    ensures
        config is Some ==> result == Ok::<C, ServerError>(config->0),
        config is None ==> result == Err::<C, ServerError>(ServerError::MissingTlsConfig),
{
    match config {
        Some(c) => Ok(c),
        None => Err(ServerError::MissingTlsConfig),
    }
}

/// A listener of the server.
pub enum ServerListener<H, T> {
    /// A TCP listener serving HTTP/1.1 and HTTP/2.
    Tcp(TcpListener<H, T>),
}

impl<H, T> ServerListener<H, T> {
    /// The task running the listener's accept loop, if it is open.
    pub open spec fn task_view(&self) -> Option<T> {
        match self {
            ServerListener::Tcp(l) => l.task_view(),
        }
    }

    /// The listener's settings.
    pub open spec fn settings_view(&self) -> ListenerSettings {
        match self {
            ServerListener::Tcp(l) => l.settings_view(),
        }
    }

    /// The hosts the listener serves.
    pub open spec fn hosts_view(&self) -> H {
        match self {
            ServerListener::Tcp(l) => l.hosts_view(),
        }
    }

    /// Wraps a TCP listener.
    pub fn from_tcp(listener: TcpListener<H, T>) -> (wrapped: Self)
        ensures
            wrapped == ServerListener::Tcp(listener),
    {
        ServerListener::Tcp(listener)
    }

    /// Replaces the virtual hosts the listener serves.
    pub fn set_hosts(&mut self, hosts: H)
        ensures
            final(self).hosts_view() == hosts,
            final(self).task_view() == old(self).task_view(),
            final(self).settings_view() == old(self).settings_view(),
    {
        match self {
            ServerListener::Tcp(l) => l.set_hosts(hosts),
        }
    }

    /// The listener's settings.
    pub fn settings(&self) -> (config: &ListenerSettings)
        ensures
            *config == self.settings_view(),
    {
        match self {
            ServerListener::Tcp(l) => l.settings(),
        }
    }

    /// The virtual hosts the listener serves.
    pub fn hosts(&self) -> (hosts: &H)
        ensures
            *hosts == self.hosts_view(),
    {
        match self {
            ServerListener::Tcp(l) => l.hosts(),
        }
    }

    /// Whether the listener runs an accept loop.
    pub fn is_listening(&self) -> (listening: bool)
        ensures
            listening == self.task_view() is Some,
    {
        match self {
            ServerListener::Tcp(l) => l.is_listening(),
        }
    }

    /// Records the task that runs the listener's accept loop.
    pub fn attach_task(&mut self, task: T)
        ensures
            final(self).task_view() == Some(task),
            final(self).settings_view() == old(self).settings_view(),
            final(self).hosts_view() == old(self).hosts_view(),
    {
        match self {
            ServerListener::Tcp(l) => l.attach_task(task),
        }
    }

    /// Detaches the listener's accept loop task, which the caller cancels.
    pub fn stop(&mut self) -> (task: Option<T>)
        ensures
            task == old(self).task_view(),
            final(self).task_view() is None,
            final(self).settings_view() == old(self).settings_view(),
            final(self).hosts_view() == old(self).hosts_view(),
    {
        match self {
            ServerListener::Tcp(l) => l.stop(),
        }
    }
}

impl<H, T> From<TcpListener<H, T>> for ServerListener<H, T> {
    fn from(value: TcpListener<H, T>) -> (wrapped: Self) {
        ServerListener::Tcp(value)
    }
}

impl<H, T> vstd::std_specs::convert::FromSpecImpl<TcpListener<H, T>> for ServerListener<H, T> {
    open spec fn obeys_from_spec() -> bool {
        true
    }

    open spec fn from_spec(value: TcpListener<H, T>) -> Self {
        ServerListener::Tcp(value)
    }
}

} // verus!
