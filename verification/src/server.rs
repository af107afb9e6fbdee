use vstd::prelude::*;

use crate::error::ServerError;
use crate::protocol::HttpVersion;
use crate::listener::{serves_tcp, ListenerSettings, ServerListener, TcpListener};

verus! {

/// What the server is configured with: its listeners, in order.
pub struct ServerSettings {
    pub listeners: Vec<ListenerSettings>,
}

/// The next step of starting the server.
#[derive(Clone, Copy, Debug, PartialEq, Eq, Structural)]
pub enum StartStep {
    /// Open a TCP listener for the configured listener at this index.
    Listen(usize),
    /// Every configured listener has been gone through.
    Finished,
}

/// The first configured listener at or after `from` that is opened as a
/// TCP listener.
pub open spec fn next_tcp_index(configs: Seq<ListenerSettings>, from: int) -> Option<int>
    decreases configs.len() - from,
{
    if from < 0 || from >= configs.len() {
        None
    } else if serves_tcp(configs[from].protos@) {
        Some(from)
    } else {
        next_tcp_index(configs, from + 1)
    }
}

/// The step that follows once the listeners before `from` were gone through.
pub open spec fn start_step_from(configs: Seq<ListenerSettings>, from: int) -> StartStep {
    match next_tcp_index(configs, from) {
        Some(i) => StartStep::Listen(i as usize),
        None => StartStep::Finished,
    }
}

/// The index `next_tcp_index` finds lies in `from..configs.len()`, serves
/// TCP, and no listener between `from` and it does.
pub proof fn lemma_next_tcp_index(configs: Seq<ListenerSettings>, from: int)
    requires
        0 <= from,
    ensures
        next_tcp_index(configs, from) matches Some(i) ==> {
            &&& from <= i < configs.len()
            &&& serves_tcp(configs[i].protos@)
            &&& forall|j: int| from <= j < i ==> !serves_tcp(#[trigger] configs[j].protos@)
        },
        next_tcp_index(configs, from) is None ==> forall|j: int|
            from <= j < configs.len() ==> !serves_tcp(#[trigger] configs[j].protos@),
    decreases configs.len() - from,
{
    if from < configs.len() && !serves_tcp(configs[from].protos@) {
        lemma_next_tcp_index(configs, from + 1);
    }
}

/// The start step taken once the listeners before `from` were gone through
/// opens the first configured listener at or after `from` whose protocols
/// include HTTP/1.1 or HTTP/2, skipping exactly those that include neither,
/// and the start finishes only when no listener at or after `from` includes
/// either. It is the first index of the rest of the start's run.
pub proof fn lemma_start_step_opens_next_tcp_listener(configs: Seq<ListenerSettings>, from: int)
    requires
        0 <= from,
        configs.len() <= usize::MAX,
    ensures
        start_step_from(configs, from) matches StartStep::Listen(i) ==> {
            &&& from <= i < configs.len()
            &&& exists|k: int| 0 <= k < configs[i as int].protos@.len()
                && (configs[i as int].protos@[k] == HttpVersion::Http11 || configs[i as int].protos@[k] == HttpVersion::Http2)
            &&& forall|j: int, k: int| from <= j < i && 0 <= k < configs[j].protos@.len()
                ==> configs[j].protos@[k] != HttpVersion::Http11 && configs[j].protos@[k] != HttpVersion::Http2
            &&& start_run(configs, from).len() > 0
            &&& start_run(configs, from)[0] == i
        },
        start_step_from(configs, from) is Finished <==> forall|j: int, k: int|
            from <= j < configs.len() && 0 <= k < configs[j].protos@.len()
                ==> configs[j].protos@[k] != HttpVersion::Http11 && configs[j].protos@[k] != HttpVersion::Http2,
{
    lemma_next_tcp_index(configs, from);
    match next_tcp_index(configs, from) {
        Some(i) => {
            assert(start_step_from(configs, from) == StartStep::Listen(i as usize));
            assert((i as usize) as int == i);
            assert forall|j: int, k: int| from <= j < i && 0 <= k < configs[j].protos@.len()
                implies configs[j].protos@[k] != HttpVersion::Http11 && configs[j].protos@[k] != HttpVersion::Http2 by {
                assert(!serves_tcp(configs[j].protos@));
            }
            assert(start_run(configs, from) =~= seq![i] + start_run(configs, i + 1));
        },
        None => {
            assert forall|j: int, k: int| from <= j < configs.len() && 0 <= k < configs[j].protos@.len()
                implies configs[j].protos@[k] != HttpVersion::Http11 && configs[j].protos@[k] != HttpVersion::Http2 by {
                assert(!serves_tcp(configs[j].protos@));
            }
        },
    }
}

/// The indices of the listeners a start opens, in order, once the listeners
/// before `from` were gone through and every opening succeeds.
pub open spec fn start_run(configs: Seq<ListenerSettings>, from: int) -> Seq<int>
    decreases configs.len() - from,
{
    if from < 0 {
        seq![]
    } else {
        match next_tcp_index(configs, from) {
            Some(i) => {
                proof {
                    lemma_next_tcp_index(configs, from);
                }
                seq![i] + start_run(configs, i + 1)
            },
            None => seq![],
        }
    }
}

/// Starting the server opens exactly the configured listeners whose
/// protocols include HTTP/1.1 or HTTP/2, each once, in the order of the
/// configuration.
pub proof fn lemma_start_opens_tcp_listeners(configs: Seq<ListenerSettings>, from: int)
    requires
        0 <= from,
    ensures
        forall|i: int| start_run(configs, from).contains(i) <==> from <= i < configs.len()
            && serves_tcp(configs[i].protos@),
        forall|a: int, b: int|
            0 <= a < b < start_run(configs, from).len() ==> start_run(configs, from)[a]
                < start_run(configs, from)[b],
    decreases configs.len() - from,
{
    lemma_next_tcp_index(configs, from);
    match next_tcp_index(configs, from) {
        Some(k) => {
            lemma_start_opens_tcp_listeners(configs, k + 1);
            let rest = start_run(configs, k + 1);
            let run = start_run(configs, from);
            assert(run =~= seq![k] + rest);
            assert forall|i: int| run.contains(i) <==> from <= i < configs.len()
                && serves_tcp(configs[i].protos@) by {
                if run.contains(i) {
                    let n = choose|n: int| 0 <= n < run.len() && run[n] == i;
                    if n > 0 {
                        assert(rest[n - 1] == i);
                        assert(rest.contains(i));
                    }
                }
                if from <= i < configs.len() && serves_tcp(configs[i].protos@) {
                    if i == k {
                        assert(run[0] == i);
                    } else {
                        assert(rest.contains(i));
                        let n = choose|n: int| 0 <= n < rest.len() && rest[n] == i;
                        assert(run[n + 1] == i);
                    }
                }
            }
            assert forall|a: int, b: int| 0 <= a < b < run.len() implies run[a] < run[b] by {
                if a > 0 {
                    assert(run[a] == rest[a - 1]);
                }
                assert(run[b] == rest[b - 1]);
                assert(rest.contains(rest[b - 1]));
            }
        },
        None => {},
    }
}

/// The tasks handed back by stopping `listeners`: those of the open
/// listeners, in order.
pub open spec fn taken_tasks<H, T>(listeners: Seq<ServerListener<H, T>>) -> Seq<T>
    decreases listeners.len(),
{
    if listeners.len() == 0 {
        seq![]
    } else {
        taken_tasks(listeners.drop_last()) + match listeners.last().task_view() {
            Some(t) => seq![t],
            None => seq![],
        }
    }
}

/// No listener has an accept loop attached.
pub open spec fn all_stopped<H, T>(listeners: Seq<ServerListener<H, T>>) -> bool {
    forall|i: int| 0 <= i < listeners.len() ==> (#[trigger] listeners[i]).task_view() is None
}

/// What stopping the server with `listeners` gives: refused while no
/// listener runs, else the tasks of the running listeners.
pub open spec fn stop_outcome<H, T>(listeners: Seq<ServerListener<H, T>>) -> Result<Seq<T>, ServerError> {
    if all_stopped(listeners) {
        Err(ServerError::NotRunning)
    } else {
        Ok(taken_tasks(listeners))
    }
}

/// Once stopped, a server refuses to be stopped again until a start opens
/// a listener.
pub proof fn lemma_stop_after_stop_refused<H, T>(listeners: Seq<ServerListener<H, T>>)
    requires
        all_stopped(listeners),
    ensures
        stop_outcome(listeners) == Err::<Seq<T>, ServerError>(ServerError::NotRunning),
{
}

/// Restarting a stopped server and stopping it again succeeds and hands
/// back exactly the tasks of the listeners the restart opened, in order.
pub proof fn lemma_restart_then_stop<H, T>(
    stopped: Seq<ServerListener<H, T>>,
    restarted: Seq<ServerListener<H, T>>,
)
    requires
        all_stopped(stopped),
        restarted.len() > 0,
        forall|i: int| 0 <= i < restarted.len() ==> (#[trigger] restarted[i]).task_view() is Some,
    ensures
        stop_outcome(stopped + restarted) == Ok::<Seq<T>, ServerError>(taken_tasks(restarted)),
        taken_tasks(restarted).len() == restarted.len(),
        forall|i: int| 0 <= i < restarted.len() ==> #[trigger] taken_tasks(restarted)[i] == restarted[i].task_view()->0,
{
    let all = stopped + restarted;
    assert(all[stopped.len() as int] == restarted[0]);
    assert(!all_stopped(all));
    lemma_taken_tasks_append(stopped, restarted);
    lemma_taken_tasks_of_stopped(stopped);
    assert(Seq::<T>::empty() + taken_tasks(restarted) =~= taken_tasks(restarted));
    lemma_stop_returns_every_task(restarted);
}

proof fn lemma_taken_tasks_append<H, T>(a: Seq<ServerListener<H, T>>, b: Seq<ServerListener<H, T>>)
    ensures
        taken_tasks(a + b) == taken_tasks(a) + taken_tasks(b),
    decreases b.len(),
{
    if b.len() == 0 {
        assert(a + b =~= a);
        assert(taken_tasks(a) + taken_tasks(b) =~= taken_tasks(a));
    } else {
        let b0 = b.drop_last();
        lemma_taken_tasks_append(a, b0);
        assert((a + b).drop_last() =~= a + b0);
        assert((a + b).last() == b.last());
        let tail = match b.last().task_view() {
            Some(t) => seq![t],
            None => Seq::<T>::empty(),
        };
        assert(taken_tasks(a + b) == taken_tasks(a + b0) + tail);
        assert(taken_tasks(b) == taken_tasks(b0) + tail);
        assert(taken_tasks(a) + taken_tasks(b0) + tail =~= taken_tasks(a) + (taken_tasks(b0) + tail));
    }
}

/// Stopping a server whose listeners all run hands back the task of every
/// listener once, in the order the listeners were opened.
pub proof fn lemma_stop_returns_every_task<H, T>(listeners: Seq<ServerListener<H, T>>)
    requires
        forall|i: int| 0 <= i < listeners.len() ==> (#[trigger] listeners[i]).task_view() is Some,
    ensures
        taken_tasks(listeners).len() == listeners.len(),
        forall|i: int| 0 <= i < listeners.len() ==> #[trigger] taken_tasks(listeners)[i] == listeners[i].task_view()->0,
    decreases listeners.len(),
{
    if listeners.len() > 0 {
        let prefix = listeners.drop_last();
        assert forall|i: int| 0 <= i < prefix.len() implies (#[trigger] prefix[i]).task_view() is Some by {
            assert(prefix[i] == listeners[i]);
        }
        lemma_stop_returns_every_task(prefix);
        let last = listeners[listeners.len() - 1];
        assert(last.task_view() is Some);
        assert forall|i: int| 0 <= i < listeners.len() implies #[trigger] taken_tasks(listeners)[i]
            == listeners[i].task_view()->0 by {
            if i < prefix.len() {
                assert(prefix[i] == listeners[i]);
            }
        }
    }
}

proof fn lemma_taken_tasks_of_stopped<H, T>(listeners: Seq<ServerListener<H, T>>)
    requires
        all_stopped(listeners),
    ensures
        taken_tasks(listeners) == Seq::<T>::empty(),
    decreases listeners.len(),
{
    if listeners.len() > 0 {
        let prefix = listeners.drop_last();
        assert forall|i: int| 0 <= i < prefix.len() implies (#[trigger] prefix[i]).task_view() is None by {
            assert(prefix[i] == listeners[i]);
        }
        lemma_taken_tasks_of_stopped(prefix);
        assert(listeners[listeners.len() - 1].task_view() is None);
        assert(taken_tasks(listeners) =~= Seq::<T>::empty());
    }
}

/// The server: its settings, the virtual hosts it serves (a handle `H`
/// shared with its listeners) and the listeners it has opened, each with
/// the task `T` of its accept loop.
pub struct Vetis<H, T> {
    config: ServerSettings,
    hosts: H,
    listeners: Vec<ServerListener<H, T>>,
}

impl<H, T> Vetis<H, T> {
    /// The configured listeners.
    pub closed spec fn configured(&self) -> Seq<ListenerSettings> {
        self.config.listeners@
    }

    /// The listeners the server has opened, in order.
    pub closed spec fn opened(&self) -> Seq<ServerListener<H, T>> {
        self.listeners@
    }

    /// The virtual hosts the server serves.
    pub closed spec fn hosts_view(&self) -> H {
        self.hosts
    }

    /// Every opened listener serves a clone of the server's hosts handle, so
    /// that hosts added to or removed from the server reach its listeners.
    pub open spec fn shares_hosts(&self) -> bool
        where
            H: Clone,
    {
        forall|i: int| 0 <= i < self.opened().len() ==> cloned(self.hosts_view(), (#[trigger] self.opened()[i]).hosts_view())
    }

    /// Creates a server for `config` that serves `hosts` and has opened no listener.
    pub fn with_hosts(config: ServerSettings, hosts: H) -> (server: Self)
        ensures
            server.configured() == config.listeners@,
            server.hosts_view() == hosts,
            server.opened() == Seq::<ServerListener<H, T>>::empty(),
    {
        Vetis { config, hosts, listeners: Vec::new() }
    }

    /// The virtual hosts the server serves.
    pub fn hosts(&self) -> (hosts: &H)
        ensures
            *hosts == self.hosts_view(),
    {
        &self.hosts
    }

    /// The server's settings.
    pub fn config(&self) -> (config: &ServerSettings)
        ensures
            config.listeners@ == self.configured(),
    {
        &self.config
    }

    /// The number of listeners the server has opened.
    pub fn listener_count(&self) -> (count: usize)
        ensures
            count == self.opened().len(),
    {
        self.listeners.len()
    }

    /// The first step of starting the server, given whether its virtual
    /// hosts are empty: a server with no host refuses to start.
    pub fn begin_start(&self, hosts_empty: bool) -> (step: Result<StartStep, ServerError>)
        ensures
            hosts_empty ==> step == Err::<StartStep, ServerError>(ServerError::NoHosts),
            !hosts_empty ==> step == Ok::<StartStep, ServerError>(start_step_from(self.configured(), 0)),
    {
        if hosts_empty {
            return Err(ServerError::NoHosts);
        }
        Ok(self.step_from(0))
    }

    fn step_from(&self, from: usize) -> (step: StartStep)
        requires
            from <= self.configured().len(),
        ensures
            step == start_step_from(self.configured(), from as int),
    {
        let mut i = from;
        while i < self.config.listeners.len()
            invariant
                from <= i <= self.config.listeners.len(),
                self.config.listeners@ == self.configured(),
                next_tcp_index(self.configured(), from as int) == next_tcp_index(self.configured(), i as int),
            decreases self.config.listeners.len() - i,
        {
            if self.config.listeners[i].serves_tcp() {
                return StartStep::Listen(i);
            }
            i = i + 1;
        }
        StartStep::Finished
    }

    /// The listener that a `Listen(index)` step opens: a TCP listener for
    /// the configured listener at `index`, serving the server's hosts.
    pub fn prepare_listener(&self, index: usize) -> (listener: ServerListener<H, T>)
        where
            H: Clone,
        requires
            index < self.configured().len(),
        ensures
            listener.task_view() is None,
            listener.settings_view().port == self.configured()[index as int].port,
            listener.settings_view().interface == self.configured()[index as int].interface,
            listener.settings_view().protos@ == self.configured()[index as int].protos@,
            cloned(self.hosts_view(), listener.hosts_view()),
    {
        let config = self.config.listeners[index].duplicate();
        let hosts = self.hosts.clone();
        ServerListener::from_tcp(TcpListener::with_hosts(config, hosts))
    }

    /// Records the listener opened for the configured listener at `index`
    /// and gives the next step.
    pub fn listener_opened(&mut self, index: usize, listener: ServerListener<H, T>) -> (step: StartStep)
        where
            H: Clone,
        requires
            index < old(self).configured().len(),
            cloned(old(self).hosts_view(), listener.hosts_view()),
        ensures
            old(self).shares_hosts() ==> final(self).shares_hosts(),
            final(self).opened() == old(self).opened().push(listener),
            final(self).configured() == old(self).configured(),
            final(self).hosts_view() == old(self).hosts_view(),
            step == start_step_from(old(self).configured(), index + 1),
    {
        let configured_count = self.config.listeners.len();
        assert(index < configured_count);
        self.listeners.push(listener);
        proof {
            if old(self).shares_hosts() {
                assert forall|i: int| 0 <= i < self.opened().len() implies cloned(
                    self.hosts_view(),
                    (#[trigger] self.opened()[i]).hosts_view(),
                ) by {
                    if i < old(self).opened().len() {
                        assert(self.opened()[i] == old(self).opened()[i]);
                        assert(cloned(old(self).hosts_view(), old(self).opened()[i].hosts_view()));
                    }
                }
            }
        }
        self.step_from(index + 1)
    }

    /// Whether some opened listener runs an accept loop.
    pub fn is_running(&self) -> (running: bool)
        ensures
            running == !all_stopped(self.opened()),
    {
        let mut i: usize = 0;
        while i < self.listeners.len()
            invariant
                i <= self.listeners.len(),
                forall|j: int| 0 <= j < i ==> (#[trigger] self.listeners@[j]).task_view() is None,
            decreases self.listeners.len() - i,
        {
            if self.listeners[i].is_listening() {
                return true;
            }
            i = i + 1;
        }
        false
    }

    /// Stops the server: refused while no listener runs, else detaches the
    /// accept loop of every listener and hands back their tasks, in order,
    /// for the caller to cancel. The stopped listeners stay with the server.
    pub fn stop_listeners(&mut self) -> (tasks: Result<Vec<T>, ServerError>)
        ensures
            match tasks {
                Ok(v) => stop_outcome(old(self).opened()) == Ok::<Seq<T>, ServerError>(v@),
                Err(e) => stop_outcome(old(self).opened()) == Err::<Seq<T>, ServerError>(e),
            },
            final(self).opened().len() == old(self).opened().len(),
            all_stopped(final(self).opened()),
            forall|i: int| 0 <= i < final(self).opened().len() ==> {
                &&& (#[trigger] final(self).opened()[i]).settings_view() == old(self).opened()[i].settings_view()
                &&& final(self).opened()[i].hosts_view() == old(self).opened()[i].hosts_view()
            },
            final(self).configured() == old(self).configured(),
            final(self).hosts_view() == old(self).hosts_view(),
    {
        if !self.is_running() {
            return Err(ServerError::NotRunning);
        }
        let ghost before = self.listeners@;
        let mut tasks: Vec<T> = Vec::new();
        let mut i: usize = 0;
        while i < self.listeners.len()
            invariant
                i <= self.listeners.len(),
                self.listeners.len() == before.len(),
                tasks@ == taken_tasks(before.take(i as int)),
                forall|j: int| 0 <= j < i ==> (#[trigger] self.listeners@[j]).task_view() is None,
                forall|j: int| i <= j < before.len() ==> #[trigger] self.listeners@[j] == before[j],
                forall|j: int| 0 <= j < before.len() ==> {
                    &&& (#[trigger] self.listeners@[j]).settings_view() == before[j].settings_view()
                    &&& self.listeners@[j].hosts_view() == before[j].hosts_view()
                },
                self.config.listeners@ == old(self).config.listeners@,
                self.hosts == old(self).hosts,
            decreases before.len() - i,
        {
            let taken = self.listeners[i].stop();
            assert(before.take(i + 1).drop_last() =~= before.take(i as int));
            match taken {
                Some(t) => {
                    tasks.push(t);
                },
                None => {},
            }
            i = i + 1;
        }
        assert(before.take(before.len() as int) =~= before);
        Ok(tasks)
    }

    /// Installs `new_config` as the server's configuration; the listeners
    /// already opened and the hosts stay as they are, and the new listeners
    /// are the ones the next start opens.
    pub fn reload<C>(&mut self, new_config: ServerSettings, new_hosts: Vec<C>) -> (result: Result<(), ServerError>)
        ensures
            result == Ok::<(), ServerError>(()),
            final(self).configured() == new_config.listeners@,
            final(self).opened() == old(self).opened(),
            final(self).hosts_view() == old(self).hosts_view(),
    {
        self.config = new_config;
        Ok(())
    }
}

/// Stopping or reloading the server keeps every opened listener on the
/// server's hosts handle: both keep the server's handle and each listener's.
pub proof fn lemma_hosts_stay_shared<H: Clone, T>(before: Vetis<H, T>, after: Vetis<H, T>)
    requires
        before.shares_hosts(),
        after.hosts_view() == before.hosts_view(),
        after.opened().len() == before.opened().len(),
        forall|i: int| 0 <= i < after.opened().len() ==> (#[trigger] after.opened()[i]).hosts_view()
            == before.opened()[i].hosts_view(),
    ensures
        after.shares_hosts(),
{
    assert forall|i: int| 0 <= i < after.opened().len() implies cloned(
        after.hosts_view(),
        (#[trigger] after.opened()[i]).hosts_view(),
    ) by {
        assert(cloned(before.hosts_view(), before.opened()[i].hosts_view()));
    }
}

impl<H: Default, T> Vetis<H, T> {
    /// Creates a server for `config` that serves the default hosts value (an
    /// empty table) and has opened no listener.
    pub fn new(config: ServerSettings) -> (server: Self)
        ensures
            server.configured() == config.listeners@,
            server.opened() == Seq::<ServerListener<H, T>>::empty(),
            call_ensures(H::default, (), server.hosts_view()),
    {
        Vetis { config, hosts: H::default(), listeners: Vec::new() }
    }
}

} // verus!
