//! The host: its checks, its plugins, its tasks and where it stands in its
//! lifecycle.

use crate::check::HealthCheck;
use crate::error::ErrorKind;
use crate::ffi::register_code;
use crate::ffi::register_code_of;
use crate::ffi::RegisterFault;
use crate::lifecycle::action_for;
use crate::lifecycle::next_state;
use crate::lifecycle::rank;
use crate::lifecycle::transition;
use crate::lifecycle::HostAction;
use crate::lifecycle::HostEvent;
use crate::lifecycle::HostState;
use crate::lifecycle::ShutdownSource;
use crate::names::distinct_names;
use crate::names::has_name;
use crate::names::lemma_push_inserts;
use crate::names::lemma_remove_removes;
use crate::names::lemma_without_absent;
use crate::names::map_of;
use crate::names::place_of;
use crate::names::without;
use crate::names::NameMap;
use crate::error::code_of;
use crate::plugin::LoadError;
use crate::plugin::SoService;
use crate::probe::HealthProbe;
use crate::routes::is_segment;
use crate::routes::lemma_path_splits_one_way;
use crate::routes::path_of;
use crate::routes::plugin_request;
use crate::routes::HEALTH_PORT;
use crate::tasks::signal_channel;
use crate::tasks::SIGNAL_CAPACITY;
use crate::tasks::TaskSet;
use tokio::sync::mpsc::Receiver;
use tokio::sync::mpsc::Sender;
use tokio::task::JoinHandle;
use vstd::prelude::*;
use vstd::string::StringExecFns;

verus! {

/// What a host is configured with.
#[derive(Debug)]
pub struct UServiceConfig {
    pub name: String,
}

/// What contracts see of a host.
#[verifier::reject_recursive_types(C)]
pub struct HostView<C> {
    /// The host's name.
    pub name: Seq<char>,
    /// The version under which the plugin surface is served.
    pub version: Seq<char>,
    /// The TCP port on which the plugin surface listens.
    pub port: u16,
    /// Where the host stands in its lifecycle.
    pub state: HostState,
    /// The name of the liveness check.
    pub liveness_name: Seq<char>,
    /// The probes of the liveness check.
    pub liveness: Seq<HealthProbe>,
    /// The name of the readiness check.
    pub readyness_name: Seq<char>,
    /// The probes of the readiness check.
    pub readyness: Seq<HealthProbe>,
    /// The plugins by name, in registration order.
    pub plugins: Seq<(Seq<char>, SoService<C>)>,
    /// The cancel senders of the running tasks, in registration order.
    pub channels: Seq<Sender<()>>,
    /// The join handles of the running tasks, in registration order.
    pub handles: Seq<JoinHandle<()>>,
    /// Whether cancellation has gone out to the tasks.
    pub shut_down: bool,
    /// The sending end of the kill channel, once the host has been started.
    pub kill: Option<Sender<()>>,
}

/// A host for plugins whose capabilities are of type `C`.
#[derive(Debug)]
pub struct UService<C> {
    name: String,
    version: String,
    port: u16,
    state: HostState,
    liveness: HealthCheck,
    readyness: HealthCheck,
    so_services: NameMap<SoService<C>>,
    tasks: TaskSet,
    kill: Option<Sender<()>>,
}

impl<C> View for UService<C> {
    type V = HostView<C>;

    closed spec fn view(&self) -> HostView<C> {
        HostView {
            name: self.name@,
            version: self.version@,
            port: self.port,
            state: self.state,
            liveness_name: self.liveness.spec_name(),
            liveness: self.liveness.probes(),
            readyness_name: self.readyness.spec_name(),
            readyness: self.readyness.probes(),
            plugins: self.so_services.pairs(),
            channels: self.tasks.channels(),
            handles: self.tasks.handles(),
            shut_down: self.tasks.shut_down(),
            kill: self.kill,
        }
    }
}

/// One step of bringing a started host up. Plugins are meant by their place in
/// the registration order.
#[derive(Clone, Copy, Debug, PartialEq, Eq, Structural)]
pub enum LaunchStep {
    /// Hand the log bridge to the plugin at this place.
    InstallLogBridge(usize),
    /// Call `init` of the plugin at this place.
    InitPlugin(usize),
    /// Bind the health listener to this port and spawn it.
    ServeHealth(u16),
    /// Bind the plugin surface to this port and spawn it.
    ServePlugins(u16),
    /// Start waiting for the first shutdown request.
    WatchShutdown,
}

/// The steps that bring up a host with `plugins` plugins and its plugin
/// surface on `port`: the log bridge goes into every plugin, then every plugin
/// is initialised, both in registration order; then the listeners are bound
/// and the coordinator set to watch.
pub open spec fn launch_plan_of(plugins: nat, port: u16) -> Seq<LaunchStep> {
    Seq::new(plugins, |i: int| LaunchStep::InstallLogBridge(i as usize)) + Seq::new(
        plugins,
        |i: int| LaunchStep::InitPlugin(i as usize),
    ) + seq![
        LaunchStep::ServeHealth(HEALTH_PORT),
        LaunchStep::ServePlugins(port),
        LaunchStep::WatchShutdown,
    ]
}

/// In the launch plan every plugin gets the log bridge once and is initialised
/// once, the bridge first; plugins are initialised in registration order; and
/// no listener is bound before the last plugin has been initialised.
pub proof fn lemma_launch_plan_order(plugins: nat, port: u16)
    ensures
        launch_plan_of(plugins, port).len() == 2 * plugins + 3,
        forall|i: int|
            0 <= i < plugins ==> {
                &&& #[trigger] launch_plan_of(plugins, port)[i] == LaunchStep::InstallLogBridge(
                    i as usize,
                )
                &&& launch_plan_of(plugins, port)[plugins + i] == LaunchStep::InitPlugin(
                    i as usize,
                )
            },
        launch_plan_of(plugins, port)[2 * plugins as int] == LaunchStep::ServeHealth(HEALTH_PORT),
        launch_plan_of(plugins, port)[2 * plugins as int + 1] == LaunchStep::ServePlugins(port),
        launch_plan_of(plugins, port)[2 * plugins as int + 2] == LaunchStep::WatchShutdown,
{
}

/// A request with `method` for `path` is for `service` among `plugins` and
/// asks `route` of it: it is a `GET`, and the path splits into the name under
/// which `service` is registered and `route`.
pub open spec fn names_plugin<C>(
    plugins: Seq<(Seq<char>, SoService<C>)>,
    method: Seq<char>,
    path: Seq<char>,
    service: SoService<C>,
    route: Seq<char>,
) -> bool {
    exists|plugin: Seq<char>|
        {
            &&& method == "GET"@
            &&& is_segment(plugin)
            &&& is_segment(route)
            &&& path == #[trigger] path_of(plugin, route)
            &&& has_name(plugins, plugin)
            &&& service == map_of(plugins)[plugin]
        }
}

/// A request with `method` for `path` is for none of `plugins`: it is no `GET`,
/// or however the path splits into a plugin's name and a route, no plugin goes
/// by that name.
pub open spec fn names_no_plugin<C>(
    plugins: Seq<(Seq<char>, SoService<C>)>,
    method: Seq<char>,
    path: Seq<char>,
) -> bool {
    method != "GET"@ || forall|plugin: Seq<char>, route: Seq<char>|
        is_segment(plugin) && is_segment(route) && path == #[trigger] path_of(plugin, route)
            ==> !has_name(plugins, plugin)
}

/// What holds of every host: no two plugins share a name; a host that has
/// been started holds its kill sender; cancellation has gone out exactly when
/// the host is draining or stopped, and then no cancel sender is left; a
/// stopped host holds no join handle.
pub open spec fn well_formed<C>(host: HostView<C>) -> bool {
    &&& distinct_names(host.plugins)
    &&& rank(host.state) >= 1 ==> host.kill is Some
    &&& host.shut_down <==> rank(host.state) >= 2
    &&& host.shut_down ==> host.channels.len() == 0
    &&& host.state == HostState::Stopped ==> host.handles.len() == 0
}

/// Registering a plugin under a new name and freeing it again leaves the
/// plugin table as it was, order included.
pub proof fn lemma_register_then_free<C>(
    plugins: Seq<(Seq<char>, SoService<C>)>,
    name: Seq<char>,
    service: SoService<C>,
)
    requires
        distinct_names(plugins),
        !has_name(plugins, name),
    ensures
        without(without(plugins, name).push((name, service)), name) == plugins,
{
    lemma_without_absent(plugins, name);
    let entered = plugins.push((name, service));
    lemma_push_inserts(plugins, name, service);
    lemma_remove_removes(entered, plugins.len() as int);
    assert(entered.remove(plugins.len() as int) =~= plugins);
}

/// Registering a plugin and freeing it again leaves, of the names that were
/// registered before, every one but the plugin's own with the handle it had.
pub proof fn lemma_register_then_free_keeps_others<C>(
    plugins: Seq<(Seq<char>, SoService<C>)>,
    name: Seq<char>,
    service: SoService<C>,
)
    requires
        distinct_names(plugins),
    ensures
        map_of(without(without(plugins, name).push((name, service)), name)) == map_of(
            plugins,
        ).remove(name),
{
    let cleared = without(plugins, name);
    if has_name(plugins, name) {
        let at = place_of(plugins, name);
        lemma_remove_removes(plugins, at);
    } else {
        lemma_without_absent(plugins, name);
    }
    let entered = cleared.push((name, service));
    lemma_push_inserts(cleared, name, service);
    lemma_remove_removes(entered, cleared.len() as int);
    assert(entered.remove(cleared.len() as int) =~= cleared);
}

impl<C> UService<C> {
    /// The host is well formed. Every function of a host keeps it so.
    pub open spec fn wf(&self) -> bool {
        well_formed(self@)
    }

    /// A host named `name`: constructed, without plugins, probes or tasks, its
    /// checks named `liveness` and `readyness`, serving version `v1` of its
    /// plugin surface on port 8080.
    pub fn new(name: &str) -> (host: UService<C>)
        ensures
            host.wf(),
            host@ == (HostView::<C> {
                name: name@,
                version: "v1"@,
                port: 8080,
                state: HostState::Constructed,
                liveness_name: "liveness"@,
                liveness: Seq::empty(),
                readyness_name: "readyness"@,
                readyness: Seq::empty(),
                plugins: Seq::empty(),
                channels: Seq::empty(),
                handles: Seq::empty(),
                shut_down: false,
                kill: None,
            }),
    {
        UService {
            name: name.to_owned(),
            version: String::from_str("v1"),
            port: 8080,
            state: HostState::Constructed,
            liveness: HealthCheck::new("liveness"),
            readyness: HealthCheck::new("readyness"),
            so_services: NameMap::new(),
            tasks: TaskSet::new(),
            kill: None,
        }
    }

    /// A host as `config` describes it.
    pub fn from_config(config: &UServiceConfig) -> (host: UService<C>)
        ensures
            host.wf(),
            host@ == (HostView::<C> {
                name: config.name@,
                version: "v1"@,
                port: 8080,
                state: HostState::Constructed,
                liveness_name: "liveness"@,
                liveness: Seq::empty(),
                readyness_name: "readyness"@,
                readyness: Seq::empty(),
                plugins: Seq::empty(),
                channels: Seq::empty(),
                handles: Seq::empty(),
                shut_down: false,
                kill: None,
            }),
    {
        UService::new(config.name.as_str())
    }

    /// The host's name.
    pub fn name(&self) -> (name: &str)
        ensures
            name@ == self@.name,
    {
        self.name.as_str()
    }

    /// The version under which the plugin surface is served.
    pub fn version(&self) -> (version: &str)
        ensures
            version@ == self@.version,
    {
        self.version.as_str()
    }

    /// The TCP port on which the plugin surface listens.
    pub fn port(&self) -> (port: u16)
        ensures
            port == self@.port,
    {
        self.port
    }

    /// Where the host stands in its lifecycle.
    pub fn state(&self) -> (state: HostState)
        ensures
            state == self@.state,
    {
        self.state
    }

    /// The liveness check.
    pub fn liveness(&self) -> (check: &HealthCheck)
        ensures
            check.spec_name() == self@.liveness_name,
            check.probes() == self@.liveness,
    {
        &self.liveness
    }

    /// The readiness check.
    pub fn readyness(&self) -> (check: &HealthCheck)
        ensures
            check.spec_name() == self@.readyness_name,
            check.probes() == self@.readyness,
    {
        &self.readyness
    }

    /// The liveness check, to enrol probes in it or to take them out.
    pub fn liveness_mut(&mut self) -> (check: &mut HealthCheck)
        requires
            old(self).wf(),
        ensures
            check.spec_name() == old(self)@.liveness_name,
            check.probes() == old(self)@.liveness,
            final(self).wf(),
            final(self)@ == (HostView {
                liveness_name: final(check).spec_name(),
                liveness: final(check).probes(),
                ..old(self)@
            }),
    {
        &mut self.liveness
    }

    /// The readiness check, to enrol probes in it or to take them out.
    pub fn readyness_mut(&mut self) -> (check: &mut HealthCheck)
        requires
            old(self).wf(),
        ensures
            check.spec_name() == old(self)@.readyness_name,
            check.probes() == old(self)@.readyness,
            final(self).wf(),
            final(self)@ == (HostView {
                readyness_name: final(check).spec_name(),
                readyness: final(check).probes(),
                ..old(self)@
            }),
    {
        &mut self.readyness
    }

    /// Starts a constructed host: it takes a new kill channel, keeps the
    /// sending end and hands out the receiving end for the coordinator to
    /// wait on. A host that has been started before refuses and stays as it
    /// was.
    pub fn start(&mut self) -> (started: Result<Receiver<()>, ErrorKind>)
        requires
            old(self).wf(),
        ensures
            final(self).wf(),
            started is Ok <==> old(self)@.state == HostState::Constructed,
            started is Ok ==> final(self)@ == (HostView {
                state: HostState::Started,
                kill: final(self)@.kill,
                ..old(self)@
            }),
            started matches Err(kind) ==> kind == ErrorKind::AlreadyRunning && final(self)@ == old(
                self,
            )@,
            final(self)@.state == next_state(old(self)@.state, HostEvent::Start),
    {
        let (state, action) = transition(self.state, HostEvent::Start);
        match action {
            HostAction::Launch => {
                let (kill, coordinator) = signal_channel(SIGNAL_CAPACITY);
                self.kill = Some(kill);
                self.state = state;
                Ok(coordinator)
            },
            _ => Err(ErrorKind::AlreadyRunning),
        }
    }

    /// The programmatic request to shut down: the sender to write to while the
    /// host runs. Before the start, while draining and after the end there is
    /// nothing to do and nothing is handed out.
    pub fn stop(&self) -> (kill: Option<&Sender<()>>)
        requires
            self.wf(),
        ensures
            kill is Some <==> self@.state == HostState::Started,
            kill matches Some(sender) ==> self@.kill == Some(*sender),
    {
        match self.state {
            HostState::Started => match &self.kill {
                Some(sender) => Some(sender),
                None => None,
            },
            _ => None,
        }
    }

    /// The first shutdown request to reach a running host moves it to
    /// draining and hands out every cancel sender, in registration order, for
    /// one message to be delivered on each. Any other request changes nothing
    /// and hands out nothing.
    pub fn shutdown(&mut self, source: ShutdownSource) -> (senders: Vec<Sender<()>>)
        requires
            old(self).wf(),
        ensures
            final(self).wf(),
            final(self)@.state == next_state(old(self)@.state, HostEvent::Shutdown(source)),
            action_for(old(self)@.state, HostEvent::Shutdown(source)) is FanOut ==> {
                &&& senders@ == old(self)@.channels
                &&& final(self)@ == (HostView {
                    state: HostState::Draining,
                    channels: Seq::empty(),
                    shut_down: true,
                    ..old(self)@
                })
            },
            !(action_for(old(self)@.state, HostEvent::Shutdown(source)) is FanOut) ==> {
                &&& senders@ == Seq::<Sender<()>>::empty()
                &&& final(self)@ == old(self)@
            },
    {
        let (state, action) = transition(self.state, HostEvent::Shutdown(source));
        match action {
            HostAction::FanOut(_) => {
                let senders = self.tasks.shutdown();
                self.state = state;
                senders
            },
            _ => Vec::new(),
        }
    }

    /// Hands out every join handle held, in registration order, for the caller
    /// to await.
    pub fn join(&mut self) -> (handles: Vec<JoinHandle<()>>)
        requires
            old(self).wf(),
        ensures
            final(self).wf(),
            handles@ == old(self)@.handles,
            final(self)@ == (HostView { handles: Seq::empty(), ..old(self)@ }),
    {
        self.tasks.join()
    }

    /// Records that every join handle has completed. A draining host that has
    /// handed out all its handles is then stopped, and the answer says so. A
    /// host that still holds a handle cannot have seen it complete, and like
    /// any host that is not draining it stays as it is.
    pub fn joined(&mut self) -> (finished: bool)
        requires
            old(self).wf(),
        ensures
            final(self).wf(),
            finished == (old(self)@.state == HostState::Draining && old(self)@.handles.len()
                == 0),
            final(self)@ == (HostView {
                state: if finished {
                    next_state(old(self)@.state, HostEvent::Joined)
                } else {
                    old(self)@.state
                },
                ..old(self)@
            }),
            finished ==> final(self)@.state == HostState::Stopped,
    {
        if self.tasks.awaited() != 0 {
            return false;
        }
        let (state, action) = transition(self.state, HostEvent::Joined);
        match action {
            HostAction::Finish => {
                self.state = state;
                true
            },
            _ => false,
        }
    }

    /// Records a task by its cancel sender and its join handle. Tasks are
    /// added before cancellation goes out, never after.
    pub fn add(&mut self, channel: Sender<()>, handle: JoinHandle<()>)
        requires
            old(self).wf(),
            rank(old(self)@.state) <= 1,
        ensures
            final(self).wf(),
            final(self)@ == (HostView {
                channels: old(self)@.channels.push(channel),
                handles: old(self)@.handles.push(handle),
                ..old(self)@
            }),
    {
        self.tasks.add(channel, handle);
    }

    /// Records a task like `add` while cancellation has not gone out. A task
    /// that comes later is not recorded: its cancel sender and its join handle
    /// are handed back, for the task to be cancelled at once.
    pub fn try_add(&mut self, channel: Sender<()>, handle: JoinHandle<()>) -> (refused: Option<
        (Sender<()>, JoinHandle<()>),
    >)
        requires
            old(self).wf(),
        ensures
            final(self).wf(),
            refused is None <==> rank(old(self)@.state) <= 1,
            refused is None ==> final(self)@ == (HostView {
                channels: old(self)@.channels.push(channel),
                handles: old(self)@.handles.push(handle),
                ..old(self)@
            }),
            refused is Some ==> refused == Some((channel, handle)) && final(self)@ == old(self)@,
    {
        if self.accepts_tasks() {
            self.add(channel, handle);
            None
        } else {
            Some((channel, handle))
        }
    }

    /// Whether tasks may still be added: cancellation has not gone out.
    pub fn accepts_tasks(&self) -> (open: bool)
        ensures
            open == (rank(self@.state) <= 1),
    {
        match self.state {
            HostState::Constructed => true,
            HostState::Started => true,
            _ => false,
        }
    }

    /// Enters `so_service` under `name` at the end of the registration order.
    /// A plugin registered under that name before leaves the table.
    pub fn add_soservice(&mut self, name: &str, so_service: SoService<C>)
        requires
            old(self).wf(),
        ensures
            final(self).wf(),
            final(self)@ == (HostView {
                plugins: without(old(self)@.plugins, name@).push((name@, so_service)),
                ..old(self)@
            }),
    {
        let _ = self.so_services.insert(name.to_owned(), so_service);
    }

    /// Whether a plugin is registered under `name`.
    pub fn has_soservice(&self, name: &str) -> (found: bool)
        requires
            self.wf(),
        ensures
            found == has_name(self@.plugins, name@),
    {
        self.so_services.contains(name)
    }

    /// The plugin registered under `name`, if there is one.
    pub fn soservice(&self, name: &str) -> (found: Option<&SoService<C>>)
        requires
            self.wf(),
        ensures
            match found {
                Some(service) => has_name(self@.plugins, name@) && *service == map_of(
                    self@.plugins,
                )[name@],
                None => !has_name(self@.plugins, name@),
            },
    {
        self.so_services.get(name)
    }

    /// The plugin that a request to the plugin surface is for, with the route
    /// asked of it: a `GET` for `/plugin/route` where a plugin is registered
    /// under that name.
    pub fn plugin_for(&self, method: &str, path: &str) -> (hit: Option<(&SoService<C>, String)>)
        requires
            self.wf(),
        ensures
            match hit {
                Some((service, route)) => names_plugin(
                    self@.plugins,
                    method@,
                    path@,
                    *service,
                    route@,
                ),
                None => names_no_plugin(self@.plugins, method@, path@),
            },
    {
        match plugin_request(method, path) {
            None => {
                proof {
                    assert(names_no_plugin(self@.plugins, method@, path@));
                }
                None
            },
            Some((plugin, route)) => match self.so_services.get(plugin.as_str()) {
                Some(service) => {
                    proof {
                        let named = plugin@;
                        assert(self.so_services@.contains_key(named));
                        assert(has_name(self@.plugins, named));
                        assert(*service == map_of(self@.plugins)[named]);
                        assert(path@ == path_of(named, route@));
                        assert(names_plugin(self@.plugins, method@, path@, *service, route@));
                    }
                    Some((service, route))
                },
                None => {
                    proof {
                        assert forall|other: Seq<char>, other_route: Seq<char>|
                            is_segment(other) && is_segment(other_route) && path@
                                == #[trigger] path_of(other, other_route) implies !has_name(
                            self@.plugins,
                            other,
                        ) by {
                            lemma_path_splits_one_way(plugin@, route@, other, other_route);
                        }
                        assert(names_no_plugin(self@.plugins, method@, path@));
                    }
                    None
                },
            },
        }
    }

    /// Takes the plugin registered under `name` out of the table and hands it
    /// back; the others keep their order.
    pub fn remove_soservice(&mut self, name: &str) -> (so_service: SoService<C>)
        requires
            old(self).wf(),
            has_name(old(self)@.plugins, name@),
        ensures
            final(self).wf(),
            so_service == map_of(old(self)@.plugins)[name@],
            final(self)@ == (HostView {
                plugins: without(old(self)@.plugins, name@),
                ..old(self)@
            }),
    {
        match self.so_services.remove(name) {
            Some(so_service) => so_service,
            None => vstd::pervasive::unreached(),
        }
    }

    /// The names of the plugins in registration order, which is the order in
    /// which their `init` is called.
    pub fn plugin_names(&self) -> (names: Vec<String>)
        requires
            self.wf(),
        ensures
            names@.len() == self@.plugins.len(),
            forall|i: int| 0 <= i < names@.len() ==> (#[trigger] names@[i])@ == self@.plugins[i].0,
    {
        let mut names: Vec<String> = Vec::new();
        let n = self.so_services.len();
        let mut i: usize = 0;
        while i < n
            invariant
                n == self.so_services.pairs().len(),
                i <= n,
                names@.len() == i,
                forall|j: int|
                    0 <= j < i ==> (#[trigger] names@[j])@ == self.so_services.pairs()[j].0,
            decreases n - i,
        {
            names.push(self.so_services.name_at(i).to_owned());
            i += 1;
        }
        names
    }

    /// The number of registered plugins.
    pub fn plugin_count(&self) -> (n: usize)
        requires
            self.wf(),
        ensures
            n == self@.plugins.len(),
    {
        self.so_services.len()
    }

    /// The plugin at place `i` of the registration order, with its name.
    pub fn plugin_at(&self, i: usize) -> (entry: (&str, &SoService<C>))
        requires
            self.wf(),
            i < self@.plugins.len(),
        ensures
            entry.0@ == self@.plugins[i as int].0,
            *entry.1 == self@.plugins[i as int].1,
    {
        (self.so_services.name_at(i), self.so_services.value_at(i))
    }

    /// The steps that bring this host up once it has been started.
    pub fn launch_plan(&self) -> (plan: Vec<LaunchStep>)
        requires
            self.wf(),
        ensures
            plan@ == launch_plan_of(self@.plugins.len(), self@.port),
    {
        let n = self.so_services.len();
        let ghost bridges = Seq::new(n as nat, |i: int| LaunchStep::InstallLogBridge(i as usize));
        let ghost inits = Seq::new(n as nat, |i: int| LaunchStep::InitPlugin(i as usize));
        let mut plan: Vec<LaunchStep> = Vec::new();
        let mut i: usize = 0;
        while i < n
            invariant
                i <= n,
                plan@ == bridges.take(i as int),
                bridges == Seq::new(n as nat, |i: int| LaunchStep::InstallLogBridge(i as usize)),
            decreases n - i,
        {
            plan.push(LaunchStep::InstallLogBridge(i));
            assert(plan@ =~= bridges.take(i as int + 1));
            i += 1;
        }
        assert(plan@ =~= bridges);
        let mut j: usize = 0;
        while j < n
            invariant
                j <= n,
                plan@ == bridges + inits.take(j as int),
                inits == Seq::new(n as nat, |i: int| LaunchStep::InitPlugin(i as usize)),
            decreases n - j,
        {
            plan.push(LaunchStep::InitPlugin(j));
            assert(plan@ =~= bridges + inits.take(j as int + 1));
            j += 1;
        }
        assert(plan@ =~= bridges + inits);
        plan.push(LaunchStep::ServeHealth(HEALTH_PORT));
        plan.push(LaunchStep::ServePlugins(self.port));
        plan.push(LaunchStep::WatchShutdown);
        assert(plan@ =~= launch_plan_of(self@.plugins.len(), self@.port));
        plan
    }

    /// Completes a registration under `name`. A plugin that was loaded enters
    /// the table and the answer is zero; a failed load leaves the host as it
    /// was and is answered with its negative code.
    pub fn pservice_register(
        &mut self,
        name: &str,
        loaded: Result<SoService<C>, LoadError>,
    ) -> (code: i32)
        requires
            old(self).wf(),
        ensures
            final(self).wf(),
            match loaded {
                Ok(so_service) => {
                    &&& code == 0
                    &&& final(self)@ == (HostView {
                        plugins: without(old(self)@.plugins, name@).push((name@, so_service)),
                        ..old(self)@
                    })
                },
                Err(fault) => {
                    &&& code == register_code_of(Err(RegisterFault::Load(fault)))
                    &&& code < 0
                    &&& final(self)@ == old(self)@
                },
            },
    {
        match loaded {
            Ok(so_service) => {
                self.add_soservice(name, so_service);
                register_code(&Ok(()))
            },
            Err(fault) => register_code(&Err(RegisterFault::Load(fault))),
        }
    }

    /// Frees the plugin registered under `name` and answers zero. A name under
    /// which nothing is registered is a bad argument and changes nothing.
    pub fn pservice_free(&mut self, name: &str) -> (code: u32)
        requires
            old(self).wf(),
        ensures
            final(self).wf(),
            final(self)@ == (HostView {
                plugins: without(old(self)@.plugins, name@),
                ..old(self)@
            }),
            code == if has_name(old(self)@.plugins, name@) {
                0
            } else {
                code_of(ErrorKind::BadArgument)
            },
    {
        match self.so_services.remove(name) {
            Some(_) => 0,
            None => ErrorKind::BadArgument.code(),
        }
    }
}

} // verus!
