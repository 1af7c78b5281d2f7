//! The task registry: which background tasks run, what must be kept alive
//! until the node stops, and the cooperative shutdown that ends both.
use vstd::prelude::*;

verus! {

/// How a task is scheduled.
#[derive(Clone, Copy, PartialEq, Eq, Debug)]
pub enum TaskKind {
    /// Yields often; shares workers with other cooperative tasks.
    Cooperative,
    /// May occupy a worker for long stretches; runs in isolation.
    Blocking,
}

/// A spawned task, by name.
#[derive(Clone, Debug)]
pub struct TaskRecord {
    pub name: String,
    pub kind: TaskKind,
}

/// A resource that no one references once assembly returns, but that must
/// not be released before the node stops.
#[derive(Clone, Copy, PartialEq, Eq, Debug)]
pub enum Resource {
    Telemetry,
    BasePath,
    RpcServers,
    RpcHandlers,
}

/// The registry in the abstract.
pub struct RegistryView {
    pub running: bool,
    pub tasks: Seq<TaskRecord>,
    pub keep_alive: Seq<Resource>,
}

/// What a shutdown cancelled and released.
pub struct Shutdown {
    pub cancelled: Vec<TaskRecord>,
    pub released: Vec<Resource>,
}

/// The background work of one node. Once shut down it holds nothing and
/// takes nothing more.
pub struct TaskRegistry {
    running: bool,
    tasks: Vec<TaskRecord>,
    keep_alive: Vec<Resource>,
}

impl View for TaskRegistry {
    type V = RegistryView;

    closed spec fn view(&self) -> RegistryView {
        RegistryView { running: self.running, tasks: self.tasks@, keep_alive: self.keep_alive@ }
    }
}

impl TaskRegistry {
    /// A stopped registry holds no task and no resource.
    pub open spec fn wf(&self) -> bool {
        !self@.running ==> self@.tasks.len() == 0 && self@.keep_alive.len() == 0
    }

    /// An empty, running registry.
    pub fn new() -> (r: Self)
        ensures
            r.wf(),
            r@.running,
            r@.tasks.len() == 0,
            r@.keep_alive.len() == 0,
    {
        TaskRegistry { running: true, tasks: Vec::new(), keep_alive: Vec::new() }
    }

    /// Whether spawned tasks may still run and deliver.
    pub fn is_running(&self) -> (r: bool)
        ensures
            r == self@.running,
    {
        self.running
    }

    /// The number of tasks spawned so far.
    pub fn task_count(&self) -> (n: usize)
        ensures
            n == self@.tasks.len(),
    {
        self.tasks.len()
    }

    /// The `i`-th task spawned.
    pub fn task(&self, i: usize) -> (r: &TaskRecord)
        requires
            i < self@.tasks.len(),
        ensures
            *r == self@.tasks[i as int],
    {
        &self.tasks[i]
    }

    /// The number of resources held until shutdown.
    pub fn keep_alive_count(&self) -> (n: usize)
        ensures
            n == self@.keep_alive.len(),
    {
        self.keep_alive.len()
    }

    /// Records a task to run. Fire-and-forget: nothing is returned to await.
    /// A stopped registry refuses it.
    pub fn spawn_task(&mut self, name: String, kind: TaskKind) -> (accepted: bool)
        requires
            old(self).wf(),
        ensures
            final(self).wf(),
            accepted == old(self)@.running,
            accepted ==> final(self)@ == (RegistryView {
                tasks: old(self)@.tasks.push(TaskRecord { name, kind }),
                ..old(self)@
            }),
            !accepted ==> final(self)@ == old(self)@,
    {
        if self.running {
            self.tasks.push(TaskRecord { name, kind });
            true
        } else {
            false
        }
    }

    /// Records a cooperative task.
    pub fn spawn(&mut self, name: String) -> (accepted: bool)
        requires
            old(self).wf(),
        ensures
            final(self).wf(),
            accepted == old(self)@.running,
            accepted ==> final(self)@ == (RegistryView {
                tasks: old(self)@.tasks.push(TaskRecord { name, kind: TaskKind::Cooperative }),
                ..old(self)@
            }),
            !accepted ==> final(self)@ == old(self)@,
    {
        self.spawn_task(name, TaskKind::Cooperative)
    }

    /// Records a task that runs in isolation.
    pub fn spawn_blocking(&mut self, name: String) -> (accepted: bool)
        requires
            old(self).wf(),
        ensures
            final(self).wf(),
            accepted == old(self)@.running,
            accepted ==> final(self)@ == (RegistryView {
                tasks: old(self)@.tasks.push(TaskRecord { name, kind: TaskKind::Blocking }),
                ..old(self)@
            }),
            !accepted ==> final(self)@ == old(self)@,
    {
        self.spawn_task(name, TaskKind::Blocking)
    }

    /// Holds `items` until shutdown. A stopped registry refuses them.
    pub fn keep_alive(&mut self, items: Vec<Resource>) -> (accepted: bool)
        requires
            old(self).wf(),
        ensures
            final(self).wf(),
            accepted == old(self)@.running,
            accepted ==> final(self)@ == (RegistryView {
                keep_alive: old(self)@.keep_alive + items@,
                ..old(self)@
            }),
            !accepted ==> final(self)@ == old(self)@,
    {
        if self.running {
            let mut items = items;
            self.keep_alive.append(&mut items);
            true
        } else {
            false
        }
    }

    /// Stops the node's background work: every task is cancelled and every
    /// kept resource released, and both are handed back for teardown.
    pub fn shutdown(&mut self) -> (r: Shutdown)
        requires
            old(self).wf(),
        ensures
            final(self).wf(),
            !final(self)@.running,
            final(self)@.tasks.len() == 0,
            final(self)@.keep_alive.len() == 0,
            r.cancelled@ == old(self)@.tasks,
            r.released@ == old(self)@.keep_alive,
    {
        self.running = false;
        let mut cancelled: Vec<TaskRecord> = Vec::new();
        let mut released: Vec<Resource> = Vec::new();
        std::mem::swap(&mut cancelled, &mut self.tasks);
        std::mem::swap(&mut released, &mut self.keep_alive);
        Shutdown { cancelled, released }
    }
}

} // verus!
