use vstd::prelude::*;
use std::collections::VecDeque;
use crate::receiver::{
    BTDevice, BTReceiver, BtError, DirectoryEntry, Effect, OpenStatus,
    named_devices, setup_effects, state_id,
};

verus! {

broadcast use vstd::std_specs::vecdeque::group_vec_dequeue_axioms;

/// A request from the user interface, immutable once submitted.
#[derive(Clone, Debug, PartialEq, Eq)]
pub enum Command {
    Connect(String),
    Reconnect(String),
    Disconnect,
    Scan,
}

/// What the worker publishes for the user interface.
#[derive(Clone, Debug, PartialEq, Eq)]
pub enum Event {
    DeviceList(Vec<BTDevice>),
    ConnectionStatus(Option<String>),
}

/// The bounded FIFO queue of submitted commands.
pub struct CommandQueue {
    pub items: VecDeque<Command>,
    pub capacity: usize,
}

/// The queue after submitting `c` with the given capacity: appended at the
/// back if there is room, else unchanged (the command is discarded).
pub open spec fn after_submit(q: Seq<Command>, capacity: nat, c: Command) -> Seq<Command> {
    if q.len() < capacity { q.push(c) } else { q }
}

/// The queue after submitting each of `cs` in turn.
pub open spec fn submit_all(q: Seq<Command>, capacity: nat, cs: Seq<Command>) -> Seq<Command>
    decreases cs.len(),
{
    if cs.len() == 0 {
        q
    } else {
        submit_all(after_submit(q, capacity, cs[0]), capacity, cs.subrange(1, cs.len() as int))
    }
}

/// The commands handed out by taking from the queue until it is empty.
pub open spec fn drain(q: Seq<Command>) -> Seq<Command>
    decreases q.len(),
{
    if q.len() == 0 {
        Seq::empty()
    } else {
        seq![q[0]] + drain(q.drop_first())
    }
}

impl CommandQueue {
    pub fn new(capacity: usize) -> (r: Self)
        ensures
            r.items@ == Seq::<Command>::empty(),
            r.capacity == capacity,
    {
        CommandQueue { items: VecDeque::new(), capacity }
    }

    /// Submits a command without blocking. Returns `false`, and discards the
    /// command, when the queue is full.
    pub fn submit(&mut self, cmd: Command) -> (accepted: bool)
        ensures
            final(self).capacity == old(self).capacity,
            accepted == (old(self).items@.len() < old(self).capacity),
            final(self).items@ == after_submit(old(self).items@, old(self).capacity as nat, cmd),
    {
        if self.items.len() < self.capacity {
            self.items.push_back(cmd);
            true
        } else {
            false
        }
    }

    /// Takes the oldest command, if any.
    pub fn take(&mut self) -> (r: Option<Command>)
        ensures
            final(self).capacity == old(self).capacity,
            old(self).items@.len() == 0 ==> r is None && final(self).items@ == old(self).items@,
            old(self).items@.len() > 0 ==> r == Some(old(self).items@[0])
                && final(self).items@ == old(self).items@.drop_first(),
    {
        self.items.pop_front()
    }
}

/// Commands taken from a queue come out exactly in the order they were
/// submitted: submitting `cs` to a queue holding `q`, with room for all of them,
/// then taking until empty yields `q` followed by `cs`.
pub proof fn lemma_submission_order(q: Seq<Command>, capacity: nat, cs: Seq<Command>)
    requires
        q.len() + cs.len() <= capacity,
    ensures
        submit_all(q, capacity, cs) == q + cs,
        drain(submit_all(q, capacity, cs)) == q + cs,
    decreases cs.len(),
{
    if cs.len() > 0 {
        let rest = cs.subrange(1, cs.len() as int);
        lemma_submission_order(q.push(cs[0]), capacity, rest);
        assert(q.push(cs[0]) + rest =~= q + cs);
    } else {
        assert(q + cs =~= q);
    }
    lemma_drain_identity(q + cs);
}

proof fn lemma_drain_identity(q: Seq<Command>)
    ensures
        drain(q) == q,
    decreases q.len(),
{
    if q.len() > 0 {
        lemma_drain_identity(q.drop_first());
        assert(seq![q[0]] + q.drop_first() =~= q);
    }
}

} // verus!

verus! {

/// The first device of `devs` whose display name is `name`.
pub open spec fn first_named(devs: Seq<BTDevice>, name: Seq<char>) -> Option<BTDevice>
    decreases devs.len(),
{
    if devs.len() == 0 {
        None
    } else if devs[0].name@ == name {
        Some(devs[0])
    } else {
        first_named(devs.subrange(1, devs.len() as int), name)
    }
}

/// Finds the first device named `name`, scanning in list order.
pub fn find_device(devs: &Vec<BTDevice>, name: &String) -> (r: Option<usize>)
    ensures
        first_named(devs@, name@) is None ==> r is None,
        first_named(devs@, name@) is Some ==> r is Some && r->Some_0 < devs@.len()
            && devs@[r->Some_0 as int] == first_named(devs@, name@)->Some_0,
{
    let mut i: usize = 0;
    proof {
        assert(devs@.subrange(0, devs@.len() as int) =~= devs@);
    }
    while i < devs.len()
        invariant
            i <= devs@.len(),
            first_named(devs@, name@) == first_named(devs@.subrange(i as int, devs@.len() as int), name@),
        decreases devs@.len() - i,
    {
        let ghost rest = devs@.subrange(i as int, devs@.len() as int);
        proof {
            assert(rest[0] == devs@[i as int]);
            assert(rest.subrange(1, rest.len() as int) =~= devs@.subrange(i + 1, devs@.len() as int));
        }
        if devs[i].name == *name {
            return Some(i);
        }
        i = i + 1;
    }
    None
}

/// What the worker is in the middle of between two calls.
#[derive(Clone, Debug, PartialEq, Eq)]
pub enum Pending {
    Idle,
    /// Waiting for the device list that this command needs.
    Listing(Command),
    /// Waiting for the platform's answer to the open of the device with this
    /// display name.
    Opening(String),
}

/// What the worker asks its driver to do next.
#[derive(Debug, PartialEq, Eq)]
pub enum Step {
    /// Query the device directory and hand the result to `on_device_list`.
    ListDevices,
    /// Perform `teardown`, then open `id` and hand the status to `on_open_result`.
    Open { teardown: Vec<Effect>, id: String },
    /// Perform `effects`, publish `event` if any and log `failure` if any; the
    /// command is finished.
    Done { effects: Vec<Effect>, event: Option<Event>, failure: Option<BtError> },
}

impl Step {
    /// A finished command with these effects and this failure.
    pub open spec fn done(self, effects: Seq<Effect>, failure: Option<BtError>) -> bool {
        &&& self is Done
        &&& self->effects@ == effects
        &&& self->failure == failure
    }

    pub open spec fn no_event(self) -> bool {
        self->event is None
    }

    /// The published event is the connection status `status`.
    pub open spec fn status_event(self, status: Option<Seq<char>>) -> bool {
        &&& self->event is Some
        &&& self->event->Some_0 is ConnectionStatus
        &&& match self->event->Some_0->ConnectionStatus_0 {
            Some(s) => status == Some(s@),
            None => status is None,
        }
    }

    /// The published event is the device list `devs`.
    pub open spec fn list_event(self, devs: Seq<BTDevice>) -> bool {
        &&& self->event is Some
        &&& self->event->Some_0 is DeviceList
        &&& self->event->Some_0->DeviceList_0@ == devs
    }
}

/// The command worker: the sole owner of the connection manager, which it
/// drives one command at a time.
pub struct CommandWorker {
    pub receiver: BTReceiver,
    pub pending: Pending,
}

impl CommandWorker {
    /// The manager is well formed, and an open is in flight exactly while the
    /// worker waits for its answer.
    pub open spec fn wf(&self) -> bool {
        &&& self.receiver.wf()
        &&& (self.pending is Opening) == (self.receiver.state is Connecting)
    }

    pub fn new() -> (r: Self)
        ensures
            r.wf(),
            r.pending is Idle,
            r.receiver.state is Disconnected,
    {
        CommandWorker { receiver: BTReceiver::new(), pending: Pending::Idle }
    }

    /// Starts processing `cmd`. `Disconnect` finishes at once: it tears the
    /// connection down and publishes the status `None`. Every other command first
    /// needs a fresh device list.
    pub fn begin(&mut self, cmd: Command) -> (step: Step)
        requires
            old(self).wf(),
            old(self).pending is Idle,
        ensures
            final(self).wf(),
            match cmd {
                Command::Disconnect => {
                    &&& step.done(old(self).receiver.held_teardown(), None)
                    &&& step.status_event(None)
                    &&& final(self).pending is Idle
                    &&& final(self).receiver.state is Disconnected
                    &&& final(self).receiver.active_monitors() == 0
                },
                _ => {
                    &&& step is ListDevices
                    &&& final(self).pending == Pending::Listing(cmd)
                    &&& final(self).receiver == old(self).receiver
                },
            },
    {
        match cmd {
            Command::Disconnect => {
                let effects = self.receiver.disconnect();
                Step::Done { effects, event: Some(Event::ConnectionStatus(None)), failure: None }
            },
            _ => {
                self.pending = Pending::Listing(cmd);
                Step::ListDevices
            },
        }
    }
}

} // verus!

verus! {

/// The devices of a directory answer, where a failed query counts as no device.
pub open spec fn listed_or_empty(listing: Option<Vec<DirectoryEntry>>) -> Seq<BTDevice> {
    match listing {
        Some(es) => named_devices(es@),
        None => Seq::empty(),
    }
}

/// The display name a connect or reconnect command resolves.
pub open spec fn command_name(cmd: Command) -> Option<Seq<char>> {
    match cmd {
        Command::Connect(n) => Some(n@),
        Command::Reconnect(n) => Some(n@),
        _ => None,
    }
}

impl CommandWorker {
    /// Continues the command that waited for the device list.
    ///
    /// `Scan` publishes the list, or logs `DirectoryUnavailable`. `Connect` and
    /// `Reconnect` look for the first listed device with the requested name
    /// (a failed query lists none): with no match the command is dropped with
    /// `DeviceNotFound` and nothing changes; with a match the held resources are
    /// torn down and the device is connected, which either asks for the open of
    /// its identifier or fails with `IdentifierMissing`, leaving the manager
    /// disconnected.
    pub fn on_device_list(&mut self, listing: Option<Vec<DirectoryEntry>>) -> (step: Step)
        requires
            old(self).wf(),
            old(self).pending is Listing,
            !(old(self).pending->Listing_0 is Disconnect),
        ensures
            final(self).wf(),
            (final(self).pending is Opening) == (step is Open),
            old(self).pending->Listing_0 is Scan ==> {
                &&& final(self).receiver == old(self).receiver
                &&& match listing {
                    None => step.done(Seq::empty(), Some(BtError::DirectoryUnavailable))
                        && step.no_event(),
                    Some(es) => step.done(Seq::empty(), None) && step.list_event(named_devices(es@)),
                }
            },
            command_name(old(self).pending->Listing_0) matches Some(name) ==> {
                match first_named(listed_or_empty(listing), name) {
                    None => {
                        &&& step.done(Seq::empty(), Some(BtError::DeviceNotFound))
                        &&& step.no_event()
                        &&& final(self).receiver == old(self).receiver
                    },
                    Some(d) => match d.id {
                        None => {
                            &&& step.done(old(self).receiver.held_teardown(), Some(BtError::IdentifierMissing))
                            &&& step.no_event()
                            &&& final(self).receiver.state is Disconnected
                            &&& final(self).receiver.active_monitors() == 0
                        },
                        Some(id) => {
                            &&& step is Open
                            &&& step->teardown@ == old(self).receiver.held_teardown()
                            &&& step->id@ == id@
                            &&& final(self).receiver.state is Connecting
                            &&& state_id(final(self).receiver.state) == Some(id@)
                            &&& final(self).pending is Opening
                            &&& final(self).pending->Opening_0@ == name
                        },
                    },
                }
            },
    {
        let mut pending = Pending::Idle;
        std::mem::swap(&mut self.pending, &mut pending);
        let cmd = match pending {
            Pending::Listing(c) => c,
            _ => Command::Scan,
        };
        let name = match cmd {
            Command::Scan => {
                let r = self.receiver.list_devices(listing);
                return match r {
                    Ok(devs) => Step::Done {
                        effects: Vec::new(),
                        event: Some(Event::DeviceList(devs)),
                        failure: None,
                    },
                    Err(e) => Step::Done { effects: Vec::new(), event: None, failure: Some(e) },
                };
            },
            Command::Connect(n) => n,
            Command::Reconnect(n) => n,
            Command::Disconnect => String::new(),
        };
        let devs = match self.receiver.list_devices(listing) {
            Ok(d) => d,
            Err(_) => Vec::new(),
        };
        match find_device(&devs, &name) {
            None => Step::Done {
                effects: Vec::new(),
                event: None,
                failure: Some(BtError::DeviceNotFound),
            },
            Some(i) => {
                let (teardown, opened) = self.receiver.reconnect(&devs[i]);
                match opened {
                    Ok(id) => {
                        self.pending = Pending::Opening(name);
                        Step::Open { teardown, id }
                    },
                    Err(e) => Step::Done { effects: teardown, event: None, failure: Some(e) },
                }
            },
        }
    }

    /// Finishes a connect or reconnect with the platform's answer to the open.
    /// On success the setup effects are performed and the status event carries
    /// the device's display name; otherwise the manager is disconnected, no event
    /// is published and `OpenFailed` is logged.
    pub fn on_open_result(&mut self, status: OpenStatus) -> (step: Step)
        requires
            old(self).wf(),
            old(self).pending is Opening,
        ensures
            final(self).wf(),
            final(self).pending is Idle,
            status == OpenStatus::Success ==> {
                &&& step.done(setup_effects(), None)
                &&& step.status_event(Some(old(self).pending->Opening_0@))
                &&& final(self).receiver.state is Connected
                &&& state_id(final(self).receiver.state) == state_id(old(self).receiver.state)
                &&& final(self).receiver.active_monitors() == 1
            },
            status != OpenStatus::Success ==> {
                &&& step.done(Seq::empty(), Some(BtError::OpenFailed(status)))
                &&& step.no_event()
                &&& final(self).receiver.state is Disconnected
                &&& final(self).receiver.active_monitors() == 0
            },
    {
        let mut pending = Pending::Idle;
        std::mem::swap(&mut self.pending, &mut pending);
        let name = match pending {
            Pending::Opening(n) => n,
            _ => String::new(),
        };
        match self.receiver.on_open(status) {
            Ok(effects) => Step::Done {
                effects,
                event: Some(Event::ConnectionStatus(Some(name))),
                failure: None,
            },
            Err(e) => Step::Done { effects: Vec::new(), event: None, failure: Some(e) },
        }
    }

    /// Records whether the priority boost asked for by `AcquirePriority` was
    /// granted.
    pub fn on_priority_result(&mut self, acquired: bool)
        requires
            old(self).wf(),
        ensures
            final(self).wf(),
            final(self).pending == old(self).pending,
            final(self).receiver.state == old(self).receiver.state,
            final(self).receiver.priority_held == (acquired && final(self).receiver.state is Connected),
    {
        self.receiver.on_priority(acquired);
    }
}

} // verus!
