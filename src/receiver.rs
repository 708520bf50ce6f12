use vstd::prelude::*;

verus! {

/// Outcome that the platform reports for an attempt to open a connection.
#[derive(Clone, Copy, Debug, PartialEq, Eq, Structural)]
pub enum OpenStatus {
    Success,
    RequestTimedOut,
    DeniedBySystem,
    UnknownFailure,
}

/// Failures of the connection manager and of the command worker.
#[derive(Clone, Copy, Debug, PartialEq, Eq, Structural)]
pub enum BtError {
    /// A connection was attempted for a device whose identifier was never resolved.
    IdentifierMissing,
    /// The platform rejected or failed the open, with the status it reported.
    OpenFailed(OpenStatus),
    /// The device enumeration failed.
    DirectoryUnavailable,
    /// No listed device carries the requested display name.
    DeviceNotFound,
}

/// A sink-capable device as the directory lists it.
#[derive(Clone, Debug, PartialEq, Eq)]
pub struct BTDevice {
    pub name: String,
    /// The platform identifier, `None` where it could not be resolved.
    pub id: Option<String>,
}

/// One record of the platform's device enumeration, before filtering.
#[derive(Clone, Debug, PartialEq, Eq)]
pub struct DirectoryEntry {
    /// The display name, `None` where the platform could not read it.
    pub name: Option<String>,
    pub id: Option<String>,
}

/// The state of the single connection.
#[derive(Clone, Debug, PartialEq, Eq)]
pub enum ConnState {
    Disconnected,
    /// An open of this identifier is in flight.
    Connecting(String),
    /// The connection to this identifier is open.
    Connected(String),
}

/// An action on the platform that the caller of the connection manager performs,
/// in the order given.
#[derive(Clone, Copy, Debug, PartialEq, Eq, Structural)]
pub enum Effect {
    /// Clear the cancellation flag of the running heartbeat monitor.
    CancelMonitor,
    /// Stop, then close, the silent low-latency anchor stream.
    ReleaseAnchor,
    /// Give back the scheduling-priority boost.
    ReleasePriority,
    /// Create and start the silent low-latency anchor stream.
    AcquireAnchor,
    /// Spawn a heartbeat monitor for the identifier just opened, with a fresh
    /// cancellation flag.
    StartMonitor,
    /// Ask for the scheduling-priority boost; report the outcome with `on_priority`.
    AcquirePriority,
}

/// The connection manager: owns the connection state and the resources bound to it.
#[derive(Debug, PartialEq, Eq)]
pub struct BTReceiver {
    pub state: ConnState,
    pub anchor_held: bool,
    pub priority_held: bool,
    pub monitor_active: bool,
}

pub open spec fn is_connected(s: ConnState) -> bool {
    s is Connected
}

/// The identifier a state refers to, if any.
pub open spec fn state_id(s: ConnState) -> Option<Seq<char>> {
    match s {
        ConnState::Disconnected => None,
        ConnState::Connecting(id) => Some(id@),
        ConnState::Connected(id) => Some(id@),
    }
}

/// Effects that tear down whatever resources are held: the monitor is signalled
/// first, then the anchor stream and the priority boost are released.
pub open spec fn teardown_effects(monitor: bool, anchor: bool, priority: bool) -> Seq<Effect> {
    (if monitor { seq![Effect::CancelMonitor] } else { Seq::empty() })
        + (if anchor { seq![Effect::ReleaseAnchor] } else { Seq::empty() })
        + (if priority { seq![Effect::ReleasePriority] } else { Seq::empty() })
}

/// Effects that establish the resources of a new connection.
pub open spec fn setup_effects() -> Seq<Effect> {
    seq![Effect::AcquireAnchor, Effect::StartMonitor, Effect::AcquirePriority]
}

/// The devices of an enumeration: each entry whose display name could be read,
/// in the order listed.
pub open spec fn named_devices(s: Seq<DirectoryEntry>) -> Seq<BTDevice>
    decreases s.len(),
{
    if s.len() == 0 {
        Seq::empty()
    } else {
        let rest = named_devices(s.drop_last());
        match s.last().name {
            Some(n) => rest.push(BTDevice { name: n, id: s.last().id }),
            None => rest,
        }
    }
}

fn clone_id(id: &Option<String>) -> (r: Option<String>)
    ensures
        r == *id,
{
    match id {
        Some(x) => Some(x.clone()),
        None => None,
    }
}

impl BTReceiver {
    /// The resources are held exactly as the state allows: the anchor stream and
    /// the monitor exist if and only if the connection is open, and the priority
    /// boost only while it is open.
    pub open spec fn wf(&self) -> bool {
        &&& self.anchor_held == is_connected(self.state)
        &&& self.monitor_active == is_connected(self.state)
        &&& self.priority_held ==> is_connected(self.state)
    }

    /// Number of heartbeat monitors that are running.
    pub open spec fn active_monitors(&self) -> nat {
        if self.monitor_active { 1 } else { 0 }
    }

    pub open spec fn held_teardown(&self) -> Seq<Effect> {
        teardown_effects(self.monitor_active, self.anchor_held, self.priority_held)
    }

    /// The manager with no connection and nothing held.
    pub open spec fn released() -> BTReceiver {
        BTReceiver {
            state: ConnState::Disconnected,
            anchor_held: false,
            priority_held: false,
            monitor_active: false,
        }
    }

    /// The manager that `disconnect` leaves behind.
    pub open spec fn after_disconnect(self) -> BTReceiver {
        BTReceiver::released()
    }

    /// The manager once an open of `id` is in flight: nothing is held yet.
    pub open spec fn connecting_to(id: String) -> BTReceiver {
        BTReceiver {
            state: ConnState::Connecting(id),
            anchor_held: false,
            priority_held: false,
            monitor_active: false,
        }
    }

    /// The manager after the platform answered `status` to the open in flight:
    /// connected with the anchor stream and one monitor on success, released
    /// otherwise.
    pub open spec fn after_open(self, status: OpenStatus) -> BTReceiver {
        if status == OpenStatus::Success {
            match self.state {
                ConnState::Connecting(id) => BTReceiver {
                    state: ConnState::Connected(id),
                    anchor_held: true,
                    priority_held: false,
                    monitor_active: true,
                },
                _ => self,
            }
        } else {
            BTReceiver::released()
        }
    }

    pub fn new() -> (r: Self)
        ensures
            r.wf(),
            r == BTReceiver::released(),
    {
        BTReceiver {
            state: ConnState::Disconnected,
            anchor_held: false,
            priority_held: false,
            monitor_active: false,
        }
    }

    /// Tears the connection down. Returns the effects that release what was held;
    /// on a manager that is already disconnected it returns none and changes nothing.
    pub fn disconnect(&mut self) -> (effects: Vec<Effect>)
        requires
            old(self).wf(),
        ensures
            final(self).wf(),
            *final(self) == old(self).after_disconnect(),
            final(self).active_monitors() == 0,
            effects@ == old(self).held_teardown(),
    {
        let mut effects: Vec<Effect> = Vec::new();
        if self.monitor_active {
            effects.push(Effect::CancelMonitor);
        }
        if self.anchor_held {
            effects.push(Effect::ReleaseAnchor);
        }
        if self.priority_held {
            effects.push(Effect::ReleasePriority);
        }
        self.monitor_active = false;
        self.anchor_held = false;
        self.priority_held = false;
        self.state = ConnState::Disconnected;
        proof {
            assert(effects@ =~= old(self).held_teardown());
        }
        effects
    }

    /// Starts a connection to `device`. Fails with `IdentifierMissing`, leaving the
    /// manager unchanged, when the device has no identifier; otherwise the manager
    /// is `Connecting` and the caller opens the returned identifier, then reports
    /// the platform's status with `on_open`.
    pub fn connect(&mut self, device: &BTDevice) -> (r: Result<String, BtError>)
        requires
            old(self).wf(),
            old(self).state is Disconnected,
        ensures
            final(self).wf(),
            match device.id {
                None => r == Err::<String, BtError>(BtError::IdentifierMissing)
                    && *final(self) == *old(self),
                Some(id) => r is Ok && r->Ok_0@ == id@
                    && *final(self) == BTReceiver::connecting_to(id)
                    && final(self).active_monitors() == 0,
            },
    {
        match &device.id {
            None => Err(BtError::IdentifierMissing),
            Some(id) => {
                self.state = ConnState::Connecting(id.clone());
                Ok(id.clone())
            },
        }
    }

    /// Takes the platform's answer to the open of the identifier being connected.
    /// On success the connection is open and the returned effects acquire the
    /// anchor stream, start the one heartbeat monitor and ask for the priority
    /// boost; on any other status the manager is `Disconnected` and the status
    /// comes back in `OpenFailed`.
    pub fn on_open(&mut self, status: OpenStatus) -> (r: Result<Vec<Effect>, BtError>)
        requires
            old(self).wf(),
            old(self).state is Connecting,
        ensures
            final(self).wf(),
            !final(self).priority_held,
            *final(self) == old(self).after_open(status),
            status == OpenStatus::Success ==> {
                &&& r is Ok
                &&& r->Ok_0@ == setup_effects()
                &&& final(self).state is Connected
                &&& state_id(final(self).state) == state_id(old(self).state)
                &&& final(self).active_monitors() == 1
            },
            status != OpenStatus::Success ==> {
                &&& r == Err::<Vec<Effect>, BtError>(BtError::OpenFailed(status))
                &&& final(self).state is Disconnected
                &&& final(self).active_monitors() == 0
            },
    {
        match status {
            OpenStatus::Success => {
                let id = match &self.state {
                    ConnState::Connecting(id) => id.clone(),
                    _ => String::new(),
                };
                self.state = ConnState::Connected(id);
                self.anchor_held = true;
                self.monitor_active = true;
                self.priority_held = false;
                Ok(vec![Effect::AcquireAnchor, Effect::StartMonitor, Effect::AcquirePriority])
            },
            _ => {
                self.state = ConnState::Disconnected;
                Err(BtError::OpenFailed(status))
            },
        }
    }

    /// Tears down whatever is held, then starts a connection to `device` as
    /// `connect` does. Returns the teardown effects, to be performed before the
    /// open, and the outcome of the connect.
    pub fn reconnect(&mut self, device: &BTDevice) -> (r: (Vec<Effect>, Result<String, BtError>))
        requires
            old(self).wf(),
        ensures
            final(self).wf(),
            r.0@ == old(self).held_teardown(),
            match device.id {
                None => r.1 == Err::<String, BtError>(BtError::IdentifierMissing)
                    && *final(self) == BTReceiver::released()
                    && final(self).active_monitors() == 0,
                Some(id) => r.1 is Ok && r.1->Ok_0@ == id@
                    && *final(self) == BTReceiver::connecting_to(id)
                    && final(self).active_monitors() == 0,
            },
    {
        let teardown = self.disconnect();
        let opened = self.connect(device);
        (teardown, opened)
    }

    /// Turns the platform's enumeration into the device list: `None` (the query
    /// failed) gives `DirectoryUnavailable`, otherwise every entry with a
    /// readable name, in order.
    pub fn list_devices(&self, listing: Option<Vec<DirectoryEntry>>) -> (r: Result<Vec<BTDevice>, BtError>)
        ensures
            match listing {
                None => r == Err::<Vec<BTDevice>, BtError>(BtError::DirectoryUnavailable),
                Some(entries) => r is Ok && r->Ok_0@ == named_devices(entries@),
            },
    {
        match listing {
            None => Err(BtError::DirectoryUnavailable),
            Some(entries) => {
                let mut devices: Vec<BTDevice> = Vec::new();
                let mut i: usize = 0;
                while i < entries.len()
                    invariant
                        i <= entries@.len(),
                        devices@ == named_devices(entries@.take(i as int)),
                    decreases entries@.len() - i,
                {
                    proof {
                        assert(entries@.take(i as int + 1).drop_last() =~= entries@.take(i as int));
                    }
                    let e = &entries[i];
                    match &e.name {
                        Some(n) => {
                            devices.push(BTDevice { name: n.clone(), id: clone_id(&e.id) });
                        },
                        None => {},
                    }
                    i = i + 1;
                }
                proof {
                    assert(entries@.take(entries@.len() as int) =~= entries@);
                }
                Ok(devices)
            },
        }
    }

    /// Records whether the best-effort priority boost was granted. It is kept
    /// only while the connection is open; a refusal changes nothing else.
    pub fn on_priority(&mut self, acquired: bool)
        requires
            old(self).wf(),
        ensures
            final(self).wf(),
            final(self).state == old(self).state,
            final(self).monitor_active == old(self).monitor_active,
            final(self).priority_held == (acquired && is_connected(old(self).state)),
    {
        self.priority_held = acquired && matches!(self.state, ConnState::Connected(_));
    }
}

} // verus!

verus! {

/// Disconnecting twice in a row is the same as disconnecting once: the second
/// call releases nothing and leaves the manager as the first call left it.
pub proof fn lemma_disconnect_idempotent(r: BTReceiver)
    requires
        r.wf(),
    ensures
        r.after_disconnect().wf(),
        r.after_disconnect().after_disconnect() == r.after_disconnect(),
        r.after_disconnect().held_teardown() == Seq::<Effect>::empty(),
        r.after_disconnect().active_monitors() == 0,
{
    assert(r.after_disconnect().held_teardown() =~= Seq::<Effect>::empty());
}

} // verus!

verus! {

/// Reconnecting to a device whose identifier is `id`, then taking the
/// platform's answer `status`: the effects are the teardown of what was held,
/// with the monitor cancelled before anything is released, followed on success
/// by the setup of the anchor stream, one new monitor and the priority boost.
/// The manager ends connected to `id` with exactly one monitor, or, on any
/// failure, disconnected with none.
pub proof fn lemma_reconnect_sequence(r: BTReceiver, id: String, status: OpenStatus)
    requires
        r.wf(),
    ensures
        r.monitor_active ==> r.held_teardown()[0] == Effect::CancelMonitor,
        forall|i: int| 0 <= i < r.held_teardown().len() ==> {
            let e = #[trigger] r.held_teardown()[i];
            e == Effect::CancelMonitor || e == Effect::ReleaseAnchor || e == Effect::ReleasePriority
        },
        BTReceiver::connecting_to(id).wf(),
        BTReceiver::connecting_to(id).after_open(status).wf(),
        status == OpenStatus::Success ==> {
            let after = BTReceiver::connecting_to(id).after_open(status);
            &&& after.state == ConnState::Connected(id)
            &&& after.anchor_held
            &&& after.active_monitors() == 1
        },
        status != OpenStatus::Success ==> {
            let after = BTReceiver::connecting_to(id).after_open(status);
            &&& after == BTReceiver::released()
            &&& after.active_monitors() == 0
        },
{
    let t = r.held_teardown();
    assert forall|i: int| 0 <= i < t.len() implies {
        let e = #[trigger] t[i];
        e == Effect::CancelMonitor || e == Effect::ReleaseAnchor || e == Effect::ReleasePriority
    } by {
        let a = if r.monitor_active { seq![Effect::CancelMonitor] } else { Seq::<Effect>::empty() };
        let b = if r.anchor_held { seq![Effect::ReleaseAnchor] } else { Seq::<Effect>::empty() };
        let c = if r.priority_held { seq![Effect::ReleasePriority] } else { Seq::<Effect>::empty() };
        assert(t == a + b + c);
        if i < a.len() {
            assert(t[i] == a[i]);
        } else if i < a.len() + b.len() {
            assert(t[i] == (a + b)[i]);
            assert(t[i] == b[i - a.len()]);
        } else {
            assert(t[i] == c[i - a.len() - b.len()]);
        }
    }
}

} // verus!
