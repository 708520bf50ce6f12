use vstd::prelude::*;
use crate::receiver::BTDevice;
use crate::worker::Command;

verus! {

/// One entry of the tray menu, top to bottom.
#[derive(Clone, Debug, PartialEq, Eq)]
pub enum MenuEntry {
    /// The connected device's name, not clickable.
    Status(String),
    /// Reconnect the connected device.
    Reconnect(String),
    Separator,
    Disconnect,
    /// Placeholder shown when no device is listed, not clickable.
    NoDevices,
    /// Connect this listed device.
    Device(String),
    Refresh,
    CheckUpdate,
    /// The autostart toggle, with its current state.
    Autostart(bool),
    Quit,
}

/// What a click on a menu entry asks for.
#[derive(Clone, Debug, PartialEq, Eq)]
pub enum MenuAction {
    /// Submit this command to the worker.
    Submit(Command),
    CheckUpdate,
    ToggleAutostart,
    Quit,
    /// The entry does nothing when clicked.
    Ignore,
}

/// Entries for the listed devices, leaving out the connected one.
pub open spec fn device_entries(devs: Seq<BTDevice>, connected: Option<String>) -> Seq<MenuEntry>
    decreases devs.len(),
{
    if devs.len() == 0 {
        Seq::empty()
    } else {
        let rest = device_entries(devs.drop_last(), connected);
        if connected is Some && connected->Some_0@ == devs.last().name@ {
            rest
        } else {
            rest.push(MenuEntry::Device(devs.last().name))
        }
    }
}

/// The entries about the current connection, if there is one.
pub open spec fn status_entries(connected: Option<String>) -> Seq<MenuEntry> {
    match connected {
        Some(c) => seq![
            MenuEntry::Status(c),
            MenuEntry::Reconnect(c),
            MenuEntry::Separator,
            MenuEntry::Disconnect,
            MenuEntry::Separator,
        ],
        None => Seq::empty(),
    }
}

/// The fixed entries at the bottom of the menu.
pub open spec fn footer_entries(autostart: bool) -> Seq<MenuEntry> {
    seq![
        MenuEntry::Separator,
        MenuEntry::Refresh,
        MenuEntry::CheckUpdate,
        MenuEntry::Autostart(autostart),
        MenuEntry::Separator,
        MenuEntry::Quit,
    ]
}

/// The whole menu: the connection entries, then the devices (or the
/// placeholder when none is listed), then the fixed entries.
pub open spec fn menu_of(devs: Seq<BTDevice>, connected: Option<String>, autostart: bool) -> Seq<MenuEntry> {
    status_entries(connected)
        + (if devs.len() == 0 { seq![MenuEntry::NoDevices] } else { device_entries(devs, connected) })
        + footer_entries(autostart)
}

fn clone_name(s: &String) -> (r: String)
    ensures
        r == *s,
{
    s.clone()
}

/// Builds the tray menu for the listed devices and the current connection.
pub fn build_menu(devices: &Vec<BTDevice>, connected: &Option<String>, autostart: bool) -> (r: Vec<MenuEntry>)
    ensures
        r@ == menu_of(devices@, *connected, autostart),
{
    let mut menu: Vec<MenuEntry> = Vec::new();
    match connected {
        Some(c) => {
            menu.push(MenuEntry::Status(clone_name(c)));
            menu.push(MenuEntry::Reconnect(clone_name(c)));
            menu.push(MenuEntry::Separator);
            menu.push(MenuEntry::Disconnect);
            menu.push(MenuEntry::Separator);
        },
        None => {},
    }
    proof {
        assert(menu@ =~= status_entries(*connected));
    }
    let ghost head = menu@;
    if devices.len() == 0 {
        menu.push(MenuEntry::NoDevices);
    } else {
        let mut i: usize = 0;
        while i < devices.len()
            invariant
                i <= devices@.len(),
                head == status_entries(*connected),
                menu@ == head + device_entries(devices@.take(i as int), *connected),
            decreases devices@.len() - i,
        {
            proof {
                assert(devices@.take(i as int + 1).drop_last() =~= devices@.take(i as int));
            }
            let name = &devices[i].name;
            let skip = match connected {
                Some(c) => *c == *name,
                None => false,
            };
            if !skip {
                menu.push(MenuEntry::Device(clone_name(name)));
            }
            proof {
                assert(menu@ =~= head + device_entries(devices@.take(i as int + 1), *connected));
            }
            i = i + 1;
        }
        proof {
            assert(devices@.take(devices@.len() as int) =~= devices@);
        }
    }
    menu.push(MenuEntry::Separator);
    menu.push(MenuEntry::Refresh);
    menu.push(MenuEntry::CheckUpdate);
    menu.push(MenuEntry::Autostart(autostart));
    menu.push(MenuEntry::Separator);
    menu.push(MenuEntry::Quit);
    proof {
        assert(menu@ =~= menu_of(devices@, *connected, autostart));
    }
    menu
}

/// What clicking `entry` asks for: a device connects by its name, the
/// reconnect entry reconnects by its name, the informational entries and the
/// separators do nothing.
pub fn action_for(entry: &MenuEntry) -> (a: MenuAction)
    ensures
        match *entry {
            MenuEntry::Device(n) => a is Submit && a->Submit_0 is Connect && a->Submit_0->Connect_0 == n,
            MenuEntry::Reconnect(n) => a is Submit && a->Submit_0 is Reconnect && a->Submit_0->Reconnect_0 == n,
            MenuEntry::Disconnect => a is Submit && a->Submit_0 is Disconnect,
            MenuEntry::Refresh => a is Submit && a->Submit_0 is Scan,
            MenuEntry::CheckUpdate => a is CheckUpdate,
            MenuEntry::Autostart(_) => a is ToggleAutostart,
            MenuEntry::Quit => a is Quit,
            _ => a is Ignore,
        },
{
    match entry {
        MenuEntry::Device(n) => MenuAction::Submit(Command::Connect(clone_name(n))),
        MenuEntry::Reconnect(n) => MenuAction::Submit(Command::Reconnect(clone_name(n))),
        MenuEntry::Disconnect => MenuAction::Submit(Command::Disconnect),
        MenuEntry::Refresh => MenuAction::Submit(Command::Scan),
        MenuEntry::CheckUpdate => MenuAction::CheckUpdate,
        MenuEntry::Autostart(_) => MenuAction::ToggleAutostart,
        MenuEntry::Quit => MenuAction::Quit,
        _ => MenuAction::Ignore,
    }
}

} // verus!
