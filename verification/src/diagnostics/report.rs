//! The host table as lines of text.

use vstd::prelude::*;
use vstd::string::*;

use crate::diagnostics::hosts::{
    DiagnosticHostBus, DiagnosticHostSlot, DiagnosticHostSlotStatus, DiagnosticHosts,
};
use crate::seqs::views;
use crate::text::{decimal, push_decimal};

verus! {

/// Which device's host table is shown.
#[derive(Debug, PartialEq, Eq)]
pub struct HostsArgs {
    /// Device name (or a unique substring) to inspect.
    pub device: Option<String>,
}

/// A pairing state, to be shown.
#[derive(Debug, Clone, Copy, PartialEq, Eq, Structural)]
pub struct StatusDisplay(pub DiagnosticHostSlotStatus);

/// The word for a pairing state.
pub open spec fn status_word(status: DiagnosticHostSlotStatus) -> Seq<char> {
    match status {
        DiagnosticHostSlotStatus::Empty => "empty"@,
        DiagnosticHostSlotStatus::Paired => "paired"@,
    }
}

impl StatusDisplay {
    /// The word for the pairing state.
    pub fn text(&self) -> (word: &'static str)
        ensures
            word@ == status_word(self.0),
    {
        match self.0 {
            DiagnosticHostSlotStatus::Empty => "empty",
            DiagnosticHostSlotStatus::Paired => "paired",
        }
    }
}

/// A transport, to be shown.
#[derive(Debug, Clone, Copy, PartialEq, Eq, Structural)]
pub struct BusDisplay(pub DiagnosticHostBus);

/// The user's name for a transport.
pub open spec fn bus_name(bus: DiagnosticHostBus) -> Seq<char> {
    match bus {
        DiagnosticHostBus::Undefined => "unknown transport"@,
        DiagnosticHostBus::Equad => "eQuad"@,
        DiagnosticHostBus::Usb => "USB"@,
        DiagnosticHostBus::Bluetooth => "Bluetooth"@,
        DiagnosticHostBus::BluetoothLowEnergy => "Bluetooth LE"@,
        DiagnosticHostBus::Bolt => "Logi Bolt"@,
    }
}

impl BusDisplay {
    /// The user's name for the transport.
    pub fn text(&self) -> (name: &'static str)
        ensures
            name@ == bus_name(self.0),
    {
        match self.0 {
            DiagnosticHostBus::Undefined => "unknown transport",
            DiagnosticHostBus::Equad => "eQuad",
            DiagnosticHostBus::Usb => "USB",
            DiagnosticHostBus::Bluetooth => "Bluetooth",
            DiagnosticHostBus::BluetoothLowEnergy => "Bluetooth LE",
            DiagnosticHostBus::Bolt => "Logi Bolt",
        }
    }
}

/// Every slot of the table has a number that users can be shown, counted from
/// one.
pub open spec fn countable(current_host: Option<u8>, slots: Seq<DiagnosticHostSlot>) -> bool {
    &&& current_host matches Some(slot) ==> slot < 255
    &&& forall|i: int| 0 <= i < slots.len() ==> (#[trigger] slots[i]).index < 255
}

/// The line for the active host.
pub open spec fn current_line(current_host: Option<u8>) -> Seq<char> {
    match current_host {
        Some(slot) => "current host: "@ + decimal((slot + 1) as nat),
        None => "current host: unknown"@,
    }
}

/// The line for one slot.
pub open spec fn slot_line(current_host: Option<u8>, slot: DiagnosticHostSlot) -> Seq<char> {
    "  host "@ + decimal((slot.index + 1) as nat) + ": "@ + status_word(slot.status) + ", "@
        + bus_name(slot.bus) + if current_host == Some(slot.index) {
        " [current]"@
    } else {
        ""@
    }
}

/// The lines that show a host table.
pub open spec fn hosts_lines(
    name: Seq<char>,
    route: Seq<char>,
    current_host: Option<u8>,
    slots: Seq<DiagnosticHostSlot>,
) -> Seq<Seq<char>> {
    seq!["device: "@ + name + " ("@ + route + ")"@, current_line(current_host)] + Seq::new(
        slots.len(),
        |i: int| slot_line(current_host, slots[i]),
    )
}

fn current_text(current_host: Option<u8>) -> (line: String)
    requires
        current_host matches Some(slot) ==> slot < 255,
    ensures
        line@ == current_line(current_host),
{
    match current_host {
        Some(slot) => {
            let mut line = "current host: ".to_owned();
            push_decimal(&mut line, slot as u64 + 1);
            line
        },
        None => "current host: unknown".to_owned(),
    }
}

fn slot_text(current_host: Option<u8>, slot: DiagnosticHostSlot) -> (line: String)
    requires
        slot.index < 255,
    ensures
        line@ == slot_line(current_host, slot),
{
    let current = match current_host {
        Some(current) => current == slot.index,
        None => false,
    };
    let mut line = "  host ".to_owned();
    push_decimal(&mut line, slot.index as u64 + 1);
    line.append(": ");
    line.append(StatusDisplay(slot.status).text());
    line.append(", ");
    line.append(BusDisplay(slot.bus).text());
    if current {
        line.append(" [current]");
    } else {
        line.append("");
    }
    line
}

/// Shows a host table, one line per entry, with slots counted from one.
pub fn hosts_report(name: &str, route: &str, hosts: &DiagnosticHosts) -> (lines: Vec<String>)
    requires
        countable(hosts.current_host, hosts.slots@),
    ensures
        views(lines@) == hosts_lines(name@, route@, hosts.current_host, hosts.slots@),
{
    let ghost all = hosts_lines(name@, route@, hosts.current_host, hosts.slots@);
    let mut lines: Vec<String> = Vec::new();
    let mut first = "device: ".to_owned();
    first.append(name);
    first.append(" (");
    first.append(route);
    first.append(")");
    lines.push(first);
    lines.push(current_text(hosts.current_host));
    assert(views(lines@) =~= all.take(2));
    let mut i: usize = 0;
    while i < hosts.slots.len()
        invariant
            i <= hosts.slots@.len(),
            countable(hosts.current_host, hosts.slots@),
            all == hosts_lines(name@, route@, hosts.current_host, hosts.slots@),
            views(lines@) == all.take(i + 2),
        decreases hosts.slots@.len() - i,
    {
        let ghost before = views(lines@);
        lines.push(slot_text(hosts.current_host, hosts.slots[i]));
        assert(views(lines@) =~= before.push(all[i + 2]));
        assert(views(lines@) =~= all.take(i + 3));
        i = i + 1;
    }
    assert(all.take(i + 2) =~= all);
    lines
}

} // verus!
