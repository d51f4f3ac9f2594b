//! The rows of the tables that the commands show, each made from what the
//! server reports: a status loses its colour codes, a count becomes its
//! decimal digits.
use vstd::prelude::*;
use vstd::string::StringExecFns;
use crate::formatting::{strip_ansi_codes, stripped};
use crate::text::{
    chars_of, decimal, decimal_of, remove_all, string_of, trim, trimmed, without,
};

verus! {

/// One runner group in the runner listing.
pub struct RunnerRow {
    pub name: String,
    pub status: String,
    pub uptime: String,
    pub instances: String,
}

/// One instance of a runner group.
pub struct RunnerInstanceRow {
    pub id: String,
    pub status: String,
    pub uptime: String,
    pub cpu: String,
    pub ram: String,
    pub rx: String,
    pub tx: String,
    pub log_len: String,
}

/// One node in the node listing.
pub struct NodeRow {
    pub id: String,
    pub status: String,
    pub ip: String,
    pub runner_count: String,
    pub updated: String,
}

/// The billed usage of an instance or of a runner group.
pub struct UsageRow {
    pub runner_id: String,
    pub instance_id: String,
    pub total_cpu: String,
    pub peak_cpu: String,
    pub avg_ram: String,
    pub peak_ram: String,
    pub rx: String,
    pub tx: String,
    pub samples: String,
}

/// One line of a bill.
pub struct BillingEntry {
    pub label: String,
    pub value: String,
}

/// A field and its value.
pub struct GenericRow {
    pub key: String,
    pub value: String,
}

/// The details of one node.
pub struct NodeSummaryRow {
    pub node_id: String,
    pub status: String,
    pub client_apps: u32,
    pub system_apps: u32,
    pub hostname: String,
    pub ip_address: String,
    pub warnings: u32,
    pub last_updated: String,
}

/// The health that a runner reports of an instance.
pub struct Health {
    pub uptime: u64,
    pub cpu_usage: String,
    pub ram_usage: String,
    pub tx_bytes: u64,
    pub rx_bytes: u64,
}

/// A cell of the runner listing: `text` without whitespace at its ends and
/// without colour codes.
pub open spec fn cell(text: Seq<char>) -> Seq<char> {
    stripped(trimmed(text))
}

/// The name of a runner group as the listing shows it: without the prefix
/// `ais_` wherever it occurs.
pub open spec fn shown_name(name: Seq<char>) -> Seq<char> {
    cell(without(name, "ais_"@))
}

/// The amount for the hosting itself: five for each instance.
pub open spec fn hosting_amount(instances: u64) -> Seq<char> {
    "$"@ + decimal((instances * 5) as nat)
}

/// The cell for `text`: without whitespace at its ends and without colour
/// codes.
fn shown(text: &Vec<char>) -> (out: String)
    ensures
        out@ == cell(text@),
{
    strip_ansi_codes(string_of(&trim(text)).as_str())
}

impl Health {
    /// The health shown for an instance that reports none: no uptime, no
    /// traffic, and a dash for processor and memory.
    pub fn unknown() -> (health: Health)
        ensures
            health.uptime == 0,
            health.cpu_usage@ == "-"@,
            health.ram_usage@ == "-"@,
            health.tx_bytes == 0,
            health.rx_bytes == 0,
    {
        Health {
            uptime: 0,
            cpu_usage: String::from_str("-"),
            ram_usage: String::from_str("-"),
            tx_bytes: 0,
            rx_bytes: 0,
        }
    }
}

impl RunnerRow {
    /// The row of a runner group: its name without `ais_`, its status, its
    /// uptime in seconds (0 where none is reported) and the number of its
    /// instances, each without whitespace at its ends and without colour
    /// codes.
    pub fn new(name: &str, status: &str, uptime: Option<u64>, instances: usize) -> (row:
        RunnerRow)
        ensures
            row.name@ == shown_name(name@),
            row.status@ == cell(status@),
            row.uptime@ == cell(
                decimal(
                    match uptime {
                        Some(seconds) => seconds as nat,
                        None => 0,
                    },
                ),
            ),
            row.instances@ == cell(decimal(instances as nat)),
    {
        let seconds = match uptime {
            Some(seconds) => seconds,
            None => 0,
        };
        let bare = remove_all(&chars_of(name), &chars_of("ais_"));
        RunnerRow {
            name: shown(&bare),
            status: shown(&chars_of(status)),
            uptime: shown(&decimal_of(seconds)),
            instances: shown(&decimal_of(instances as u64)),
        }
    }
}

impl RunnerInstanceRow {
    /// The row of an instance. The status loses its colour codes; `rx` and
    /// `tx` are the traffic as it is to be shown.
    pub fn new(id: &str, status: &str, health: &Health, rx: String, tx: String, logs: usize) -> (row:
        RunnerInstanceRow)
        ensures
            row.id@ == id@,
            row.status@ == stripped(status@),
            row.uptime@ == decimal(health.uptime as nat),
            row.cpu@ == health.cpu_usage@,
            row.ram@ == health.ram_usage@,
            row.rx@ == rx@,
            row.tx@ == tx@,
            row.log_len@ == decimal(logs as nat),
    {
        RunnerInstanceRow {
            id: String::from_str(id),
            status: strip_ansi_codes(status),
            uptime: string_of(&decimal_of(health.uptime)),
            cpu: String::from_str(health.cpu_usage.as_str()),
            ram: String::from_str(health.ram_usage.as_str()),
            rx,
            tx,
            log_len: string_of(&decimal_of(logs as u64)),
        }
    }
}

impl NodeRow {
    /// The row of a node. The status loses its colour codes; `runners` is
    /// the number of runners on the node.
    pub fn new(id: &str, status: &str, ip: &str, runners: usize, updated: &str) -> (row: NodeRow)
        ensures
            row.id@ == id@,
            row.status@ == stripped(status@),
            row.ip@ == ip@,
            row.runner_count@ == decimal(runners as nat),
            row.updated@ == updated@,
    {
        NodeRow {
            id: String::from_str(id),
            status: strip_ansi_codes(status),
            ip: String::from_str(ip),
            runner_count: string_of(&decimal_of(runners as u64)),
            updated: String::from_str(updated),
        }
    }
}

impl NodeSummaryRow {
    /// The summary of a node. The status loses its colour codes.
    pub fn new(
        node_id: &str,
        status: &str,
        client_apps: u32,
        system_apps: u32,
        hostname: &str,
        ip_address: &str,
        warnings: u32,
        last_updated: &str,
    ) -> (row: NodeSummaryRow)
        ensures
            row.node_id@ == node_id@,
            row.status@ == stripped(status@),
            row.client_apps == client_apps,
            row.system_apps == system_apps,
            row.hostname@ == hostname@,
            row.ip_address@ == ip_address@,
            row.warnings == warnings,
            row.last_updated@ == last_updated@,
    {
        NodeSummaryRow {
            node_id: String::from_str(node_id),
            status: strip_ansi_codes(status),
            client_apps,
            system_apps,
            hostname: String::from_str(hostname),
            ip_address: String::from_str(ip_address),
            warnings,
            last_updated: String::from_str(last_updated),
        }
    }
}

/// The amount for the hosting itself, five for each of the `instances`, as
/// the bill shows it.
pub fn base_hosting(instances: u64) -> (amount: String)
    requires
        instances * 5 <= u64::MAX,
    ensures
        amount@ == hosting_amount(instances),
{
    let mut amount = String::from_str("$");
    let digits = string_of(&decimal_of(instances * 5));
    amount.append(digits.as_str());
    amount
}

/// The four lines of a bill, in the order in which they are shown: memory,
/// processor, bandwidth, and the hosting itself.
pub fn billing_rows(ram: String, cpu: String, bandwidth: String, base: String) -> (rows: Vec<
    BillingEntry,
>)
    ensures
        rows@.len() == 4,
        rows@[0].label@ == "RAM Usage"@,
        rows@[0].value@ == ram@,
        rows@[1].label@ == "CPU Usage"@,
        rows@[1].value@ == cpu@,
        rows@[2].label@ == "Bandwidth"@,
        rows@[2].value@ == bandwidth@,
        rows@[3].label@ == "Base Hosting"@,
        rows@[3].value@ == base@,
{
    let mut rows: Vec<BillingEntry> = Vec::new();
    rows.push(BillingEntry { label: String::from_str("RAM Usage"), value: ram });
    rows.push(BillingEntry { label: String::from_str("CPU Usage"), value: cpu });
    rows.push(BillingEntry { label: String::from_str("Bandwidth"), value: bandwidth });
    rows.push(BillingEntry { label: String::from_str("Base Hosting"), value: base });
    rows
}

} // verus!
