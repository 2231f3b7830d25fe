use vstd::prelude::*;

use crate::procinfo::Process;
use crate::timefmt::Timestamp;

verus! {

broadcast use vstd::string::group_string_axioms;

/// The transport of an open socket, with the TCP state for TCP.
pub enum SocketProtocol {
    Udp,
    Tcp { state: String },
}

/// One open socket as the socket table lists it.
pub struct SocketRow {
    pub protocol: SocketProtocol,
    pub local_addr: String,
    pub local_port: u16,
    pub remote_addr: String,
    pub remote_port: u16,
    pub associated_pids: Vec<u32>,
}

/// A network connection of the host, with the processes that own it.
pub struct Netconn {
    pub hostname: String,
    pub conntype: String,
    pub local_address: String,
    pub local_port: u16,
    pub remote_address: String,
    pub remote_port: u16,
    pub state: String,
    pub associated_pids: Vec<u32>,
    pub associated_processes: Vec<Process>,
}

/// A service as its registry key describes it.
pub struct ServiceReg {
    pub sk_name: String,
    pub display_name: String,
    pub error_control: u32,
    pub image_path: String,
    pub owners: String,
    pub start: u32,
    pub service_type: u32,
    pub key_last_modified: Timestamp,
}

/// A `Win32_Service` row.
pub struct Service {
    pub accept_pause: bool,
    pub accept_stop: bool,
    pub caption: Option<String>,
    pub check_point: u32,
    pub creation_class_name: Option<String>,
    pub delayed_auto_start: bool,
    pub description: Option<String>,
    pub desktop_interact: bool,
    pub display_name: Option<String>,
    pub error_control: Option<String>,
    pub exit_code: u32,
    pub install_date: Option<String>,
    pub name: Option<String>,
    pub path_name: Option<String>,
    pub process_id: u32,
    pub service_specific_exit_code: u32,
    pub service_type: Option<String>,
    pub started: bool,
    pub start_mode: Option<String>,
    pub start_name: Option<String>,
    pub state: Option<String>,
    pub status: Option<String>,
    pub system_creation_class_name: Option<String>,
    pub system_name: Option<String>,
    pub tag_id: u32,
    pub wait_hint: u32,
}

/// The connection type of a socket: `UDP` or `TCP`.
pub open spec fn conntype_of(p: SocketProtocol) -> Seq<char> {
    match p {
        SocketProtocol::Udp => "UDP"@,
        SocketProtocol::Tcp { .. } => "TCP"@,
    }
}

/// The state of a socket: the TCP state, `*NA` for UDP.
pub open spec fn state_of(p: SocketProtocol) -> Seq<char> {
    match p {
        SocketProtocol::Udp => "*NA"@,
        SocketProtocol::Tcp { state } => state@,
    }
}

/// A socket of the host as a `Netconn` on `hostname`, with the processes
/// found for its owners.
pub fn socket_to_netconn(si: SocketRow, hostname: String, associated_processes: Vec<Process>) -> (nc:
    Netconn)
    ensures
        nc.hostname == hostname,
        nc.conntype@ == conntype_of(si.protocol),
        nc.local_address == si.local_addr,
        nc.local_port == si.local_port,
        nc.remote_address == si.remote_addr,
        nc.remote_port == si.remote_port,
        nc.state@ == state_of(si.protocol),
        nc.associated_pids == si.associated_pids,
        nc.associated_processes == associated_processes,
{
    let (conntype, state) = match si.protocol {
        SocketProtocol::Udp => ("UDP".to_string(), "*NA".to_string()),
        SocketProtocol::Tcp { state } => ("TCP".to_string(), state),
    };
    Netconn {
        hostname: hostname,
        conntype: conntype,
        local_address: si.local_addr,
        local_port: si.local_port,
        remote_address: si.remote_addr,
        remote_port: si.remote_port,
        state: state,
        associated_pids: si.associated_pids,
        associated_processes: associated_processes,
    }
}

/// The text of an optional registry string, or the empty string.
pub open spec fn reg_text(o: Option<String>) -> Seq<char> {
    match o {
        Some(s) => s@,
        None => Seq::empty(),
    }
}

/// A service registry key as a `ServiceReg`: values that could not be read
/// become the empty string or 0.
pub fn service_reg_from_values(
    sk_name: String,
    display_name: Option<String>,
    error_control: Option<u32>,
    image_path: Option<String>,
    owners: Option<String>,
    start: Option<u32>,
    service_type: Option<u32>,
    key_last_modified: Timestamp,
) -> (s: ServiceReg)
    ensures
        s.sk_name == sk_name,
        s.display_name@ == reg_text(display_name),
        s.error_control == crate::procinfo::opt_num(error_control),
        s.image_path@ == reg_text(image_path),
        s.owners@ == reg_text(owners),
        s.start == crate::procinfo::opt_num(start),
        s.service_type == crate::procinfo::opt_num(service_type),
        s.key_last_modified == key_last_modified,
{
    ServiceReg {
        sk_name: sk_name,
        display_name: match display_name {
            Some(v) => v,
            None => String::new(),
        },
        error_control: match error_control {
            Some(v) => v,
            None => 0,
        },
        image_path: match image_path {
            Some(v) => v,
            None => String::new(),
        },
        owners: match owners {
            Some(v) => v,
            None => String::new(),
        },
        start: match start {
            Some(v) => v,
            None => 0,
        },
        service_type: match service_type {
            Some(v) => v,
            None => 0,
        },
        key_last_modified: key_last_modified,
    }
}

/// The host's connections: each socket with the processes found for its
/// owners, in order, as `socket_to_netconn` makes them.
pub fn get_netconn_list(sockets: Vec<(SocketRow, Vec<Process>)>, hostname: String) -> (list: Vec<
    Netconn,
>)
    ensures
        list@.len() == sockets@.len(),
        forall|i: int|
            0 <= i < list@.len() ==> {
                let nc = #[trigger] list@[i];
                let (si, procs) = sockets@[i];
                &&& nc.hostname == hostname
                &&& nc.conntype@ == conntype_of(si.protocol)
                &&& nc.local_address == si.local_addr
                &&& nc.local_port == si.local_port
                &&& nc.remote_address == si.remote_addr
                &&& nc.remote_port == si.remote_port
                &&& nc.state@ == state_of(si.protocol)
                &&& nc.associated_pids == si.associated_pids
                &&& nc.associated_processes == procs
            },
{
    let ghost rows = sockets@;
    let mut list: Vec<Netconn> = Vec::new();
    let mut rest = sockets;
    while rest.len() > 0
        invariant
            list@.len() + rest@.len() == rows.len(),
            rest@ == rows.subrange(list@.len() as int, rows.len() as int),
            forall|i: int|
                0 <= i < list@.len() ==> {
                    let nc = #[trigger] list@[i];
                    let (si, procs) = rows[i];
                    &&& nc.hostname == hostname
                    &&& nc.conntype@ == conntype_of(si.protocol)
                    &&& nc.local_address == si.local_addr
                    &&& nc.local_port == si.local_port
                    &&& nc.remote_address == si.remote_addr
                    &&& nc.remote_port == si.remote_port
                    &&& nc.state@ == state_of(si.protocol)
                    &&& nc.associated_pids == si.associated_pids
                    &&& nc.associated_processes == procs
                },
        decreases rest@.len(),
    {
        let (si, procs) = rest.remove(0);
        list.push(socket_to_netconn(si, hostname.clone(), procs));
    }
    list
}

} // verus!
