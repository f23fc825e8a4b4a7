//! Device discovery and the transport capability: the known USB
//! vendor/product table, the connection mode it implies, and the forward-only
//! connection state.

use vstd::prelude::*;
use crate::error::Error;

verus! {

/// Mode a discovered device talks in.
#[derive(Debug, Copy, Clone, Eq, PartialEq, Structural)]
pub enum ConnectionType {
    Brom,
    Preloader,
    Da,
}

/// Order of the connection modes: a session only moves forward.
pub open spec fn conn_rank(c: ConnectionType) -> int {
    match c {
        ConnectionType::Brom => 0,
        ConnectionType::Preloader => 1,
        ConnectionType::Da => 2,
    }
}

/// The connection mode a USB vendor/product pair implies, if it is one of
/// the known download-mode ports.
pub open spec fn spec_port_type(vid: u16, pid: u16) -> Option<ConnectionType> {
    if vid == 0x0E8D && pid == 0x0003 {
        Some(ConnectionType::Brom)
    } else if vid == 0x0E8D && pid == 0x6000 {
        Some(ConnectionType::Preloader)
    } else if vid == 0x0E8D && pid == 0x2000 {
        Some(ConnectionType::Preloader)
    } else if vid == 0x0E8D && pid == 0x2001 {
        Some(ConnectionType::Da)
    } else if vid == 0x0E8D && pid == 0x20FF {
        Some(ConnectionType::Preloader)
    } else if vid == 0x0E8D && pid == 0x3000 {
        Some(ConnectionType::Preloader)
    } else if vid == 0x1004 && pid == 0x6000 {
        Some(ConnectionType::Preloader)
    } else if vid == 0x22D9 && pid == 0x0006 {
        Some(ConnectionType::Preloader)
    } else if vid == 0x0FCE && pid == 0xF200 {
        Some(ConnectionType::Brom)
    } else if vid == 0x0FCE && pid == 0xD1E9 {
        Some(ConnectionType::Brom)
    } else if vid == 0x0FCE && pid == 0xD1E2 {
        Some(ConnectionType::Brom)
    } else if vid == 0x0FCE && pid == 0xD1EC {
        Some(ConnectionType::Brom)
    } else if vid == 0x0FCE && pid == 0xD1DD {
        Some(ConnectionType::Brom)
    } else {
        None
    }
}

/// Classifies a USB vendor/product pair against the known port table.
pub fn port_connection_type(vid: u16, pid: u16) -> (r: Option<ConnectionType>)
    ensures
        r == spec_port_type(vid, pid),
{
    if vid == 0x0E8D && pid == 0x0003 {
        Some(ConnectionType::Brom)
    } else if vid == 0x0E8D && pid == 0x6000 {
        Some(ConnectionType::Preloader)
    } else if vid == 0x0E8D && pid == 0x2000 {
        Some(ConnectionType::Preloader)
    } else if vid == 0x0E8D && pid == 0x2001 {
        Some(ConnectionType::Da)
    } else if vid == 0x0E8D && pid == 0x20FF {
        Some(ConnectionType::Preloader)
    } else if vid == 0x0E8D && pid == 0x3000 {
        Some(ConnectionType::Preloader)
    } else if vid == 0x1004 && pid == 0x6000 {
        Some(ConnectionType::Preloader)
    } else if vid == 0x22D9 && pid == 0x0006 {
        Some(ConnectionType::Preloader)
    } else if vid == 0x0FCE && pid == 0xF200 {
        Some(ConnectionType::Brom)
    } else if vid == 0x0FCE && pid == 0xD1E9 {
        Some(ConnectionType::Brom)
    } else if vid == 0x0FCE && pid == 0xD1E2 {
        Some(ConnectionType::Brom)
    } else if vid == 0x0FCE && pid == 0xD1EC {
        Some(ConnectionType::Brom)
    } else if vid == 0x0FCE && pid == 0xD1DD {
        Some(ConnectionType::Brom)
    } else {
        None
    }
}

/// The known download-mode USB ports: vendor id, product id, and the mode
/// each implies.
pub fn known_ports() -> (r: Vec<(u16, u16, ConnectionType)>)
    ensures
        r@.len() == 13,
        forall|i: int|
            0 <= i < r@.len() ==> spec_port_type(#[trigger] r@[i].0, r@[i].1) == Some(r@[i].2),
{
    let mut out: Vec<(u16, u16, ConnectionType)> = Vec::new();
    out.push((0x0E8D, 0x0003, ConnectionType::Brom));
    out.push((0x0E8D, 0x6000, ConnectionType::Preloader));
    out.push((0x0E8D, 0x2000, ConnectionType::Preloader));
    out.push((0x0E8D, 0x2001, ConnectionType::Da));
    out.push((0x0E8D, 0x20FF, ConnectionType::Preloader));
    out.push((0x0E8D, 0x3000, ConnectionType::Preloader));
    out.push((0x1004, 0x6000, ConnectionType::Preloader));
    out.push((0x22D9, 0x0006, ConnectionType::Preloader));
    out.push((0x0FCE, 0xF200, ConnectionType::Brom));
    out.push((0x0FCE, 0xD1E9, ConnectionType::Brom));
    out.push((0x0FCE, 0xD1E2, ConnectionType::Brom));
    out.push((0x0FCE, 0xD1EC, ConnectionType::Brom));
    out.push((0x0FCE, 0xD1DD, ConnectionType::Brom));
    out
}

/// Scans a list of discovered USB devices for the first known download-mode
/// port.
pub fn find_mtk_port(devices: &Vec<(u16, u16)>) -> (r: Option<(usize, ConnectionType)>)
    ensures
        r matches Some(p) ==> {
            &&& p.0 < devices@.len()
            &&& spec_port_type(devices@[p.0 as int].0, devices@[p.0 as int].1) == Some(p.1)
            &&& forall|j: int|
                0 <= j < p.0 ==> spec_port_type(
                    #[trigger] devices@[j].0,
                    devices@[j].1,
                ) is None
        },
        r is None ==> forall|j: int|
            0 <= j < devices@.len() ==> spec_port_type(
                #[trigger] devices@[j].0,
                devices@[j].1,
            ) is None,
{
    let mut i: usize = 0;
    while i < devices.len()
        invariant
            i <= devices@.len(),
            forall|j: int|
                0 <= j < i ==> spec_port_type(#[trigger] devices@[j].0, devices@[j].1) is None,
        decreases devices@.len() - i,
    {
        let (vid, pid) = devices[i];
        if let Some(ct) = port_connection_type(vid, pid) {
            return Some((i, ct));
        }
        i += 1;
    }
    None
}

/// The transport capability a backend provides: a byte stream to the device
/// in one of its download modes. Backends live outside the engine; the
/// engine only relies on these operations existing.
pub trait MTKPort {
    fn open(&mut self) -> Result<(), Error>;

    fn close(&mut self) -> Result<(), Error>;

    fn read_exact(&mut self, buf: &mut Vec<u8>) -> Result<usize, Error>;

    fn write_all(&mut self, buf: &[u8]) -> Result<(), Error>;

    fn flush(&mut self) -> Result<(), Error>;

    fn handshake(&mut self) -> Result<(), Error>;

    fn get_connection_type(&self) -> ConnectionType;

    fn get_baudrate(&self) -> u32;

    fn get_port_name(&self) -> String;
}

/// An active connection: the transport, the mode the device is in, and the
/// negotiated write packet size.
pub struct Connection {
    pub port: Box<dyn MTKPort>,
    pub connection_type: ConnectionType,
    pub write_packet_size: usize,
}

impl Connection {
    /// Moves the connection mode forward. A backward move without a reboot
    /// is refused: the mode order is `Brom`, `Preloader`, `Da`.
    pub fn set_connection_type(&mut self, conn_type: ConnectionType) -> (r: Result<(), Error>)
        ensures
            r is Ok <==> conn_rank(conn_type) >= conn_rank(old(self).connection_type),
            r is Ok ==> final(self).connection_type == conn_type,
            r is Err ==> final(self).connection_type == old(self).connection_type,
            final(self).write_packet_size == old(self).write_packet_size,
    {
        let old_rank: u8 = match self.connection_type {
            ConnectionType::Brom => 0,
            ConnectionType::Preloader => 1,
            ConnectionType::Da => 2,
        };
        let new_rank: u8 = match conn_type {
            ConnectionType::Brom => 0,
            ConnectionType::Preloader => 1,
            ConnectionType::Da => 2,
        };
        if new_rank < old_rank {
            return Err(Error::conn("Connection mode may only move forward"));
        }
        self.connection_type = conn_type;
        Ok(())
    }
}

} // verus!
