//! The PCI host bridge: the CONFIG_ADDRESS latch, the type-1 probe
//! compatibility quirk, and the routing of CONFIG_DATA accesses to the
//! device table.

use core::ops::Range;

use vstd::prelude::*;

use crate::bus::lemma_wf_device_window;
use crate::bus::PciBus;
use crate::lanes::bus_number_of;
use crate::lanes::devfn_of;
use crate::lanes::effective_offset;
use crate::lanes::le_bytes_of;
use crate::lanes::le_value;
use crate::lanes::lemma_byte_masks_fit;
use crate::lanes::lemma_masked_addr_bound;
use crate::lanes::lemma_no_device_reads_all_ones;
use crate::lanes::low_bytes;
use crate::lanes::no_device_scratch;
use crate::lanes::register_offset_of;
use crate::lanes::scratch_after_read;
use crate::lanes::valid_width;
use crate::lanes::write_bytes;
use crate::lanes::CONFIG_ADDRESS_ENABLE_MASK;
use crate::ops::PciError;
use crate::ops::PioOps;

verus! {

/// First port of the CONFIG_ADDRESS register.
pub const PCI_CFG_ADDR_PORT_START: u16 = 0xcf8;

/// One past the last CONFIG_ADDRESS port.
pub const PCI_CFG_ADDR_PORT_END: u16 = 0xcfc;

/// First port of the CONFIG_DATA register.
pub const PCI_CFG_DATA_PORT_START: u16 = 0xcfc;

/// One past the last CONFIG_DATA port.
pub const PCI_CFG_DATA_PORT_END: u16 = 0xd00;

/// The address sub-port whose 1-byte write of value 1 arms the type-1 probe.
pub const TYPE1_PROBE_PORT: u16 = 0xcfb;

/// What an armed 4-byte read of the address-port base returns instead of the
/// latch.
pub const TYPE1_PROBE_SENTINEL: u32 = 0x8000_0000;

/// Ports of the CONFIG_ADDRESS register.
pub open spec fn is_addr_port(port: u16) -> bool {
    PCI_CFG_ADDR_PORT_START <= port < PCI_CFG_ADDR_PORT_END
}

/// Ports of the CONFIG_DATA register.
pub open spec fn is_data_port(port: u16) -> bool {
    PCI_CFG_DATA_PORT_START <= port < PCI_CFG_DATA_PORT_END
}

/// The whole port range a host bridge claims.
pub open spec fn in_port_range(port: u16) -> bool {
    is_addr_port(port) || is_data_port(port)
}

/// The state of the legacy type-1-detection sequence recognizer.
#[derive(Clone, Copy, Debug, PartialEq, Eq, Structural)]
pub enum ProbeState {
    /// No probe in flight.
    Idle,
    /// A 1-byte write of 1 to the probe sub-port was seen.
    ArmedByte,
    /// The follow-up 4-byte address-port write was seen; the next 4-byte read
    /// of the address-port base is answered with the sentinel.
    ArmedWord,
}

/// The outcome of an address-port write on (latch, probe state): `None` is
/// the invalid-write rejection, which changes neither.
///
/// A 1-byte write of 1 to the probe sub-port arms the probe.  A 4-byte write
/// to the address-port base re-latches the address — except while the probe
/// is armed, when it only advances the probe and the latch keeps its old
/// value.  Every other width/sub-port pair is rejected.
pub open spec fn addr_write_outcome(
    addr: u32,
    probe: ProbeState,
    port: u16,
    access_size: u8,
    value: u32,
) -> Option<(u32, ProbeState)>
    recommends
        is_addr_port(port),
{
    if port == TYPE1_PROBE_PORT && access_size == 1 && value == 1 {
        Some((addr, ProbeState::ArmedByte))
    } else if port == PCI_CFG_ADDR_PORT_START && access_size == 4 {
        if probe is ArmedByte {
            Some((addr, ProbeState::ArmedWord))
        } else {
            Some((value, probe))
        }
    } else {
        None
    }
}

/// The outcome of an address-port read: the value returned and the probe
/// state after it; `None` is the invalid-read rejection.  No read changes
/// the latch.
///
/// A 4-byte read of the address-port base while the probe holds ArmedWord
/// consumes the probe and returns the sentinel; otherwise a read of a valid
/// width returns the low bytes of the latch, little-endian.
pub open spec fn addr_read_outcome(addr: u32, probe: ProbeState, port: u16, access_size: u8) -> Option<
    (u32, ProbeState),
>
    recommends
        is_addr_port(port),
{
    if port == PCI_CFG_ADDR_PORT_START && access_size == 4 && probe is ArmedWord {
        Some((TYPE1_PROBE_SENTINEL, ProbeState::Idle))
    } else if valid_width(access_size) {
        Some((low_bytes(addr, access_size), probe))
    } else {
        None
    }
}

/// The PCI host bridge.  It latches CONFIG_ADDRESS writes, recognizes the
/// type-1 probe sequence, and resolves CONFIG_DATA accesses against its
/// device table — or answers "no device" for everything when built without
/// one (the quirk-only deployment).
#[derive(Clone)]
pub struct PciHost {
    config_addr: u32,
    check_type1: ProbeState,
    root_bus: Option<PciBus>,
}

impl PciHost {
    /// The latched CONFIG_ADDRESS value.
    pub closed spec fn spec_config_addr(self) -> u32 {
        self.config_addr
    }

    /// The probe-quirk state.
    pub closed spec fn spec_probe(self) -> ProbeState {
        self.check_type1
    }

    /// The device table, when this host is bus-backed.
    pub closed spec fn spec_root_bus(self) -> Option<PciBus> {
        self.root_bus
    }

    /// A host is well formed when its device table, if any, is.
    pub open spec fn wf(self) -> bool {
        match self.spec_root_bus() {
            Some(bus) => bus.wf(),
            None => true,
        }
    }

    /// Construct PCI/PCIe host.  Without a device table it implements only
    /// the address latch and the probe quirk, and data accesses always see
    /// "no device".
    pub fn new() -> (host: PciHost)
        ensures
            host.wf(),
            host.spec_config_addr() == 0,
            host.spec_probe() == ProbeState::Idle,
            host.spec_root_bus() is None,
    {
        PciHost { config_addr: 0, check_type1: ProbeState::Idle, root_bus: None }
    }

    /// Construct a bus-backed host that resolves data-port accesses against
    /// `root_bus`.
    pub fn with_root_bus(root_bus: PciBus) -> (host: PciHost)
        requires
            root_bus.wf(),
        ensures
            host.wf(),
            host.spec_config_addr() == 0,
            host.spec_probe() == ProbeState::Idle,
            host.spec_root_bus() == Some(root_bus),
    {
        PciHost { config_addr: 0, check_type1: ProbeState::Idle, root_bus: Some(root_bus) }
    }
}

/// What a data-port read returns, given the pre-state: `None` is the
/// invalid-read rejection.  No data-port read changes any state.
pub open spec fn data_read_result(host: PciHost, port: u16, access_size: u8) -> Option<u32>
    recommends
        is_data_port(port),
        host.wf(),
{
    if !valid_width(access_size) {
        None
    } else {
        match host.spec_root_bus() {
            None => Some(le_value(no_device_scratch(), access_size)),
            Some(bus) => {
                if host.spec_config_addr() & CONFIG_ADDRESS_ENABLE_MASK == 0 {
                    None
                } else {
                    let eff = effective_offset(
                        host.spec_config_addr(),
                        (port - PCI_CFG_DATA_PORT_START) as u16,
                    );
                    let scratch = match bus.spec_device(bus_number_of(eff), devfn_of(eff)) {
                        Some(c) => scratch_after_read(c, register_offset_of(eff) as int),
                        None => no_device_scratch(),
                    };
                    Some(le_value(scratch, access_size))
                }
            },
        }
    }
}

/// Whether a data-port write is accepted.  A bus-less host drops every
/// data-port write as a deliberate no-op; a bus-backed one rejects invalid
/// widths and writes while the latch's enable bit is clear.
pub open spec fn data_write_accepted(host: PciHost, access_size: u8) -> bool {
    match host.spec_root_bus() {
        None => true,
        Some(_) => valid_width(access_size) && host.spec_config_addr()
            & CONFIG_ADDRESS_ENABLE_MASK != 0,
    }
}

/// How an accepted data-port write changes the device table: the decoded
/// target's window gets the low bytes of the value overlaid at the decoded
/// register offset; an absent target drops the write; every other window,
/// and a bus-less host, is untouched.
pub open spec fn data_write_bus_effect(
    pre: PciHost,
    post: PciHost,
    port: u16,
    access_size: u8,
    value: u32,
) -> bool
    recommends
        is_data_port(port),
        valid_width(access_size),
{
    match (pre.spec_root_bus(), post.spec_root_bus()) {
        (None, None) => true,
        (Some(bus), Some(bus2)) => {
            let eff = effective_offset(
                pre.spec_config_addr(),
                (port - PCI_CFG_DATA_PORT_START) as u16,
            );
            let bn = bus_number_of(eff);
            let df = devfn_of(eff);
            match bus.spec_device(bn, df) {
                Some(c) => bus2.spec_device(bn, df) == Some(
                    write_bytes(c, register_offset_of(eff) as int, le_bytes_of(value, access_size)),
                ) && forall|b2: u8, d2: u8|
                    !(b2 == bn && d2 == df) ==> bus2.spec_device(b2, d2) == bus.spec_device(b2, d2),
                None => bus2 == bus,
            }
        },
        _ => false,
    }
}

impl PioOps for PciHost {
    open spec fn pio_wf(&self) -> bool {
        self.wf()
    }

    open spec fn claims_port(&self, port: u16) -> bool {
        in_port_range(port)
    }

    /// Port range.
    fn port_range(&self) -> (r: Range<u16>) {
        PCI_CFG_ADDR_PORT_START..PCI_CFG_DATA_PORT_END
    }

    /// Read operation: an address-port read returns the latch (or the probe
    /// sentinel), a data-port read is resolved against the device table.
    fn read(&mut self, port: u16, access_size: u8) -> (r: Result<u32, PciError>)
        ensures
            final(self).wf(),
            final(self).spec_config_addr() == old(self).spec_config_addr(),
            final(self).spec_root_bus() == old(self).spec_root_bus(),
            is_addr_port(port) ==> match addr_read_outcome(
                old(self).spec_config_addr(),
                old(self).spec_probe(),
                port,
                access_size,
            ) {
                Some(outcome) => r == Ok::<u32, PciError>(outcome.0) && final(self).spec_probe()
                    == outcome.1,
                None => r == Err::<u32, PciError>(PciError::InvalidPortRead)
                    && final(self).spec_probe() == old(self).spec_probe(),
            },
            is_data_port(port) ==> final(self).spec_probe() == old(self).spec_probe() && match
                data_read_result(*old(self), port, access_size) {
                Some(v) => r == Ok::<u32, PciError>(v),
                None => r == Err::<u32, PciError>(PciError::InvalidPortRead),
            },
    {
        if port < PCI_CFG_DATA_PORT_START {
            // Read configuration address register.
            if port == PCI_CFG_ADDR_PORT_START && access_size == 4 && self.check_type1
                == ProbeState::ArmedWord {
                self.check_type1 = ProbeState::Idle;
                return Ok(TYPE1_PROBE_SENTINEL);
            }
            match access_size {
                1 => Ok(self.config_addr & 0xff),
                2 => Ok(self.config_addr & 0xffff),
                4 => Ok(self.config_addr),
                _ => Err(PciError::InvalidPortRead),
            }
        } else {
            // Read configuration data register.
            if !(access_size == 1 || access_size == 2 || access_size == 4) {
                return Err(PciError::InvalidPortRead);
            }
            let lane: u16 = port - PCI_CFG_DATA_PORT_START;
            match &self.root_bus {
                None => {
                    // Quirk-only deployment: nothing ever answers.
                    proof {
                        lemma_no_device_reads_all_ones(access_size);
                        assert(0xffff_ffffu32 & 0xff == 0xff) by (bit_vector);
                        assert(0xffff_ffffu32 & 0xffff == 0xffff) by (bit_vector);
                    }
                    match access_size {
                        1 => Ok(0xff),
                        2 => Ok(0xffff),
                        _ => Ok(0xffff_ffff),
                    }
                },
                Some(bus) => {
                    if self.config_addr & CONFIG_ADDRESS_ENABLE_MASK == 0 {
                        return Err(PciError::InvalidPortRead);
                    }
                    proof {
                        lemma_masked_addr_bound(self.config_addr);
                    }
                    let eff: u32 = (self.config_addr & !CONFIG_ADDRESS_ENABLE_MASK) + lane as u32;
                    proof {
                        lemma_byte_masks_fit(eff);
                    }
                    let bus_num: u8 = ((eff >> 16) & 0xff) as u8;
                    let devfn: u8 = ((eff >> 8) & 0xff) as u8;
                    let offset: usize = (eff & 0xff) as usize;
                    let mut data: Vec<u8> = Vec::new();
                    data.push(0xff);
                    data.push(0xff);
                    data.push(0xff);
                    data.push(0xff);
                    proof {
                        assert(data@ =~= no_device_scratch());
                    }
                    match bus.get_device(bus_num, devfn) {
                        Some(dev) => {
                            dev.read_config(offset, &mut data);
                            proof {
                                assert(data@ =~= scratch_after_read(dev@, offset as int));
                            }
                        },
                        None => {},
                    }
                    match access_size {
                        1 => Ok(data[0] as u32),
                        2 => Ok((data[0] as u32) | ((data[1] as u32) << 8)),
                        _ => Ok(
                            (data[0] as u32) | ((data[1] as u32) << 8) | ((data[2] as u32) << 16)
                                | ((data[3] as u32) << 24),
                        ),
                    }
                },
            }
        }
    }

    /// Write operation: an address-port write latches or arms the probe, a
    /// data-port write is forwarded to the decoded device window.
    fn write(&mut self, port: u16, access_size: u8, value: u32) -> (r: Result<(), PciError>)
        ensures
            final(self).wf(),
            is_addr_port(port) ==> final(self).spec_root_bus() == old(self).spec_root_bus()
                && match addr_write_outcome(
                old(self).spec_config_addr(),
                old(self).spec_probe(),
                port,
                access_size,
                value,
            ) {
                Some(outcome) => r == Ok::<(), PciError>(()) && final(self).spec_config_addr()
                    == outcome.0 && final(self).spec_probe() == outcome.1,
                None => r == Err::<(), PciError>(PciError::InvalidPortWrite) && *final(self)
                    == *old(self),
            },
            is_data_port(port) ==> final(self).spec_config_addr() == old(self).spec_config_addr()
                && final(self).spec_probe() == old(self).spec_probe() && if data_write_accepted(
                *old(self),
                access_size,
            ) {
                r == Ok::<(), PciError>(()) && data_write_bus_effect(
                    *old(self),
                    *final(self),
                    port,
                    access_size,
                    value,
                )
            } else {
                r == Err::<(), PciError>(PciError::InvalidPortWrite) && *final(self) == *old(self)
            },
    {
        if port < PCI_CFG_DATA_PORT_START {
            // Write configuration address register.
            if port == TYPE1_PROBE_PORT && access_size == 1 && value == 1 {
                // Arm the legacy type-1 detection recognizer.
                self.check_type1 = ProbeState::ArmedByte;
                Ok(())
            } else if port == PCI_CFG_ADDR_PORT_START && access_size == 4 {
                if self.check_type1 == ProbeState::ArmedByte {
                    self.check_type1 = ProbeState::ArmedWord;
                } else {
                    // Save the target for the next data read/write.
                    self.config_addr = value;
                }
                Ok(())
            } else {
                Err(PciError::InvalidPortWrite)
            }
        } else {
            // Write configuration data register.
            let addr = self.config_addr;
            let lane: u16 = port - PCI_CFG_DATA_PORT_START;
            match &mut self.root_bus {
                None => {
                    // Quirk-only deployment: data writes are a deliberate
                    // no-op.
                    Ok(())
                },
                Some(bus) => {
                    if !(access_size == 1 || access_size == 2 || access_size == 4) {
                        return Err(PciError::InvalidPortWrite);
                    }
                    if addr & CONFIG_ADDRESS_ENABLE_MASK == 0 {
                        return Err(PciError::InvalidPortWrite);
                    }
                    proof {
                        lemma_masked_addr_bound(addr);
                    }
                    let eff: u32 = (addr & !CONFIG_ADDRESS_ENABLE_MASK) + lane as u32;
                    proof {
                        lemma_byte_masks_fit(eff);
                        lemma_byte_masks_fit(value);
                    }
                    let bus_num: u8 = ((eff >> 16) & 0xff) as u8;
                    let devfn: u8 = ((eff >> 8) & 0xff) as u8;
                    let offset: usize = (eff & 0xff) as usize;
                    let mut bytes: Vec<u8> = Vec::new();
                    bytes.push((value & 0xff) as u8);
                    if access_size >= 2 {
                        bytes.push(((value >> 8) & 0xff) as u8);
                    }
                    if access_size == 4 {
                        bytes.push(((value >> 16) & 0xff) as u8);
                        bytes.push(((value >> 24) & 0xff) as u8);
                    }
                    proof {
                        assert(bytes@ =~= le_bytes_of(value, access_size));
                    }
                    bus.write_config(bus_num, devfn, offset, &bytes);
                    Ok(())
                },
            }
        }
    }
}

/// A 4-byte write to the address-port base latches the value verbatim, and
/// an immediately following 4-byte read of the base returns exactly that
/// value, as long as the probe quirk is idle (an armed probe overrides both
/// steps).
pub proof fn lemma_latch_write_read_round_trip(addr: u32, probe: ProbeState, v: u32)
    requires
        probe is Idle,
    ensures
        addr_write_outcome(addr, probe, PCI_CFG_ADDR_PORT_START, 4, v) == Some((v, probe)),
        addr_read_outcome(v, probe, PCI_CFG_ADDR_PORT_START, 4) == Some((v, probe)),
{
}

/// A read of the address port of any valid width returns the low bytes of
/// the latch, little-endian, whenever the probe sentinel does not intervene.
pub proof fn lemma_latch_read_widths(addr: u32, probe: ProbeState, port: u16, access_size: u8)
    requires
        is_addr_port(port),
        valid_width(access_size),
        !(probe is ArmedWord && port == PCI_CFG_ADDR_PORT_START && access_size == 4),
    ensures
        addr_read_outcome(addr, probe, port, access_size) == Some(
            (low_bytes(addr, access_size), probe),
        ),
{
}

/// Exactly two address-port writes are accepted: the probe-arming 1-byte
/// write of 1 to the probe sub-port, and a 4-byte write to the base.  All
/// others are rejected — and a rejected write leaves the latch and the probe
/// unchanged.
pub proof fn lemma_address_port_write_accepts(
    addr: u32,
    probe: ProbeState,
    port: u16,
    access_size: u8,
    value: u32,
)
    requires
        is_addr_port(port),
    ensures
        addr_write_outcome(addr, probe, port, access_size, value) is None <==> !(port
            == TYPE1_PROBE_PORT && access_size == 1 && value == 1) && !(port
            == PCI_CFG_ADDR_PORT_START && access_size == 4),
{
}

/// An address-port read is rejected exactly for the widths outside {1,2,4}.
pub proof fn lemma_address_port_read_accepts(
    addr: u32,
    probe: ProbeState,
    port: u16,
    access_size: u8,
)
    requires
        is_addr_port(port),
    ensures
        addr_read_outcome(addr, probe, port, access_size) is None <==> !valid_width(access_size),
{
}

/// A data-port read is rejected exactly for the widths outside {1,2,4} — and,
/// on a bus-backed host, whenever the latch's enable bit is clear.
pub proof fn lemma_data_port_read_accepts(host: PciHost, port: u16, access_size: u8)
    requires
        is_data_port(port),
    ensures
        data_read_result(host, port, access_size) is None <==> !valid_width(access_size) || (
        host.spec_root_bus() is Some && host.spec_config_addr() & CONFIG_ADDRESS_ENABLE_MASK == 0),
{
}

/// The type-1 probe sequence: arming with a 1-byte write of 1 to the probe
/// sub-port, then a 4-byte address-port write — which advances the probe
/// without re-latching — makes the next 4-byte read of the base return the
/// sentinel and fall back to idle; a second read, the arming not repeated,
/// returns the ordinary latch value again.
pub proof fn lemma_type1_probe_sequence(addr: u32, relatch: u32)
    ensures
        addr_write_outcome(addr, ProbeState::Idle, TYPE1_PROBE_PORT, 1, 1) == Some(
            (addr, ProbeState::ArmedByte),
        ),
        addr_write_outcome(addr, ProbeState::ArmedByte, PCI_CFG_ADDR_PORT_START, 4, relatch)
            == Some((addr, ProbeState::ArmedWord)),
        addr_read_outcome(addr, ProbeState::ArmedWord, PCI_CFG_ADDR_PORT_START, 4) == Some(
            (TYPE1_PROBE_SENTINEL, ProbeState::Idle),
        ),
        addr_read_outcome(addr, ProbeState::Idle, PCI_CFG_ADDR_PORT_START, 4) == Some(
            (addr, ProbeState::Idle),
        ),
{
}

/// Round trip through a present device: once an accepted data-port write of
/// a valid width has landed on the decoded device window, a data-port read
/// of the same width at the same port (the latch unchanged in between)
/// returns exactly the bytes written.  The written bytes must lie inside the
/// 256-byte window: a write reaching past its top has the excess bytes
/// dropped, and the lanes over them read back as all-ones.
pub proof fn lemma_device_write_read_round_trip(
    pre: PciHost,
    post: PciHost,
    port: u16,
    access_size: u8,
    value: u32,
)
    requires
        pre.wf(),
        is_data_port(port),
        valid_width(access_size),
        pre.spec_root_bus() is Some,
        pre.spec_config_addr() & CONFIG_ADDRESS_ENABLE_MASK != 0,
        post.spec_config_addr() == pre.spec_config_addr(),
        post.spec_root_bus() is Some,
        data_write_bus_effect(pre, post, port, access_size, value),
        ({
            let eff = effective_offset(
                pre.spec_config_addr(),
                (port - PCI_CFG_DATA_PORT_START) as u16,
            );
            pre.spec_root_bus().unwrap().spec_device(bus_number_of(eff), devfn_of(eff)) is Some
                && register_offset_of(eff) + access_size <= 256
        }),
    ensures
        data_read_result(post, port, access_size) == Some(low_bytes(value, access_size)),
{
    let eff = effective_offset(pre.spec_config_addr(), (port - PCI_CFG_DATA_PORT_START) as u16);
    let bn = bus_number_of(eff);
    let df = devfn_of(eff);
    let off = register_offset_of(eff) as int;
    let bus = pre.spec_root_bus().unwrap();
    let c = bus.spec_device(bn, df).unwrap();
    lemma_wf_device_window(bus, bn, df);
    crate::lanes::lemma_config_write_read_round_trip(c, off, access_size, value);
}

/// A data-port read of any valid width where no device answers the decoded
/// target returns all bits set in every lane read — never zero, never an
/// error.
pub proof fn lemma_absent_device_reads_all_ones(host: PciHost, port: u16, access_size: u8)
    requires
        is_data_port(port),
        valid_width(access_size),
        host.spec_root_bus() is Some ==> host.spec_config_addr() & CONFIG_ADDRESS_ENABLE_MASK != 0,
        ({
            let eff = effective_offset(
                host.spec_config_addr(),
                (port - PCI_CFG_DATA_PORT_START) as u16,
            );
            match host.spec_root_bus() {
                None => true,
                Some(bus) => bus.spec_device(bus_number_of(eff), devfn_of(eff)) is None,
            }
        }),
    ensures
        data_read_result(host, port, access_size) == Some(low_bytes(0xffff_ffffu32, access_size)),
{
    lemma_no_device_reads_all_ones(access_size);
}

} // verus!
