//! PCI configuration space: the address that selects a register, the words read out of it,
//! and the header that identifies a device.
use vstd::prelude::*;
use crate::port::Port;
use crate::port::PortGeneric;

pub mod class_codes;

pub use class_codes::ClassCode;
use class_codes::spec_class_code;

verus! {

/// The port that selects a configuration register.
pub const CONFIG_ADDRESS: u16 = 0xCF8;

/// The port through which the selected register is read and written.
pub const CONFIG_DATA: u16 = 0xCFC;

/// The dwords of one function's configuration space that its header occupies.
pub const CONFIG_DWORDS: usize = 16;

/// The configuration ports of the PCI bus.
pub struct PCIBusDevice {
    pub address: Port<u32>,
    pub data: Port<u32>,
}

/// The value written to the address port to select register `offset` of function `func` of
/// device `slot` on bus `bus`: the enable bit, then bus, slot, function and the dword-aligned
/// offset.
pub open spec fn spec_config_address(bus: u8, slot: u8, func: u8, offset: u8) -> u32 {
    ((bus as u32) << 16u32) | ((slot as u32) << 11u32) | ((func as u32) << 8u32) | ((offset & 0xFC) as u32)
        | 0x8000_0000u32
}

/// The 16-bit word at byte `offset` of a dword: its low half when bit 1 of `offset` is clear,
/// its high half otherwise.
pub open spec fn spec_word_at(dword: u32, offset: u8) -> u16 {
    ((dword >> (((offset & 2) as u32) * 8)) & 0xFFFF) as u16
}

impl PCIBusDevice {
    /// The bus through the standard configuration ports.
    pub fn new() -> (r: PCIBusDevice)
        ensures
            r.address.port == CONFIG_ADDRESS,
            r.data.port == CONFIG_DATA,
    {
        PCIBusDevice { address: PortGeneric::new(CONFIG_ADDRESS), data: PortGeneric::new(CONFIG_DATA) }
    }

    /// The value that selects register `offset` of `bus`, `slot`, `func`.
    pub fn config_address(bus: u8, slot: u8, func: u8, offset: u8) -> (r: u32)
        ensures
            r == spec_config_address(bus, slot, func, offset),
    {
        ((bus as u32) << 16u32) | ((slot as u32) << 11u32) | ((func as u32) << 8u32) | ((offset & 0xFC) as u32)
            | 0x8000_0000u32
    }

    /// The word at byte `offset` of the register value `dword`.
    pub fn word_at(dword: u32, offset: u8) -> (r: u16)
        ensures
            r == spec_word_at(dword, offset),
    {
        assert((offset & 2) <= 2) by (bit_vector);
        ((dword >> (((offset & 2) as u32) * 8)) & 0xFFFF) as u16
    }
}

/// The header registers of one function, as read from its configuration space: the dword at
/// byte offset `4 * i` is `dwords[i]`.
pub struct ConfigSpace {
    pub dwords: [u32; 16],
}

impl ConfigSpace {
    /// The dword that holds byte `offset`.
    pub open spec fn dword(&self, offset: u8) -> u32 {
        self.dwords@[(offset / 4) as int]
    }

    /// The word at byte `offset`.
    pub open spec fn word(&self, offset: u8) -> u16 {
        spec_word_at(self.dword(offset), offset)
    }
}

/// One device on the bus, by its bus and slot numbers.
#[derive(Clone, Copy, Debug, PartialEq, Eq, Structural)]
pub struct PCIDevice {
    pub bus: u8,
    pub slot: u8,
}

/// What identifies a device and how to reach it.
#[derive(Clone, Copy, Debug, PartialEq, Eq, Structural)]
pub struct PCIDeviceHeader {
    pub vendor_id: u16,
    pub device_id: u16,
    pub command: u16,
    pub status: u16,
    pub revision_id: u8,
    pub prog_if: u8,
    pub class: ClassCode,
    pub header_type: u8,
    /// The first base address register.
    pub base_addr0: u32,
    pub interrupt_line: u8,
}

/// The header in `space`: none where the vendor reads as all ones (no device answers) or
/// where the class and subclass codes name no known class.
pub open spec fn spec_header(space: ConfigSpace) -> Option<PCIDeviceHeader> {
    let vendor_id = space.word(0);
    let class_codes = space.word(0xA);
    if vendor_id == 0xFFFF {
        None
    } else {
        match spec_class_code(((class_codes >> 8u16) & 0xFF) as u8, (class_codes & 0xFF) as u8) {
            Err(_) => None,
            Ok(class) => Some(
                PCIDeviceHeader {
                    vendor_id,
                    device_id: space.word(0x2),
                    command: space.word(0x4),
                    status: space.word(0x6),
                    revision_id: (space.word(0x8) & 0xFF) as u8,
                    prog_if: ((space.word(0x8) >> 8u16) & 0xFF) as u8,
                    class,
                    header_type: ((space.dword(0x0C) >> 16u32) & 0xFF) as u8,
                    base_addr0: space.dword(0x10),
                    interrupt_line: (space.word(0x3C) & 0xFF) as u8,
                },
            ),
        }
    }
}

impl PCIDevice {
    /// The device at `bus`, `slot`.
    pub fn new(bus: u8, slot: u8) -> (r: PCIDevice)
        ensures
            r.bus == bus,
            r.slot == slot,
    {
        PCIDevice { bus, slot }
    }

    /// The word at byte `offset` of this device's configuration space.
    pub fn read_word(&self, space: &ConfigSpace, offset: u8) -> (r: u16)
        requires
            offset < 4 * CONFIG_DWORDS,
        ensures
            r == space.word(offset),
    {
        PCIBusDevice::word_at(space.dwords[(offset / 4) as usize], offset)
    }

    /// The dword that holds byte `offset` of this device's configuration space.
    pub fn read_dword(&self, space: &ConfigSpace, offset: u8) -> (r: u32)
        requires
            offset < 4 * CONFIG_DWORDS,
        ensures
            r == space.dword(offset),
    {
        space.dwords[(offset / 4) as usize]
    }

    /// The header type: the third byte of the dword at offset `0x0C`.
    pub fn get_header_type(&self, space: &ConfigSpace) -> (r: u8)
        ensures
            r == ((space.dword(0x0C) >> 16u32) & 0xFF) as u8,
    {
        let dword = self.read_dword(space, 0x0C);
        ((dword >> 16u32) & 0xFF) as u8
    }

    /// Sets the bus-master bit (bit 2) of the command register, the low half of the dword at
    /// offset 4, and keeps every other bit of that dword.
    pub fn enable_bus_mastering(&self, space: &mut ConfigSpace)
        ensures
            final(space).dwords@[1] == old(space).dwords@[1] | 4,
            forall|i: int| 0 <= i < 16 && i != 1 ==> final(space).dwords@[i] == old(space).dwords@[i],
    {
        let command = self.read_word(space, 0x4);
        let new_command = command | 0x4;
        let dword = self.read_dword(space, 0x4);
        let new_dword = (dword & 0xFFFF_0000) | ((new_command as u32) & 0xFFFF);
        assert((4u8 & 2u8) == 0u8) by (bit_vector);
        assert(new_dword == dword | 4) by (bit_vector)
            requires
                command == ((dword >> 0u32) & 0xFFFF) as u16,
                new_command == command | 4,
                new_dword == (dword & 0xFFFF_0000) | ((new_command as u32) & 0xFFFF),
        ;
        space.dwords[1] = new_dword;
    }

    /// The header of this device's function 0, if a known device answers.
    pub fn get_header(&self, space: &ConfigSpace) -> (r: Option<PCIDeviceHeader>)
        ensures
            r == spec_header(*space),
    {
        let vendor_id = self.read_word(space, 0);
        if vendor_id == 0xFFFF {
            return None;
        }
        let class_code = ((self.read_word(space, 0xA) >> 8u16) & 0xFF) as u8;
        let subclass = (self.read_word(space, 0xA) & 0xFF) as u8;
        let class = match ClassCode::try_from((class_code, subclass)) {
            Ok(c) => c,
            Err(_) => {
                return None;
            },
        };
        Some(
            PCIDeviceHeader {
                vendor_id,
                device_id: self.read_word(space, 0x2),
                command: self.read_word(space, 0x4),
                status: self.read_word(space, 0x6),
                revision_id: (self.read_word(space, 0x8) & 0xFF) as u8,
                prog_if: ((self.read_word(space, 0x8) >> 8u16) & 0xFF) as u8,
                class,
                header_type: self.get_header_type(space),
                base_addr0: self.read_dword(space, 0x10),
                interrupt_line: (self.read_word(space, 0x3C) & 0xFF) as u8,
            },
        )
    }
}

} // verus!
