//! PCI class codes and the subclass codes under each class.
use vstd::prelude::*;

verus! {

/// The subclasses that the code of one PCI class is followed by.
#[derive(Clone, Copy, Debug, PartialEq, Eq, Structural)]
pub enum UnclassifiedSubClass {
    NonVgaCompatible,
    VgaCompatible,
}

/// The `UnclassifiedSubClass` that code `v` names, if any.
pub open spec fn spec_unclassified_sub_class(v: u8) -> Option<UnclassifiedSubClass> {
    if v == 0x00 {
        Some(UnclassifiedSubClass::NonVgaCompatible)
    } else if v == 0x01 {
        Some(UnclassifiedSubClass::VgaCompatible)
    } else {
        None
    }
}

impl UnclassifiedSubClass {
    /// The subclass named by `value`; gives `value` back when it names none.
    pub fn try_from(value: u8) -> (r: Result<UnclassifiedSubClass, u8>)
        ensures
            r == (match spec_unclassified_sub_class(value) {
                Some(c) => Ok(c),
                None => Err(value),
            }),
    {
        if value == 0x00 {
            Ok(UnclassifiedSubClass::NonVgaCompatible)
        } else if value == 0x01 {
            Ok(UnclassifiedSubClass::VgaCompatible)
        } else {
            Err(value)
        }
    }
}

/// The subclasses that the code of one PCI class is followed by.
#[derive(Clone, Copy, Debug, PartialEq, Eq, Structural)]
pub enum MassStorageControllerSubClass {
    ScsiBus,
    Ide,
    FloppyDisk,
    IpiBus,
    Raid,
    Ata,
    SerialAta,
    SerialAttachedScsi,
    NonVolatileMemory,
    Other,
}

/// The `MassStorageControllerSubClass` that code `v` names, if any.
pub open spec fn spec_mass_storage_controller_sub_class(v: u8) -> Option<MassStorageControllerSubClass> {
    if v == 0x00 {
        Some(MassStorageControllerSubClass::ScsiBus)
    } else if v == 0x01 {
        Some(MassStorageControllerSubClass::Ide)
    } else if v == 0x02 {
        Some(MassStorageControllerSubClass::FloppyDisk)
    } else if v == 0x03 {
        Some(MassStorageControllerSubClass::IpiBus)
    } else if v == 0x04 {
        Some(MassStorageControllerSubClass::Raid)
    } else if v == 0x05 {
        Some(MassStorageControllerSubClass::Ata)
    } else if v == 0x06 {
        Some(MassStorageControllerSubClass::SerialAta)
    } else if v == 0x07 {
        Some(MassStorageControllerSubClass::SerialAttachedScsi)
    } else if v == 0x08 {
        Some(MassStorageControllerSubClass::NonVolatileMemory)
    } else if v == 0x80 {
        Some(MassStorageControllerSubClass::Other)
    } else {
        None
    }
}

impl MassStorageControllerSubClass {
    /// The subclass named by `value`; gives `value` back when it names none.
    pub fn try_from(value: u8) -> (r: Result<MassStorageControllerSubClass, u8>)
        ensures
            r == (match spec_mass_storage_controller_sub_class(value) {
                Some(c) => Ok(c),
                None => Err(value),
            }),
    {
        if value == 0x00 {
            Ok(MassStorageControllerSubClass::ScsiBus)
        } else if value == 0x01 {
            Ok(MassStorageControllerSubClass::Ide)
        } else if value == 0x02 {
            Ok(MassStorageControllerSubClass::FloppyDisk)
        } else if value == 0x03 {
            Ok(MassStorageControllerSubClass::IpiBus)
        } else if value == 0x04 {
            Ok(MassStorageControllerSubClass::Raid)
        } else if value == 0x05 {
            Ok(MassStorageControllerSubClass::Ata)
        } else if value == 0x06 {
            Ok(MassStorageControllerSubClass::SerialAta)
        } else if value == 0x07 {
            Ok(MassStorageControllerSubClass::SerialAttachedScsi)
        } else if value == 0x08 {
            Ok(MassStorageControllerSubClass::NonVolatileMemory)
        } else if value == 0x80 {
            Ok(MassStorageControllerSubClass::Other)
        } else {
            Err(value)
        }
    }
}

/// The subclasses that the code of one PCI class is followed by.
#[derive(Clone, Copy, Debug, PartialEq, Eq, Structural)]
pub enum NetworkControllerSubClass {
    Ethernet,
    TokenRing,
    Fddi,
    Atm,
    Isdn,
    WorldFip,
    PicmgMultiComputing,
    Infiniband,
    Fabric,
    Other,
}

/// The `NetworkControllerSubClass` that code `v` names, if any.
pub open spec fn spec_network_controller_sub_class(v: u8) -> Option<NetworkControllerSubClass> {
    if v == 0x00 {
        Some(NetworkControllerSubClass::Ethernet)
    } else if v == 0x01 {
        Some(NetworkControllerSubClass::TokenRing)
    } else if v == 0x02 {
        Some(NetworkControllerSubClass::Fddi)
    } else if v == 0x03 {
        Some(NetworkControllerSubClass::Atm)
    } else if v == 0x04 {
        Some(NetworkControllerSubClass::Isdn)
    } else if v == 0x05 {
        Some(NetworkControllerSubClass::WorldFip)
    } else if v == 0x06 {
        Some(NetworkControllerSubClass::PicmgMultiComputing)
    } else if v == 0x07 {
        Some(NetworkControllerSubClass::Infiniband)
    } else if v == 0x08 {
        Some(NetworkControllerSubClass::Fabric)
    } else if v == 0x80 {
        Some(NetworkControllerSubClass::Other)
    } else {
        None
    }
}

impl NetworkControllerSubClass {
    /// The subclass named by `value`; gives `value` back when it names none.
    pub fn try_from(value: u8) -> (r: Result<NetworkControllerSubClass, u8>)
        ensures
            r == (match spec_network_controller_sub_class(value) {
                Some(c) => Ok(c),
                None => Err(value),
            }),
    {
        if value == 0x00 {
            Ok(NetworkControllerSubClass::Ethernet)
        } else if value == 0x01 {
            Ok(NetworkControllerSubClass::TokenRing)
        } else if value == 0x02 {
            Ok(NetworkControllerSubClass::Fddi)
        } else if value == 0x03 {
            Ok(NetworkControllerSubClass::Atm)
        } else if value == 0x04 {
            Ok(NetworkControllerSubClass::Isdn)
        } else if value == 0x05 {
            Ok(NetworkControllerSubClass::WorldFip)
        } else if value == 0x06 {
            Ok(NetworkControllerSubClass::PicmgMultiComputing)
        } else if value == 0x07 {
            Ok(NetworkControllerSubClass::Infiniband)
        } else if value == 0x08 {
            Ok(NetworkControllerSubClass::Fabric)
        } else if value == 0x80 {
            Ok(NetworkControllerSubClass::Other)
        } else {
            Err(value)
        }
    }
}

/// The subclasses that the code of one PCI class is followed by.
#[derive(Clone, Copy, Debug, PartialEq, Eq, Structural)]
pub enum DisplayControllerSubClass {
    VgaCompatible,
    Xga,
    ThreeD,
    Other,
}

/// The `DisplayControllerSubClass` that code `v` names, if any.
pub open spec fn spec_display_controller_sub_class(v: u8) -> Option<DisplayControllerSubClass> {
    if v == 0x00 {
        Some(DisplayControllerSubClass::VgaCompatible)
    } else if v == 0x01 {
        Some(DisplayControllerSubClass::Xga)
    } else if v == 0x02 {
        Some(DisplayControllerSubClass::ThreeD)
    } else if v == 0x80 {
        Some(DisplayControllerSubClass::Other)
    } else {
        None
    }
}

impl DisplayControllerSubClass {
    /// The subclass named by `value`; gives `value` back when it names none.
    pub fn try_from(value: u8) -> (r: Result<DisplayControllerSubClass, u8>)
        ensures
            r == (match spec_display_controller_sub_class(value) {
                Some(c) => Ok(c),
                None => Err(value),
            }),
    {
        if value == 0x00 {
            Ok(DisplayControllerSubClass::VgaCompatible)
        } else if value == 0x01 {
            Ok(DisplayControllerSubClass::Xga)
        } else if value == 0x02 {
            Ok(DisplayControllerSubClass::ThreeD)
        } else if value == 0x80 {
            Ok(DisplayControllerSubClass::Other)
        } else {
            Err(value)
        }
    }
}

/// The subclasses that the code of one PCI class is followed by.
#[derive(Clone, Copy, Debug, PartialEq, Eq, Structural)]
pub enum MultimediaControllerSubClass {
    Video,
    Audio,
    ComputerTelephony,
    AudioDevice,
    Other,
}

/// The `MultimediaControllerSubClass` that code `v` names, if any.
pub open spec fn spec_multimedia_controller_sub_class(v: u8) -> Option<MultimediaControllerSubClass> {
    if v == 0x00 {
        Some(MultimediaControllerSubClass::Video)
    } else if v == 0x01 {
        Some(MultimediaControllerSubClass::Audio)
    } else if v == 0x02 {
        Some(MultimediaControllerSubClass::ComputerTelephony)
    } else if v == 0x03 {
        Some(MultimediaControllerSubClass::AudioDevice)
    } else if v == 0x80 {
        Some(MultimediaControllerSubClass::Other)
    } else {
        None
    }
}

impl MultimediaControllerSubClass {
    /// The subclass named by `value`; gives `value` back when it names none.
    pub fn try_from(value: u8) -> (r: Result<MultimediaControllerSubClass, u8>)
        ensures
            r == (match spec_multimedia_controller_sub_class(value) {
                Some(c) => Ok(c),
                None => Err(value),
            }),
    {
        if value == 0x00 {
            Ok(MultimediaControllerSubClass::Video)
        } else if value == 0x01 {
            Ok(MultimediaControllerSubClass::Audio)
        } else if value == 0x02 {
            Ok(MultimediaControllerSubClass::ComputerTelephony)
        } else if value == 0x03 {
            Ok(MultimediaControllerSubClass::AudioDevice)
        } else if value == 0x80 {
            Ok(MultimediaControllerSubClass::Other)
        } else {
            Err(value)
        }
    }
}

/// The subclasses that the code of one PCI class is followed by.
#[derive(Clone, Copy, Debug, PartialEq, Eq, Structural)]
pub enum MemoryControllerSubClass {
    Ram,
    Flash,
    Other,
}

/// The `MemoryControllerSubClass` that code `v` names, if any.
pub open spec fn spec_memory_controller_sub_class(v: u8) -> Option<MemoryControllerSubClass> {
    if v == 0x00 {
        Some(MemoryControllerSubClass::Ram)
    } else if v == 0x01 {
        Some(MemoryControllerSubClass::Flash)
    } else if v == 0x80 {
        Some(MemoryControllerSubClass::Other)
    } else {
        None
    }
}

impl MemoryControllerSubClass {
    /// The subclass named by `value`; gives `value` back when it names none.
    pub fn try_from(value: u8) -> (r: Result<MemoryControllerSubClass, u8>)
        ensures
            r == (match spec_memory_controller_sub_class(value) {
                Some(c) => Ok(c),
                None => Err(value),
            }),
    {
        if value == 0x00 {
            Ok(MemoryControllerSubClass::Ram)
        } else if value == 0x01 {
            Ok(MemoryControllerSubClass::Flash)
        } else if value == 0x80 {
            Ok(MemoryControllerSubClass::Other)
        } else {
            Err(value)
        }
    }
}

/// The subclasses that the code of one PCI class is followed by.
#[derive(Clone, Copy, Debug, PartialEq, Eq, Structural)]
pub enum BridgeSubClass {
    Host,
    Isa,
    Eisa,
    Mca,
    PciToPci,
    Pcmcia,
    NuBus,
    CardBus,
    RaceWay,
    SemiTransparentPciToPci,
    InfiniBandToPciHost,
    Other,
}

/// The `BridgeSubClass` that code `v` names, if any.
pub open spec fn spec_bridge_sub_class(v: u8) -> Option<BridgeSubClass> {
    if v == 0x00 {
        Some(BridgeSubClass::Host)
    } else if v == 0x01 {
        Some(BridgeSubClass::Isa)
    } else if v == 0x02 {
        Some(BridgeSubClass::Eisa)
    } else if v == 0x03 {
        Some(BridgeSubClass::Mca)
    } else if v == 0x04 {
        Some(BridgeSubClass::PciToPci)
    } else if v == 0x05 {
        Some(BridgeSubClass::Pcmcia)
    } else if v == 0x06 {
        Some(BridgeSubClass::NuBus)
    } else if v == 0x07 {
        Some(BridgeSubClass::CardBus)
    } else if v == 0x08 {
        Some(BridgeSubClass::RaceWay)
    } else if v == 0x09 {
        Some(BridgeSubClass::SemiTransparentPciToPci)
    } else if v == 0x0a {
        Some(BridgeSubClass::InfiniBandToPciHost)
    } else if v == 0x80 {
        Some(BridgeSubClass::Other)
    } else {
        None
    }
}

impl BridgeSubClass {
    /// The subclass named by `value`; gives `value` back when it names none.
    pub fn try_from(value: u8) -> (r: Result<BridgeSubClass, u8>)
        ensures
            r == (match spec_bridge_sub_class(value) {
                Some(c) => Ok(c),
                None => Err(value),
            }),
    {
        if value == 0x00 {
            Ok(BridgeSubClass::Host)
        } else if value == 0x01 {
            Ok(BridgeSubClass::Isa)
        } else if value == 0x02 {
            Ok(BridgeSubClass::Eisa)
        } else if value == 0x03 {
            Ok(BridgeSubClass::Mca)
        } else if value == 0x04 {
            Ok(BridgeSubClass::PciToPci)
        } else if value == 0x05 {
            Ok(BridgeSubClass::Pcmcia)
        } else if value == 0x06 {
            Ok(BridgeSubClass::NuBus)
        } else if value == 0x07 {
            Ok(BridgeSubClass::CardBus)
        } else if value == 0x08 {
            Ok(BridgeSubClass::RaceWay)
        } else if value == 0x09 {
            Ok(BridgeSubClass::SemiTransparentPciToPci)
        } else if value == 0x0a {
            Ok(BridgeSubClass::InfiniBandToPciHost)
        } else if value == 0x80 {
            Ok(BridgeSubClass::Other)
        } else {
            Err(value)
        }
    }
}

/// The subclasses that the code of one PCI class is followed by.
#[derive(Clone, Copy, Debug, PartialEq, Eq, Structural)]
pub enum SimpleCommunicationControllerSubClass {
    Serial,
    Parallel,
    MultiportSerial,
    Modem,
    Gpib,
    SmartCard,
    Other,
}

/// The `SimpleCommunicationControllerSubClass` that code `v` names, if any.
pub open spec fn spec_simple_communication_controller_sub_class(v: u8) -> Option<SimpleCommunicationControllerSubClass> {
    if v == 0x00 {
        Some(SimpleCommunicationControllerSubClass::Serial)
    } else if v == 0x01 {
        Some(SimpleCommunicationControllerSubClass::Parallel)
    } else if v == 0x02 {
        Some(SimpleCommunicationControllerSubClass::MultiportSerial)
    } else if v == 0x03 {
        Some(SimpleCommunicationControllerSubClass::Modem)
    } else if v == 0x04 {
        Some(SimpleCommunicationControllerSubClass::Gpib)
    } else if v == 0x05 {
        Some(SimpleCommunicationControllerSubClass::SmartCard)
    } else if v == 0x80 {
        Some(SimpleCommunicationControllerSubClass::Other)
    } else {
        None
    }
}

impl SimpleCommunicationControllerSubClass {
    /// The subclass named by `value`; gives `value` back when it names none.
    pub fn try_from(value: u8) -> (r: Result<SimpleCommunicationControllerSubClass, u8>)
        ensures
            r == (match spec_simple_communication_controller_sub_class(value) {
                Some(c) => Ok(c),
                None => Err(value),
            }),
    {
        if value == 0x00 {
            Ok(SimpleCommunicationControllerSubClass::Serial)
        } else if value == 0x01 {
            Ok(SimpleCommunicationControllerSubClass::Parallel)
        } else if value == 0x02 {
            Ok(SimpleCommunicationControllerSubClass::MultiportSerial)
        } else if value == 0x03 {
            Ok(SimpleCommunicationControllerSubClass::Modem)
        } else if value == 0x04 {
            Ok(SimpleCommunicationControllerSubClass::Gpib)
        } else if value == 0x05 {
            Ok(SimpleCommunicationControllerSubClass::SmartCard)
        } else if value == 0x80 {
            Ok(SimpleCommunicationControllerSubClass::Other)
        } else {
            Err(value)
        }
    }
}

/// The subclasses that the code of one PCI class is followed by.
#[derive(Clone, Copy, Debug, PartialEq, Eq, Structural)]
pub enum BaseSystemPeripheralSubClass {
    Pic,
    Dma,
    Timer,
    Rtc,
    PciHotPlug,
    SdHost,
    Iommu,
    Other,
}

/// The `BaseSystemPeripheralSubClass` that code `v` names, if any.
pub open spec fn spec_base_system_peripheral_sub_class(v: u8) -> Option<BaseSystemPeripheralSubClass> {
    if v == 0x00 {
        Some(BaseSystemPeripheralSubClass::Pic)
    } else if v == 0x01 {
        Some(BaseSystemPeripheralSubClass::Dma)
    } else if v == 0x02 {
        Some(BaseSystemPeripheralSubClass::Timer)
    } else if v == 0x03 {
        Some(BaseSystemPeripheralSubClass::Rtc)
    } else if v == 0x04 {
        Some(BaseSystemPeripheralSubClass::PciHotPlug)
    } else if v == 0x05 {
        Some(BaseSystemPeripheralSubClass::SdHost)
    } else if v == 0x06 {
        Some(BaseSystemPeripheralSubClass::Iommu)
    } else if v == 0x80 {
        Some(BaseSystemPeripheralSubClass::Other)
    } else {
        None
    }
}

impl BaseSystemPeripheralSubClass {
    /// The subclass named by `value`; gives `value` back when it names none.
    pub fn try_from(value: u8) -> (r: Result<BaseSystemPeripheralSubClass, u8>)
        ensures
            r == (match spec_base_system_peripheral_sub_class(value) {
                Some(c) => Ok(c),
                None => Err(value),
            }),
    {
        if value == 0x00 {
            Ok(BaseSystemPeripheralSubClass::Pic)
        } else if value == 0x01 {
            Ok(BaseSystemPeripheralSubClass::Dma)
        } else if value == 0x02 {
            Ok(BaseSystemPeripheralSubClass::Timer)
        } else if value == 0x03 {
            Ok(BaseSystemPeripheralSubClass::Rtc)
        } else if value == 0x04 {
            Ok(BaseSystemPeripheralSubClass::PciHotPlug)
        } else if value == 0x05 {
            Ok(BaseSystemPeripheralSubClass::SdHost)
        } else if value == 0x06 {
            Ok(BaseSystemPeripheralSubClass::Iommu)
        } else if value == 0x80 {
            Ok(BaseSystemPeripheralSubClass::Other)
        } else {
            Err(value)
        }
    }
}

/// The subclasses that the code of one PCI class is followed by.
#[derive(Clone, Copy, Debug, PartialEq, Eq, Structural)]
pub enum InputDeviceControllerSubClass {
    Keyboard,
    DigitizerPen,
    Mouse,
    Scanner,
    Gameport,
    Other,
}

/// The `InputDeviceControllerSubClass` that code `v` names, if any.
pub open spec fn spec_input_device_controller_sub_class(v: u8) -> Option<InputDeviceControllerSubClass> {
    if v == 0x00 {
        Some(InputDeviceControllerSubClass::Keyboard)
    } else if v == 0x01 {
        Some(InputDeviceControllerSubClass::DigitizerPen)
    } else if v == 0x02 {
        Some(InputDeviceControllerSubClass::Mouse)
    } else if v == 0x03 {
        Some(InputDeviceControllerSubClass::Scanner)
    } else if v == 0x04 {
        Some(InputDeviceControllerSubClass::Gameport)
    } else if v == 0x80 {
        Some(InputDeviceControllerSubClass::Other)
    } else {
        None
    }
}

impl InputDeviceControllerSubClass {
    /// The subclass named by `value`; gives `value` back when it names none.
    pub fn try_from(value: u8) -> (r: Result<InputDeviceControllerSubClass, u8>)
        ensures
            r == (match spec_input_device_controller_sub_class(value) {
                Some(c) => Ok(c),
                None => Err(value),
            }),
    {
        if value == 0x00 {
            Ok(InputDeviceControllerSubClass::Keyboard)
        } else if value == 0x01 {
            Ok(InputDeviceControllerSubClass::DigitizerPen)
        } else if value == 0x02 {
            Ok(InputDeviceControllerSubClass::Mouse)
        } else if value == 0x03 {
            Ok(InputDeviceControllerSubClass::Scanner)
        } else if value == 0x04 {
            Ok(InputDeviceControllerSubClass::Gameport)
        } else if value == 0x80 {
            Ok(InputDeviceControllerSubClass::Other)
        } else {
            Err(value)
        }
    }
}

/// The subclasses that the code of one PCI class is followed by.
#[derive(Clone, Copy, Debug, PartialEq, Eq, Structural)]
pub enum DockingStationSubClass {
    Generic,
    Other,
}

/// The `DockingStationSubClass` that code `v` names, if any.
pub open spec fn spec_docking_station_sub_class(v: u8) -> Option<DockingStationSubClass> {
    if v == 0x00 {
        Some(DockingStationSubClass::Generic)
    } else if v == 0x80 {
        Some(DockingStationSubClass::Other)
    } else {
        None
    }
}

impl DockingStationSubClass {
    /// The subclass named by `value`; gives `value` back when it names none.
    pub fn try_from(value: u8) -> (r: Result<DockingStationSubClass, u8>)
        ensures
            r == (match spec_docking_station_sub_class(value) {
                Some(c) => Ok(c),
                None => Err(value),
            }),
    {
        if value == 0x00 {
            Ok(DockingStationSubClass::Generic)
        } else if value == 0x80 {
            Ok(DockingStationSubClass::Other)
        } else {
            Err(value)
        }
    }
}

/// The subclasses that the code of one PCI class is followed by.
#[derive(Clone, Copy, Debug, PartialEq, Eq, Structural)]
pub enum ProcessorSubClass {
    Intel386,
    Intel486,
    Pentium,
    PentiumPro,
    Alpha,
    PowerPc,
    Mips,
    CoProcessor,
    Other,
}

/// The `ProcessorSubClass` that code `v` names, if any.
pub open spec fn spec_processor_sub_class(v: u8) -> Option<ProcessorSubClass> {
    if v == 0x00 {
        Some(ProcessorSubClass::Intel386)
    } else if v == 0x01 {
        Some(ProcessorSubClass::Intel486)
    } else if v == 0x02 {
        Some(ProcessorSubClass::Pentium)
    } else if v == 0x03 {
        Some(ProcessorSubClass::PentiumPro)
    } else if v == 0x10 {
        Some(ProcessorSubClass::Alpha)
    } else if v == 0x20 {
        Some(ProcessorSubClass::PowerPc)
    } else if v == 0x30 {
        Some(ProcessorSubClass::Mips)
    } else if v == 0x40 {
        Some(ProcessorSubClass::CoProcessor)
    } else if v == 0x80 {
        Some(ProcessorSubClass::Other)
    } else {
        None
    }
}

impl ProcessorSubClass {
    /// The subclass named by `value`; gives `value` back when it names none.
    pub fn try_from(value: u8) -> (r: Result<ProcessorSubClass, u8>)
        ensures
            r == (match spec_processor_sub_class(value) {
                Some(c) => Ok(c),
                None => Err(value),
            }),
    {
        if value == 0x00 {
            Ok(ProcessorSubClass::Intel386)
        } else if value == 0x01 {
            Ok(ProcessorSubClass::Intel486)
        } else if value == 0x02 {
            Ok(ProcessorSubClass::Pentium)
        } else if value == 0x03 {
            Ok(ProcessorSubClass::PentiumPro)
        } else if value == 0x10 {
            Ok(ProcessorSubClass::Alpha)
        } else if value == 0x20 {
            Ok(ProcessorSubClass::PowerPc)
        } else if value == 0x30 {
            Ok(ProcessorSubClass::Mips)
        } else if value == 0x40 {
            Ok(ProcessorSubClass::CoProcessor)
        } else if value == 0x80 {
            Ok(ProcessorSubClass::Other)
        } else {
            Err(value)
        }
    }
}

/// The subclasses that the code of one PCI class is followed by.
#[derive(Clone, Copy, Debug, PartialEq, Eq, Structural)]
pub enum SerialBusControllerSubClass {
    FireWire,
    AccessBus,
    Ssa,
    Usb,
    FibreChannel,
    SmBus,
    InfiniBand,
    Ipmi,
    Sercos,
    CanBus,
    Other,
}

/// The `SerialBusControllerSubClass` that code `v` names, if any.
pub open spec fn spec_serial_bus_controller_sub_class(v: u8) -> Option<SerialBusControllerSubClass> {
    if v == 0x00 {
        Some(SerialBusControllerSubClass::FireWire)
    } else if v == 0x01 {
        Some(SerialBusControllerSubClass::AccessBus)
    } else if v == 0x02 {
        Some(SerialBusControllerSubClass::Ssa)
    } else if v == 0x03 {
        Some(SerialBusControllerSubClass::Usb)
    } else if v == 0x04 {
        Some(SerialBusControllerSubClass::FibreChannel)
    } else if v == 0x05 {
        Some(SerialBusControllerSubClass::SmBus)
    } else if v == 0x06 {
        Some(SerialBusControllerSubClass::InfiniBand)
    } else if v == 0x07 {
        Some(SerialBusControllerSubClass::Ipmi)
    } else if v == 0x08 {
        Some(SerialBusControllerSubClass::Sercos)
    } else if v == 0x09 {
        Some(SerialBusControllerSubClass::CanBus)
    } else if v == 0x80 {
        Some(SerialBusControllerSubClass::Other)
    } else {
        None
    }
}

impl SerialBusControllerSubClass {
    /// The subclass named by `value`; gives `value` back when it names none.
    pub fn try_from(value: u8) -> (r: Result<SerialBusControllerSubClass, u8>)
        ensures
            r == (match spec_serial_bus_controller_sub_class(value) {
                Some(c) => Ok(c),
                None => Err(value),
            }),
    {
        if value == 0x00 {
            Ok(SerialBusControllerSubClass::FireWire)
        } else if value == 0x01 {
            Ok(SerialBusControllerSubClass::AccessBus)
        } else if value == 0x02 {
            Ok(SerialBusControllerSubClass::Ssa)
        } else if value == 0x03 {
            Ok(SerialBusControllerSubClass::Usb)
        } else if value == 0x04 {
            Ok(SerialBusControllerSubClass::FibreChannel)
        } else if value == 0x05 {
            Ok(SerialBusControllerSubClass::SmBus)
        } else if value == 0x06 {
            Ok(SerialBusControllerSubClass::InfiniBand)
        } else if value == 0x07 {
            Ok(SerialBusControllerSubClass::Ipmi)
        } else if value == 0x08 {
            Ok(SerialBusControllerSubClass::Sercos)
        } else if value == 0x09 {
            Ok(SerialBusControllerSubClass::CanBus)
        } else if value == 0x80 {
            Ok(SerialBusControllerSubClass::Other)
        } else {
            Err(value)
        }
    }
}

/// The subclasses that the code of one PCI class is followed by.
#[derive(Clone, Copy, Debug, PartialEq, Eq, Structural)]
pub enum WirelessControllerSubClass {
    Irda,
    ConsumerIr,
    Rf,
    Bluetooth,
    Broadband,
    Ethernet802_1a,
    Ethernet802_1b,
    Other,
}

/// The `WirelessControllerSubClass` that code `v` names, if any.
pub open spec fn spec_wireless_controller_sub_class(v: u8) -> Option<WirelessControllerSubClass> {
    if v == 0x00 {
        Some(WirelessControllerSubClass::Irda)
    } else if v == 0x01 {
        Some(WirelessControllerSubClass::ConsumerIr)
    } else if v == 0x10 {
        Some(WirelessControllerSubClass::Rf)
    } else if v == 0x11 {
        Some(WirelessControllerSubClass::Bluetooth)
    } else if v == 0x12 {
        Some(WirelessControllerSubClass::Broadband)
    } else if v == 0x20 {
        Some(WirelessControllerSubClass::Ethernet802_1a)
    } else if v == 0x21 {
        Some(WirelessControllerSubClass::Ethernet802_1b)
    } else if v == 0x80 {
        Some(WirelessControllerSubClass::Other)
    } else {
        None
    }
}

impl WirelessControllerSubClass {
    /// The subclass named by `value`; gives `value` back when it names none.
    pub fn try_from(value: u8) -> (r: Result<WirelessControllerSubClass, u8>)
        ensures
            r == (match spec_wireless_controller_sub_class(value) {
                Some(c) => Ok(c),
                None => Err(value),
            }),
    {
        if value == 0x00 {
            Ok(WirelessControllerSubClass::Irda)
        } else if value == 0x01 {
            Ok(WirelessControllerSubClass::ConsumerIr)
        } else if value == 0x10 {
            Ok(WirelessControllerSubClass::Rf)
        } else if value == 0x11 {
            Ok(WirelessControllerSubClass::Bluetooth)
        } else if value == 0x12 {
            Ok(WirelessControllerSubClass::Broadband)
        } else if value == 0x20 {
            Ok(WirelessControllerSubClass::Ethernet802_1a)
        } else if value == 0x21 {
            Ok(WirelessControllerSubClass::Ethernet802_1b)
        } else if value == 0x80 {
            Ok(WirelessControllerSubClass::Other)
        } else {
            Err(value)
        }
    }
}

/// The subclasses that the code of one PCI class is followed by.
#[derive(Clone, Copy, Debug, PartialEq, Eq, Structural)]
pub enum SatelliteCommunicationControllerSubClass {
    Tv,
    Audio,
    Voice,
    Data,
}

/// The `SatelliteCommunicationControllerSubClass` that code `v` names, if any.
pub open spec fn spec_satellite_communication_controller_sub_class(v: u8) -> Option<SatelliteCommunicationControllerSubClass> {
    if v == 0x01 {
        Some(SatelliteCommunicationControllerSubClass::Tv)
    } else if v == 0x02 {
        Some(SatelliteCommunicationControllerSubClass::Audio)
    } else if v == 0x03 {
        Some(SatelliteCommunicationControllerSubClass::Voice)
    } else if v == 0x04 {
        Some(SatelliteCommunicationControllerSubClass::Data)
    } else {
        None
    }
}

impl SatelliteCommunicationControllerSubClass {
    /// The subclass named by `value`; gives `value` back when it names none.
    pub fn try_from(value: u8) -> (r: Result<SatelliteCommunicationControllerSubClass, u8>)
        ensures
            r == (match spec_satellite_communication_controller_sub_class(value) {
                Some(c) => Ok(c),
                None => Err(value),
            }),
    {
        if value == 0x01 {
            Ok(SatelliteCommunicationControllerSubClass::Tv)
        } else if value == 0x02 {
            Ok(SatelliteCommunicationControllerSubClass::Audio)
        } else if value == 0x03 {
            Ok(SatelliteCommunicationControllerSubClass::Voice)
        } else if value == 0x04 {
            Ok(SatelliteCommunicationControllerSubClass::Data)
        } else {
            Err(value)
        }
    }
}

/// The subclasses that the code of one PCI class is followed by.
#[derive(Clone, Copy, Debug, PartialEq, Eq, Structural)]
pub enum EncryptionControllerSubClass {
    NetworkAndComputing,
    Entertainment,
    Other,
}

/// The `EncryptionControllerSubClass` that code `v` names, if any.
pub open spec fn spec_encryption_controller_sub_class(v: u8) -> Option<EncryptionControllerSubClass> {
    if v == 0x00 {
        Some(EncryptionControllerSubClass::NetworkAndComputing)
    } else if v == 0x10 {
        Some(EncryptionControllerSubClass::Entertainment)
    } else if v == 0x80 {
        Some(EncryptionControllerSubClass::Other)
    } else {
        None
    }
}

impl EncryptionControllerSubClass {
    /// The subclass named by `value`; gives `value` back when it names none.
    pub fn try_from(value: u8) -> (r: Result<EncryptionControllerSubClass, u8>)
        ensures
            r == (match spec_encryption_controller_sub_class(value) {
                Some(c) => Ok(c),
                None => Err(value),
            }),
    {
        if value == 0x00 {
            Ok(EncryptionControllerSubClass::NetworkAndComputing)
        } else if value == 0x10 {
            Ok(EncryptionControllerSubClass::Entertainment)
        } else if value == 0x80 {
            Ok(EncryptionControllerSubClass::Other)
        } else {
            Err(value)
        }
    }
}

/// The subclasses that the code of one PCI class is followed by.
#[derive(Clone, Copy, Debug, PartialEq, Eq, Structural)]
pub enum SignalProcessingControllerSubClass {
    DpioModules,
    PerformanceCounters,
    CommunicationSynchronizer,
    SignalProcessingManagement,
    Other,
}

/// The `SignalProcessingControllerSubClass` that code `v` names, if any.
pub open spec fn spec_signal_processing_controller_sub_class(v: u8) -> Option<SignalProcessingControllerSubClass> {
    if v == 0x00 {
        Some(SignalProcessingControllerSubClass::DpioModules)
    } else if v == 0x01 {
        Some(SignalProcessingControllerSubClass::PerformanceCounters)
    } else if v == 0x10 {
        Some(SignalProcessingControllerSubClass::CommunicationSynchronizer)
    } else if v == 0x20 {
        Some(SignalProcessingControllerSubClass::SignalProcessingManagement)
    } else if v == 0x80 {
        Some(SignalProcessingControllerSubClass::Other)
    } else {
        None
    }
}

impl SignalProcessingControllerSubClass {
    /// The subclass named by `value`; gives `value` back when it names none.
    pub fn try_from(value: u8) -> (r: Result<SignalProcessingControllerSubClass, u8>)
        ensures
            r == (match spec_signal_processing_controller_sub_class(value) {
                Some(c) => Ok(c),
                None => Err(value),
            }),
    {
        if value == 0x00 {
            Ok(SignalProcessingControllerSubClass::DpioModules)
        } else if value == 0x01 {
            Ok(SignalProcessingControllerSubClass::PerformanceCounters)
        } else if value == 0x10 {
            Ok(SignalProcessingControllerSubClass::CommunicationSynchronizer)
        } else if value == 0x20 {
            Ok(SignalProcessingControllerSubClass::SignalProcessingManagement)
        } else if value == 0x80 {
            Ok(SignalProcessingControllerSubClass::Other)
        } else {
            Err(value)
        }
    }
}

/// The subclass of a class that has none: no code names one, and no value of it is made
/// outside this module.
#[derive(Clone, Copy, Debug, PartialEq, Eq, Structural)]
pub struct NoSubClass {
    none: bool,
}

impl NoSubClass {
    /// Always gives `value` back: no code names a subclass here.
    pub fn try_from(value: u8) -> (r: Result<NoSubClass, u8>)
        ensures
            r == Err::<NoSubClass, u8>(value),
    {
        Err(value)
    }
}

/// A PCI class, with the subclass under it.
#[derive(Clone, Copy, Debug, PartialEq, Eq, Structural)]
pub enum ClassCode {
    Unclassified(UnclassifiedSubClass),
    MassStorageController(MassStorageControllerSubClass),
    NetworkController(NetworkControllerSubClass),
    DisplayController(DisplayControllerSubClass),
    MultimediaController(MultimediaControllerSubClass),
    MemoryController(MemoryControllerSubClass),
    Bridge(BridgeSubClass),
    SimpleCommunicationController(SimpleCommunicationControllerSubClass),
    BaseSystemPerippheral(BaseSystemPeripheralSubClass),
    InputDeviceController(InputDeviceControllerSubClass),
    DockingStation(DockingStationSubClass),
    Processer(ProcessorSubClass),
    SerialBusController(SerialBusControllerSubClass),
    WirelessController(WirelessControllerSubClass),
    IntelligentController(InputDeviceControllerSubClass),
    SatelliteCommunication(SatelliteCommunicationControllerSubClass),
    EncryptionController(EncryptionControllerSubClass),
    SignalProcessingController(SignalProcessingControllerSubClass),
    ProcesserAccelerator(NoSubClass),
    UnassignedClassVendor(NoSubClass),
}

/// The class that codes `class` and `subclass` name: the class code is tried first, and
/// its error is the class code; then the subclass code, whose error is the subclass code.
pub open spec fn spec_class_code(class: u8, subclass: u8) -> Result<ClassCode, u8> {
    if class == 0x00 {
        match spec_unclassified_sub_class(subclass) {
            Some(s) => Ok(ClassCode::Unclassified(s)),
            None => Err(subclass),
        }
    } else if class == 0x01 {
        match spec_mass_storage_controller_sub_class(subclass) {
            Some(s) => Ok(ClassCode::MassStorageController(s)),
            None => Err(subclass),
        }
    } else if class == 0x02 {
        match spec_network_controller_sub_class(subclass) {
            Some(s) => Ok(ClassCode::NetworkController(s)),
            None => Err(subclass),
        }
    } else if class == 0x03 {
        match spec_display_controller_sub_class(subclass) {
            Some(s) => Ok(ClassCode::DisplayController(s)),
            None => Err(subclass),
        }
    } else if class == 0x04 {
        match spec_multimedia_controller_sub_class(subclass) {
            Some(s) => Ok(ClassCode::MultimediaController(s)),
            None => Err(subclass),
        }
    } else if class == 0x05 {
        match spec_memory_controller_sub_class(subclass) {
            Some(s) => Ok(ClassCode::MemoryController(s)),
            None => Err(subclass),
        }
    } else if class == 0x06 {
        match spec_bridge_sub_class(subclass) {
            Some(s) => Ok(ClassCode::Bridge(s)),
            None => Err(subclass),
        }
    } else if class == 0x07 {
        match spec_simple_communication_controller_sub_class(subclass) {
            Some(s) => Ok(ClassCode::SimpleCommunicationController(s)),
            None => Err(subclass),
        }
    } else if class == 0x08 {
        match spec_base_system_peripheral_sub_class(subclass) {
            Some(s) => Ok(ClassCode::BaseSystemPerippheral(s)),
            None => Err(subclass),
        }
    } else if class == 0x09 {
        match spec_input_device_controller_sub_class(subclass) {
            Some(s) => Ok(ClassCode::InputDeviceController(s)),
            None => Err(subclass),
        }
    } else if class == 0x0a {
        match spec_docking_station_sub_class(subclass) {
            Some(s) => Ok(ClassCode::DockingStation(s)),
            None => Err(subclass),
        }
    } else if class == 0x0b {
        match spec_processor_sub_class(subclass) {
            Some(s) => Ok(ClassCode::Processer(s)),
            None => Err(subclass),
        }
    } else if class == 0x0c {
        match spec_serial_bus_controller_sub_class(subclass) {
            Some(s) => Ok(ClassCode::SerialBusController(s)),
            None => Err(subclass),
        }
    } else if class == 0x0d {
        match spec_wireless_controller_sub_class(subclass) {
            Some(s) => Ok(ClassCode::WirelessController(s)),
            None => Err(subclass),
        }
    } else if class == 0x0e {
        match spec_input_device_controller_sub_class(subclass) {
            Some(s) => Ok(ClassCode::IntelligentController(s)),
            None => Err(subclass),
        }
    } else if class == 0x0f {
        match spec_satellite_communication_controller_sub_class(subclass) {
            Some(s) => Ok(ClassCode::SatelliteCommunication(s)),
            None => Err(subclass),
        }
    } else if class == 0x10 {
        match spec_encryption_controller_sub_class(subclass) {
            Some(s) => Ok(ClassCode::EncryptionController(s)),
            None => Err(subclass),
        }
    } else if class == 0x11 {
        match spec_signal_processing_controller_sub_class(subclass) {
            Some(s) => Ok(ClassCode::SignalProcessingController(s)),
            None => Err(subclass),
        }
    } else if class == 0x12 {
        Err(subclass)
    } else if class == 0xff {
        Err(subclass)
    } else {
        Err(class)
    }
}

impl ClassCode {
    /// The class named by the pair (class code, subclass code).
    pub fn try_from(codes: (u8, u8)) -> (r: Result<ClassCode, u8>)
        ensures
            r == spec_class_code(codes.0, codes.1),
    {
        let (class, subclass) = codes;
        if class == 0x00 {
            match UnclassifiedSubClass::try_from(subclass) {
                Ok(s) => Ok(ClassCode::Unclassified(s)),
                Err(e) => Err(e),
            }
        } else if class == 0x01 {
            match MassStorageControllerSubClass::try_from(subclass) {
                Ok(s) => Ok(ClassCode::MassStorageController(s)),
                Err(e) => Err(e),
            }
        } else if class == 0x02 {
            match NetworkControllerSubClass::try_from(subclass) {
                Ok(s) => Ok(ClassCode::NetworkController(s)),
                Err(e) => Err(e),
            }
        } else if class == 0x03 {
            match DisplayControllerSubClass::try_from(subclass) {
                Ok(s) => Ok(ClassCode::DisplayController(s)),
                Err(e) => Err(e),
            }
        } else if class == 0x04 {
            match MultimediaControllerSubClass::try_from(subclass) {
                Ok(s) => Ok(ClassCode::MultimediaController(s)),
                Err(e) => Err(e),
            }
        } else if class == 0x05 {
            match MemoryControllerSubClass::try_from(subclass) {
                Ok(s) => Ok(ClassCode::MemoryController(s)),
                Err(e) => Err(e),
            }
        } else if class == 0x06 {
            match BridgeSubClass::try_from(subclass) {
                Ok(s) => Ok(ClassCode::Bridge(s)),
                Err(e) => Err(e),
            }
        } else if class == 0x07 {
            match SimpleCommunicationControllerSubClass::try_from(subclass) {
                Ok(s) => Ok(ClassCode::SimpleCommunicationController(s)),
                Err(e) => Err(e),
            }
        } else if class == 0x08 {
            match BaseSystemPeripheralSubClass::try_from(subclass) {
                Ok(s) => Ok(ClassCode::BaseSystemPerippheral(s)),
                Err(e) => Err(e),
            }
        } else if class == 0x09 {
            match InputDeviceControllerSubClass::try_from(subclass) {
                Ok(s) => Ok(ClassCode::InputDeviceController(s)),
                Err(e) => Err(e),
            }
        } else if class == 0x0a {
            match DockingStationSubClass::try_from(subclass) {
                Ok(s) => Ok(ClassCode::DockingStation(s)),
                Err(e) => Err(e),
            }
        } else if class == 0x0b {
            match ProcessorSubClass::try_from(subclass) {
                Ok(s) => Ok(ClassCode::Processer(s)),
                Err(e) => Err(e),
            }
        } else if class == 0x0c {
            match SerialBusControllerSubClass::try_from(subclass) {
                Ok(s) => Ok(ClassCode::SerialBusController(s)),
                Err(e) => Err(e),
            }
        } else if class == 0x0d {
            match WirelessControllerSubClass::try_from(subclass) {
                Ok(s) => Ok(ClassCode::WirelessController(s)),
                Err(e) => Err(e),
            }
        } else if class == 0x0e {
            match InputDeviceControllerSubClass::try_from(subclass) {
                Ok(s) => Ok(ClassCode::IntelligentController(s)),
                Err(e) => Err(e),
            }
        } else if class == 0x0f {
            match SatelliteCommunicationControllerSubClass::try_from(subclass) {
                Ok(s) => Ok(ClassCode::SatelliteCommunication(s)),
                Err(e) => Err(e),
            }
        } else if class == 0x10 {
            match EncryptionControllerSubClass::try_from(subclass) {
                Ok(s) => Ok(ClassCode::EncryptionController(s)),
                Err(e) => Err(e),
            }
        } else if class == 0x11 {
            match SignalProcessingControllerSubClass::try_from(subclass) {
                Ok(s) => Ok(ClassCode::SignalProcessingController(s)),
                Err(e) => Err(e),
            }
        } else if class == 0x12 {
            match NoSubClass::try_from(subclass) {
                Ok(s) => Ok(ClassCode::ProcesserAccelerator(s)),
                Err(e) => Err(e),
            }
        } else if class == 0xff {
            match NoSubClass::try_from(subclass) {
                Ok(s) => Ok(ClassCode::UnassignedClassVendor(s)),
                Err(e) => Err(e),
            }
        } else {
            Err(class)
        }
    }
}


/// The code of subclass `c`, as the PCI specification numbers it.
pub open spec fn unclassified_sub_class_code(c: UnclassifiedSubClass) -> u8 {
    match c {
        UnclassifiedSubClass::NonVgaCompatible => 0x00,
        UnclassifiedSubClass::VgaCompatible => 0x01,
    }
}

/// Law: the code `v` read as a `UnclassifiedSubClass` names the subclass whose code it is, and each
/// subclass is read back from its code.
pub proof fn lemma_unclassified_sub_class_codes(v: u8, c: UnclassifiedSubClass)
    ensures
        spec_unclassified_sub_class(v) matches Some(d) ==> unclassified_sub_class_code(d) == v,
        spec_unclassified_sub_class(unclassified_sub_class_code(c)) == Some(c),
{
}

/// The code of subclass `c`, as the PCI specification numbers it.
pub open spec fn mass_storage_controller_sub_class_code(c: MassStorageControllerSubClass) -> u8 {
    match c {
        MassStorageControllerSubClass::ScsiBus => 0x00,
        MassStorageControllerSubClass::Ide => 0x01,
        MassStorageControllerSubClass::FloppyDisk => 0x02,
        MassStorageControllerSubClass::IpiBus => 0x03,
        MassStorageControllerSubClass::Raid => 0x04,
        MassStorageControllerSubClass::Ata => 0x05,
        MassStorageControllerSubClass::SerialAta => 0x06,
        MassStorageControllerSubClass::SerialAttachedScsi => 0x07,
        MassStorageControllerSubClass::NonVolatileMemory => 0x08,
        MassStorageControllerSubClass::Other => 0x80,
    }
}

/// Law: the code `v` read as a `MassStorageControllerSubClass` names the subclass whose code it is, and each
/// subclass is read back from its code.
pub proof fn lemma_mass_storage_controller_sub_class_codes(v: u8, c: MassStorageControllerSubClass)
    ensures
        spec_mass_storage_controller_sub_class(v) matches Some(d) ==> mass_storage_controller_sub_class_code(d) == v,
        spec_mass_storage_controller_sub_class(mass_storage_controller_sub_class_code(c)) == Some(c),
{
}

/// The code of subclass `c`, as the PCI specification numbers it.
pub open spec fn network_controller_sub_class_code(c: NetworkControllerSubClass) -> u8 {
    match c {
        NetworkControllerSubClass::Ethernet => 0x00,
        NetworkControllerSubClass::TokenRing => 0x01,
        NetworkControllerSubClass::Fddi => 0x02,
        NetworkControllerSubClass::Atm => 0x03,
        NetworkControllerSubClass::Isdn => 0x04,
        NetworkControllerSubClass::WorldFip => 0x05,
        NetworkControllerSubClass::PicmgMultiComputing => 0x06,
        NetworkControllerSubClass::Infiniband => 0x07,
        NetworkControllerSubClass::Fabric => 0x08,
        NetworkControllerSubClass::Other => 0x80,
    }
}

/// Law: the code `v` read as a `NetworkControllerSubClass` names the subclass whose code it is, and each
/// subclass is read back from its code.
pub proof fn lemma_network_controller_sub_class_codes(v: u8, c: NetworkControllerSubClass)
    ensures
        spec_network_controller_sub_class(v) matches Some(d) ==> network_controller_sub_class_code(d) == v,
        spec_network_controller_sub_class(network_controller_sub_class_code(c)) == Some(c),
{
}

/// The code of subclass `c`, as the PCI specification numbers it.
pub open spec fn display_controller_sub_class_code(c: DisplayControllerSubClass) -> u8 {
    match c {
        DisplayControllerSubClass::VgaCompatible => 0x00,
        DisplayControllerSubClass::Xga => 0x01,
        DisplayControllerSubClass::ThreeD => 0x02,
        DisplayControllerSubClass::Other => 0x80,
    }
}

/// Law: the code `v` read as a `DisplayControllerSubClass` names the subclass whose code it is, and each
/// subclass is read back from its code.
pub proof fn lemma_display_controller_sub_class_codes(v: u8, c: DisplayControllerSubClass)
    ensures
        spec_display_controller_sub_class(v) matches Some(d) ==> display_controller_sub_class_code(d) == v,
        spec_display_controller_sub_class(display_controller_sub_class_code(c)) == Some(c),
{
}

/// The code of subclass `c`, as the PCI specification numbers it.
pub open spec fn multimedia_controller_sub_class_code(c: MultimediaControllerSubClass) -> u8 {
    match c {
        MultimediaControllerSubClass::Video => 0x00,
        MultimediaControllerSubClass::Audio => 0x01,
        MultimediaControllerSubClass::ComputerTelephony => 0x02,
        MultimediaControllerSubClass::AudioDevice => 0x03,
        MultimediaControllerSubClass::Other => 0x80,
    }
}

/// Law: the code `v` read as a `MultimediaControllerSubClass` names the subclass whose code it is, and each
/// subclass is read back from its code.
pub proof fn lemma_multimedia_controller_sub_class_codes(v: u8, c: MultimediaControllerSubClass)
    ensures
        spec_multimedia_controller_sub_class(v) matches Some(d) ==> multimedia_controller_sub_class_code(d) == v,
        spec_multimedia_controller_sub_class(multimedia_controller_sub_class_code(c)) == Some(c),
{
}

/// The code of subclass `c`, as the PCI specification numbers it.
pub open spec fn memory_controller_sub_class_code(c: MemoryControllerSubClass) -> u8 {
    match c {
        MemoryControllerSubClass::Ram => 0x00,
        MemoryControllerSubClass::Flash => 0x01,
        MemoryControllerSubClass::Other => 0x80,
    }
}

/// Law: the code `v` read as a `MemoryControllerSubClass` names the subclass whose code it is, and each
/// subclass is read back from its code.
pub proof fn lemma_memory_controller_sub_class_codes(v: u8, c: MemoryControllerSubClass)
    ensures
        spec_memory_controller_sub_class(v) matches Some(d) ==> memory_controller_sub_class_code(d) == v,
        spec_memory_controller_sub_class(memory_controller_sub_class_code(c)) == Some(c),
{
}

/// The code of subclass `c`, as the PCI specification numbers it.
pub open spec fn bridge_sub_class_code(c: BridgeSubClass) -> u8 {
    match c {
        BridgeSubClass::Host => 0x00,
        BridgeSubClass::Isa => 0x01,
        BridgeSubClass::Eisa => 0x02,
        BridgeSubClass::Mca => 0x03,
        BridgeSubClass::PciToPci => 0x04,
        BridgeSubClass::Pcmcia => 0x05,
        BridgeSubClass::NuBus => 0x06,
        BridgeSubClass::CardBus => 0x07,
        BridgeSubClass::RaceWay => 0x08,
        BridgeSubClass::SemiTransparentPciToPci => 0x09,
        BridgeSubClass::InfiniBandToPciHost => 0x0a,
        BridgeSubClass::Other => 0x80,
    }
}

/// Law: the code `v` read as a `BridgeSubClass` names the subclass whose code it is, and each
/// subclass is read back from its code.
pub proof fn lemma_bridge_sub_class_codes(v: u8, c: BridgeSubClass)
    ensures
        spec_bridge_sub_class(v) matches Some(d) ==> bridge_sub_class_code(d) == v,
        spec_bridge_sub_class(bridge_sub_class_code(c)) == Some(c),
{
}

/// The code of subclass `c`, as the PCI specification numbers it.
pub open spec fn simple_communication_controller_sub_class_code(c: SimpleCommunicationControllerSubClass) -> u8 {
    match c {
        SimpleCommunicationControllerSubClass::Serial => 0x00,
        SimpleCommunicationControllerSubClass::Parallel => 0x01,
        SimpleCommunicationControllerSubClass::MultiportSerial => 0x02,
        SimpleCommunicationControllerSubClass::Modem => 0x03,
        SimpleCommunicationControllerSubClass::Gpib => 0x04,
        SimpleCommunicationControllerSubClass::SmartCard => 0x05,
        SimpleCommunicationControllerSubClass::Other => 0x80,
    }
}

/// Law: the code `v` read as a `SimpleCommunicationControllerSubClass` names the subclass whose code it is, and each
/// subclass is read back from its code.
pub proof fn lemma_simple_communication_controller_sub_class_codes(v: u8, c: SimpleCommunicationControllerSubClass)
    ensures
        spec_simple_communication_controller_sub_class(v) matches Some(d) ==> simple_communication_controller_sub_class_code(d) == v,
        spec_simple_communication_controller_sub_class(simple_communication_controller_sub_class_code(c)) == Some(c),
{
}

/// The code of subclass `c`, as the PCI specification numbers it.
pub open spec fn base_system_peripheral_sub_class_code(c: BaseSystemPeripheralSubClass) -> u8 {
    match c {
        BaseSystemPeripheralSubClass::Pic => 0x00,
        BaseSystemPeripheralSubClass::Dma => 0x01,
        BaseSystemPeripheralSubClass::Timer => 0x02,
        BaseSystemPeripheralSubClass::Rtc => 0x03,
        BaseSystemPeripheralSubClass::PciHotPlug => 0x04,
        BaseSystemPeripheralSubClass::SdHost => 0x05,
        BaseSystemPeripheralSubClass::Iommu => 0x06,
        BaseSystemPeripheralSubClass::Other => 0x80,
    }
}

/// Law: the code `v` read as a `BaseSystemPeripheralSubClass` names the subclass whose code it is, and each
/// subclass is read back from its code.
pub proof fn lemma_base_system_peripheral_sub_class_codes(v: u8, c: BaseSystemPeripheralSubClass)
    ensures
        spec_base_system_peripheral_sub_class(v) matches Some(d) ==> base_system_peripheral_sub_class_code(d) == v,
        spec_base_system_peripheral_sub_class(base_system_peripheral_sub_class_code(c)) == Some(c),
{
}

/// The code of subclass `c`, as the PCI specification numbers it.
pub open spec fn input_device_controller_sub_class_code(c: InputDeviceControllerSubClass) -> u8 {
    match c {
        InputDeviceControllerSubClass::Keyboard => 0x00,
        InputDeviceControllerSubClass::DigitizerPen => 0x01,
        InputDeviceControllerSubClass::Mouse => 0x02,
        InputDeviceControllerSubClass::Scanner => 0x03,
        InputDeviceControllerSubClass::Gameport => 0x04,
        InputDeviceControllerSubClass::Other => 0x80,
    }
}

/// Law: the code `v` read as a `InputDeviceControllerSubClass` names the subclass whose code it is, and each
/// subclass is read back from its code.
pub proof fn lemma_input_device_controller_sub_class_codes(v: u8, c: InputDeviceControllerSubClass)
    ensures
        spec_input_device_controller_sub_class(v) matches Some(d) ==> input_device_controller_sub_class_code(d) == v,
        spec_input_device_controller_sub_class(input_device_controller_sub_class_code(c)) == Some(c),
{
}

/// The code of subclass `c`, as the PCI specification numbers it.
pub open spec fn docking_station_sub_class_code(c: DockingStationSubClass) -> u8 {
    match c {
        DockingStationSubClass::Generic => 0x00,
        DockingStationSubClass::Other => 0x80,
    }
}

/// Law: the code `v` read as a `DockingStationSubClass` names the subclass whose code it is, and each
/// subclass is read back from its code.
pub proof fn lemma_docking_station_sub_class_codes(v: u8, c: DockingStationSubClass)
    ensures
        spec_docking_station_sub_class(v) matches Some(d) ==> docking_station_sub_class_code(d) == v,
        spec_docking_station_sub_class(docking_station_sub_class_code(c)) == Some(c),
{
}

/// The code of subclass `c`, as the PCI specification numbers it.
pub open spec fn processor_sub_class_code(c: ProcessorSubClass) -> u8 {
    match c {
        ProcessorSubClass::Intel386 => 0x00,
        ProcessorSubClass::Intel486 => 0x01,
        ProcessorSubClass::Pentium => 0x02,
        ProcessorSubClass::PentiumPro => 0x03,
        ProcessorSubClass::Alpha => 0x10,
        ProcessorSubClass::PowerPc => 0x20,
        ProcessorSubClass::Mips => 0x30,
        ProcessorSubClass::CoProcessor => 0x40,
        ProcessorSubClass::Other => 0x80,
    }
}

/// Law: the code `v` read as a `ProcessorSubClass` names the subclass whose code it is, and each
/// subclass is read back from its code.
pub proof fn lemma_processor_sub_class_codes(v: u8, c: ProcessorSubClass)
    ensures
        spec_processor_sub_class(v) matches Some(d) ==> processor_sub_class_code(d) == v,
        spec_processor_sub_class(processor_sub_class_code(c)) == Some(c),
{
}

/// The code of subclass `c`, as the PCI specification numbers it.
pub open spec fn serial_bus_controller_sub_class_code(c: SerialBusControllerSubClass) -> u8 {
    match c {
        SerialBusControllerSubClass::FireWire => 0x00,
        SerialBusControllerSubClass::AccessBus => 0x01,
        SerialBusControllerSubClass::Ssa => 0x02,
        SerialBusControllerSubClass::Usb => 0x03,
        SerialBusControllerSubClass::FibreChannel => 0x04,
        SerialBusControllerSubClass::SmBus => 0x05,
        SerialBusControllerSubClass::InfiniBand => 0x06,
        SerialBusControllerSubClass::Ipmi => 0x07,
        SerialBusControllerSubClass::Sercos => 0x08,
        SerialBusControllerSubClass::CanBus => 0x09,
        SerialBusControllerSubClass::Other => 0x80,
    }
}

/// Law: the code `v` read as a `SerialBusControllerSubClass` names the subclass whose code it is, and each
/// subclass is read back from its code.
pub proof fn lemma_serial_bus_controller_sub_class_codes(v: u8, c: SerialBusControllerSubClass)
    ensures
        spec_serial_bus_controller_sub_class(v) matches Some(d) ==> serial_bus_controller_sub_class_code(d) == v,
        spec_serial_bus_controller_sub_class(serial_bus_controller_sub_class_code(c)) == Some(c),
{
}

/// The code of subclass `c`, as the PCI specification numbers it.
pub open spec fn wireless_controller_sub_class_code(c: WirelessControllerSubClass) -> u8 {
    match c {
        WirelessControllerSubClass::Irda => 0x00,
        WirelessControllerSubClass::ConsumerIr => 0x01,
        WirelessControllerSubClass::Rf => 0x10,
        WirelessControllerSubClass::Bluetooth => 0x11,
        WirelessControllerSubClass::Broadband => 0x12,
        WirelessControllerSubClass::Ethernet802_1a => 0x20,
        WirelessControllerSubClass::Ethernet802_1b => 0x21,
        WirelessControllerSubClass::Other => 0x80,
    }
}

/// Law: the code `v` read as a `WirelessControllerSubClass` names the subclass whose code it is, and each
/// subclass is read back from its code.
pub proof fn lemma_wireless_controller_sub_class_codes(v: u8, c: WirelessControllerSubClass)
    ensures
        spec_wireless_controller_sub_class(v) matches Some(d) ==> wireless_controller_sub_class_code(d) == v,
        spec_wireless_controller_sub_class(wireless_controller_sub_class_code(c)) == Some(c),
{
}

/// The code of subclass `c`, as the PCI specification numbers it.
pub open spec fn satellite_communication_controller_sub_class_code(c: SatelliteCommunicationControllerSubClass) -> u8 {
    match c {
        SatelliteCommunicationControllerSubClass::Tv => 0x01,
        SatelliteCommunicationControllerSubClass::Audio => 0x02,
        SatelliteCommunicationControllerSubClass::Voice => 0x03,
        SatelliteCommunicationControllerSubClass::Data => 0x04,
    }
}

/// Law: the code `v` read as a `SatelliteCommunicationControllerSubClass` names the subclass whose code it is, and each
/// subclass is read back from its code.
pub proof fn lemma_satellite_communication_controller_sub_class_codes(v: u8, c: SatelliteCommunicationControllerSubClass)
    ensures
        spec_satellite_communication_controller_sub_class(v) matches Some(d) ==> satellite_communication_controller_sub_class_code(d) == v,
        spec_satellite_communication_controller_sub_class(satellite_communication_controller_sub_class_code(c)) == Some(c),
{
}

/// The code of subclass `c`, as the PCI specification numbers it.
pub open spec fn encryption_controller_sub_class_code(c: EncryptionControllerSubClass) -> u8 {
    match c {
        EncryptionControllerSubClass::NetworkAndComputing => 0x00,
        EncryptionControllerSubClass::Entertainment => 0x10,
        EncryptionControllerSubClass::Other => 0x80,
    }
}

/// Law: the code `v` read as a `EncryptionControllerSubClass` names the subclass whose code it is, and each
/// subclass is read back from its code.
pub proof fn lemma_encryption_controller_sub_class_codes(v: u8, c: EncryptionControllerSubClass)
    ensures
        spec_encryption_controller_sub_class(v) matches Some(d) ==> encryption_controller_sub_class_code(d) == v,
        spec_encryption_controller_sub_class(encryption_controller_sub_class_code(c)) == Some(c),
{
}

/// The code of subclass `c`, as the PCI specification numbers it.
pub open spec fn signal_processing_controller_sub_class_code(c: SignalProcessingControllerSubClass) -> u8 {
    match c {
        SignalProcessingControllerSubClass::DpioModules => 0x00,
        SignalProcessingControllerSubClass::PerformanceCounters => 0x01,
        SignalProcessingControllerSubClass::CommunicationSynchronizer => 0x10,
        SignalProcessingControllerSubClass::SignalProcessingManagement => 0x20,
        SignalProcessingControllerSubClass::Other => 0x80,
    }
}

/// Law: the code `v` read as a `SignalProcessingControllerSubClass` names the subclass whose code it is, and each
/// subclass is read back from its code.
pub proof fn lemma_signal_processing_controller_sub_class_codes(v: u8, c: SignalProcessingControllerSubClass)
    ensures
        spec_signal_processing_controller_sub_class(v) matches Some(d) ==> signal_processing_controller_sub_class_code(d) == v,
        spec_signal_processing_controller_sub_class(signal_processing_controller_sub_class_code(c)) == Some(c),
{
}

/// The class code of `c`, as the PCI specification numbers it.
pub open spec fn class_number(c: ClassCode) -> u8 {
    match c {
        ClassCode::Unclassified(_) => 0x00,
        ClassCode::MassStorageController(_) => 0x01,
        ClassCode::NetworkController(_) => 0x02,
        ClassCode::DisplayController(_) => 0x03,
        ClassCode::MultimediaController(_) => 0x04,
        ClassCode::MemoryController(_) => 0x05,
        ClassCode::Bridge(_) => 0x06,
        ClassCode::SimpleCommunicationController(_) => 0x07,
        ClassCode::BaseSystemPerippheral(_) => 0x08,
        ClassCode::InputDeviceController(_) => 0x09,
        ClassCode::DockingStation(_) => 0x0a,
        ClassCode::Processer(_) => 0x0b,
        ClassCode::SerialBusController(_) => 0x0c,
        ClassCode::WirelessController(_) => 0x0d,
        ClassCode::IntelligentController(_) => 0x0e,
        ClassCode::SatelliteCommunication(_) => 0x0f,
        ClassCode::EncryptionController(_) => 0x10,
        ClassCode::SignalProcessingController(_) => 0x11,
        ClassCode::ProcesserAccelerator(_) => 0x12,
        ClassCode::UnassignedClassVendor(_) => 0xff,
    }
}

/// The subclass code of `c` (0 for the classes that have no subclasses).
pub open spec fn subclass_number(c: ClassCode) -> u8 {
    match c {
        ClassCode::Unclassified(s) => unclassified_sub_class_code(s),
        ClassCode::MassStorageController(s) => mass_storage_controller_sub_class_code(s),
        ClassCode::NetworkController(s) => network_controller_sub_class_code(s),
        ClassCode::DisplayController(s) => display_controller_sub_class_code(s),
        ClassCode::MultimediaController(s) => multimedia_controller_sub_class_code(s),
        ClassCode::MemoryController(s) => memory_controller_sub_class_code(s),
        ClassCode::Bridge(s) => bridge_sub_class_code(s),
        ClassCode::SimpleCommunicationController(s) => simple_communication_controller_sub_class_code(s),
        ClassCode::BaseSystemPerippheral(s) => base_system_peripheral_sub_class_code(s),
        ClassCode::InputDeviceController(s) => input_device_controller_sub_class_code(s),
        ClassCode::DockingStation(s) => docking_station_sub_class_code(s),
        ClassCode::Processer(s) => processor_sub_class_code(s),
        ClassCode::SerialBusController(s) => serial_bus_controller_sub_class_code(s),
        ClassCode::WirelessController(s) => wireless_controller_sub_class_code(s),
        ClassCode::IntelligentController(s) => input_device_controller_sub_class_code(s),
        ClassCode::SatelliteCommunication(s) => satellite_communication_controller_sub_class_code(s),
        ClassCode::EncryptionController(s) => encryption_controller_sub_class_code(s),
        ClassCode::SignalProcessingController(s) => signal_processing_controller_sub_class_code(s),
        ClassCode::ProcesserAccelerator(_) => 0,
        ClassCode::UnassignedClassVendor(_) => 0,
    }
}

/// Whether class `c` has subclasses, so that some pair of codes names it.
pub open spec fn has_subclasses(c: ClassCode) -> bool {
    !(c is ProcesserAccelerator || c is UnassignedClassVendor)
}

/// Law: a pair of codes that is read as a class is that class's class code and subclass code,
/// and every class with subclasses is read back from its pair of codes.
pub proof fn lemma_class_codes(class: u8, subclass: u8, c: ClassCode)
    ensures
        spec_class_code(class, subclass) matches Ok(k) ==> class_number(k) == class && subclass_number(k) == subclass,
        has_subclasses(c) ==> spec_class_code(class_number(c), subclass_number(c)) == Ok::<ClassCode, u8>(c),
{
    lemma_unclassified_sub_class_codes(subclass, UnclassifiedSubClass::NonVgaCompatible);
    lemma_mass_storage_controller_sub_class_codes(subclass, MassStorageControllerSubClass::ScsiBus);
    lemma_network_controller_sub_class_codes(subclass, NetworkControllerSubClass::Ethernet);
    lemma_display_controller_sub_class_codes(subclass, DisplayControllerSubClass::VgaCompatible);
    lemma_multimedia_controller_sub_class_codes(subclass, MultimediaControllerSubClass::Video);
    lemma_memory_controller_sub_class_codes(subclass, MemoryControllerSubClass::Ram);
    lemma_bridge_sub_class_codes(subclass, BridgeSubClass::Host);
    lemma_simple_communication_controller_sub_class_codes(subclass, SimpleCommunicationControllerSubClass::Serial);
    lemma_base_system_peripheral_sub_class_codes(subclass, BaseSystemPeripheralSubClass::Pic);
    lemma_input_device_controller_sub_class_codes(subclass, InputDeviceControllerSubClass::Keyboard);
    lemma_docking_station_sub_class_codes(subclass, DockingStationSubClass::Generic);
    lemma_processor_sub_class_codes(subclass, ProcessorSubClass::Intel386);
    lemma_serial_bus_controller_sub_class_codes(subclass, SerialBusControllerSubClass::FireWire);
    lemma_wireless_controller_sub_class_codes(subclass, WirelessControllerSubClass::Irda);
    lemma_satellite_communication_controller_sub_class_codes(subclass, SatelliteCommunicationControllerSubClass::Tv);
    lemma_encryption_controller_sub_class_codes(subclass, EncryptionControllerSubClass::NetworkAndComputing);
    lemma_signal_processing_controller_sub_class_codes(subclass, SignalProcessingControllerSubClass::DpioModules);
    match c {
        ClassCode::Unclassified(s) => {
            lemma_unclassified_sub_class_codes(subclass, s);
        },
        ClassCode::MassStorageController(s) => {
            lemma_mass_storage_controller_sub_class_codes(subclass, s);
        },
        ClassCode::NetworkController(s) => {
            lemma_network_controller_sub_class_codes(subclass, s);
        },
        ClassCode::DisplayController(s) => {
            lemma_display_controller_sub_class_codes(subclass, s);
        },
        ClassCode::MultimediaController(s) => {
            lemma_multimedia_controller_sub_class_codes(subclass, s);
        },
        ClassCode::MemoryController(s) => {
            lemma_memory_controller_sub_class_codes(subclass, s);
        },
        ClassCode::Bridge(s) => {
            lemma_bridge_sub_class_codes(subclass, s);
        },
        ClassCode::SimpleCommunicationController(s) => {
            lemma_simple_communication_controller_sub_class_codes(subclass, s);
        },
        ClassCode::BaseSystemPerippheral(s) => {
            lemma_base_system_peripheral_sub_class_codes(subclass, s);
        },
        ClassCode::InputDeviceController(s) => {
            lemma_input_device_controller_sub_class_codes(subclass, s);
        },
        ClassCode::DockingStation(s) => {
            lemma_docking_station_sub_class_codes(subclass, s);
        },
        ClassCode::Processer(s) => {
            lemma_processor_sub_class_codes(subclass, s);
        },
        ClassCode::SerialBusController(s) => {
            lemma_serial_bus_controller_sub_class_codes(subclass, s);
        },
        ClassCode::WirelessController(s) => {
            lemma_wireless_controller_sub_class_codes(subclass, s);
        },
        ClassCode::IntelligentController(s) => {
            lemma_input_device_controller_sub_class_codes(subclass, s);
        },
        ClassCode::SatelliteCommunication(s) => {
            lemma_satellite_communication_controller_sub_class_codes(subclass, s);
        },
        ClassCode::EncryptionController(s) => {
            lemma_encryption_controller_sub_class_codes(subclass, s);
        },
        ClassCode::SignalProcessingController(s) => {
            lemma_signal_processing_controller_sub_class_codes(subclass, s);
        },
        ClassCode::ProcesserAccelerator(_) => {},
        ClassCode::UnassignedClassVendor(_) => {},
    }
}

} // verus!
