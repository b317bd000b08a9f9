//! Verified core of a small x86_64 hobby kernel: network packet formats, memory
//! bookkeeping, boot-information parsing and device-register decoding.
use vstd::prelude::*;

pub mod acpi;
pub mod bytes;
pub mod colour_printing;
pub mod interrupts;
pub mod logging;
pub mod mem;
pub mod multiboot;
pub mod net;
pub mod pci;
pub mod port;
pub mod queue;
pub mod serial;
pub mod task;
pub mod time;
pub mod vga_buffer;
pub mod volatile;

verus! {

/// The codes that the kernel's tests leave QEMU with, through its exit device.
#[derive(Clone, Copy, Debug, PartialEq, Eq, Structural)]
pub enum QemuExitCode {
    Success,
    Failed,
}

/// The port of QEMU's exit device.
pub const QEMU_EXIT_PORT: u16 = 0xf4;

impl QemuExitCode {
    /// The value written to the exit device.
    pub fn value(self) -> (r: u32)
        ensures
            r == (match self {
                QemuExitCode::Success => 0x10u32,
                QemuExitCode::Failed => 0x11u32,
            }),
    {
        match self {
            QemuExitCode::Success => 0x10,
            QemuExitCode::Failed => 0x11,
        }
    }
}

} // verus!
