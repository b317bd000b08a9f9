# os

The verified core of a small x86_64 hobby kernel, written in Verus.

`src/` holds the logic, each function with a contract that Verus proves:

- `net`: the wire formats of Ethernet, ARP, IPv4, ICMP, UDP and TCP, the Internet
  checksum, and the decisions the network stack takes on each received frame; `net::nic`
  drives the RTL8139 card's receive ring and transmit slots.
- `pci`: configuration-space addresses, header decoding and class codes.
- `multiboot`: the boot information's tag chain, memory map, ELF sections and boot loader
  name.
- `mem`: address alignment, the frame allocators over the multiboot memory map and over the
  boot loader's memory map, the fixed-size block allocator's free lists, page-table entries
  and physical buffers.
- `vga_buffer`, `serial`, `colour_printing`, `logging`: what is shown on the screen and sent
  on the serial port.
- `time`, `acpi`, `interrupts`, `task`: timers and sleepers, the real-time clock, ACPI's
  reentrant mutexes, interrupt lines and the keyboard shell.
- `queue`: the bounded queues of `crossbeam_queue`, behind trusted wrappers.

`app/` is the kernel around it: the boot entry, port I/O and control registers (through the
`x86_64` crate), the register accesses of each device, page-table walks and the heap
mapping, the spinlock, the logger and the main loop. `tests/` runs the library on concrete
values.

ACPI table discovery and AML loading are not part of the kernel: the `acpi` crate that does
them needs a nightly compiler. The reentrant mutexes that its AML interpreter asks for are in
`src/acpi.rs`.
