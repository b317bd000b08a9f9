use os::acpi::{unused_mutex, AcpiMutex, AcpiMutexes, AmlError, Handle};
use os::interrupts::{default_interrupt_handler, interrupt_index, InterruptIndex, IrqHandlers};
use os::logging::{level_to_colour, Level, Logger, STARTUP_LEVEL};
use os::mem::allocator::{AllocStep, FixedSizeBlockAllocator};
use os::mem::{BootInfoFrameAllocator, Frame, Layout, MemoryRegion};
use os::serial::{SerialRegister, Writer as SerialWriter};
use os::task::keyboard::{decode_scancode, Command, DecodedKey, Keyboard, ScancodeStream, Shell, ShellAction};
use os::time::rtc::{Cmos, DateTime, Month, Weekday};
use os::time::{register_waker, sleep_duration, Instant, SleepPoll, TimeWaker, TimerWakerList, MAX_SLEEPERS};
use os::vga_buffer::{ColorCode, Colour, Cursor, ScreenChar, Writer as VgaWriter};
use os::QemuExitCode;

#[test]
fn acpi_create_mutex_uses_first_free_slot() {
    let mut table = AcpiMutexes::new();
    assert_eq!(table.create_mutex(), Handle(0));
    assert_eq!(table.create_mutex(), Handle(1));
    assert_eq!(table.slots[1], AcpiMutex { in_use: true, locked: false, count: 0 });
    table.slots[0] = unused_mutex();
    assert_eq!(table.create_mutex(), Handle(0));
}

#[test]
fn acpi_acquire_is_reentrant_and_release_undoes_it() {
    let mut table = AcpiMutexes::new();
    let h = table.create_mutex();
    assert_eq!(table.acquire(h, 100), Ok(()));
    assert_eq!(table.slots[0].count, 1);
    assert!(table.slots[0].locked);
    assert_eq!(table.acquire(h, 0), Ok(()));
    assert_eq!(table.slots[0].count, 2);
    table.release(h);
    assert_eq!(table.slots[0].count, 1);
    assert!(table.slots[0].locked);
    table.release(h);
    assert_eq!(table.slots[0], AcpiMutex { in_use: true, locked: false, count: 0 });
    // releasing a mutex that is not held changes nothing
    table.release(h);
    assert_eq!(table.slots[0], AcpiMutex { in_use: true, locked: false, count: 0 });
}

#[test]
fn acpi_single_try_is_reentrant_too() {
    let mut table = AcpiMutexes::new();
    let h = table.create_mutex();
    assert_eq!(table.acquire(h, 0), Ok(()));
    assert!(table.slots[0].locked);
    assert_eq!(table.slots[0].count, 1);
    assert_eq!(table.acquire(h, 0), Ok(()));
    assert_eq!(table.slots[0].count, 2);
    table.release(h);
    table.release(h);
    assert_eq!(table.slots[0], AcpiMutex { in_use: true, locked: false, count: 0 });
    assert_eq!(table.acquire(h, 0), Ok(()));
}

#[test]
fn acpi_single_try_on_a_taken_mutex_times_out() {
    let mut table = AcpiMutexes::new();
    let h = table.create_mutex();
    table.slots[0].locked = true;
    assert_eq!(table.acquire(h, 0), Err(AmlError::MutexAcquireTimeout));
    assert_eq!(table.slots[0], AcpiMutex { in_use: true, locked: true, count: 0 });
}

#[test]
fn instant_elapsed_counts_milliseconds() {
    let start = Instant::now(1000);
    assert_eq!(start.elapsed(1000), 0);
    assert_eq!(start.elapsed(1250), 250);
}

#[test]
fn timer_wakers_wake_the_due_ones_in_order() {
    let mut list: TimerWakerList<u32> = TimerWakerList::new();
    assert_eq!(list.slots.len(), MAX_SLEEPERS);
    list.push(TimeWaker { target_tick: 50, waker: 1 });
    list.push(TimeWaker { target_tick: 10, waker: 2 });
    register_waker(&mut list, 20, 10, 3);
    assert_eq!(list.slots[2].as_ref().map(|t| t.target_tick), Some(30));
    assert_eq!(list.wake_expired(5), Vec::<u32>::new());
    assert_eq!(list.wake_expired(30), vec![2, 3]);
    assert!(list.slots[1].is_none() && list.slots[2].is_none());
    assert_eq!(list.wake_expired(100), vec![1]);
    assert!(list.slots.iter().all(|s| s.is_none()));
    // freed slots are reused first
    list.push(TimeWaker { target_tick: 7, waker: 9 });
    assert_eq!(list.slots[0].as_ref().map(|t| t.waker), Some(9));
}

#[test]
fn sleep_future_registers_once_then_completes() {
    let mut s = sleep_duration(100, 50);
    assert_eq!(s.target_tick, 150);
    assert_eq!(s.poll(120), SleepPoll::Pending { register: Some(150) });
    assert_eq!(s.poll(140), SleepPoll::Pending { register: None });
    assert_eq!(s.poll(150), SleepPoll::Ready);
}

fn cmos_regs() -> Vec<u8> {
    let mut r = vec![0u8; 0x33];
    r[0x00] = 14;
    r[0x02] = 40;
    r[0x04] = 21;
    r[0x06] = 2;
    r[0x07] = 8;
    r[0x08] = 6;
    r[0x09] = 26;
    r[0x32] = 19;
    r
}

#[test]
fn cmos_reads_the_date() {
    let cmos = Cmos::new();
    assert_eq!(cmos.register_number.port, 0x70);
    let regs = cmos_regs();
    assert_eq!(cmos.get_year(&regs, false), 2026);
    assert_eq!(cmos.get_year(&regs, true), 1926);
    let t = cmos.get_datetime(&regs, false);
    assert_eq!(
        t,
        DateTime { seconds: 14, minutes: 40, hours: 21, weekday: Weekday::Monday, day_of_month: 8, month: Month::Jun, year: 2026 }
    );
    assert_eq!(Cmos::binary_24_hour_status(0x10), 0x16);
}

#[test]
fn weekday_and_month_codes() {
    assert_eq!(Weekday::try_from(1), Ok(Weekday::Sunday));
    assert_eq!(Weekday::try_from(7), Ok(Weekday::Saturday));
    assert_eq!(Weekday::try_from(0), Err(0));
    assert_eq!(Month::try_from(12), Ok(Month::Dec));
    assert_eq!(Month::try_from(13), Err(13));
}

#[test]
fn datetime_text() {
    let t = Cmos::new().get_datetime(&cmos_regs(), false);
    assert_eq!(t.to_string(), "21:40:14 Monday, 8 Jun, 2026");
    let early = DateTime { seconds: 5, minutes: 3, hours: 0, weekday: Weekday::Sunday, day_of_month: 31, month: Month::Dec, year: 1999 };
    assert_eq!(early.to_string(), "0:03:05 Sunday, 31 Dec, 1999");
}

#[test]
fn serial_encodes_utf8() {
    let w = SerialWriter::new(0x3F8);
    assert_eq!(w.p_line_status.port, 0x3FD);
    assert_eq!(w.write_char('A'), vec![0x41]);
    assert_eq!(w.write_char('é'), "é".as_bytes().to_vec());
    assert_eq!(w.write_char('€'), "€".as_bytes().to_vec());
    assert_eq!(w.write_char('😀'), "😀".as_bytes().to_vec());
    assert_eq!(w.write_string("aé€😀z"), "aé€😀z".as_bytes().to_vec());
    assert_eq!(w.write_string(""), Vec::<u8>::new());
}

#[test]
fn serial_setup_and_status_bits() {
    let steps = SerialWriter::init_serial();
    assert_eq!(steps.len(), 9);
    assert_eq!(steps[0], (SerialRegister::Interrupt, 0x00));
    assert_eq!(steps[5], (SerialRegister::FifoControl, 0xC7));
    assert_eq!(steps[8], (SerialRegister::ReadWrite, 0xAE));
    assert_eq!(SerialWriter::after_loopback(0xAE), Some(0x0F));
    assert_eq!(SerialWriter::after_loopback(0x00), None);
    assert!(SerialWriter::serial_received(0x61));
    assert!(!SerialWriter::serial_received(0x60));
    assert!(SerialWriter::is_transmit_empty(0x20));
    assert!(!SerialWriter::is_transmit_empty(0x01));
}

#[test]
fn logging_levels_and_colours() {
    let logger = Logger;
    assert!(logger.enabled(Level::Debug, STARTUP_LEVEL));
    assert!(!logger.enabled(Level::Trace, STARTUP_LEVEL));
    assert!(logger.shown_on_screen(Level::Info));
    assert!(!logger.shown_on_screen(Level::Debug));
    assert_eq!(level_to_colour(Level::Error), Colour::Red);
    assert_eq!(level_to_colour(Level::Warn), Colour::LightRed);
    assert_eq!(level_to_colour(Level::Info), Colour::LightCyan);
    assert_eq!(level_to_colour(Level::Debug), Colour::Cyan);
    assert_eq!(level_to_colour(Level::Trace), Colour::LightBlue);
}

#[test]
fn interrupt_lines() {
    assert_eq!(interrupt_index(0), 32);
    assert_eq!(interrupt_index(15), 47);
    assert_eq!(InterruptIndex::Timer.as_u8(), 0);
    assert_eq!(InterruptIndex::Keyboard.as_u8(), 1);
    default_interrupt_handler();
    let mut handlers = IrqHandlers::new(0u8);
    handlers.set_irq_handler(11, 7);
    assert_eq!(handlers.handler(11), 7);
    assert_eq!(handlers.handler(10), 0);
}

#[test]
fn qemu_exit_codes() {
    assert_eq!(QemuExitCode::Success.value(), 0x10);
    assert_eq!(QemuExitCode::Failed.value(), 0x11);
}

#[test]
fn scancode_stream_is_fifo_and_bounded() {
    let mut s = ScancodeStream::new();
    assert_eq!(s.poll_next(), None);
    assert!(s.add_scancode(0x1E));
    assert!(s.add_scancode(0x9E));
    assert_eq!(s.poll_next(), Some(0x1E));
    assert_eq!(s.poll_next(), Some(0x9E));
    for i in 0..100u32 {
        assert!(s.add_scancode(i as u8));
    }
    assert!(!s.add_scancode(0xFF));
    assert_eq!(s.poll_next(), Some(0));
}

#[test]
fn shell_collects_a_line_and_runs_it() {
    let mut sh = Shell::new();
    for c in "lspci".chars() {
        assert_eq!(sh.handle_key(DecodedKey::Unicode(c)), ShellAction::Echo(c));
    }
    assert_eq!(sh.handle_key(DecodedKey::RawKey), ShellAction::Nothing);
    assert_eq!(sh.handle_key(DecodedKey::Unicode('\n')), ShellAction::Run(Command::Lspci));
    assert!(sh.text_buffer.is_empty());
    for c in "date".chars() {
        sh.handle_key(DecodedKey::Unicode(c));
    }
    assert_eq!(sh.handle_key(DecodedKey::Unicode('\n')), ShellAction::Run(Command::Date));
    assert_eq!(sh.handle_key(DecodedKey::Unicode('\n')), ShellAction::Run(Command::Unknown));
    assert_eq!(Shell::handle_command(&['d', 'a', 't', 'e', 's']), Command::Unknown);
}

#[test]
fn allocator_reuses_the_last_freed_block() {
    let mut a = FixedSizeBlockAllocator::new();
    let small = Layout { size: 24, align: 8 };
    assert_eq!(a.allocate(&small), AllocStep::Fallback(Layout { size: 32, align: 32 }));
    assert!(a.deallocate(0x1000, &small));
    assert!(a.deallocate(0x2000, &Layout { size: 32, align: 4 }));
    assert_eq!(a.allocate(&small), AllocStep::Block(0x2000));
    assert_eq!(a.allocate(&small), AllocStep::Block(0x1000));
    assert_eq!(a.allocate(&small), AllocStep::Fallback(Layout { size: 32, align: 32 }));
    let big = Layout { size: 4096, align: 8 };
    assert_eq!(a.allocate(&big), AllocStep::Fallback(big));
    assert!(!a.deallocate(0x8000, &big));
    // alignment decides the class when it exceeds the size
    assert!(a.deallocate(0x3000, &Layout { size: 1, align: 64 }));
    assert_eq!(a.allocate(&Layout { size: 50, align: 1 }), AllocStep::Block(0x3000));
}

#[test]
fn vga_writes_and_scrolls() {
    let mut w = VgaWriter::new();
    assert_eq!(w.column_position, 0);
    w.write_string("hi");
    assert_eq!(w.buffer[24 * 80].ascii_character, b'h');
    assert_eq!(w.buffer[24 * 80 + 1].ascii_character, b'i');
    assert_eq!(w.column_position, 2);
    assert_eq!(w.cursor.index, 24 * 80 + 2);
    w.write_string("\n");
    assert_eq!(w.buffer[23 * 80].ascii_character, b'h');
    assert_eq!(w.buffer[24 * 80].ascii_character, b' ');
    assert_eq!(w.column_position, 0);
    // a byte that is not printable ASCII is shown as 0x and two hex digits
    w.write_string("\u{7}");
    let shown: Vec<u8> = (0..4).map(|i| w.buffer[24 * 80 + i].ascii_character).collect();
    assert_eq!(shown, b"0x07".to_vec());
}

#[test]
fn vga_wraps_a_long_line() {
    let mut w = VgaWriter::new();
    let line: String = std::iter::repeat('a').take(81).collect();
    w.write_string(&line);
    assert_eq!(w.column_position, 1);
    assert_eq!(w.buffer[23 * 80 + 79].ascii_character, b'a');
    assert_eq!(w.buffer[24 * 80].ascii_character, b'a');
    assert_eq!(w.buffer[24 * 80 + 1].ascii_character, b' ');
}

#[test]
fn vga_colour_codes() {
    assert_eq!(ColorCode::new(Colour::White, Colour::Black), ColorCode(15));
    assert_eq!(ColorCode::new(Colour::Yellow, Colour::Blue), ColorCode(0x1E));
    assert_eq!(Colour::Pink.value(), 13);
    let mut c = Cursor::new();
    c.set_position(3, 4);
    assert_eq!(c.index, 244);
    let blank = ScreenChar { ascii_character: b' ', color_code: ColorCode(15) };
    let w = VgaWriter::new();
    assert!(w.buffer.iter().all(|c| *c == blank));
}

#[test]
fn boot_info_frames_come_from_usable_regions_in_order() {
    let empty = MemoryRegion { start_addr: 0, end_addr: 0, usable: false };
    let mut map = [empty; 64];
    map[0] = MemoryRegion { start_addr: 0x1000, end_addr: 0x3000, usable: true };
    map[1] = MemoryRegion { start_addr: 0x3000, end_addr: 0x5000, usable: false };
    map[2] = MemoryRegion { start_addr: 0x8000, end_addr: 0x8800, usable: true };
    map[3] = MemoryRegion { start_addr: 0x9000, end_addr: 0x9000, usable: true };
    // Entries past the count are not part of the map.
    map[4] = MemoryRegion { start_addr: 0x20000, end_addr: 0x30000, usable: true };
    let mut frames = BootInfoFrameAllocator::init(map, 4);
    assert_eq!(frames.allocate_frame(), Some(Frame { number: 1 }));
    assert_eq!(frames.allocate_frame(), Some(Frame { number: 2 }));
    assert_eq!(frames.allocate_frame(), Some(Frame { number: 8 }));
    assert_eq!(frames.allocate_frame(), None);
    assert_eq!(frames.allocate_frame(), None);
    let mut none = BootInfoFrameAllocator::init(map, 0);
    assert_eq!(none.allocate_frame(), None);
}

#[test]
fn shell_takes_scancodes_through_the_keyboard() {
    let mut kb = Keyboard::new();
    let mut shell = Shell::new();
    // 'd' 'a' 't' 'e' pressed and released, then Enter
    for (press, c) in [(0x20u8, 'd'), (0x1E, 'a'), (0x14, 't'), (0x12, 'e')] {
        assert_eq!(shell.handle_scancode(&mut kb, press), (Some(DecodedKey::Unicode(c)), ShellAction::Echo(c)));
        assert_eq!(shell.handle_scancode(&mut kb, press | 0x80), (None, ShellAction::Nothing));
    }
    assert_eq!(shell.handle_scancode(&mut kb, 0x1C), (Some(DecodedKey::Unicode('\n')), ShellAction::Run(Command::Date)));
    assert!(shell.text_buffer.is_empty());
    // a prefix byte alone completes no key
    assert_eq!(decode_scancode(&mut kb, 0xE0), None);
}

#[test]
fn vga_many_lines_and_a_very_long_line() {
    let mut w = VgaWriter::new();
    for _ in 0..200 {
        w.write_string("test_println_many output\n");
    }
    assert_eq!(w.column_position, 0);
    assert_eq!(w.cursor.index as usize, 80 * 24);
    let long = "x".repeat(1000);
    w.write_string(&long);
    assert!(w.column_position <= 80);
    assert_eq!(w.cursor.index as usize, 80 * 24 + w.column_position);
    w.write_string("\u{e9}");
    let row = &w.buffer[80 * 24..];
    let shown: Vec<u8> = row[w.column_position - 8..w.column_position].iter().map(|c| c.ascii_character).collect();
    assert_eq!(shown, b"0xc30xa9".to_vec());
}
