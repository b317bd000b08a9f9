//! The mutexes that ACPI's AML interpreter asks the kernel for. They are reentrant: the one
//! thread that holds a mutex may acquire it again, and must release it as often.
use vstd::prelude::*;

verus! {

/// How many mutexes the interpreter may create.
pub const MAX_ACPI_MUTEXES: usize = 32;

/// The timeout that asks to wait for a mutex forever.
pub const TIMEOUT_FOREVER: u16 = 0xffff;

/// A mutex, by its slot in the table.
#[derive(Clone, Copy, Debug, PartialEq, Eq, Structural)]
pub struct Handle(pub u32);

/// Why an AML operation failed.
#[derive(Clone, Copy, Debug, PartialEq, Eq, Structural)]
pub enum AmlError {
    /// A mutex could not be acquired in the time allowed.
    MutexAcquireTimeout,
}

/// One slot of the table.
#[derive(Clone, Copy, Debug, PartialEq, Eq, Structural)]
pub struct AcpiMutex {
    /// Whether the interpreter has created this mutex.
    pub in_use: bool,
    /// Whether it is held.
    pub locked: bool,
    /// How many times its holder has acquired it and not yet released it.
    pub count: u32,
}

/// A slot that holds no mutex.
pub fn unused_mutex() -> (r: AcpiMutex)
    ensures
        r == (AcpiMutex { in_use: false, locked: false, count: 0 }),
{
    AcpiMutex { in_use: false, locked: false, count: 0 }
}

/// The mutex state after `acquire` with `timeout` on a slot in state `m`:
/// - held already (count above zero): one more acquisition;
/// - timeout 0: one try: held once if it was free, refused (and left as it was) otherwise;
/// - any other timeout: the wait ends either way with the mutex held once.
pub open spec fn acquired(m: AcpiMutex, timeout: u16) -> AcpiMutex {
    if m.count > 0 {
        AcpiMutex { count: (m.count + 1) as u32, ..m }
    } else if timeout == 0 {
        if m.locked {
            m
        } else {
            AcpiMutex { locked: true, count: 1, ..m }
        }
    } else {
        AcpiMutex { locked: true, count: 1, ..m }
    }
}

/// What `acquire` answers: refused only for a single try at a mutex that is taken.
pub open spec fn acquire_result(m: AcpiMutex, timeout: u16) -> Result<(), AmlError> {
    if m.count == 0 && timeout == 0 && m.locked {
        Err(AmlError::MutexAcquireTimeout)
    } else {
        Ok(())
    }
}

/// The mutex state after `release`: one acquisition fewer, freed at the last one; nothing
/// happens to a mutex that is not held.
pub open spec fn released(m: AcpiMutex) -> AcpiMutex {
    if m.count > 0 {
        if m.count == 1 {
            AcpiMutex { count: 0, locked: false, ..m }
        } else {
            AcpiMutex { count: (m.count - 1) as u32, ..m }
        }
    } else {
        m
    }
}

/// The table of mutexes, by slot.
pub struct AcpiMutexes {
    pub slots: Vec<AcpiMutex>,
}

impl AcpiMutexes {
    /// The invariant: the table has its fixed number of slots.
    pub open spec fn wf(&self) -> bool {
        self.slots@.len() == MAX_ACPI_MUTEXES
    }

    /// A table of unused slots.
    pub fn new() -> (r: AcpiMutexes)
        ensures
            r.wf(),
            forall|i: int| 0 <= i < MAX_ACPI_MUTEXES ==> r.slots@[i] == unused_mutex_spec(),
    {
        let mut slots: Vec<AcpiMutex> = Vec::new();
        let mut i: usize = 0;
        while i < MAX_ACPI_MUTEXES
            invariant
                i <= MAX_ACPI_MUTEXES,
                slots@.len() == i,
                forall|j: int| 0 <= j < i ==> slots@[j] == unused_mutex_spec(),
            decreases MAX_ACPI_MUTEXES - i,
        {
            slots.push(unused_mutex());
            i = i + 1;
        }
        AcpiMutexes { slots }
    }

    /// Creates a mutex in the first unused slot: it is in use, free and not held.
    pub fn create_mutex(&mut self) -> (r: Handle)
        requires
            old(self).wf(),
            exists|i: int| 0 <= i < MAX_ACPI_MUTEXES && !(#[trigger] old(self).slots@[i]).in_use,
        ensures
            final(self).wf(),
            r.0 < MAX_ACPI_MUTEXES,
            !old(self).slots@[r.0 as int].in_use,
            forall|j: int| 0 <= j < r.0 ==> (#[trigger] old(self).slots@[j]).in_use,
            final(self).slots@ == old(self).slots@.update(
                r.0 as int,
                (AcpiMutex { in_use: true, locked: false, count: 0 }),
            ),
    {
        let mut idx: usize = 0;
        while idx < MAX_ACPI_MUTEXES
            invariant
                self.wf(),
                self.slots@ == old(self).slots@,
                idx <= MAX_ACPI_MUTEXES,
                forall|j: int| 0 <= j < idx ==> (#[trigger] self.slots@[j]).in_use,
                exists|i: int| 0 <= i < MAX_ACPI_MUTEXES && !(#[trigger] self.slots@[i]).in_use,
            ensures
                self.slots@ == old(self).slots@,
                idx < MAX_ACPI_MUTEXES,
                !self.slots@[idx as int].in_use,
                forall|j: int| 0 <= j < idx ==> (#[trigger] self.slots@[j]).in_use,
            decreases MAX_ACPI_MUTEXES - idx,
        {
            if !self.slots[idx].in_use {
                break;
            }
            idx = idx + 1;
        }
        self.slots.set(idx, AcpiMutex { in_use: true, locked: false, count: 0 });
        Handle(idx as u32)
    }

    /// Acquires the mutex `mutex`, waiting up to `timeout` milliseconds (see `acquired`).
    pub fn acquire(&mut self, mutex: Handle, timeout: u16) -> (r: Result<(), AmlError>)
        requires
            old(self).wf(),
            mutex.0 < MAX_ACPI_MUTEXES,
            old(self).slots@[mutex.0 as int].count < u32::MAX,
            old(self).slots@[mutex.0 as int].count == 0 ==> timeout != TIMEOUT_FOREVER,
        ensures
            final(self).wf(),
            r == acquire_result(old(self).slots@[mutex.0 as int], timeout),
            final(self).slots@ == old(self).slots@.update(
                mutex.0 as int,
                acquired(old(self).slots@[mutex.0 as int], timeout),
            ),
    {
        let idx = mutex.0 as usize;
        let m = self.slots[idx];
        if m.count > 0 {
            self.slots.set(idx, AcpiMutex { count: m.count + 1, ..m });
            return Ok(());
        }
        if timeout == 0 {
            if m.locked {
                assert(self.slots@ =~= old(self).slots@.update(mutex.0 as int, acquired(m, timeout)));
                return Err(AmlError::MutexAcquireTimeout);
            }
            self.slots.set(idx, AcpiMutex { locked: true, count: 1, ..m });
            return Ok(());
        }
        self.slots.set(idx, AcpiMutex { locked: true, count: 1, ..m });
        Ok(())
    }

    /// Releases the mutex `mutex` once (see `released`).
    pub fn release(&mut self, mutex: Handle)
        requires
            old(self).wf(),
            mutex.0 < MAX_ACPI_MUTEXES,
        ensures
            final(self).wf(),
            final(self).slots@ == old(self).slots@.update(mutex.0 as int, released(old(self).slots@[mutex.0 as int])),
    {
        let idx = mutex.0 as usize;
        let m = self.slots[idx];
        if m.count > 0 {
            let count = m.count - 1;
            if count == 0 {
                self.slots.set(idx, AcpiMutex { count, locked: false, ..m });
            } else {
                self.slots.set(idx, AcpiMutex { count, ..m });
            }
        } else {
            assert(self.slots@ =~= old(self).slots@.update(mutex.0 as int, released(m)));
        }
    }
}

/// An unused slot.
pub open spec fn unused_mutex_spec() -> AcpiMutex {
    AcpiMutex { in_use: false, locked: false, count: 0 }
}

/// Releasing a mutex undoes acquiring it, for a mutex that is already held by its holder or
/// is free, whatever the timeout (a timeout that waits forever aside, as `acquire` never
/// returns from it).
pub proof fn lemma_release_undoes_acquire(m: AcpiMutex, timeout: u16)
    requires
        m.count > 0 || !m.locked,
        m.count < u32::MAX,
        m.count == 0 ==> timeout != TIMEOUT_FOREVER,
    ensures
        released(acquired(m, timeout)) == m,
{
}

} // verus!
