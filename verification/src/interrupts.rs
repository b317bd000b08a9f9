//! Hardware interrupts: where the lines of the two interrupt controllers land in the
//! interrupt table, and the handlers registered for each line.
use vstd::prelude::*;

verus! {

/// The first interrupt number of the primary controller.
pub const PIC_1_OFFSET: u8 = 32;

/// The first interrupt number of the secondary controller.
pub const PIC_2_OFFSET: u8 = 40;

/// Number of interrupt lines of the two controllers.
pub const IRQ_LINES: usize = 16;

/// The interrupt number of line `irq`.
pub fn interrupt_index(irq: u8) -> (r: u8)
    requires
        irq + PIC_1_OFFSET <= u8::MAX,
    ensures
        r == PIC_1_OFFSET + irq,
{
    PIC_1_OFFSET + irq
}

/// The lines that the kernel handles itself.
#[derive(Clone, Copy, Debug, PartialEq, Eq, Structural)]
pub enum InterruptIndex {
    Timer,
    Keyboard,
}

impl InterruptIndex {
    /// The line number.
    pub fn as_u8(self) -> (r: u8)
        ensures
            r == (match self {
                InterruptIndex::Timer => 0u8,
                InterruptIndex::Keyboard => 1u8,
            }),
    {
        match self {
            InterruptIndex::Timer => 0,
            InterruptIndex::Keyboard => 1,
        }
    }
}

/// The handler of a line that no device has claimed: it does nothing.
pub fn default_interrupt_handler() {
}

/// The handler registered for each line.
pub struct IrqHandlers<H> {
    pub handlers: Vec<H>,
}

impl<H: Copy> IrqHandlers<H> {
    /// The invariant: one handler per line.
    pub open spec fn wf(&self) -> bool {
        self.handlers@.len() == IRQ_LINES
    }

    /// Every line with the handler `default`.
    pub fn new(default: H) -> (r: IrqHandlers<H>)
        ensures
            r.wf(),
            forall|i: int| 0 <= i < IRQ_LINES ==> r.handlers@[i] == default,
    {
        let mut handlers: Vec<H> = Vec::new();
        let mut i: usize = 0;
        while i < IRQ_LINES
            invariant
                i <= IRQ_LINES,
                handlers@.len() == i,
                forall|j: int| 0 <= j < i ==> handlers@[j] == default,
            decreases IRQ_LINES - i,
        {
            handlers.push(default);
            i = i + 1;
        }
        IrqHandlers { handlers }
    }

    /// Registers `handler` for line `irq`, in place of the one before.
    pub fn set_irq_handler(&mut self, irq: u8, handler: H)
        requires
            old(self).wf(),
            irq < IRQ_LINES,
        ensures
            final(self).wf(),
            final(self).handlers@ == old(self).handlers@.update(irq as int, handler),
    {
        self.handlers.set(irq as usize, handler);
    }

    /// The handler registered for line `irq`.
    pub fn handler(&self, irq: u8) -> (r: H)
        requires
            self.wf(),
            irq < IRQ_LINES,
        ensures
            r == self.handlers@[irq as int],
    {
        self.handlers[irq as usize]
    }
}

} // verus!
