//! The harness: one processor clock, then one bus clock that may raise an
//! interrupt, until the program asks to exit.

use vstd::prelude::*;
use crate::memory::{MemModel, Memory};
use crate::processor::{ProcView, Processor, ShouldWriteFlags};

verus! {

/// One tick of the whole machine, with the host bytes that arrived for it.
pub open spec fn tick(p: ProcView, m: MemModel, input: Seq<u8>) -> (ProcView, MemModel) {
    let (p_clocked, m_clocked) = p.clock(m);
    let m_irq = m_clocked.after_clock(input);
    if m_irq.irq_raised() {
        p_clocked.irq(m_irq)
    } else {
        (p_clocked, m_irq)
    }
}

/// Ticks with the given host input for each, stopping after the tick in
/// which an exit is requested; also gives the number of ticks run.
pub open spec fn run_ticks(p: ProcView, m: MemModel, inputs: Seq<Vec<u8>>) -> (ProcView, MemModel, nat)
    decreases inputs.len(),
{
    if inputs.len() == 0 {
        (p, m, 0)
    } else {
        let (p_next, m_next) = tick(p, m, inputs[0]@);
        if m_next.exit {
            (p_next, m_next, 1)
        } else {
            let (p_end, m_end, k) = run_ticks(p_next, m_next, inputs.drop_first());
            (p_end, m_end, k + 1)
        }
    }
}

/// A processor wired to a bus.
pub struct Computer<M: Memory> {
    pub mem: M,
    pub processor: Processor,
}

impl<M: Memory> Computer<M> {
    /// A fresh processor on the given bus.
    pub fn new(mem: M) -> (r: Computer<M>)
        ensures
            r.mem == mem,
            r.processor@.wf(),
            forall|i: int| 0 <= i < 16 ==> r.processor@.regs[i] == 0,
            !r.processor.interrupts,
            r.processor.should_write_flags == ShouldWriteFlags::Yes,
            r.processor.delay_regs@ == seq![0u8, 0u8],
    {
        Computer { mem, processor: Processor::new() }
    }

    /// Resets the processor from the bus's reset vector.
    pub fn start(&mut self)
        requires
            old(self).mem.model().wf(),
        ensures
            final(self).mem.model().wf(),
            final(self).processor@ == old(self).processor@.reset(old(self).mem.model()),
            final(self).mem.model() == old(self).mem.model(),
    {
        self.processor.reset(&mut self.mem);
    }

    /// One tick; returns whether the program has asked to exit.
    pub fn tick(&mut self, input: &[u8]) -> (exit: bool)
        requires
            old(self).mem.model().wf(),
        ensures
            final(self).mem.model().wf(),
            (final(self).processor@, final(self).mem.model()) == tick(
                old(self).processor@,
                old(self).mem.model(),
                input@,
            ),
            exit == final(self).mem.model().exit,
    {
        self.processor.clock(&mut self.mem);
        if self.mem.clock(input) {
            self.processor.irq(&mut self.mem);
        }
        self.mem.should_exit()
    }

    /// Resets, then runs one tick per entry of `inputs` (the host bytes that
    /// arrive in it) until the program asks to exit; returns the number of
    /// ticks run.
    pub fn run(&mut self, inputs: &Vec<Vec<u8>>) -> (ticks: usize)
        requires
            old(self).mem.model().wf(),
        ensures
            final(self).mem.model().wf(),
            ({
                let p_start = old(self).processor@.reset(old(self).mem.model());
                let (p, m, k) = run_ticks(p_start, old(self).mem.model(), inputs@);
                &&& final(self).processor@ == p
                &&& final(self).mem.model() == m
                &&& ticks == k
            }),
    {
        self.start();
        let ghost p_start = self.processor@;
        let ghost m_start = self.mem.model();
        let mut i: usize = 0;
        assert(inputs@.skip(0) =~= inputs@);
        while i < inputs.len()
            invariant
                i <= inputs@.len(),
                self.mem.model().wf(),
                p_start == old(self).processor@.reset(old(self).mem.model()),
                m_start == old(self).mem.model(),
                ({
                    let (p, m, k) = run_ticks(self.processor@, self.mem.model(), inputs@.skip(i as int));
                    run_ticks(p_start, m_start, inputs@) == (p, m, (k + i) as nat)
                }),
            decreases inputs@.len() - i,
        {
            let ghost rest = inputs@.skip(i as int);
            assert(rest.drop_first() =~= inputs@.skip(i + 1));
            assert(rest[0] == inputs@[i as int]);
            let ghost pp = self.processor@;
            let ghost pm = self.mem.model();
            let exit = self.tick(inputs[i].as_slice());
            assert(run_ticks(pp, pm, rest) == ({
                let (p, m, k) = run_ticks(self.processor@, self.mem.model(), rest.drop_first());
                if exit { (self.processor@, self.mem.model(), 1nat) } else { (p, m, k + 1) }
            }));
            i = i + 1;
            if exit {
                return i;
            }
        }
        assert(inputs@.skip(i as int).len() == 0);
        i
    }
}

} // verus!
