//! Model of the SoC's memory-mapped register block.
//!
//! Every hardware access of the GPIO and UART layers goes through [`Bus::read`]
//! and [`Bus::write`], mirroring how the physical device is driven through a
//! single pair of volatile accessors. The model keeps three things:
//!
//! - the latched state of every register that stores what was written to it
//!   (function select, pull control, the mini-UART configuration registers),
//!   plus the output level of each pin as established by the write-1-to-set
//!   and write-1-to-clear registers;
//! - scripts for the two registers the hardware itself drives (line status
//!   and receive data): successive reads consume successive script entries;
//! - a log of every access, in program order, so that contracts can pin down
//!   exactly which registers a sequence touches and in which order.

use vstd::prelude::*;

verus! {

/// Physical base of the peripheral block (SoC-revision specific).
pub const BASE_MMIO: u32 = 0x3F00_0000;

/// GPIO function select 0; one register per 10 pins, 3 bits per pin.
pub const GPFSEL0: u32 = BASE_MMIO + 0x0020_0000;
/// GPIO function select 5, the last function-select register.
pub const GPFSEL5: u32 = BASE_MMIO + 0x0020_0014;
/// GPIO output set 0 (write-1-to-set); one register per 32 pins.
pub const GPSET0: u32 = BASE_MMIO + 0x0020_001C;
/// GPIO output set 1.
pub const GPSET1: u32 = BASE_MMIO + 0x0020_0020;
/// GPIO output clear 0 (write-1-to-clear).
pub const GPCLR0: u32 = BASE_MMIO + 0x0020_0028;
/// GPIO output clear 1.
pub const GPCLR1: u32 = BASE_MMIO + 0x0020_002C;
/// GPIO pull-resistor control: global staging register for the pull code.
pub const GPPUD: u32 = BASE_MMIO + 0x0020_0094;
/// GPIO pull-resistor clock 0: latches the staged pull code onto a pin.
pub const GPPUDCLK0: u32 = BASE_MMIO + 0x0020_0098;
/// GPIO pull-resistor clock 1.
pub const GPPUDCLK1: u32 = BASE_MMIO + 0x0020_009C;
/// Auxiliary enable; bit 0 enables the mini-UART.
pub const AUX_ENABLE: u32 = BASE_MMIO + 0x0021_5004;
/// Mini-UART I/O data register.
pub const AUX_MU_IO: u32 = BASE_MMIO + 0x0021_5040;
/// Mini-UART interrupt enable.
pub const AUX_MU_IER: u32 = BASE_MMIO + 0x0021_5044;
/// Mini-UART interrupt identify; written to clear the FIFOs.
pub const AUX_MU_IIR: u32 = BASE_MMIO + 0x0021_5048;
/// Mini-UART line control (data-bit count).
pub const AUX_MU_LCR: u32 = BASE_MMIO + 0x0021_504C;
/// Mini-UART modem control.
pub const AUX_MU_MCR: u32 = BASE_MMIO + 0x0021_5050;
/// Mini-UART line status; bit 0 = receiver ready, bit 5 = transmitter empty.
pub const AUX_MU_LSR: u32 = BASE_MMIO + 0x0021_5054;
/// Mini-UART extra control (transmit/receive enable).
pub const AUX_MU_CNTL: u32 = BASE_MMIO + 0x0021_5060;
/// Mini-UART baud-rate divisor.
pub const AUX_MU_BAUD: u32 = BASE_MMIO + 0x0021_5068;

/// Number of GPIO pins the hardware encoding admits (pins 0 to 53).
pub const NPINS: u32 = 54;

// Slots of the latched-state vector. Slots 0 to 5 hold the six
// function-select registers; the rest are as named below.
/// Slot of the output levels of pins 0 to 31.
pub const REG_LEV0: usize = 6;
/// Slot of the output levels of pins 32 to 53.
pub const REG_LEV1: usize = 7;
/// Slot of the pull-control staging register.
pub const REG_PUD: usize = 8;
/// Slot of pull clock 0.
pub const REG_PUDCLK0: usize = 9;
/// Slot of pull clock 1.
pub const REG_PUDCLK1: usize = 10;
/// Slot of the auxiliary enable register.
pub const REG_AUXEN: usize = 11;
/// Slot of the mini-UART interrupt enable register.
pub const REG_IER: usize = 12;
/// Slot of the mini-UART line control register.
pub const REG_LCR: usize = 13;
/// Slot of the mini-UART modem control register.
pub const REG_MCR: usize = 14;
/// Slot of the mini-UART extra control register.
pub const REG_CNTL: usize = 15;
/// Slot of the mini-UART baud-rate register.
pub const REG_BAUD: usize = 16;
/// Number of latched-state slots.
pub const NREGS: usize = 17;

/// One access observed at the bus: a read (with the value delivered), a write
/// (with the value driven), or a settle delay of the given number of no-op
/// cycles between timing-sensitive writes.
#[derive(Clone, Copy, PartialEq, Eq, Debug)]
pub enum Event {
    Read(u32, u32),
    Write(u32, u32),
    Settle(u32),
}

/// Mathematical state of the register block.
#[verifier::ext_equal]
pub ghost struct BusView {
    /// Latched register state, one entry per slot, `NREGS` entries.
    pub regs: Seq<u32>,
    /// Values successive line-status reads will deliver.
    pub lsr: Seq<u32>,
    /// How many line-status script entries have been consumed.
    pub lsr_pos: int,
    /// Values successive data-register reads will deliver.
    pub rx: Seq<u32>,
    /// How many receive script entries have been consumed.
    pub rx_pos: int,
    /// Every access so far, in program order.
    pub log: Seq<Event>,
}

impl BusView {
    /// The state is well formed: the register vector has its fixed size and
    /// the script cursors lie within their scripts.
    pub open spec fn wf(self) -> bool {
        &&& self.regs.len() == NREGS
        &&& 0 <= self.lsr_pos <= self.lsr.len()
        &&& 0 <= self.rx_pos <= self.rx.len()
    }
}

/// An address whose register latches what is written to it and delivers that
/// value on a read.
pub open spec fn is_stored(addr: u32) -> bool {
    ||| (GPFSEL0 <= addr <= GPFSEL5 && (addr - GPFSEL0) % 4 == 0)
    ||| addr == GPPUD
    ||| addr == GPPUDCLK0
    ||| addr == GPPUDCLK1
    ||| addr == AUX_ENABLE
    ||| addr == AUX_MU_IER
    ||| addr == AUX_MU_LCR
    ||| addr == AUX_MU_MCR
    ||| addr == AUX_MU_CNTL
    ||| addr == AUX_MU_BAUD
}

/// Slot of a latched register.
pub open spec fn stored_index(addr: u32) -> int {
    if GPFSEL0 <= addr <= GPFSEL5 {
        (addr - GPFSEL0) / 4
    } else if addr == GPPUD {
        REG_PUD as int
    } else if addr == GPPUDCLK0 {
        REG_PUDCLK0 as int
    } else if addr == GPPUDCLK1 {
        REG_PUDCLK1 as int
    } else if addr == AUX_ENABLE {
        REG_AUXEN as int
    } else if addr == AUX_MU_IER {
        REG_IER as int
    } else if addr == AUX_MU_LCR {
        REG_LCR as int
    } else if addr == AUX_MU_MCR {
        REG_MCR as int
    } else if addr == AUX_MU_CNTL {
        REG_CNTL as int
    } else {
        REG_BAUD as int
    }
}

/// An address this layer is allowed to write.
pub open spec fn writable(addr: u32) -> bool {
    ||| is_stored(addr)
    ||| addr == GPSET0
    ||| addr == GPSET1
    ||| addr == GPCLR0
    ||| addr == GPCLR1
    ||| addr == AUX_MU_IO
    ||| addr == AUX_MU_IIR
}

/// An address this layer may read in the given state. The two
/// hardware-driven registers need an unconsumed script entry.
pub open spec fn readable(v: BusView, addr: u32) -> bool {
    if addr == AUX_MU_LSR {
        v.lsr_pos < v.lsr.len()
    } else if addr == AUX_MU_IO {
        v.rx_pos < v.rx.len()
    } else {
        is_stored(addr)
    }
}

/// Latched state after a write: stored registers take the value; the set and
/// clear registers drive the level words one bit per set mask bit, leaving
/// zero mask bits alone; the data and FIFO-clear registers latch nothing.
pub open spec fn write_regs(regs: Seq<u32>, addr: u32, val: u32) -> Seq<u32> {
    if addr == GPSET0 {
        regs.update(REG_LEV0 as int, regs[REG_LEV0 as int] | val)
    } else if addr == GPSET1 {
        regs.update(REG_LEV1 as int, regs[REG_LEV1 as int] | val)
    } else if addr == GPCLR0 {
        regs.update(REG_LEV0 as int, regs[REG_LEV0 as int] & !val)
    } else if addr == GPCLR1 {
        regs.update(REG_LEV1 as int, regs[REG_LEV1 as int] & !val)
    } else if is_stored(addr) {
        regs.update(stored_index(addr), val)
    } else {
        regs
    }
}

/// Full state after a write: latched state updated, the access logged.
pub open spec fn write_effect(v: BusView, addr: u32, val: u32) -> BusView {
    BusView { regs: write_regs(v.regs, addr, val), log: v.log.push(Event::Write(addr, val)), ..v }
}

/// Value a read delivers: the next script entry for the two hardware-driven
/// registers, the latched value otherwise.
pub open spec fn read_result(v: BusView, addr: u32) -> u32 {
    if addr == AUX_MU_LSR {
        v.lsr[v.lsr_pos]
    } else if addr == AUX_MU_IO {
        v.rx[v.rx_pos]
    } else {
        v.regs[stored_index(addr)]
    }
}

/// Full state after a read: the script cursor advances where one is consumed,
/// and the access is logged together with the value delivered.
pub open spec fn read_effect(v: BusView, addr: u32) -> BusView {
    BusView {
        lsr_pos: if addr == AUX_MU_LSR { v.lsr_pos + 1 } else { v.lsr_pos },
        rx_pos: if addr == AUX_MU_IO { v.rx_pos + 1 } else { v.rx_pos },
        log: v.log.push(Event::Read(addr, read_result(v, addr))),
        ..v
    }
}

/// Full state after a settle delay: nothing changes but the log.
pub open spec fn settle_effect(v: BusView, ticks: u32) -> BusView {
    BusView { log: v.log.push(Event::Settle(ticks)), ..v }
}

/// Output level of a pin, as established by the set/clear registers.
pub open spec fn pin_level(v: BusView, pin: u32) -> bool {
    (v.regs[REG_LEV0 as int + (pin / 32) as int] >> (pin % 32)) & 1 == 1
}

/// The simulated register block.
pub struct Bus {
    regs: Vec<u32>,
    lsr_script: Vec<u32>,
    lsr_pos: usize,
    rx_script: Vec<u32>,
    rx_pos: usize,
    log: Vec<Event>,
}

impl View for Bus {
    type V = BusView;

    closed spec fn view(&self) -> BusView {
        BusView {
            regs: self.regs@,
            lsr: self.lsr_script@,
            lsr_pos: self.lsr_pos as int,
            rx: self.rx_script@,
            rx_pos: self.rx_pos as int,
            log: self.log@,
        }
    }
}

impl Bus {
    /// A register block fresh out of reset: every latched register zero, no
    /// scripted reads, nothing logged.
    pub fn new() -> (bus: Bus)
        ensures
            bus@.wf(),
            bus@.regs == Seq::new(NREGS as nat, |i: int| 0u32),
            bus@.lsr.len() == 0,
            bus@.lsr_pos == 0,
            bus@.rx.len() == 0,
            bus@.rx_pos == 0,
            bus@.log.len() == 0,
    {
        let bus = Bus {
            regs: vec![0u32; NREGS],
            lsr_script: Vec::new(),
            lsr_pos: 0,
            rx_script: Vec::new(),
            rx_pos: 0,
            log: Vec::new(),
        };
        proof {
            assert(bus@.regs =~= Seq::new(NREGS as nat, |i: int| 0u32));
        }
        bus
    }

    /// Script the value the next unconsumed line-status read will deliver.
    pub fn feed_status(&mut self, val: u32)
        requires
            old(self)@.wf(),
        ensures
            final(self)@.wf(),
            final(self)@ == (BusView { lsr: old(self)@.lsr.push(val), ..old(self)@ }),
    {
        self.lsr_script.push(val);
    }

    /// Script the value the next unconsumed data-register read will deliver.
    pub fn feed_rx(&mut self, val: u32)
        requires
            old(self)@.wf(),
        ensures
            final(self)@.wf(),
            final(self)@ == (BusView { rx: old(self)@.rx.push(val), ..old(self)@ }),
    {
        self.rx_script.push(val);
    }

    /// One ordered, uncached 32-bit read of a mapped register.
    pub fn read(&mut self, addr: u32) -> (r: u32)
        requires
            old(self)@.wf(),
            readable(old(self)@, addr),
        ensures
            final(self)@.wf(),
            r == read_result(old(self)@, addr),
            final(self)@ == read_effect(old(self)@, addr),
    {
        let r: u32;
        if addr == AUX_MU_LSR {
            let n = self.lsr_script.len();
            proof {
                assert(self.lsr_pos < n);
            }
            r = self.lsr_script[self.lsr_pos];
            self.lsr_pos = self.lsr_pos + 1;
        } else if addr == AUX_MU_IO {
            let n = self.rx_script.len();
            proof {
                assert(self.rx_pos < n);
            }
            r = self.rx_script[self.rx_pos];
            self.rx_pos = self.rx_pos + 1;
        } else {
            let i = Self::stored_slot(addr);
            r = self.regs[i];
        }
        self.log.push(Event::Read(addr, r));
        proof {
            assert(self@ =~= read_effect(old(self)@, addr));
        }
        r
    }

    /// One ordered, uncached 32-bit write of a mapped register.
    pub fn write(&mut self, addr: u32, val: u32)
        requires
            old(self)@.wf(),
            writable(addr),
        ensures
            final(self)@.wf(),
            final(self)@ == write_effect(old(self)@, addr, val),
    {
        if addr == GPSET0 {
            let cur = self.regs[REG_LEV0];
            self.regs[REG_LEV0] = cur | val;
        } else if addr == GPSET1 {
            let cur = self.regs[REG_LEV1];
            self.regs[REG_LEV1] = cur | val;
        } else if addr == GPCLR0 {
            let cur = self.regs[REG_LEV0];
            self.regs[REG_LEV0] = cur & !val;
        } else if addr == GPCLR1 {
            let cur = self.regs[REG_LEV1];
            self.regs[REG_LEV1] = cur & !val;
        } else if addr == AUX_MU_IO || addr == AUX_MU_IIR {
            // Data and FIFO-clear commands latch nothing the layer reads back.
        } else {
            let i = Self::stored_slot(addr);
            self.regs[i] = val;
        }
        self.log.push(Event::Write(addr, val));
        proof {
            assert(self@ =~= write_effect(old(self)@, addr, val));
        }
    }

    /// A settle delay of the given number of no-op cycles. The model only
    /// records it; driving real hardware, this is a busy wait.
    pub fn settle(&mut self, ticks: u32)
        requires
            old(self)@.wf(),
        ensures
            final(self)@.wf(),
            final(self)@ == settle_effect(old(self)@, ticks),
    {
        self.log.push(Event::Settle(ticks));
        proof {
            assert(self@ =~= settle_effect(old(self)@, ticks));
        }
    }

    /// Latched value of a stored register, without an access.
    pub fn peek(&self, addr: u32) -> (r: u32)
        requires
            self@.wf(),
            is_stored(addr),
        ensures
            r == self@.regs[stored_index(addr)],
    {
        let i = Self::stored_slot(addr);
        self.regs[i]
    }

    /// Output level of a pin, as established by the set/clear registers.
    pub fn level(&self, pin: u32) -> (r: bool)
        requires
            self@.wf(),
            pin < NPINS,
        ensures
            r == pin_level(self@, pin),
    {
        let w = self.regs[REG_LEV0 + (pin / 32) as usize];
        (w >> (pin % 32)) & 1 == 1
    }

    /// How many accesses have been logged.
    pub fn event_count(&self) -> (n: usize)
        ensures
            n == self@.log.len(),
    {
        self.log.len()
    }

    /// The `i`-th logged access.
    pub fn event_at(&self, i: usize) -> (e: Event)
        requires
            i < self@.log.len(),
        ensures
            e == self@.log[i as int],
    {
        self.log[i]
    }

    fn stored_slot(addr: u32) -> (i: usize)
        requires
            is_stored(addr),
        ensures
            i as int == stored_index(addr),
            i < NREGS,
    {
        if addr >= GPFSEL0 && addr <= GPFSEL5 {
            ((addr - GPFSEL0) / 4) as usize
        } else if addr == GPPUD {
            REG_PUD
        } else if addr == GPPUDCLK0 {
            REG_PUDCLK0
        } else if addr == GPPUDCLK1 {
            REG_PUDCLK1
        } else if addr == AUX_ENABLE {
            REG_AUXEN
        } else if addr == AUX_MU_IER {
            REG_IER
        } else if addr == AUX_MU_LCR {
            REG_LCR
        } else if addr == AUX_MU_MCR {
            REG_MCR
        } else if addr == AUX_MU_CNTL {
            REG_CNTL
        } else {
            REG_BAUD
        }
    }
}

} // verus!
