//! The polled transmit/receive protocol of the mini-UART, and the baud-rate
//! divisor computation, shared by both transceiver front ends.
//!
//! Sending a byte spins on the line-status register until the
//! transmitter-empty bit appears, then writes the byte to the data register;
//! receiving spins until the data-ready bit appears, then reads the data
//! register. In the model the line-status reads consume the status script,
//! so a spin terminates exactly when the script eventually delivers the
//! awaited bit; on the physical device the same loop blocks until the
//! hardware raises it.

use vstd::prelude::*;

use crate::bus::{Bus, BusView, Event, AUX_MU_IO, AUX_MU_LSR};

verus! {

/// Line-status bit reporting "transmitter holding register empty".
pub const LSR_TX_EMPTY: u32 = 0x20;

/// Line-status bit reporting "receiver data ready".
pub const LSR_RX_READY: u32 = 0x1;

/// Reference clock of the auxiliary peripheral block, in hertz.
pub const SYSTEM_CLOCK_HZ: u32 = 250_000_000;

/// The GPIO pin carrying the mini-UART transmit line.
pub const TX_PIN: u32 = 14;

/// The GPIO pin carrying the mini-UART receive line.
pub const RX_PIN: u32 = 15;

/// The divisor programmed into the baud-rate register for a target rate:
/// `clock / (8 * baud) - 1`, in integer arithmetic.
pub open spec fn spec_divisor(clock: u32, baud: u32) -> u32
    recommends
        0 < baud,
        8 * baud <= clock,
{
    (clock as int / (8 * baud as int) - 1) as u32
}

/// Compute the baud-rate divisor for a target rate on the given reference
/// clock. The rate must be positive and no more than an eighth of the clock,
/// so that the divisor is well defined.
pub fn compute_divisor(clock: u32, baud: u32) -> (r: u32)
    requires
        0 < baud,
        8 * baud <= clock,
    ensures
        r == spec_divisor(clock, baud),
{
    let q: u64 = (clock as u64) / (8 * (baud as u64));
    proof {
        assert(1 <= q && q <= clock) by (nonlinear_arith)
            requires
                q == clock as int / (8 * baud as int),
                0 < baud,
                8 * baud <= clock,
        ;
    }
    (q - 1) as u32
}

/// Position of the first script entry at or past `pos` that has a bit of
/// `mask` set; the script length if there is none.
pub open spec fn first_set(s: Seq<u32>, pos: int, mask: u32) -> int
    decreases s.len() - pos
        when 0 <= pos <= s.len()
{
    if pos >= s.len() {
        s.len() as int
    } else if s[pos] & mask != 0 {
        pos
    } else {
        first_set(s, pos + 1, mask)
    }
}

/// What [`first_set`] finds: a position within bounds, with the bit set
/// there and at no earlier position from `pos` on.
pub proof fn lemma_first_set(s: Seq<u32>, pos: int, mask: u32)
    requires
        0 <= pos <= s.len(),
    ensures
        pos <= first_set(s, pos, mask) <= s.len(),
        first_set(s, pos, mask) < s.len() ==> s[first_set(s, pos, mask)] & mask != 0,
        forall|i: int| pos <= i < first_set(s, pos, mask) ==> s[i] & mask == 0,
    decreases s.len() - pos,
{
    if pos < s.len() && s[pos] & mask == 0 {
        lemma_first_set(s, pos + 1, mask);
    }
}

/// The unconsumed status script eventually delivers a bit of `mask`.
pub open spec fn has_ready(v: BusView, mask: u32) -> bool {
    first_set(v.lsr, v.lsr_pos, mask) < v.lsr.len()
}

/// Position of the first unconsumed status entry with a bit of `mask` set.
pub open spec fn ready_at(v: BusView, mask: u32) -> int {
    first_set(v.lsr, v.lsr_pos, mask)
}

/// The reads a status poll logs while consuming script entries `from`
/// (inclusive) to `to` (exclusive).
pub open spec fn poll_events(s: Seq<u32>, from: int, to: int) -> Seq<Event> {
    Seq::new((to - from) as nat, |i: int| Event::Read(AUX_MU_LSR, s[from + i]))
}

/// The accesses one transmit appends: the status polls up to and including
/// the first transmitter-empty entry, then the one data write.
pub open spec fn tx_events(s: Seq<u32>, from: int, to: int, b: u32) -> Seq<Event> {
    poll_events(s, from, to).push(Event::Write(AUX_MU_IO, b))
}

/// Bus state after one transmit: the status script consumed up to and
/// including the first transmitter-empty entry, and the polls plus the one
/// data write logged. Nothing else moves.
pub open spec fn tx_byte_effect(v: BusView, b: u32) -> BusView {
    let j = ready_at(v, LSR_TX_EMPTY);
    BusView {
        lsr_pos: j + 1,
        log: v.log + tx_events(v.lsr, v.lsr_pos, j + 1, b),
        ..v
    }
}

/// The accesses one receive appends: the status polls up to and including
/// the first data-ready entry, then the one data-register read.
pub open spec fn rx_events(s: Seq<u32>, from: int, to: int, b: u32) -> Seq<Event> {
    poll_events(s, from, to).push(Event::Read(AUX_MU_IO, b))
}

/// Bus state after one receive: the status script consumed up to and
/// including the first data-ready entry, one receive script entry consumed,
/// and the polls plus the one data-register read logged.
pub open spec fn rx_byte_effect(v: BusView) -> BusView {
    let j = ready_at(v, LSR_RX_READY);
    BusView {
        lsr_pos: j + 1,
        rx_pos: v.rx_pos + 1,
        log: v.log + rx_events(v.lsr, v.lsr_pos, j + 1, v.rx[v.rx_pos]),
        ..v
    }
}

/// A receive can complete: the status script eventually signals data ready
/// and the receive script has an unconsumed byte to deliver.
pub open spec fn can_rx(v: BusView) -> bool {
    has_ready(v, LSR_RX_READY) && v.rx_pos < v.rx.len()
}

/// Poll the line-status register until the transmitter-empty bit is
/// delivered, then write `b` to the data register. The accesses appended to
/// the log hold exactly one data-register write, carrying `b`, and it comes
/// only after a poll has delivered the bit.
pub fn tx_byte(bus: &mut Bus, b: u32)
    requires
        old(bus)@.wf(),
        has_ready(old(bus)@, LSR_TX_EMPTY),
    ensures
        final(bus)@.wf(),
        final(bus)@ == tx_byte_effect(old(bus)@, b),
        final(bus)@.log == old(bus)@.log + tx_events(
            old(bus)@.lsr,
            old(bus)@.lsr_pos,
            ready_at(old(bus)@, LSR_TX_EMPTY) + 1,
            b,
        ),
        data_write_values(final(bus)@.log.skip(old(bus)@.log.len() as int)) == seq![b],
        data_writes_follow_ready(final(bus)@.log.skip(old(bus)@.log.len() as int), LSR_TX_EMPTY),
{
    let ghost v0 = old(bus)@;
    let ghost j = ready_at(v0, LSR_TX_EMPTY);
    proof {
        lemma_first_set(v0.lsr, v0.lsr_pos, LSR_TX_EMPTY);
    }
    let mut status = bus.read(AUX_MU_LSR);
    proof {
        assert(bus@.log =~= v0.log + poll_events(v0.lsr, v0.lsr_pos, bus@.lsr_pos));
    }
    while status & LSR_TX_EMPTY == 0
        invariant
            bus@.wf(),
            bus@.regs == v0.regs,
            bus@.lsr == v0.lsr,
            bus@.rx == v0.rx,
            bus@.rx_pos == v0.rx_pos,
            j == ready_at(v0, LSR_TX_EMPTY),
            v0.lsr_pos <= j < v0.lsr.len(),
            v0.lsr[j] & LSR_TX_EMPTY != 0,
            v0.lsr_pos < bus@.lsr_pos <= j + 1,
            forall|i: int| v0.lsr_pos <= i < j ==> v0.lsr[i] & LSR_TX_EMPTY == 0,
            status == v0.lsr[bus@.lsr_pos - 1],
            status & LSR_TX_EMPTY == 0 ==> bus@.lsr_pos <= j,
            bus@.log == v0.log + poll_events(v0.lsr, v0.lsr_pos, bus@.lsr_pos),
        decreases j + 1 - bus@.lsr_pos,
    {
        status = bus.read(AUX_MU_LSR);
        proof {
            assert(bus@.log =~= v0.log + poll_events(v0.lsr, v0.lsr_pos, bus@.lsr_pos));
        }
    }
    proof {
        assert(bus@.lsr_pos == j + 1);
    }
    bus.write(AUX_MU_IO, b);
    proof {
        assert(bus@ =~= tx_byte_effect(v0, b));
        assert(bus@.log.skip(v0.log.len() as int) =~= tx_events(v0.lsr, v0.lsr_pos, j + 1, b));
        lemma_tx_events_values(v0.lsr, v0.lsr_pos, j + 1, b);
        lemma_tx_waits_for_ready(v0, b);
    }
}

/// Poll the line-status register until the data-ready bit is delivered, then
/// read and return the byte waiting in the data register.
pub fn rx_byte(bus: &mut Bus) -> (r: u32)
    requires
        old(bus)@.wf(),
        can_rx(old(bus)@),
    ensures
        final(bus)@.wf(),
        r == old(bus)@.rx[old(bus)@.rx_pos],
        final(bus)@ == rx_byte_effect(old(bus)@),
{
    let ghost v0 = old(bus)@;
    let ghost j = ready_at(v0, LSR_RX_READY);
    proof {
        lemma_first_set(v0.lsr, v0.lsr_pos, LSR_RX_READY);
    }
    let mut status = bus.read(AUX_MU_LSR);
    proof {
        assert(bus@.log =~= v0.log + poll_events(v0.lsr, v0.lsr_pos, bus@.lsr_pos));
    }
    while status & LSR_RX_READY == 0
        invariant
            bus@.wf(),
            bus@.regs == v0.regs,
            bus@.lsr == v0.lsr,
            bus@.rx == v0.rx,
            bus@.rx_pos == v0.rx_pos,
            j == ready_at(v0, LSR_RX_READY),
            v0.lsr_pos <= j < v0.lsr.len(),
            v0.lsr[j] & LSR_RX_READY != 0,
            v0.lsr_pos < bus@.lsr_pos <= j + 1,
            forall|i: int| v0.lsr_pos <= i < j ==> v0.lsr[i] & LSR_RX_READY == 0,
            status == v0.lsr[bus@.lsr_pos - 1],
            status & LSR_RX_READY == 0 ==> bus@.lsr_pos <= j,
            bus@.log == v0.log + poll_events(v0.lsr, v0.lsr_pos, bus@.lsr_pos),
        decreases j + 1 - bus@.lsr_pos,
    {
        status = bus.read(AUX_MU_LSR);
        proof {
            assert(bus@.log =~= v0.log + poll_events(v0.lsr, v0.lsr_pos, bus@.lsr_pos));
        }
    }
    proof {
        assert(bus@.lsr_pos == j + 1);
        assert(can_rx(v0));
    }
    let r = bus.read(AUX_MU_IO);
    proof {
        assert(bus@ =~= rx_byte_effect(v0));
    }
    r
}

/// A data write of the mini-UART: a write of its I/O data register.
pub open spec fn is_data_write(e: Event) -> bool {
    e matches Event::Write(addr, _) && addr == AUX_MU_IO
}

/// A status read that delivered a bit of `mask`.
pub open spec fn is_ready_read(e: Event, mask: u32) -> bool {
    e matches Event::Read(addr, val) && addr == AUX_MU_LSR && val & mask != 0
}

/// Every data-register write in the fragment comes after some status read
/// that delivered a bit of `mask`.
pub open spec fn data_writes_follow_ready(evs: Seq<Event>, mask: u32) -> bool {
    forall|i: int|
        0 <= i < evs.len() && is_data_write(evs[i]) ==> exists|k: int|
            0 <= k < i && is_ready_read(#[trigger] evs[k], mask)
}

/// Law: a transmit appends exactly its status polls followed by the one data
/// write, and within that fragment the data register is not written until a
/// poll has delivered the transmitter-empty bit.
pub proof fn lemma_tx_waits_for_ready(v: BusView, b: u32)
    requires
        v.wf(),
        has_ready(v, LSR_TX_EMPTY),
    ensures
        tx_byte_effect(v, b).log == v.log + tx_events(
            v.lsr,
            v.lsr_pos,
            ready_at(v, LSR_TX_EMPTY) + 1,
            b,
        ),
        data_writes_follow_ready(
            tx_events(v.lsr, v.lsr_pos, ready_at(v, LSR_TX_EMPTY) + 1, b),
            LSR_TX_EMPTY,
        ),
{
    let j = ready_at(v, LSR_TX_EMPTY);
    lemma_first_set(v.lsr, v.lsr_pos, LSR_TX_EMPTY);
    let evs = tx_events(v.lsr, v.lsr_pos, j + 1, b);
    let n = evs.len() - 1;
    assert forall|i: int|
        0 <= i < evs.len() && is_data_write(evs[i]) implies exists|k: int|
            0 <= k < i && is_ready_read(#[trigger] evs[k], LSR_TX_EMPTY) by {
        if i < n {
            assert(evs[i] == Event::Read(AUX_MU_LSR, v.lsr[v.lsr_pos + i]));
            assert(!is_data_write(evs[i]));
        } else {
            assert(evs[n - 1] == Event::Read(AUX_MU_LSR, v.lsr[j]));
            assert(is_ready_read(evs[n - 1], LSR_TX_EMPTY));
            assert(0 <= n - 1 < i);
        }
    }
}

/// Bus state after transmitting every character of `s`, in order, each as
/// its 32-bit code point written to the data register.
pub open spec fn send_str_effect(v: BusView, s: Seq<char>) -> BusView
    decreases s.len(),
{
    if s.len() == 0 {
        v
    } else {
        tx_byte_effect(send_str_effect(v, s.drop_last()), s.last() as u32)
    }
}

/// The unconsumed status script delivers the transmitter-empty bit often
/// enough to transmit every character of `s`, in order: before each
/// character's transmit there is another transmitter-empty entry left.
pub open spec fn can_send_all(v: BusView, s: Seq<char>) -> bool
    decreases s.len(),
{
    s.len() == 0 || (can_send_all(v, s.drop_last()) && has_ready(
        send_str_effect(v, s.drop_last()),
        LSR_TX_EMPTY,
    ))
}

/// A status script that suffices for a text also suffices for each of its
/// prefixes.
pub proof fn lemma_can_send_prefix(v: BusView, s: Seq<char>, k: int)
    requires
        0 <= k <= s.len(),
        can_send_all(v, s),
    ensures
        can_send_all(v, s.take(k)),
    decreases s.len() - k,
{
    if k < s.len() {
        assert(s.drop_last() =~= s.take(s.len() - 1));
        lemma_can_send_prefix(v, s.take(s.len() - 1), k);
        assert(s.take(s.len() - 1).take(k) =~= s.take(k));
    } else {
        assert(s.take(k) =~= s);
    }
}

/// Transmitting only polls status and writes the data register: the latched
/// register state — and with it the configured framing and divisor — and the
/// receive side are left exactly as they were.
pub proof fn lemma_send_str_preserves_regs(v: BusView, s: Seq<char>)
    ensures
        send_str_effect(v, s).regs == v.regs,
        send_str_effect(v, s).lsr == v.lsr,
        send_str_effect(v, s).rx == v.rx,
        send_str_effect(v, s).rx_pos == v.rx_pos,
    decreases s.len(),
{
    if s.len() > 0 {
        lemma_send_str_preserves_regs(v, s.drop_last());
    }
}

/// The value a data-register write drove; zero for any other access.
pub open spec fn write_value(e: Event) -> u32 {
    match e {
        Event::Write(_, val) => val,
        _ => 0,
    }
}

/// The values of the data-register writes in a log fragment, in order.
pub open spec fn data_write_values(evs: Seq<Event>) -> Seq<u32>
    decreases evs.len(),
{
    if evs.len() == 0 {
        Seq::empty()
    } else if is_data_write(evs.last()) {
        data_write_values(evs.drop_last()).push(write_value(evs.last()))
    } else {
        data_write_values(evs.drop_last())
    }
}

/// The accesses a whole transmission of `s` appends: for each character in
/// turn, its status polls followed by its one data write.
pub open spec fn send_str_events(v: BusView, s: Seq<char>) -> Seq<Event>
    decreases s.len(),
{
    if s.len() == 0 {
        Seq::empty()
    } else {
        let v1 = send_str_effect(v, s.drop_last());
        send_str_events(v, s.drop_last()) + tx_events(
            v1.lsr,
            v1.lsr_pos,
            ready_at(v1, LSR_TX_EMPTY) + 1,
            s.last() as u32,
        )
    }
}

proof fn lemma_data_write_values_concat(a: Seq<Event>, b: Seq<Event>)
    ensures
        data_write_values(a + b) == data_write_values(a) + data_write_values(b),
    decreases b.len(),
{
    if b.len() == 0 {
        assert(a + b =~= a);
        assert(data_write_values(a) + data_write_values(b) =~= data_write_values(a));
    } else {
        lemma_data_write_values_concat(a, b.drop_last());
        assert((a + b).drop_last() =~= a + b.drop_last());
        assert((a + b).last() == b.last());
        if is_data_write(b.last()) {
            assert(data_write_values(a) + data_write_values(b) =~= (data_write_values(a)
                + data_write_values(b.drop_last())).push(write_value(b.last())));
        } else {
            assert(data_write_values(a) + data_write_values(b) =~= data_write_values(a)
                + data_write_values(b.drop_last()));
        }
    }
}

proof fn lemma_poll_events_no_writes(s: Seq<u32>, from: int, to: int)
    requires
        from <= to,
    ensures
        data_write_values(poll_events(s, from, to)) == Seq::<u32>::empty(),
    decreases to - from,
{
    if from < to {
        lemma_poll_events_no_writes(s, from, to - 1);
        assert(poll_events(s, from, to).drop_last() =~= poll_events(s, from, to - 1));
        assert(poll_events(s, from, to).last() == Event::Read(AUX_MU_LSR, s[to - 1]));
    }
}

/// The accesses of one transmit contain exactly one data-register write,
/// carrying the transmitted value.
pub proof fn lemma_tx_events_values(s: Seq<u32>, from: int, to: int, b: u32)
    requires
        from <= to,
    ensures
        data_write_values(tx_events(s, from, to, b)) == seq![b],
{
    lemma_poll_events_no_writes(s, from, to);
    assert(tx_events(s, from, to, b).drop_last() =~= poll_events(s, from, to));
    assert(tx_events(s, from, to, b).last() == Event::Write(AUX_MU_IO, b));
    assert(data_write_values(tx_events(s, from, to, b)) =~= seq![b]);
}

proof fn lemma_follow_ready_concat(a: Seq<Event>, b: Seq<Event>, mask: u32)
    requires
        data_writes_follow_ready(a, mask),
        data_writes_follow_ready(b, mask),
    ensures
        data_writes_follow_ready(a + b, mask),
{
    assert forall|i: int|
        0 <= i < (a + b).len() && is_data_write((a + b)[i]) implies exists|k: int|
            0 <= k < i && is_ready_read(#[trigger] (a + b)[k], mask) by {
        if i < a.len() {
            assert(is_data_write(a[i]));
            let k = choose|k: int| 0 <= k < i && is_ready_read(#[trigger] a[k], mask);
            assert(is_ready_read((a + b)[k], mask));
        } else {
            assert(is_data_write(b[i - a.len()]));
            let k = choose|k: int|
                0 <= k < i - a.len() && is_ready_read(#[trigger] b[k], mask);
            assert(is_ready_read((a + b)[k + a.len()], mask));
            assert(0 <= k + a.len() < i);
        }
    }
}

/// Transmitting keeps the state well formed: each transmit consumes the
/// status script only up to an entry it actually holds.
pub proof fn lemma_send_str_wf(v: BusView, s: Seq<char>)
    requires
        v.wf(),
        can_send_all(v, s),
    ensures
        send_str_effect(v, s).wf(),
    decreases s.len(),
{
    if s.len() > 0 {
        lemma_send_str_wf(v, s.drop_last());
        let v1 = send_str_effect(v, s.drop_last());
        lemma_first_set(v1.lsr, v1.lsr_pos, LSR_TX_EMPTY);
    }
}

/// Law: a whole transmission appends exactly its per-character fragments to
/// the log; the data-register writes among them are exactly the text's code
/// points, in order; and every one of those writes comes after a status poll
/// that delivered the transmitter-empty bit.
pub proof fn lemma_send_str_writes_in_order(v: BusView, s: Seq<char>)
    requires
        v.wf(),
        can_send_all(v, s),
    ensures
        send_str_effect(v, s).log == v.log + send_str_events(v, s),
        data_write_values(send_str_events(v, s)) == s.map_values(|c: char| c as u32),
        data_writes_follow_ready(send_str_events(v, s), LSR_TX_EMPTY),
    decreases s.len(),
{
    let f = |c: char| c as u32;
    if s.len() == 0 {
        assert(v.log + send_str_events(v, s) =~= v.log);
        assert(data_write_values(send_str_events(v, s)) =~= s.map_values(f));
        assert(data_writes_follow_ready(send_str_events(v, s), LSR_TX_EMPTY));
    } else {
        let head = s.drop_last();
        let b = s.last() as u32;
        lemma_send_str_writes_in_order(v, head);
        lemma_send_str_wf(v, head);
        let v1 = send_str_effect(v, head);
        let frag = tx_events(v1.lsr, v1.lsr_pos, ready_at(v1, LSR_TX_EMPTY) + 1, b);
        lemma_tx_waits_for_ready(v1, b);
        assert(send_str_effect(v, s).log =~= v.log + (send_str_events(v, head) + frag));
        lemma_data_write_values_concat(send_str_events(v, head), frag);
        lemma_first_set(v1.lsr, v1.lsr_pos, LSR_TX_EMPTY);
        lemma_tx_events_values(v1.lsr, v1.lsr_pos, ready_at(v1, LSR_TX_EMPTY) + 1, b);
        assert(s.map_values(f) =~= head.map_values(f).push(b));
        lemma_follow_ready_concat(send_str_events(v, head), frag, LSR_TX_EMPTY);
    }
}

} // verus!
