//! What holds of the processor over more than one step.

use super::cpu::{
    cycled, dispatched, done, fetched, ticked, CpuState, Flags, Pins, Step, Ticked,
};
use super::device::map::{
    after_write_from, bus_after_write, bus_read, bus_write, read_from, write_from,
    DeviceMapResult,
};
use super::device::vga::lemma_cell_reads_back;
use super::device::{high_byte, low_byte, word_of, DeviceModel};
use crate::common::instruction::instructions::{execute_step, hlt_step};
use crate::common::instruction::opcode::{table_entry, Executor};
use vstd::prelude::*;

verus! {

/// The processor after pushing `values`, the first of them first.
pub open spec fn pushed_all(cpu: CpuState, values: Seq<u16>) -> Step
    decreases values.len(),
{
    if values.len() == 0 {
        done(cpu)
    } else {
        pushed_all(cpu, values.drop_last()).pushed(values.last())
    }
}

/// The processor after `count` pops.
pub open spec fn popped_all(cpu: CpuState, count: nat) -> Step
    decreases count,
{
    if count == 0 {
        done(cpu)
    } else {
        let first = cpu.popped();
        if first.fault is Some {
            first
        } else {
            popped_all(first.state, (count - 1) as nat)
        }
    }
}

/// The words that `count` pops read, in the order in which they read them.
pub open spec fn popped_values(cpu: CpuState, count: nat) -> Seq<u16>
    decreases count,
{
    if count == 0 {
        Seq::empty()
    } else {
        seq![cpu.top()] + popped_values(cpu.popped().state, (count - 1) as nat)
    }
}

/// The address of the word with the number `i` of a stack that begins at
/// `base`.
pub open spec fn slot(base: int, i: int) -> u32 {
    (base + 2 * i) as u32
}

/// The words `values` lie on the bus from `base` on, two addresses apart.
pub open spec fn stack_holds(bus: Seq<DeviceModel>, base: int, values: Seq<u16>) -> bool {
    forall|i: int|
        0 <= i < values.len() ==> bus_read(bus, #[trigger] slot(base, i)) == DeviceMapResult::Served(
            values[i],
        )
}

proof fn lemma_word_parts(value: u16)
    ensures
        word_of(high_byte(value), low_byte(value)) == value,
{
}

/// A word that the bus took is read back from where it was written.
pub proof fn lemma_read_after_write(bus: Seq<DeviceModel>, addr: u32, value: u16)
    requires
        bus_write(bus, addr, value) is Served,
    ensures
        bus_read(bus_after_write(bus, addr, value), addr) == DeviceMapResult::Served(value),
{
    lemma_read_after_write_from(bus, addr, value, 0);
}

proof fn lemma_read_after_write_from(bus: Seq<DeviceModel>, addr: u32, value: u16, from: int)
    requires
        0 <= from,
        write_from(bus, addr, value, from) is Served,
    ensures
        read_from(after_write_from(bus, addr, value, from), addr, from) == DeviceMapResult::Served(
            value,
        ),
        after_write_from(bus, addr, value, from).len() == bus.len(),
        forall|j: int| 0 <= j < from ==> after_write_from(bus, addr, value, from)[j] == bus[j],
    decreases bus.len() - from,
{
    if from < bus.len() {
        let device = bus[from];
        if device.write(addr, value) is NotMyAddress {
            lemma_read_after_write_from(bus, addr, value, from + 1);
            let after = after_write_from(bus, addr, value, from + 1);
            assert(after[from] == device);
            assert(device.read(addr) is NotMyAddress);
        } else {
            lemma_word_parts(value);
            if device is Vga {
                let offset = addr - device.start();
                lemma_cell_reads_back(device->Vga_cells[offset / 2], value, 0);
            } else {
                assert(device is Ram);
            }
        }
    }
}

/// A write leaves every word that it does not touch as it was.
pub proof fn lemma_write_keeps_other_words(
    bus: Seq<DeviceModel>,
    addr: u32,
    value: u16,
    other: u32,
)
    requires
        other + 2 <= addr || addr + 2 <= other,
    ensures
        bus_read(bus_after_write(bus, addr, value), other) == bus_read(bus, other),
{
    let after = bus_after_write(bus, addr, value);
    lemma_one_device_changed(bus, addr, value, 0);
    assert forall|i: int| 0 <= i < bus.len() implies (#[trigger] after[i]).read(other)
        == bus[i].read(other) by {
        if after[i] != bus[i] {
            assert(after[i] == bus[i].after_write(addr, value));
        }
    }
    lemma_same_answers(bus, after, other, 0);
}

proof fn lemma_one_device_changed(bus: Seq<DeviceModel>, addr: u32, value: u16, from: int)
    requires
        0 <= from,
    ensures
        after_write_from(bus, addr, value, from).len() == bus.len(),
        forall|i: int|
            0 <= i < bus.len() ==> (#[trigger] after_write_from(bus, addr, value, from)[i])
                == bus[i] || after_write_from(bus, addr, value, from)[i] == bus[i].after_write(
                addr,
                value,
            ),
    decreases bus.len() - from,
{
    if from < bus.len() {
        lemma_one_device_changed(bus, addr, value, from + 1);
    }
}

proof fn lemma_same_answers(
    bus: Seq<DeviceModel>,
    after: Seq<DeviceModel>,
    addr: u32,
    from: int,
)
    requires
        0 <= from,
        bus.len() == after.len(),
        forall|i: int| 0 <= i < bus.len() ==> (#[trigger] after[i]).read(addr) == bus[i].read(addr),
    ensures
        read_from(after, addr, from) == read_from(bus, addr, from),
    decreases bus.len() - from,
{
    if from < bus.len() {
        assert(after[from].read(addr) == bus[from].read(addr));
        lemma_same_answers(bus, after, addr, from + 1);
    }
}

/// After pushes that all went through, the stack pointer has moved up by two
/// for each, and the words lie on the bus where it had pointed.
pub proof fn lemma_pushes_fill_stack(cpu: CpuState, values: Seq<u16>)
    requires
        pushed_all(cpu, values).fault is None,
    ensures
        pushed_all(cpu, values).state.sp == cpu.sp + 2 * values.len(),
        stack_holds(pushed_all(cpu, values).state.bus, cpu.sp as int, values),
        pushed_all(cpu, values).state == (CpuState {
            sp: pushed_all(cpu, values).state.sp,
            bus: pushed_all(cpu, values).state.bus,
            ..cpu
        }),
    decreases values.len(),
{
    if values.len() > 0 {
        let front = values.drop_last();
        let before = pushed_all(cpu, front);
        lemma_pushes_fill_stack(cpu, front);
        let at = before.state.sp as u32;
        let value = values.last();
        let bus = before.state.bus;
        let after = bus_after_write(bus, at, value);
        assert(slot(cpu.sp as int, values.len() - 1) == at);
        lemma_read_after_write(bus, at, value);
        assert forall|i: int| 0 <= i < values.len() implies bus_read(
            after,
            #[trigger] slot(cpu.sp as int, i),
        ) == DeviceMapResult::Served(values[i]) by {
            if i < front.len() {
                lemma_write_keeps_other_words(bus, at, value, slot(cpu.sp as int, i));
                assert(bus_read(bus, slot(cpu.sp as int, i)) == DeviceMapResult::Served(front[i]));
            }
        }
    }
}

/// Pops from a stack that holds `values` go through, read the words from the
/// last to the first, change nothing on the bus and bring the stack pointer
/// down to where the words begin.
pub proof fn lemma_pops_empty_stack(cpu: CpuState, base: int, values: Seq<u16>)
    requires
        0 <= base,
        cpu.sp == base + 2 * values.len(),
        stack_holds(cpu.bus, base, values),
    ensures
        popped_all(cpu, values.len()).fault is None,
        popped_values(cpu, values.len()) == values.reverse(),
        popped_all(cpu, values.len()).state == (CpuState { sp: base as u16, ..cpu }),
    decreases values.len(),
{
    if values.len() > 0 {
        let front = values.drop_last();
        let last = values.len() - 1;
        assert(bus_read(cpu.bus, slot(base, last)) == DeviceMapResult::Served(values[last]));
        let first = cpu.popped();
        assert(first.fault is None);
        assert(cpu.top() == values.last());
        assert forall|i: int| 0 <= i < front.len() implies bus_read(
            first.state.bus,
            #[trigger] slot(base, i),
        ) == DeviceMapResult::Served(front[i]) by {
            assert(bus_read(cpu.bus, slot(base, i)) == DeviceMapResult::Served(values[i]));
        }
        lemma_pops_empty_stack(first.state, base, front);
        assert(values.reverse() =~= seq![values.last()] + front.reverse());
    } else {
        assert(values.reverse() =~= Seq::<u16>::empty());
    }
}

/// The stack is last in, first out: after pushes that all went through, as
/// many pops go through, read the words that were pushed, the last first, and
/// leave the stack pointer where it was before the pushes.
pub proof fn lemma_stack_discipline(cpu: CpuState, values: Seq<u16>)
    requires
        pushed_all(cpu, values).fault is None,
    ensures
        popped_all(pushed_all(cpu, values).state, values.len()).fault is None,
        popped_values(pushed_all(cpu, values).state, values.len()) == values.reverse(),
        popped_all(pushed_all(cpu, values).state, values.len()).state.sp == cpu.sp,
{
    lemma_pushes_fill_stack(cpu, values);
    lemma_pops_empty_stack(pushed_all(cpu, values).state, cpu.sp as int, values);
}

/// Whether the instruction in flight is a HLT: the row of the opcode table
/// under the high byte of `ir` names the routine of HLT.
#[verifier::opaque]
pub open spec fn halts(cpu: CpuState) -> bool {
    match table_entry((cpu.ir as int / 256) as u8) {
        Some(info) => info.2 == Executor::Hlt,
        None => false,
    }
}

/// Whether the instruction at the program counter can be fetched and is a
/// HLT.
pub open spec fn at_halt(cpu: CpuState) -> bool {
    fetched(cpu).fault is None && halts(fetched(cpu).state)
}

/// Carrying out a HLT stops the processor and changes nothing else.
proof fn lemma_dispatch_halt(cpu: CpuState)
    requires
        halts(cpu),
    ensures
        dispatched(cpu) == done(CpuState { running: false, ..cpu }),
{
    reveal(halts);
    reveal(dispatched);
    reveal(execute_step);
    reveal(hlt_step);
}

/// Which instruction is in flight depends on `ir` alone.
proof fn lemma_halts_by_ir(first: CpuState, second: CpuState)
    requires
        first.ir == second.ir,
    ensures
        halts(first) == halts(second),
{
    reveal(halts);
}

/// A fetch touches the instruction registers and the flag D, nothing else.
proof fn lemma_fetch_frame(cpu: CpuState)
    ensures
        fetched(cpu).state == (CpuState {
            ir: fetched(cpu).state.ir,
            dr: fetched(cpu).state.dr,
            ad: fetched(cpu).state.ad,
            size: fetched(cpu).state.size,
            flags: Flags { d: fetched(cpu).state.flags.d, ..cpu.flags },
            ..cpu
        }),
{
    reveal(fetched);
}

/// What a fetch reads depends on the bus and the program counter alone: two
/// processors that agree on these, on the flags but D, and on the operand
/// register where the instruction has no operand, are alike after the fetch but
/// for what the fetch does not touch.
proof fn lemma_fetch_again(first: CpuState, second: CpuState)
    requires
        fetched(first).fault is None,
        second == (CpuState {
            running: second.running,
            size: second.size,
            ir: second.ir,
            dr: second.dr,
            ad: fetched(first).state.ad,
            flags: Flags { d: second.flags.d, ..first.flags },
            ..first
        }),
    ensures
        fetched(second).fault is None,
        fetched(second).state == (CpuState {
            running: second.running,
            dr: if (fetched(first).state.ir as int / 4) % 4 == 3 {
                second.dr
            } else {
                fetched(first).state.dr
            },
            ..fetched(first).state
        }),
{
    reveal(fetched);
}

/// HLT halts for good: the tick that carries out a HLT leaves the processor
/// not running, and every tick after it, as long as the interrupt pin is off,
/// goes through and leaves the processor, its registers, flags and bus, as
/// that tick left it.
pub proof fn lemma_halt_is_stable(cpu: CpuState, pins: Pins, later: Pins)
    requires
        pins.irq is Off,
        later.irq is Off,
        at_halt(cpu),
    ensures
        ticked(cpu, pins).fault is None,
        !ticked(cpu, pins).state.running,
        ticked(ticked(cpu, pins).state, later).fault is None,
        ticked(ticked(cpu, pins).state, later).state == ticked(cpu, pins).state,
{
    let fetch = fetched(cpu).state;
    lemma_fetch_frame(cpu);
    lemma_dispatch_halt(fetch);
    let halted = CpuState { size: 0, ir: 0, dr: 0, running: false, ..fetch };
    assert(cycled(cpu) == done(halted));
    lemma_fetch_again(cpu, halted);
    let again = fetched(halted).state;
    lemma_halts_by_ir(again, fetch);
    lemma_dispatch_halt(again);
    assert(cycled(halted) == done(halted));
}

/// The processor after `count` ticks with the pins that each tick hands on;
/// a tick that fails ends the run.
pub open spec fn ticked_times(cpu: CpuState, pins: Pins, count: nat) -> Ticked
    decreases count,
{
    if count == 0 {
        Ticked { state: cpu, pins, fault: None }
    } else {
        let first = ticked(cpu, pins);
        if first.fault is Some {
            first
        } else {
            ticked_times(first.state, first.pins, (count - 1) as nat)
        }
    }
}

/// A run is a function of where it starts: two processors that begin alike,
/// with devices that hold the same, are alike after any number of ticks, in
/// every register, every flag and all that the devices hold.
pub proof fn lemma_run_is_determined(first: CpuState, second: CpuState, pins: Pins, count: nat)
    requires
        first == second,
    ensures
        ticked_times(first, pins, count) == ticked_times(second, pins, count),
{
}

} // verus!
