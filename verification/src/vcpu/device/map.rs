//! The device bus: an ordered list of devices, each asked in turn until one
//! answers for the address.

use super::bios::BIOS;
use super::ram::{is_whole, lemma_whole_ram_serves, Ram};
use super::rom::Rom;
use super::vga::VGA;
use super::{low_byte, Device, DeviceModel, DeviceResponse};
use vstd::prelude::*;

verus! {

/// Any of the devices that the bus can hold.
pub enum AnyDevice {
    Rom(Rom),
    Ram(Ram),
    Bios(BIOS),
    Vga(VGA),
}

impl View for AnyDevice {
    type V = DeviceModel;

    open spec fn view(&self) -> DeviceModel {
        match self {
            AnyDevice::Rom(rom) => rom@,
            AnyDevice::Ram(ram) => ram@,
            AnyDevice::Bios(bios) => bios@,
            AnyDevice::Vga(vga) => vga@,
        }
    }
}

impl Device for AnyDevice {
    fn read(&self, addr: u32) -> (response: DeviceResponse<u16>) {
        match self {
            AnyDevice::Rom(rom) => rom.read(addr),
            AnyDevice::Ram(ram) => ram.read(addr),
            AnyDevice::Bios(bios) => bios.read(addr),
            AnyDevice::Vga(vga) => vga.read(addr),
        }
    }

    fn read_byte(&self, addr: u32) -> (response: DeviceResponse<u8>) {
        match self {
            AnyDevice::Rom(rom) => rom.read_byte(addr),
            AnyDevice::Ram(ram) => ram.read_byte(addr),
            AnyDevice::Bios(bios) => bios.read_byte(addr),
            AnyDevice::Vga(vga) => vga.read_byte(addr),
        }
    }

    fn write(&mut self, addr: u32, value: u16) -> (response: DeviceResponse<()>) {
        match self {
            AnyDevice::Rom(rom) => rom.write(addr, value),
            AnyDevice::Ram(ram) => ram.write(addr, value),
            AnyDevice::Bios(bios) => bios.write(addr, value),
            AnyDevice::Vga(vga) => vga.write(addr, value),
        }
    }

    fn write_byte(&mut self, addr: u32, value: u8) -> (response: DeviceResponse<()>) {
        match self {
            AnyDevice::Rom(rom) => rom.write_byte(addr, value),
            AnyDevice::Ram(ram) => ram.write_byte(addr, value),
            AnyDevice::Bios(bios) => bios.write_byte(addr, value),
            AnyDevice::Vga(vga) => vga.write_byte(addr, value),
        }
    }

    fn get_name(&self) -> (name: String) {
        match self {
            AnyDevice::Rom(rom) => rom.get_name(),
            AnyDevice::Ram(ram) => ram.get_name(),
            AnyDevice::Bios(bios) => bios.get_name(),
            AnyDevice::Vga(vga) => vga.get_name(),
        }
    }

    fn get_memory(&self) -> (bytes: Vec<u8>) {
        match self {
            AnyDevice::Rom(rom) => rom.get_memory(),
            AnyDevice::Ram(ram) => ram.get_memory(),
            AnyDevice::Bios(bios) => bios.get_memory(),
            AnyDevice::Vga(vga) => vga.get_memory(),
        }
    }
}

/// How an access to the bus ended.
pub enum DeviceMapResult<T> {
    /// A device served the access.
    Served(T),
    /// No device answers for the address.
    NoDevices,
    /// The device that answers for the address refused the access; the answer
    /// it gave is inside.
    Error(DeviceResponse<()>),
}

/// What the bus makes of the answer of the first device that did not decline.
pub open spec fn settled<T>(response: DeviceResponse<T>) -> DeviceMapResult<T> {
    match response {
        DeviceResponse::Served(value) => DeviceMapResult::Served(value),
        other => DeviceMapResult::Error(other.erased()),
    }
}

/// The outcome of reading the word at `addr` when only the devices from
/// position `from` on are asked.
pub open spec fn read_from(devices: Seq<DeviceModel>, addr: u32, from: int) -> DeviceMapResult<u16>
    decreases devices.len() - from,
{
    if from < 0 || from >= devices.len() {
        DeviceMapResult::NoDevices
    } else if devices[from].read(addr) is NotMyAddress {
        read_from(devices, addr, from + 1)
    } else {
        settled(devices[from].read(addr))
    }
}

/// The outcome of reading the byte at `addr` when only the devices from
/// position `from` on are asked.
pub open spec fn read_byte_from(devices: Seq<DeviceModel>, addr: u32, from: int) -> DeviceMapResult<
    u8,
>
    decreases devices.len() - from,
{
    if from < 0 || from >= devices.len() {
        DeviceMapResult::NoDevices
    } else if devices[from].read_byte(addr) is NotMyAddress {
        read_byte_from(devices, addr, from + 1)
    } else {
        settled(devices[from].read_byte(addr))
    }
}

/// The outcome of writing `value` to the word at `addr` when only the devices
/// from position `from` on are asked.
pub open spec fn write_from(
    devices: Seq<DeviceModel>,
    addr: u32,
    value: u16,
    from: int,
) -> DeviceMapResult<()>
    decreases devices.len() - from,
{
    if from < 0 || from >= devices.len() {
        DeviceMapResult::NoDevices
    } else if devices[from].write(addr, value) is NotMyAddress {
        write_from(devices, addr, value, from + 1)
    } else {
        settled(devices[from].write(addr, value))
    }
}

/// The devices after that write.
pub open spec fn after_write_from(
    devices: Seq<DeviceModel>,
    addr: u32,
    value: u16,
    from: int,
) -> Seq<DeviceModel>
    decreases devices.len() - from,
{
    if from < 0 || from >= devices.len() {
        devices
    } else if devices[from].write(addr, value) is NotMyAddress {
        after_write_from(devices, addr, value, from + 1)
    } else {
        devices.update(from, devices[from].after_write(addr, value))
    }
}

/// The outcome of writing `value` to the byte at `addr` when only the devices
/// from position `from` on are asked.
pub open spec fn write_byte_from(
    devices: Seq<DeviceModel>,
    addr: u32,
    value: u8,
    from: int,
) -> DeviceMapResult<()>
    decreases devices.len() - from,
{
    if from < 0 || from >= devices.len() {
        DeviceMapResult::NoDevices
    } else if devices[from].write_byte(addr, value) is NotMyAddress {
        write_byte_from(devices, addr, value, from + 1)
    } else {
        settled(devices[from].write_byte(addr, value))
    }
}

/// The devices after that write.
pub open spec fn after_write_byte_from(
    devices: Seq<DeviceModel>,
    addr: u32,
    value: u8,
    from: int,
) -> Seq<DeviceModel>
    decreases devices.len() - from,
{
    if from < 0 || from >= devices.len() {
        devices
    } else if devices[from].write_byte(addr, value) is NotMyAddress {
        after_write_byte_from(devices, addr, value, from + 1)
    } else {
        devices.update(from, devices[from].after_write_byte(addr, value))
    }
}

/// The outcome of reading the word at `addr`: that of the first device, in
/// the order in which they were added, that does not decline the address.
pub open spec fn bus_read(devices: Seq<DeviceModel>, addr: u32) -> DeviceMapResult<u16> {
    read_from(devices, addr, 0)
}

/// The outcome of reading the byte at `addr`.
pub open spec fn bus_read_byte(devices: Seq<DeviceModel>, addr: u32) -> DeviceMapResult<u8> {
    read_byte_from(devices, addr, 0)
}

/// The outcome of writing `value` to the word at `addr`.
pub open spec fn bus_write(devices: Seq<DeviceModel>, addr: u32, value: u16) -> DeviceMapResult<()> {
    write_from(devices, addr, value, 0)
}

/// The devices after writing `value` to the word at `addr`: only the device
/// that served the write has changed.
pub open spec fn bus_after_write(devices: Seq<DeviceModel>, addr: u32, value: u16) -> Seq<
    DeviceModel,
> {
    after_write_from(devices, addr, value, 0)
}

/// The outcome of writing `value` to the byte at `addr`.
pub open spec fn bus_write_byte(devices: Seq<DeviceModel>, addr: u32, value: u8) -> DeviceMapResult<
    (),
> {
    write_byte_from(devices, addr, value, 0)
}

/// The devices after writing `value` to the byte at `addr`.
pub open spec fn bus_after_write_byte(devices: Seq<DeviceModel>, addr: u32, value: u8) -> Seq<
    DeviceModel,
> {
    after_write_byte_from(devices, addr, value, 0)
}

/// The devices of a bus, in the order in which they are asked.
pub struct DeviceMap {
    pub devices: Vec<AnyDevice>,
}

impl View for DeviceMap {
    type V = Seq<DeviceModel>;

    open spec fn view(&self) -> Seq<DeviceModel> {
        Seq::new(self.devices@.len(), |i: int| self.devices@[i]@)
    }
}

impl DeviceMap {
    /// A bus without devices.
    pub fn new() -> (map: DeviceMap)
        ensures
            map@ == Seq::<DeviceModel>::empty(),
    {
        let map = DeviceMap { devices: Vec::new() };
        assert(map@ =~= Seq::<DeviceModel>::empty());
        map
    }

    /// Puts a device on the bus, behind those that are on it.
    pub fn add(&mut self, device: AnyDevice)
        ensures
            final(self)@ == old(self)@.push(device@),
    {
        self.devices.push(device);
        assert(self@ =~= old(self)@.push(device@));
    }

    /// Reads the word at `addr` from the first device that does not decline.
    pub fn read(&self, addr: u32) -> (result: DeviceMapResult<u16>)
        ensures
            result == bus_read(self@, addr),
    {
        let mut i: usize = 0;
        while i < self.devices.len()
            invariant
                i <= self.devices.len(),
                bus_read(self@, addr) == read_from(self@, addr, i as int),
            decreases self.devices.len() - i,
        {
            match self.devices[i].read(addr) {
                DeviceResponse::Served(value) => {
                    return DeviceMapResult::Served(value);
                },
                DeviceResponse::NotMyAddress => {},
                other => {
                    return DeviceMapResult::Error(other.erase());
                },
            }
            i += 1;
        }
        DeviceMapResult::NoDevices
    }

    /// Reads the byte at `addr` from the first device that does not decline.
    pub fn read_byte(&self, addr: u32) -> (result: DeviceMapResult<u8>)
        ensures
            result == bus_read_byte(self@, addr),
    {
        let mut i: usize = 0;
        while i < self.devices.len()
            invariant
                i <= self.devices.len(),
                bus_read_byte(self@, addr) == read_byte_from(self@, addr, i as int),
            decreases self.devices.len() - i,
        {
            match self.devices[i].read_byte(addr) {
                DeviceResponse::Served(value) => {
                    return DeviceMapResult::Served(value);
                },
                DeviceResponse::NotMyAddress => {},
                other => {
                    return DeviceMapResult::Error(other.erase());
                },
            }
            i += 1;
        }
        DeviceMapResult::NoDevices
    }

    /// Writes `value` to the word at `addr` of the first device that does not
    /// decline. No other device changes.
    pub fn write(&mut self, addr: u32, value: u16) -> (result: DeviceMapResult<()>)
        ensures
            result == bus_write(old(self)@, addr, value),
            final(self)@ == bus_after_write(old(self)@, addr, value),
            !(result is Served) ==> final(self)@ == old(self)@,
    {
        proof {
            lemma_refused_write_changes_nothing(old(self)@, addr, value);
        }
        let mut i: usize = 0;
        while i < self.devices.len()
            invariant
                i <= self.devices.len(),
                self@ == old(self)@,
                bus_write(self@, addr, value) == write_from(self@, addr, value, i as int),
                bus_after_write(self@, addr, value) == after_write_from(
                    self@,
                    addr,
                    value,
                    i as int,
                ),
            decreases self.devices.len() - i,
        {
            let ghost before = self@;
            let response = self.devices[i].write(addr, value);
            proof {
                assert(self@ =~= before.update(i as int, before[i as int].after_write(addr, value)));
            }
            match response {
                DeviceResponse::Served(_) => {
                    return DeviceMapResult::Served(());
                },
                DeviceResponse::NotMyAddress => {
                    assert(self@ =~= before);
                },
                other => {
                    return DeviceMapResult::Error(other);
                },
            }
            i += 1;
        }
        DeviceMapResult::NoDevices
    }

    /// Writes `value` to the byte at `addr` of the first device that does not
    /// decline. No other device changes.
    pub fn write_byte(&mut self, addr: u32, value: u8) -> (result: DeviceMapResult<()>)
        ensures
            result == bus_write_byte(old(self)@, addr, value),
            final(self)@ == bus_after_write_byte(old(self)@, addr, value),
            !(result is Served) ==> final(self)@ == old(self)@,
    {
        proof {
            lemma_refused_write_changes_nothing(old(self)@, addr, value as u16);
        }
        let mut i: usize = 0;
        while i < self.devices.len()
            invariant
                i <= self.devices.len(),
                self@ == old(self)@,
                bus_write_byte(self@, addr, value) == write_byte_from(self@, addr, value, i as int),
                bus_after_write_byte(self@, addr, value) == after_write_byte_from(
                    self@,
                    addr,
                    value,
                    i as int,
                ),
            decreases self.devices.len() - i,
        {
            let ghost before = self@;
            let response = self.devices[i].write_byte(addr, value);
            proof {
                assert(self@ =~= before.update(
                    i as int,
                    before[i as int].after_write_byte(addr, value),
                ));
            }
            match response {
                DeviceResponse::Served(_) => {
                    return DeviceMapResult::Served(());
                },
                DeviceResponse::NotMyAddress => {
                    assert(self@ =~= before);
                },
                other => {
                    return DeviceMapResult::Error(other);
                },
            }
            i += 1;
        }
        DeviceMapResult::NoDevices
    }
}

impl Default for DeviceMap {
    fn default() -> (map: DeviceMap)
        ensures
            map@ == Seq::<DeviceModel>::empty(),
    {
        DeviceMap::new()
    }
}

/// Only a write that is served changes anything: after one that ended
/// otherwise, every device is as it was.
pub proof fn lemma_refused_write_changes_nothing(devices: Seq<DeviceModel>, addr: u32, value: u16)
    ensures
        !(bus_write(devices, addr, value) is Served) ==> bus_after_write(devices, addr, value)
            == devices,
        !(bus_write_byte(devices, addr, low_byte(value)) is Served) ==> bus_after_write_byte(
            devices,
            addr,
            low_byte(value),
        ) == devices,
{
    lemma_refused_from(devices, addr, value, 0);
}

proof fn lemma_refused_from(devices: Seq<DeviceModel>, addr: u32, value: u16, from: int)
    requires
        0 <= from,
    ensures
        !(write_from(devices, addr, value, from) is Served) ==> after_write_from(
            devices,
            addr,
            value,
            from,
        ) == devices,
        !(write_byte_from(devices, addr, low_byte(value), from) is Served)
            ==> after_write_byte_from(devices, addr, low_byte(value), from) == devices,
    decreases devices.len() - from,
{
    if from < devices.len() {
        lemma_refused_from(devices, addr, value, from + 1);
        let device = devices[from];
        if !(device.write(addr, value) is Served) {
            assert(device.after_write(addr, value) == device);
            assert(devices.update(from, device) =~= devices);
        }
        if !(device.write_byte(addr, low_byte(value)) is Served) {
            assert(device.after_write_byte(addr, low_byte(value)) == device);
            assert(devices.update(from, device) =~= devices);
        }
    }
}

/// The first device passes on what it declines: with the devices `a` and `b`
/// on the bus in that order, an access to an address outside the range of `a`
/// ends as `b` answers it, and `a` stays as it was.
pub proof fn lemma_second_device_serves(a: DeviceModel, b: DeviceModel, addr: u32, value: u16)
    requires
        !a.owns(addr),
    ensures
        bus_read(seq![a, b], addr) == if b.read(addr) is NotMyAddress {
            DeviceMapResult::NoDevices
        } else {
            settled(b.read(addr))
        },
        bus_read_byte(seq![a, b], addr) == if b.read_byte(addr) is NotMyAddress {
            DeviceMapResult::NoDevices
        } else {
            settled(b.read_byte(addr))
        },
        bus_write(seq![a, b], addr, value) == if b.write(addr, value) is NotMyAddress {
            DeviceMapResult::NoDevices
        } else {
            settled(b.write(addr, value))
        },
        bus_after_write(seq![a, b], addr, value) == seq![a, b.after_write(addr, value)],
        bus_write_byte(seq![a, b], addr, low_byte(value)) == if b.write_byte(addr, low_byte(value))
            is NotMyAddress {
            DeviceMapResult::NoDevices
        } else {
            settled(b.write_byte(addr, low_byte(value)))
        },
        bus_after_write_byte(seq![a, b], addr, low_byte(value)) == seq![
            a,
            b.after_write_byte(addr, low_byte(value)),
        ],
{
    reveal_with_fuel(read_from, 3);
    reveal_with_fuel(read_byte_from, 3);
    reveal_with_fuel(write_from, 3);
    reveal_with_fuel(after_write_from, 3);
    reveal_with_fuel(write_byte_from, 3);
    reveal_with_fuel(after_write_byte_from, 3);
    let devices = seq![a, b];
    assert(bus_after_write(devices, addr, value) =~= seq![a, b.after_write(addr, value)]);
    assert(bus_after_write_byte(devices, addr, low_byte(value)) =~= seq![
        a,
        b.after_write_byte(addr, low_byte(value)),
    ]);
}

/// A word goes to the second of two devices where the first declines it: with
/// the devices `a` and `b` on the bus in that order, and `b` a RAM that owns
/// both bytes of the word at `addr`, which `a` does not own, a write of the
/// word is served. The RAM then holds the high byte at `addr` and the low byte
/// behind it, the word is read back there, and `a` is as it was.
pub proof fn lemma_second_ram_takes_word(a: DeviceModel, b: DeviceModel, addr: u32, value: u16)
    requires
        !a.owns(addr),
        is_whole(b),
        b.owns(addr),
        addr < b.end(),
    ensures
        bus_write(seq![a, b], addr, value) == DeviceMapResult::Served(()),
        bus_after_write(seq![a, b], addr, value) == seq![a, b.after_write(addr, value)],
        b.after_write(addr, value)->Ram_memory == b->Ram_memory.update(
            addr - b.start(),
            super::high_byte(value),
        ).update(addr - b.start() + 1, low_byte(value)),
        bus_read(bus_after_write(seq![a, b], addr, value), addr) == DeviceMapResult::Served(value),
{
    lemma_second_device_serves(a, b, addr, value);
    lemma_whole_ram_serves(b, addr, value, 0);
    lemma_second_device_serves(a, b.after_write(addr, value), addr, value);
}

/// An address that lies in the range of no device on the bus is served by
/// none: every access to it ends in `NoDevices` and changes nothing.
pub proof fn lemma_unowned_address(devices: Seq<DeviceModel>, addr: u32, value: u16)
    requires
        forall|i: int| 0 <= i < devices.len() ==> !(#[trigger] devices[i]).owns(addr),
    ensures
        bus_read(devices, addr) is NoDevices,
        bus_read_byte(devices, addr) is NoDevices,
        bus_write(devices, addr, value) is NoDevices,
        bus_after_write(devices, addr, value) == devices,
        bus_write_byte(devices, addr, low_byte(value)) is NoDevices,
        bus_after_write_byte(devices, addr, low_byte(value)) == devices,
{
    lemma_all_decline(devices, addr, value, 0);
}

/// From any position on, devices that all decline an address leave every
/// access to it unserved.
proof fn lemma_all_decline(devices: Seq<DeviceModel>, addr: u32, value: u16, from: int)
    requires
        0 <= from,
        forall|i: int| 0 <= i < devices.len() ==> !(#[trigger] devices[i]).owns(addr),
    ensures
        read_from(devices, addr, from) is NoDevices,
        read_byte_from(devices, addr, from) is NoDevices,
        write_from(devices, addr, value, from) is NoDevices,
        after_write_from(devices, addr, value, from) == devices,
        write_byte_from(devices, addr, low_byte(value), from) is NoDevices,
        after_write_byte_from(devices, addr, low_byte(value), from) == devices,
    decreases devices.len() - from,
{
    if from < devices.len() {
        assert(!devices[from].owns(addr));
        lemma_all_decline(devices, addr, value, from + 1);
    }
}

/// The device that serves an access is the first that does not decline it:
/// where the devices before position `at` decline a write and that at `at`
/// does not, the write ends as that device answers it and changes that device
/// alone.
pub proof fn lemma_first_answer_wins(devices: Seq<DeviceModel>, addr: u32, value: u16, at: int)
    requires
        0 <= at < devices.len(),
        forall|i: int| 0 <= i < at ==> (#[trigger] devices[i]).write(addr, value) is NotMyAddress,
        !(devices[at].write(addr, value) is NotMyAddress),
    ensures
        bus_write(devices, addr, value) == settled(devices[at].write(addr, value)),
        bus_after_write(devices, addr, value) == devices.update(
            at,
            devices[at].after_write(addr, value),
        ),
{
    lemma_skip_declining(devices, addr, value, at, 0);
}

proof fn lemma_skip_declining(
    devices: Seq<DeviceModel>,
    addr: u32,
    value: u16,
    at: int,
    from: int,
)
    requires
        0 <= from <= at < devices.len(),
        forall|i: int| 0 <= i < at ==> (#[trigger] devices[i]).write(addr, value) is NotMyAddress,
        !(devices[at].write(addr, value) is NotMyAddress),
    ensures
        write_from(devices, addr, value, from) == settled(devices[at].write(addr, value)),
        after_write_from(devices, addr, value, from) == devices.update(
            at,
            devices[at].after_write(addr, value),
        ),
    decreases at - from,
{
    if from < at {
        assert(devices[from].write(addr, value) is NotMyAddress);
        lemma_skip_declining(devices, addr, value, at, from + 1);
    }
}

/// A read is served by the first device that owns the address: where the
/// devices before position `at` do not own it and that at `at` answers, the
/// read ends as that device answers it.
pub proof fn lemma_first_owner_reads(devices: Seq<DeviceModel>, addr: u32, at: int)
    requires
        0 <= at < devices.len(),
        forall|i: int| 0 <= i < at ==> !(#[trigger] devices[i]).owns(addr),
    ensures
        !(devices[at].read(addr) is NotMyAddress) ==> bus_read(devices, addr) == settled(
            devices[at].read(addr),
        ),
        !(devices[at].read_byte(addr) is NotMyAddress) ==> bus_read_byte(devices, addr) == settled(
            devices[at].read_byte(addr),
        ),
{
    lemma_skip_not_owning(devices, addr, at, 0);
}

proof fn lemma_skip_not_owning(devices: Seq<DeviceModel>, addr: u32, at: int, from: int)
    requires
        0 <= from <= at < devices.len(),
        forall|i: int| 0 <= i < at ==> !(#[trigger] devices[i]).owns(addr),
    ensures
        !(devices[at].read(addr) is NotMyAddress) ==> read_from(devices, addr, from) == settled(
            devices[at].read(addr),
        ),
        !(devices[at].read_byte(addr) is NotMyAddress) ==> read_byte_from(devices, addr, from)
            == settled(devices[at].read_byte(addr)),
    decreases at - from,
{
    if from < at {
        assert(!devices[from].owns(addr));
        lemma_skip_not_owning(devices, addr, at, from + 1);
    }
}

} // verus!
