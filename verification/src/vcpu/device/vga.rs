//! The text screen: a grid of 80 by 25 character cells behind 4000 bus
//! addresses, two for each cell. The first address of a cell holds its
//! attribute: the number of the background colour in the high half of the
//! byte, that of the colour in the low half. The second holds its character.
//! A word is read and written where a cell begins.

use super::{make_word, Device, DeviceModel, DeviceResponse};
use vstd::prelude::*;

verus! {

pub const CHAR_WIDTH: i32 = 8;

pub const CHAR_HEIGHT: i32 = 16;

pub const SCREEN_WIDTH: i32 = 80;

pub const SCREEN_HEIGHT: i32 = 25;

pub const DEBUG_WIDTH: i32 = 250;

pub const DEBUG_PADDING: i32 = 5;

/// The number of character cells of the screen.
pub const SCREEN_CELLS: usize = 2000;

/// The sixteen colours of the screen, in the order of their numbers.
#[derive(Debug, Clone, Copy, PartialEq, Eq, Structural)]
pub enum VGAColor {
    Black,
    Blue,
    Green,
    Cyan,
    Red,
    Magenta,
    DarkYellow,
    LightGray,
    DarkGray,
    LightBlue,
    LightGreen,
    LightCyan,
    LightRed,
    LightMagenta,
    Yellow,
    White,
}

impl VGAColor {
    /// The number of the colour, from 0 to 15.
    pub open spec fn number(self) -> u8 {
        match self {
            VGAColor::Black => 0,
            VGAColor::Blue => 1,
            VGAColor::Green => 2,
            VGAColor::Cyan => 3,
            VGAColor::Red => 4,
            VGAColor::Magenta => 5,
            VGAColor::DarkYellow => 6,
            VGAColor::LightGray => 7,
            VGAColor::DarkGray => 8,
            VGAColor::LightBlue => 9,
            VGAColor::LightGreen => 10,
            VGAColor::LightCyan => 11,
            VGAColor::LightRed => 12,
            VGAColor::LightMagenta => 13,
            VGAColor::Yellow => 14,
            VGAColor::White => 15,
        }
    }

    /// The colour with the number `number % 16`.
    pub open spec fn numbered(number: int) -> VGAColor {
        let n = number % 16;
        if n == 0 {
            VGAColor::Black
        } else if n == 1 {
            VGAColor::Blue
        } else if n == 2 {
            VGAColor::Green
        } else if n == 3 {
            VGAColor::Cyan
        } else if n == 4 {
            VGAColor::Red
        } else if n == 5 {
            VGAColor::Magenta
        } else if n == 6 {
            VGAColor::DarkYellow
        } else if n == 7 {
            VGAColor::LightGray
        } else if n == 8 {
            VGAColor::DarkGray
        } else if n == 9 {
            VGAColor::LightBlue
        } else if n == 10 {
            VGAColor::LightGreen
        } else if n == 11 {
            VGAColor::LightCyan
        } else if n == 12 {
            VGAColor::LightRed
        } else if n == 13 {
            VGAColor::LightMagenta
        } else if n == 14 {
            VGAColor::Yellow
        } else {
            VGAColor::White
        }
    }

    /// The number of the colour.
    pub fn index(self) -> (number: u8)
        ensures
            number == self.number(),
            number < 16,
            VGAColor::numbered(number as int) == self,
    {
        match self {
            VGAColor::Black => 0,
            VGAColor::Blue => 1,
            VGAColor::Green => 2,
            VGAColor::Cyan => 3,
            VGAColor::Red => 4,
            VGAColor::Magenta => 5,
            VGAColor::DarkYellow => 6,
            VGAColor::LightGray => 7,
            VGAColor::DarkGray => 8,
            VGAColor::LightBlue => 9,
            VGAColor::LightGreen => 10,
            VGAColor::LightCyan => 11,
            VGAColor::LightRed => 12,
            VGAColor::LightMagenta => 13,
            VGAColor::Yellow => 14,
            VGAColor::White => 15,
        }
    }

    /// The colour with the number `number`, which is below 16.
    pub fn from_index(number: u8) -> (color: VGAColor)
        requires
            number < 16,
        ensures
            color == VGAColor::numbered(number as int),
            color.number() == number,
    {
        match number {
            0 => VGAColor::Black,
            1 => VGAColor::Blue,
            2 => VGAColor::Green,
            3 => VGAColor::Cyan,
            4 => VGAColor::Red,
            5 => VGAColor::Magenta,
            6 => VGAColor::DarkYellow,
            7 => VGAColor::LightGray,
            8 => VGAColor::DarkGray,
            9 => VGAColor::LightBlue,
            10 => VGAColor::LightGreen,
            11 => VGAColor::LightCyan,
            12 => VGAColor::LightRed,
            13 => VGAColor::LightMagenta,
            14 => VGAColor::Yellow,
            _ => VGAColor::White,
        }
    }
}

/// One cell of the screen.
#[derive(Debug, Clone, Copy, PartialEq, Eq, Structural)]
pub struct VGACharacter {
    pub character: u8,
    pub color: VGAColor,
    pub background: VGAColor,
    pub width: i32,
    pub height: i32,
}

impl VGACharacter {
    /// The attribute byte of the cell: the number of its background in the
    /// high half, that of its colour in the low half.
    pub open spec fn attribute(self) -> u8 {
        (self.background.number() * 16 + self.color.number()) as u8
    }

    /// The cell after a write of a word: the background from the top four
    /// bits, the colour from the next four, the character from the low byte.
    pub open spec fn with_word(self, value: u16) -> VGACharacter {
        VGACharacter {
            character: (value as int % 256) as u8,
            color: VGAColor::numbered(value as int / 256),
            background: VGAColor::numbered(value as int / 4096),
            ..self
        }
    }

    /// The cell after a write of a byte to its attribute: the background from
    /// the top four bits, the colour from the low four.
    pub open spec fn with_attribute(self, value: u8) -> VGACharacter {
        VGACharacter {
            color: VGAColor::numbered(value as int),
            background: VGAColor::numbered(value as int / 16),
            ..self
        }
    }

    /// The cell with another character.
    pub open spec fn with_character(self, value: u8) -> VGACharacter {
        VGACharacter { character: value, ..self }
    }

    /// An empty cell: light gray on black, eight dots wide, sixteen high.
    pub fn default() -> (cell: VGACharacter)
        ensures
            cell == blank_cell(),
    {
        VGACharacter {
            character: 0,
            color: VGAColor::LightGray,
            background: VGAColor::Black,
            width: CHAR_WIDTH,
            height: CHAR_HEIGHT,
        }
    }

    /// The two bytes under which the cell is read: the attribute, then the
    /// character.
    pub fn bytes(&self) -> (bytes: [u8; 2])
        ensures
            bytes[0] == self.attribute(),
            bytes[1] == self.character,
    {
        let color_num = self.color.index();
        let background_num = self.background.index();
        let attr_byte = background_num * 16 + color_num;
        [attr_byte, self.character]
    }
}

/// An empty cell.
pub open spec fn blank_cell() -> VGACharacter {
    VGACharacter {
        character: 0,
        color: VGAColor::LightGray,
        background: VGAColor::Black,
        width: 8,
        height: 16,
    }
}

/// The bytes of the first `count` cells, cell after cell.
pub open spec fn cell_bytes(cells: Seq<VGACharacter>, count: int) -> Seq<u8>
    decreases count,
{
    if count <= 0 || count > cells.len() {
        Seq::empty()
    } else {
        cell_bytes(cells, count - 1).push(cells[count - 1].attribute()).push(
            cells[count - 1].character,
        )
    }
}

/// Whether a word can be read and written at `offset`: a cell begins there.
pub open spec fn takes_word(cells: Seq<VGACharacter>, offset: int) -> bool {
    offset % 2 == 0 && 0 <= offset && offset / 2 < cells.len()
}

/// What a read of the word at `offset` of the screen gives: the attribute and
/// the character of the cell that begins there.
pub open spec fn screen_word(cells: Seq<VGACharacter>, offset: int) -> DeviceResponse<u16> {
    if takes_word(cells, offset) {
        DeviceResponse::Served(
            super::word_of(cells[offset / 2].attribute(), cells[offset / 2].character),
        )
    } else {
        DeviceResponse::InvalidAddress
    }
}

/// What a read of the byte at `offset` of the screen gives: of the cell with
/// half that number, the attribute under an even offset, the character under
/// an odd one.
pub open spec fn screen_byte(cells: Seq<VGACharacter>, offset: int) -> DeviceResponse<u8> {
    if 0 <= offset && offset / 2 < cells.len() {
        if offset % 2 == 0 {
            DeviceResponse::Served(cells[offset / 2].attribute())
        } else {
            DeviceResponse::Served(cells[offset / 2].character)
        }
    } else {
        DeviceResponse::InvalidAddress
    }
}

/// The cells after a write of a word at `offset`, where a cell begins.
pub open spec fn cells_with_word(cells: Seq<VGACharacter>, offset: int, value: u16) -> Seq<
    VGACharacter,
> {
    if takes_word(cells, offset) {
        cells.update(offset / 2, cells[offset / 2].with_word(value))
    } else {
        cells
    }
}

/// The cells after a write of a byte at `offset`: it goes to the cell with
/// half that number, to its attribute under an even offset, to its character
/// under an odd one.
pub open spec fn cells_with_byte(cells: Seq<VGACharacter>, offset: int, value: u8) -> Seq<
    VGACharacter,
> {
    if 0 <= offset && offset / 2 < cells.len() {
        if offset % 2 == 0 {
            cells.update(offset / 2, cells[offset / 2].with_attribute(value))
        } else {
            cells.update(offset / 2, cells[offset / 2].with_character(value))
        }
    } else {
        cells
    }
}

/// Whether a device is a screen with a cell behind every two addresses that
/// it owns.
pub open spec fn is_whole_screen(device: DeviceModel) -> bool {
    device is Vga && device.start() <= device.end() && 2 * device->Vga_cells.len() == device.end()
        - device.start() + 1
}

/// A cell gives back the attribute and the character that were written to it.
pub proof fn lemma_cell_reads_back(cell: VGACharacter, word: u16, byte: u8)
    ensures
        cell.with_attribute(byte).attribute() == byte,
        cell.with_attribute(byte).character == cell.character,
        cell.with_character(byte).character == byte,
        cell.with_character(byte).attribute() == cell.attribute(),
        super::word_of(cell.with_word(word).attribute(), cell.with_word(word).character) == word,
{
    lemma_numbered(byte as int);
    lemma_numbered(byte as int / 16);
    lemma_numbered(word as int / 256);
    lemma_numbered(word as int / 4096);
}

/// The colour with a number has that number, cut to its low four bits.
pub proof fn lemma_numbered(number: int)
    requires
        number >= 0,
    ensures
        VGAColor::numbered(number).number() == number % 16,
{
}

/// A screen with a cell behind every two addresses that it owns serves a byte
/// at every one of them, and what is written is what is read afterwards.
pub proof fn lemma_whole_screen_serves_bytes(device: DeviceModel, addr: u32, byte: u8)
    requires
        is_whole_screen(device),
        device.owns(addr),
    ensures
        device.read_byte(addr) is Served,
        device.write_byte(addr, byte) is Served,
        device.after_write_byte(addr, byte).read_byte(addr) == DeviceResponse::Served(byte),
        is_whole_screen(device.after_write_byte(addr, byte)),
{
    let cells = device->Vga_cells;
    let offset = addr - device.start();
    lemma_cell_reads_back(cells[offset / 2], 0, byte);
}

/// A screen with a cell behind every two addresses that it owns serves a word
/// where a cell begins, and reads it back as it was written; between two
/// cells it serves none.
pub proof fn lemma_whole_screen_serves_words(device: DeviceModel, addr: u32, word: u16)
    requires
        is_whole_screen(device),
        device.owns(addr),
    ensures
        (addr - device.start()) % 2 == 0 ==> device.read(addr) is Served && device.write(addr, word)
            is Served && device.after_write(addr, word).read(addr) == DeviceResponse::Served(word)
            && is_whole_screen(device.after_write(addr, word)),
        (addr - device.start()) % 2 != 0 ==> device.read(addr) is InvalidAddress && device.write(
            addr,
            word,
        ) is InvalidAddress && device.after_write(addr, word) == device,
{
    let cells = device->Vga_cells;
    let offset = addr - device.start();
    lemma_cell_reads_back(cells[offset / 2], word, 0);
}

/// The screen memory.
#[allow(clippy::upper_case_acronyms)]
#[derive(Clone)]
pub struct VGA {
    pub memory: Vec<VGACharacter>,
    pub start: u32,
    pub end: u32,
}

impl View for VGA {
    type V = DeviceModel;

    open spec fn view(&self) -> DeviceModel {
        DeviceModel::Vga { start: self.start, end: self.end, cells: self.memory@ }
    }
}

impl VGA {
    /// A screen of 2000 empty cells at the 4000 addresses from `start` on.
    pub fn new(start: u32) -> (vga: VGA)
        requires
            start + 3999 <= u32::MAX,
        ensures
            vga.start == start,
            vga.end == start + 3999,
            is_whole_screen(vga@),
            vga.memory@ == Seq::new(2000, |i: int| blank_cell()),
    {
        let mut memory: Vec<VGACharacter> = Vec::new();
        let mut filled: usize = 0;
        while filled < SCREEN_CELLS
            invariant
                filled <= SCREEN_CELLS,
                memory@ =~= Seq::new(filled as nat, |i: int| blank_cell()),
            decreases SCREEN_CELLS - filled,
        {
            memory.push(VGACharacter::default());
            filled += 1;
        }
        VGA { memory, start, end: start + 3999 }
    }

    /// Where `addr` lies on the screen, counted from its first address.
    fn relative(&self, addr: u32) -> (at: usize)
        requires
            self.start <= addr,
        ensures
            at == addr - self.start,
    {
        (addr - self.start) as usize
    }
}

impl Device for VGA {
    fn read(&self, addr: u32) -> (response: DeviceResponse<u16>) {
        if addr >= self.start && addr <= self.end {
            let at = self.relative(addr);
            if at % 2 != 0 || at / 2 >= self.memory.len() {
                return DeviceResponse::InvalidAddress;
            }
            let bytes = self.memory[at / 2].bytes();
            return DeviceResponse::Served(make_word(bytes[0], bytes[1]));
        }
        DeviceResponse::NotMyAddress
    }

    fn read_byte(&self, addr: u32) -> (response: DeviceResponse<u8>) {
        if addr >= self.start && addr <= self.end {
            let at = self.relative(addr);
            if at / 2 >= self.memory.len() {
                return DeviceResponse::InvalidAddress;
            }
            let bytes = self.memory[at / 2].bytes();
            if at % 2 == 0 {
                return DeviceResponse::Served(bytes[0]);
            } else {
                return DeviceResponse::Served(bytes[1]);
            }
        }
        DeviceResponse::NotMyAddress
    }

    fn write(&mut self, addr: u32, value: u16) -> (response: DeviceResponse<()>) {
        if addr >= self.start && addr <= self.end {
            let background = (value / 4096) as u8;
            let color = ((value / 256) % 16) as u8;
            let character = (value % 256) as u8;
            let at = self.relative(addr);
            if at % 2 != 0 || at / 2 >= self.memory.len() {
                return DeviceResponse::InvalidAddress;
            }
            let cell = self.memory[at / 2];
            self.memory.set(
                at / 2,
                VGACharacter {
                    character,
                    color: VGAColor::from_index(color),
                    background: VGAColor::from_index(background),
                    width: cell.width,
                    height: cell.height,
                },
            );
            return DeviceResponse::Served(());
        }
        DeviceResponse::NotMyAddress
    }

    fn write_byte(&mut self, addr: u32, value: u8) -> (response: DeviceResponse<()>) {
        if addr >= self.start && addr <= self.end {
            let at = self.relative(addr);
            if at / 2 >= self.memory.len() {
                return DeviceResponse::InvalidAddress;
            }
            let cell = self.memory[at / 2];
            if at % 2 == 0 {
                self.memory.set(
                    at / 2,
                    VGACharacter {
                        character: cell.character,
                        color: VGAColor::from_index(value % 16),
                        background: VGAColor::from_index(value / 16),
                        width: cell.width,
                        height: cell.height,
                    },
                );
            } else {
                self.memory.set(
                    at / 2,
                    VGACharacter {
                        character: value,
                        color: cell.color,
                        background: cell.background,
                        width: cell.width,
                        height: cell.height,
                    },
                );
            }
            return DeviceResponse::Served(());
        }
        DeviceResponse::NotMyAddress
    }

    fn get_name(&self) -> (name: String) {
        String::from_str("VGA")
    }

    fn get_memory(&self) -> (bytes: Vec<u8>) {
        let mut temp: Vec<u8> = Vec::new();
        let mut i: usize = 0;
        while i < self.memory.len()
            invariant
                i <= self.memory.len(),
                temp@ == cell_bytes(self.memory@, i as int),
            decreases self.memory.len() - i,
        {
            let pair = self.memory[i].bytes();
            temp.push(pair[0]);
            temp.push(pair[1]);
            i += 1;
        }
        temp
    }
}

} // verus!
