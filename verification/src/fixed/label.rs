//! The labels of the fixed-width assembler.

use vstd::prelude::*;

verus! {

/// The address at which the text of a program is loaded.
pub const TEXT_BASE: u16 = 0xDAC1;

/// The displacement of the data: the two bytes of the start address that
/// stand before it.
pub const DATA_BASE: u16 = 2;

/// The section that a label belongs to; `Unset` for the label that stands for
/// "not found".
#[derive(Debug, PartialEq, Eq, Clone, Copy, Structural)]
pub enum LabelType {
    Unset,
    Data,
    Text,
}

/// A label: its name, its section, its address and, for a data label, its
/// text.
#[derive(Debug, Clone)]
pub struct Label {
    pub name: String,
    pub l_type: LabelType,
    pub addr: u16,
    pub value: String,
}

/// A label as a value.
pub struct LabelModel {
    pub name: Seq<char>,
    pub l_type: LabelType,
    pub addr: u16,
    pub value: Seq<char>,
}

impl View for Label {
    type V = LabelModel;

    open spec fn view(&self) -> LabelModel {
        LabelModel { name: self.name@, l_type: self.l_type, addr: self.addr, value: self.value@ }
    }
}

/// The label that stands for "not found".
pub open spec fn no_label() -> LabelModel {
    LabelModel { name: Seq::empty(), l_type: LabelType::Unset, addr: 0, value: Seq::empty() }
}

impl Label {
    /// The label that stands for "not found".
    pub fn new() -> (label: Label)
        ensures
            label@ == no_label(),
    {
        Label { name: String::new(), l_type: LabelType::Unset, addr: 0, value: String::new() }
    }

    /// A data label at `address_offset` and two.
    pub fn create_data(name: String, address_offset: u16, value: String) -> (label: Label)
        requires
            address_offset + 2 <= 0xFFFF,
        ensures
            label@ == (LabelModel {
                name: name@,
                l_type: LabelType::Data,
                addr: (address_offset + 2) as u16,
                value: value@,
            }),
    {
        Label { name, l_type: LabelType::Data, addr: address_offset + DATA_BASE, value }
    }

    /// A text label at the load address, the length of the data and its
    /// offset in the text.
    pub fn create_text(name: String, address_offset: u16, text_label_offset: u16) -> (label: Label)
        requires
            address_offset + text_label_offset + 0xDAC1 <= 0xFFFF,
        ensures
            label@ == (LabelModel {
                name: name@,
                l_type: LabelType::Text,
                addr: (address_offset + text_label_offset + 0xDAC1) as u16,
                value: Seq::empty(),
            }),
    {
        Label {
            name,
            l_type: LabelType::Text,
            addr: address_offset + text_label_offset + TEXT_BASE,
            value: String::new(),
        }
    }

    /// A copy of the label.
    pub fn copy(&self) -> (label: Label)
        ensures
            label@ == self@,
    {
        Label {
            name: self.name.clone(),
            l_type: self.l_type,
            addr: self.addr,
            value: self.value.clone(),
        }
    }
}

} // verus!
