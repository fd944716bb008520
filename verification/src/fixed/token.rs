//! The tokens of the fixed-width assembler: one for each line of a section.

use super::label::LabelType;
use vstd::prelude::*;

verus! {

/// A line of a section: the label under which it stands, its first word, the
/// words after it, and its section.
#[derive(Debug)]
pub struct Token {
    pub label: String,
    pub instruction: String,
    pub args: Vec<String>,
    pub section: LabelType,
}

/// A token as a value.
pub struct TokenModel {
    pub label: Seq<char>,
    pub instruction: Seq<char>,
    pub args: Seq<Seq<char>>,
    pub section: LabelType,
}

/// The texts as values.
pub open spec fn texts(strings: Seq<String>) -> Seq<Seq<char>> {
    Seq::new(strings.len(), |i: int| strings[i]@)
}

impl View for Token {
    type V = TokenModel;

    open spec fn view(&self) -> TokenModel {
        TokenModel {
            label: self.label@,
            instruction: self.instruction@,
            args: texts(self.args@),
            section: self.section,
        }
    }
}

impl Token {
    pub fn create_token(label: String, instruction: String, args: Vec<String>, section: LabelType) -> (token:
        Token)
        ensures
            token@ == (TokenModel {
                label: label@,
                instruction: instruction@,
                args: texts(args@),
                section,
            }),
    {
        Token { label, instruction, args, section }
    }
}

} // verus!
