//! The colours and load errors of the terminal drawing backend.
use vstd::prelude::*;

verus! {

pub const BLACK: [u16; 4] = [0, 0, 0, 0xffff];

pub const WHITE: [u16; 4] = [0xffff, 0xffff, 0xffff, 0xffff];

pub const CYAN: [u16; 4] = [0, 0xffff, 0xffff, 0xffff];

pub const YELLOW: [u16; 4] = [0xffff, 0xffff, 0, 0xffff];

/// Why the drawing library could not be loaded.
#[derive(Debug)]
pub enum OpenTuiLoadError {
    MissingPath,
    Library(String),
    Symbol(String),
}

impl OpenTuiLoadError {
    pub open spec fn spec_message(&self) -> Seq<char> {
        match self {
            OpenTuiLoadError::MissingPath => "set KJIT_OPENTUI_LIB_PATH or KJIT_OPENTUI_ROOT to a libopentui.dylib path"@,
            OpenTuiLoadError::Library(m) => "failed to load OpenTUI library: "@ + m@,
            OpenTuiLoadError::Symbol(m) => "failed to bind OpenTUI symbol: "@ + m@,
        }
    }

    /// The error as a sentence.
    pub fn message(&self) -> (r: String)
        ensures
            r@ == self.spec_message(),
    {
        match self {
            OpenTuiLoadError::MissingPath => String::from_str(
                "set KJIT_OPENTUI_LIB_PATH or KJIT_OPENTUI_ROOT to a libopentui.dylib path",
            ),
            OpenTuiLoadError::Library(m) => {
                let mut s = String::from_str("failed to load OpenTUI library: ");
                s.append(m.as_str());
                s
            },
            OpenTuiLoadError::Symbol(m) => {
                let mut s = String::from_str("failed to bind OpenTUI symbol: ");
                s.append(m.as_str());
                s
            },
        }
    }
}

/// The colours the explorer draws with, as RGBA channels.
pub struct Palette;

impl Palette {
    pub fn black(&self) -> (r: &'static [u16; 4])
        ensures
            r@ == seq![0u16, 0, 0, 0xffff],
    {
        &BLACK
    }

    pub fn white(&self) -> (r: &'static [u16; 4])
        ensures
            r@ == seq![0xffffu16, 0xffff, 0xffff, 0xffff],
    {
        &WHITE
    }

    pub fn cyan(&self) -> (r: &'static [u16; 4])
        ensures
            r@ == seq![0u16, 0xffff, 0xffff, 0xffff],
    {
        &CYAN
    }

    pub fn yellow(&self) -> (r: &'static [u16; 4])
        ensures
            r@ == seq![0xffffu16, 0xffff, 0, 0xffff],
    {
        &YELLOW
    }
}

} // verus!
