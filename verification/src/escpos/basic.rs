//! The fixed table of basic ESC/POS directives.

use vstd::prelude::*;

verus! {

/// A basic printer directive; each maps one-to-one to the fixed byte
/// sequence given by [`spec_basic_command`].
pub enum ESCPOSCommandsBasic {
    LineFeed,
    FontBold,
    FontNormal,
    Underline,
    Cut,
    AlignLeft,
    AlignCenter,
    AlignRight,
    FontA,
    FontB,
    EmphasizeOn,
    EmphasizeOff,
    DoubleHeightOn,
    DoubleHeightOff,
    DoubleWidthOn,
    DoubleWidthOff,
    UpsideDownOn,
    UpsideDownOff,
}

/// The exact encoding table. Every code point is below 0x80, so the UTF-8
/// bytes of an encoded directive are exactly these code points.
///
/// `DoubleHeightOff` and `DoubleWidthOff` intentionally share `ESC ! 0`:
/// both flags live in the single ESC ! control byte.
pub open spec fn spec_basic_command(c: ESCPOSCommandsBasic) -> Seq<char> {
    match c {
        ESCPOSCommandsBasic::LineFeed => seq!['\x0A'],
        ESCPOSCommandsBasic::FontBold => seq!['\x1B', '\x45', '\x01'],
        ESCPOSCommandsBasic::FontNormal => seq!['\x1B', '\x45', '\x00'],
        ESCPOSCommandsBasic::Underline => seq!['\x1B', '\x2D', '\x01'],
        ESCPOSCommandsBasic::Cut => seq!['\x1D', '\x56', '\x00'],
        ESCPOSCommandsBasic::AlignLeft => seq!['\x1B', '\x61', '\x00'],
        ESCPOSCommandsBasic::AlignCenter => seq!['\x1B', '\x61', '\x01'],
        ESCPOSCommandsBasic::AlignRight => seq!['\x1B', '\x61', '\x02'],
        ESCPOSCommandsBasic::FontA => seq!['\x1B', '\x4D', '\x00'],
        ESCPOSCommandsBasic::FontB => seq!['\x1B', '\x4D', '\x01'],
        ESCPOSCommandsBasic::EmphasizeOn => seq!['\x1B', '\x45', '\x01'],
        ESCPOSCommandsBasic::EmphasizeOff => seq!['\x1B', '\x45', '\x00'],
        ESCPOSCommandsBasic::DoubleHeightOn => seq!['\x1B', '\x21', '\x10'],
        ESCPOSCommandsBasic::DoubleHeightOff => seq!['\x1B', '\x21', '\x00'],
        ESCPOSCommandsBasic::DoubleWidthOn => seq!['\x1B', '\x21', '\x20'],
        ESCPOSCommandsBasic::DoubleWidthOff => seq!['\x1B', '\x21', '\x00'],
        ESCPOSCommandsBasic::UpsideDownOn => seq!['\x1B', '\x7B', '\x01'],
        ESCPOSCommandsBasic::UpsideDownOff => seq!['\x1B', '\x7B', '\x00'],
    }
}

impl ESCPOSCommandsBasic {
    /// Encode one directive: a pure, total lookup in the fixed table,
    /// reproduced bit-for-bit for hardware compatibility.
    pub fn to_escpos(&self) -> (r: &'static str)
        ensures
            r@ == spec_basic_command(*self),
    {
        match *self {
            ESCPOSCommandsBasic::LineFeed => {
                proof {
                    reveal_strlit("\x0A");
                }
                "\x0A"
            },
            ESCPOSCommandsBasic::FontBold => {
                proof {
                    reveal_strlit("\x1B\x45\x01");
                }
                "\x1B\x45\x01"
            },
            ESCPOSCommandsBasic::FontNormal => {
                proof {
                    reveal_strlit("\x1B\x45\x00");
                }
                "\x1B\x45\x00"
            },
            ESCPOSCommandsBasic::Underline => {
                proof {
                    reveal_strlit("\x1B\x2D\x01");
                }
                "\x1B\x2D\x01"
            },
            ESCPOSCommandsBasic::Cut => {
                proof {
                    reveal_strlit("\x1D\x56\x00");
                }
                "\x1D\x56\x00"
            },
            ESCPOSCommandsBasic::AlignLeft => {
                proof {
                    reveal_strlit("\x1B\x61\x00");
                }
                "\x1B\x61\x00"
            },
            ESCPOSCommandsBasic::AlignCenter => {
                proof {
                    reveal_strlit("\x1B\x61\x01");
                }
                "\x1B\x61\x01"
            },
            ESCPOSCommandsBasic::AlignRight => {
                proof {
                    reveal_strlit("\x1B\x61\x02");
                }
                "\x1B\x61\x02"
            },
            ESCPOSCommandsBasic::FontA => {
                proof {
                    reveal_strlit("\x1B\x4D\x00");
                }
                "\x1B\x4D\x00"
            },
            ESCPOSCommandsBasic::FontB => {
                proof {
                    reveal_strlit("\x1B\x4D\x01");
                }
                "\x1B\x4D\x01"
            },
            ESCPOSCommandsBasic::EmphasizeOn => {
                proof {
                    reveal_strlit("\x1B\x45\x01");
                }
                "\x1B\x45\x01"
            },
            ESCPOSCommandsBasic::EmphasizeOff => {
                proof {
                    reveal_strlit("\x1B\x45\x00");
                }
                "\x1B\x45\x00"
            },
            ESCPOSCommandsBasic::DoubleHeightOn => {
                proof {
                    reveal_strlit("\x1B\x21\x10");
                }
                "\x1B\x21\x10"
            },
            ESCPOSCommandsBasic::DoubleHeightOff => {
                proof {
                    reveal_strlit("\x1B\x21\x00");
                }
                "\x1B\x21\x00"
            },
            ESCPOSCommandsBasic::DoubleWidthOn => {
                proof {
                    reveal_strlit("\x1B\x21\x20");
                }
                "\x1B\x21\x20"
            },
            ESCPOSCommandsBasic::DoubleWidthOff => {
                proof {
                    reveal_strlit("\x1B\x21\x00");
                }
                "\x1B\x21\x00"
            },
            ESCPOSCommandsBasic::UpsideDownOn => {
                proof {
                    reveal_strlit("\x1B\x7B\x01");
                }
                "\x1B\x7B\x01"
            },
            ESCPOSCommandsBasic::UpsideDownOff => {
                proof {
                    reveal_strlit("\x1B\x7B\x00");
                }
                "\x1B\x7B\x00"
            },
        }
    }
}

} // verus!
