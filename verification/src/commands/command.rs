//! The ESC/POS directive table and the job builder.
//!
//! A job is an ordered sequence of [`ESCPOSDataBuilder`] items; serializing
//! it concatenates the encoding of every item in append order.

use vstd::prelude::*;

use crate::{EcoPrintError, EcoPrintResult};

verus! {

/// A named printer directive. Each variant maps one-to-one to a fixed
/// ESC/POS byte sequence; see [`spec_command`] for the exact table.
#[derive(Debug, Clone, Copy)]
pub enum ESCPOSCommand {
    LineFeed,
    FontBold,
    FontNormal,
    Underline,
    Cut,
    AlignLeft,
    AlignCenter,
    AlignRight,
    FontA,
    FontB,
    EmphasizeOn,
    EmphasizeOff,
    DoubleHeightOn,
    DoubleHeightOff,
    DoubleWidthOn,
    DoubleWidthOff,
    UpsideDownOn,
    UpsideDownOff,
}

/// The fixed encoding table. Every code point is below 0x80, so the UTF-8
/// bytes of an encoded directive are exactly these code points.
///
/// `DoubleHeightOff` and `DoubleWidthOff` intentionally share `ESC ! 0`:
/// both flags live in the single ESC ! control byte.
pub open spec fn spec_command(c: ESCPOSCommand) -> Seq<char> {
    match c {
        ESCPOSCommand::LineFeed => seq!['\x0A'],
        ESCPOSCommand::FontBold => seq!['\x1B', '\x45', '\x01'],
        ESCPOSCommand::FontNormal => seq!['\x1B', '\x45', '\x00'],
        ESCPOSCommand::Underline => seq!['\x1B', '\x2D', '\x01'],
        ESCPOSCommand::Cut => seq!['\x1D', '\x56', '\x00'],
        ESCPOSCommand::AlignLeft => seq!['\x1B', '\x61', '\x00'],
        ESCPOSCommand::AlignCenter => seq!['\x1B', '\x61', '\x01'],
        ESCPOSCommand::AlignRight => seq!['\x1B', '\x61', '\x02'],
        ESCPOSCommand::FontA => seq!['\x1B', '\x4D', '\x00'],
        ESCPOSCommand::FontB => seq!['\x1B', '\x4D', '\x01'],
        ESCPOSCommand::EmphasizeOn => seq!['\x1B', '\x45', '\x01'],
        ESCPOSCommand::EmphasizeOff => seq!['\x1B', '\x45', '\x00'],
        ESCPOSCommand::DoubleHeightOn => seq!['\x1B', '\x21', '\x10'],
        ESCPOSCommand::DoubleHeightOff => seq!['\x1B', '\x21', '\x00'],
        ESCPOSCommand::DoubleWidthOn => seq!['\x1B', '\x21', '\x20'],
        ESCPOSCommand::DoubleWidthOff => seq!['\x1B', '\x21', '\x00'],
        ESCPOSCommand::UpsideDownOn => seq!['\x1B', '\x7B', '\x01'],
        ESCPOSCommand::UpsideDownOff => seq!['\x1B', '\x7B', '\x00'],
    }
}

/// One item of a print job.
///
/// `Image` and `QrCode` are placeholders: serializing a job that contains
/// one fails fast with [`EcoPrintError::UnsupportedFeature`] instead of
/// silently printing an incomplete job.
#[derive(Debug, Clone)]
pub enum ESCPOSDataBuilder {
    Command(ESCPOSCommand),
    Text(String),
    Image,
    QrCode,
}

/// Whether serialization is implemented for this item.
pub open spec fn spec_item_supported(item: ESCPOSDataBuilder) -> bool {
    match item {
        ESCPOSDataBuilder::Command(_) => true,
        ESCPOSDataBuilder::Text(_) => true,
        ESCPOSDataBuilder::Image => false,
        ESCPOSDataBuilder::QrCode => false,
    }
}

/// The encoding of one supported item: a directive goes through the table,
/// literal text is emitted as-is (unescaped).
pub open spec fn spec_item(item: ESCPOSDataBuilder) -> Seq<char>
    recommends
        spec_item_supported(item),
{
    match item {
        ESCPOSDataBuilder::Command(c) => spec_command(c),
        ESCPOSDataBuilder::Text(s) => s@,
        ESCPOSDataBuilder::Image => Seq::empty(),
        ESCPOSDataBuilder::QrCode => Seq::empty(),
    }
}

/// Whether every item of the job can be serialized.
pub open spec fn spec_supported(items: Seq<ESCPOSDataBuilder>) -> bool {
    forall|i: int| 0 <= i < items.len() ==> spec_item_supported(#[trigger] items[i])
}

/// The serialization of a job: the items' encodings concatenated in order.
pub open spec fn spec_serialize(items: Seq<ESCPOSDataBuilder>) -> Seq<char>
    decreases items.len(),
{
    if items.len() == 0 {
        Seq::empty()
    } else {
        spec_serialize(items.drop_last()) + spec_item(items.last())
    }
}

/// Appending one item extends a job's serialization by exactly that item's
/// encoding.
pub proof fn lemma_serialize_push(items: Seq<ESCPOSDataBuilder>, a: ESCPOSDataBuilder)
    ensures
        spec_serialize(items.push(a)) == spec_serialize(items) + spec_item(a),
{
    assert(items.push(a).drop_last() =~= items);
    assert(items.push(a).last() == a);
}

/// Serialization distributes over appending: appending items `a` then `b`
/// to any job extends its serialization by exactly `a`'s encoding followed
/// by `b`'s encoding.
pub proof fn lemma_serialize_append(
    items: Seq<ESCPOSDataBuilder>,
    a: ESCPOSDataBuilder,
    b: ESCPOSDataBuilder,
)
    ensures
        spec_serialize(items.push(a).push(b)) == spec_serialize(items) + spec_item(a)
            + spec_item(b),
{
    lemma_serialize_push(items, a);
    lemma_serialize_push(items.push(a), b);
    assert(spec_serialize(items.push(a).push(b)) =~= spec_serialize(items) + spec_item(a)
        + spec_item(b));
}

/// Builders that can assemble and serialize an ESC/POS job.
pub trait ESCPOSBuilderTrait {
    fn to_escpos(&self) -> EcoPrintResult<String>;

    fn add_command(&mut self, cmd: ESCPOSDataBuilder) {
    }

    fn add_commands(&mut self, cmds: Vec<ESCPOSDataBuilder>) {
    }
}

impl ESCPOSBuilderTrait for ESCPOSCommand {
    /// Encode one directive. Total: every directive has a fixed encoding,
    /// pinned bit-for-bit by [`spec_command`].
    fn to_escpos(&self) -> (r: EcoPrintResult<String>)
        ensures
            r matches Ok(s) && s@ == spec_command(*self),
    {
        let s = match *self {
            ESCPOSCommand::LineFeed => {
                proof {
                    reveal_strlit("\x0A");
                }
                String::from_str("\x0A")
            },
            ESCPOSCommand::FontBold => {
                proof {
                    reveal_strlit("\x1B\x45\x01");
                }
                String::from_str("\x1B\x45\x01")
            },
            ESCPOSCommand::FontNormal => {
                proof {
                    reveal_strlit("\x1B\x45\x00");
                }
                String::from_str("\x1B\x45\x00")
            },
            ESCPOSCommand::Underline => {
                proof {
                    reveal_strlit("\x1B\x2D\x01");
                }
                String::from_str("\x1B\x2D\x01")
            },
            ESCPOSCommand::Cut => {
                proof {
                    reveal_strlit("\x1D\x56\x00");
                }
                String::from_str("\x1D\x56\x00")
            },
            ESCPOSCommand::AlignLeft => {
                proof {
                    reveal_strlit("\x1B\x61\x00");
                }
                String::from_str("\x1B\x61\x00")
            },
            ESCPOSCommand::AlignCenter => {
                proof {
                    reveal_strlit("\x1B\x61\x01");
                }
                String::from_str("\x1B\x61\x01")
            },
            ESCPOSCommand::AlignRight => {
                proof {
                    reveal_strlit("\x1B\x61\x02");
                }
                String::from_str("\x1B\x61\x02")
            },
            ESCPOSCommand::FontA => {
                proof {
                    reveal_strlit("\x1B\x4D\x00");
                }
                String::from_str("\x1B\x4D\x00")
            },
            ESCPOSCommand::FontB => {
                proof {
                    reveal_strlit("\x1B\x4D\x01");
                }
                String::from_str("\x1B\x4D\x01")
            },
            ESCPOSCommand::EmphasizeOn => {
                proof {
                    reveal_strlit("\x1B\x45\x01");
                }
                String::from_str("\x1B\x45\x01")
            },
            ESCPOSCommand::EmphasizeOff => {
                proof {
                    reveal_strlit("\x1B\x45\x00");
                }
                String::from_str("\x1B\x45\x00")
            },
            ESCPOSCommand::DoubleHeightOn => {
                proof {
                    reveal_strlit("\x1B\x21\x10");
                }
                String::from_str("\x1B\x21\x10")
            },
            ESCPOSCommand::DoubleHeightOff => {
                proof {
                    reveal_strlit("\x1B\x21\x00");
                }
                String::from_str("\x1B\x21\x00")
            },
            ESCPOSCommand::DoubleWidthOn => {
                proof {
                    reveal_strlit("\x1B\x21\x20");
                }
                String::from_str("\x1B\x21\x20")
            },
            ESCPOSCommand::DoubleWidthOff => {
                proof {
                    reveal_strlit("\x1B\x21\x00");
                }
                String::from_str("\x1B\x21\x00")
            },
            ESCPOSCommand::UpsideDownOn => {
                proof {
                    reveal_strlit("\x1B\x7B\x01");
                }
                String::from_str("\x1B\x7B\x01")
            },
            ESCPOSCommand::UpsideDownOff => {
                proof {
                    reveal_strlit("\x1B\x7B\x00");
                }
                String::from_str("\x1B\x7B\x00")
            },
        };
        Ok(s)
    }
}

/// An append-only print job: the items are serialized in insertion order.
#[derive(Debug)]
pub struct ESCPOSBuilder(pub Vec<ESCPOSDataBuilder>);

impl ESCPOSBuilder {
    /// An empty job.
    pub fn new() -> (r: Self)
        ensures
            r.0@ =~= Seq::<ESCPOSDataBuilder>::empty(),
    {
        ESCPOSBuilder(Vec::new())
    }
}

impl Default for ESCPOSBuilder {
    fn default() -> (r: Self)
        ensures
            r.0@ =~= Seq::<ESCPOSDataBuilder>::empty(),
    {
        ESCPOSBuilder::new()
    }
}

impl ESCPOSBuilderTrait for ESCPOSBuilder {
    /// Append one item; all earlier items keep their position.
    fn add_command(&mut self, cmd: ESCPOSDataBuilder)
        ensures
            final(self).0@ == old(self).0@.push(cmd),
    {
        self.0.push(cmd);
    }

    /// Append several items, preserving their order.
    fn add_commands(&mut self, cmds: Vec<ESCPOSDataBuilder>)
        ensures
            final(self).0@ == old(self).0@ + cmds@,
    {
        let mut rest = cmds;
        self.0.append(&mut rest);
    }

    /// Serialize the job: the concatenation of every item's encoding, in
    /// append order. Fails with `UnsupportedFeature` if and only if the job
    /// holds a placeholder item (`Image`, `QrCode`).
    fn to_escpos(&self) -> (r: EcoPrintResult<String>)
        ensures
            spec_supported(self.0@) ==> (r matches Ok(s) && s@ == spec_serialize(self.0@)),
            !spec_supported(self.0@) ==> (r matches Err(e) && e matches
                EcoPrintError::UnsupportedFeature(_)),
    {
        let mut escpos = String::new();
        let n = self.0.len();
        for i in 0..n
            invariant
                n == self.0@.len(),
                forall|j: int| 0 <= j < i ==> spec_item_supported(#[trigger] self.0@[j]),
                escpos@ == spec_serialize(self.0@.subrange(0, i as int)),
        {
            match &self.0[i] {
                ESCPOSDataBuilder::Command(cmd) => {
                    let enc = cmd.to_escpos();
                    match enc {
                        Ok(s) => escpos.append(s.as_str()),
                        Err(e) => {
                            // Unreachable: directive encoding is total.
                            return Err(e);
                        },
                    }
                },
                ESCPOSDataBuilder::Text(text) => {
                    escpos.append(text.as_str());
                },
                ESCPOSDataBuilder::Image => {
                    return Err(
                        EcoPrintError::UnsupportedFeature(
                            String::from_str("image job items are not implemented"),
                        ),
                    );
                },
                ESCPOSDataBuilder::QrCode => {
                    return Err(
                        EcoPrintError::UnsupportedFeature(
                            String::from_str("QR code job items are not implemented"),
                        ),
                    );
                },
            }
            proof {
                assert(self.0@.subrange(0, i + 1).drop_last() =~= self.0@.subrange(0, i as int));
                assert(self.0@.subrange(0, i + 1).last() == self.0@[i as int]);
            }
        }
        proof {
            assert(self.0@.subrange(0, n as int) =~= self.0@);
        }
        Ok(escpos)
    }
}

} // verus!
