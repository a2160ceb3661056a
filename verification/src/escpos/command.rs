//! Ordered command lists and their serialization to one command stream.

use vstd::prelude::*;

use super::basic::{spec_basic_command, ESCPOSCommandsBasic};

verus! {

/// One entry of a command list: a directive from the fixed table, or
/// literal text emitted as-is (unescaped).
pub enum ESCPOSCommand {
    Command(ESCPOSCommandsBasic),
    Text(String),
}

/// The encoding of one entry.
pub open spec fn spec_entry(cmd: ESCPOSCommand) -> Seq<char> {
    match cmd {
        ESCPOSCommand::Command(c) => spec_basic_command(c),
        ESCPOSCommand::Text(s) => s@,
    }
}

/// The serialization of a whole list: the entries' encodings concatenated
/// in insertion order.
pub open spec fn spec_serialize_list(cmds: Seq<ESCPOSCommand>) -> Seq<char>
    decreases cmds.len(),
{
    if cmds.len() == 0 {
        Seq::empty()
    } else {
        spec_serialize_list(cmds.drop_last()) + spec_entry(cmds.last())
    }
}

/// Appending one entry extends the serialization by exactly that entry's
/// encoding.
pub proof fn lemma_list_serialize_push(cmds: Seq<ESCPOSCommand>, a: ESCPOSCommand)
    ensures
        spec_serialize_list(cmds.push(a)) == spec_serialize_list(cmds) + spec_entry(a),
{
    assert(cmds.push(a).drop_last() =~= cmds);
    assert(cmds.push(a).last() == a);
}

/// Serialization distributes over appending: adding entries `a` then `b`
/// to any list extends its serialization by exactly `a`'s encoding followed
/// by `b`'s encoding.
pub proof fn lemma_list_serialize_append(
    cmds: Seq<ESCPOSCommand>,
    a: ESCPOSCommand,
    b: ESCPOSCommand,
)
    ensures
        spec_serialize_list(cmds.push(a).push(b)) == spec_serialize_list(cmds) + spec_entry(a)
            + spec_entry(b),
{
    lemma_list_serialize_push(cmds, a);
    lemma_list_serialize_push(cmds.push(a), b);
    assert(spec_serialize_list(cmds.push(a).push(b)) =~= spec_serialize_list(cmds)
        + spec_entry(a) + spec_entry(b));
}

/// An ordered, append-only list of commands; insertion order is print
/// order.
pub struct ESCPOSCommandList(pub Vec<ESCPOSCommand>);

impl Default for ESCPOSCommandList {
    fn default() -> (r: Self)
        ensures
            r.0@ =~= Seq::<ESCPOSCommand>::empty(),
    {
        Self::new()
    }
}

impl ESCPOSCommandList {
    /// An empty list.
    pub fn new() -> (r: Self)
        ensures
            r.0@ =~= Seq::<ESCPOSCommand>::empty(),
    {
        ESCPOSCommandList(Vec::new())
    }

    /// Append one command; all earlier commands keep their position.
    pub fn add_command(&mut self, command: ESCPOSCommand)
        ensures
            final(self).0@ == old(self).0@.push(command),
    {
        self.0.push(command);
    }

    /// Append several commands, preserving their order.
    pub fn add_list(&mut self, commands: Vec<ESCPOSCommand>)
        ensures
            final(self).0@ == old(self).0@ + commands@,
    {
        let mut rest = commands;
        self.0.append(&mut rest);
    }

    /// Serialize the list: the concatenation of every entry's encoding, in
    /// insertion order. Total — every entry has an encoding.
    pub fn to_string(&self) -> (r: String)
        ensures
            r@ == spec_serialize_list(self.0@),
    {
        let mut command_string = String::new();
        let n = self.0.len();
        for i in 0..n
            invariant
                n == self.0@.len(),
                command_string@ == spec_serialize_list(self.0@.subrange(0, i as int)),
        {
            match &self.0[i] {
                ESCPOSCommand::Command(cmd) => {
                    command_string.append(cmd.to_escpos());
                },
                ESCPOSCommand::Text(text) => {
                    command_string.append(text.as_str());
                },
            }
            proof {
                assert(self.0@.subrange(0, i + 1).drop_last() =~= self.0@.subrange(0, i as int));
                assert(self.0@.subrange(0, i + 1).last() == self.0@[i as int]);
            }
        }
        proof {
            assert(self.0@.subrange(0, n as int) =~= self.0@);
        }
        command_string
    }
}

} // verus!
