//! Command and instruction values shared by the whole crate.

use vstd::prelude::*;
use vstd::seq_lib::*;
use vstd::slice::slice_to_vec;

verus! {

/// One atomic device instruction fragment: an immutable byte sequence.
pub type Command = Vec<u8>;

/// A text size as a (width, height) multiplier pair, each in 1..=8.
pub type TextSize = (u8, u8);

/// Cash drawer pin.
#[derive(Debug, Clone, Copy, PartialEq, Eq, Structural)]
pub enum CashDrawer {
    Pin2,
    Pin5,
}

/// Horizontal text justification.
#[derive(Debug, Clone, Copy, PartialEq, Eq, Structural)]
#[allow(clippy::upper_case_acronyms)]
pub enum JustifyMode {
    LEFT,
    CENTER,
    RIGHT,
}

impl Default for JustifyMode {
    fn default() -> (r: Self)
        ensures
            r == JustifyMode::LEFT,
    {
        JustifyMode::LEFT
    }
}

/// Rendering base for diagnostic text; never changes the bytes sent.
#[derive(Debug, Clone, Copy, PartialEq, Eq, Structural)]
pub enum DebugMode {
    Hex,
    Dec,
}

/// The byte sequences of `commands`, one after another in order.
pub open spec fn flat_commands(commands: Seq<Command>) -> Seq<u8>
    decreases commands.len(),
{
    if commands.len() == 0 {
        Seq::empty()
    } else {
        commands[0]@ + flat_commands(commands.drop_first())
    }
}

/// A label plus an ordered list of commands, queued as one unit.
#[derive(Debug, Clone)]
pub struct Instruction {
    pub name: String,
    pub commands: Vec<Command>,
    pub debug_mode: Option<DebugMode>,
}

impl Instruction {
    /// Create a new instruction from a label and an ordered command list.
    pub fn new(name: &str, commands: &[Command], debug_mode: Option<DebugMode>) -> (r: Self)
        ensures
            r.name@ == name@,
            r.commands@.len() == commands@.len(),
            forall|i: int| 0 <= i < commands@.len() ==> r.commands@[i]@ == commands@[i]@,
            r.debug_mode == debug_mode,
    {
        let mut copied: Vec<Command> = Vec::new();
        let mut i: usize = 0;
        while i < commands.len()
            invariant
                i <= commands@.len(),
                copied@.len() == i,
                forall|j: int| 0 <= j < i ==> copied@[j]@ == commands@[j]@,
            decreases commands@.len() - i,
        {
            let c: &Command = &commands[i];
            copied.push(slice_to_vec(c.as_slice()));
            i += 1;
        }
        Instruction { name: name.to_owned(), commands: copied, debug_mode }
    }

    /// All commands of the instruction as one flat byte sequence, in order.
    pub fn flatten_commands(&self) -> (r: Vec<u8>)
        ensures
            r@ == flat_commands(self.commands@),
    {
        let mut out: Vec<u8> = Vec::new();
        let mut i: usize = 0;
        proof {
            assert(self.commands@.skip(0) =~= self.commands@);
        }
        while i < self.commands.len()
            invariant
                i <= self.commands@.len(),
                out@ + flat_commands(self.commands@.skip(i as int)) == flat_commands(self.commands@),
            decreases self.commands@.len() - i,
        {
            let ghost rest = self.commands@.skip(i as int);
            let ghost before = out@;
            let cmd: &Command = &self.commands[i];
            let mut j: usize = 0;
            while j < cmd.len()
                invariant
                    j <= cmd@.len(),
                    out@ == before + cmd@.subrange(0, j as int),
                decreases cmd@.len() - j,
            {
                out.push(cmd[j]);
                proof {
                    assert(cmd@.subrange(0, j + 1) =~= cmd@.subrange(0, j as int).push(cmd@[j as int]));
                    assert(out@ =~= before + cmd@.subrange(0, j + 1));
                }
                j += 1;
            }
            proof {
                assert(cmd@.subrange(0, cmd@.len() as int) =~= cmd@);
                assert(rest[0] == self.commands@[i as int]);
                assert(rest.drop_first() =~= self.commands@.skip(i + 1));
                assert(out@ + flat_commands(self.commands@.skip(i + 1))
                    =~= before + (cmd@ + flat_commands(rest.drop_first())));
            }
            i += 1;
        }
        proof {
            assert(self.commands@.skip(self.commands@.len() as int) =~= Seq::empty());
            assert(out@ =~= out@ + flat_commands(self.commands@.skip(self.commands@.len() as int)));
        }
        out
    }
}

} // verus!
