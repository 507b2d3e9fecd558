//! The executable engine, proved step by step against `semantics`.
use vstd::prelude::*;
use crate::semantics::{
    advance, current_value, eval_spec, first_closing, halted, initial, machine_wf, run_spec, step_spec,
    Fault, Machine,
};

verus! {

/// The state of one run: the tape, the program, the jump stack, both cursors
/// and the values emitted so far.
pub struct Environment {
    registers: Vec<u64>,
    instructions: Vec<char>,
    jumps: Vec<usize>,
    current_register: usize,
    current_instruction: usize,
    output: Vec<u64>,
}

impl View for Environment {
    type V = Machine;

    closed spec fn view(&self) -> Machine {
        Machine {
            registers: self.registers@,
            instructions: self.instructions@,
            jumps: self.jumps@.map_values(|j: usize| j as int),
            current_register: self.current_register as int,
            current_instruction: self.current_instruction as int,
            output: self.output@,
        }
    }
}

/// `new_m` is the machine that `outcome` gives and `r` is `Ok`; or, where
/// `outcome` is a fault, `r` is that fault and `new_m` is `old_m` unchanged.
pub open spec fn applied(
    old_m: Machine,
    new_m: Machine,
    r: Result<(), Fault>,
    outcome: Result<Machine, Fault>,
) -> bool {
    match outcome {
        Ok(m) => r is Ok && new_m == m,
        Err(f) => r == Err::<(), Fault>(f) && new_m == old_m,
    }
}

impl Environment {
    /// The cursor stands on a cell, the instruction pointer on a position or
    /// just past the last, and every saved position is in the program.
    pub open spec fn wf(&self) -> bool {
        machine_wf(self@)
    }

    /// A fresh run of the program text `code`.
    pub fn init(code: String) -> (r: Self)
        ensures
            r.wf(),
            r@ == initial(code@),
    {
        let text = code.as_str();
        let mut instructions: Vec<char> = Vec::new();
        proof {
            broadcast use vstd::string::axiom_spec_iter;
        }
        for c in it: text.chars()
            invariant
                it.seq() == text@,
                instructions@ == it.seq().take(it.index() as int),
        {
            instructions.push(c);
        }
        assert(instructions@ =~= code@);
        let mut registers: Vec<u64> = Vec::new();
        registers.push(0);
        let r = Environment {
            registers,
            instructions,
            jumps: Vec::new(),
            current_register: 0,
            current_instruction: 0,
            output: Vec::new(),
        };
        assert(r@.registers =~= seq![0u64]);
        assert(r@.jumps =~= Seq::<int>::empty());
        r
    }

    /// The counter under the cursor.
    pub fn read_register(&self) -> (r: u64)
        requires
            self.wf(),
        ensures
            r == current_value(self@),
    {
        self.registers[self.current_register]
    }

    /// The instruction at position `idx`.
    pub fn get_instruction(&self, idx: usize) -> (r: char)
        requires
            idx < self@.instructions.len(),
        ensures
            r == self@.instructions[idx as int],
    {
        self.instructions[idx]
    }

    /// The instruction under the instruction pointer.
    pub fn get_current_instruction(&self) -> (r: char)
        requires
            self.wf(),
            !halted(self@),
        ensures
            r == self@.instructions[self@.current_instruction],
    {
        self.get_instruction(self.current_instruction)
    }

    /// Moves the instruction pointer one position on.
    pub fn next_instruction(&mut self)
        requires
            old(self).wf(),
            !halted(old(self)@),
        ensures
            final(self).wf(),
            final(self)@ == advance(old(self)@),
    {
        let len = self.instructions.len();
        assert(self.current_instruction < len);
        self.current_instruction = self.current_instruction + 1;
        assert(self@.jumps == old(self)@.jumps);
    }

    /// `+`: adds one to the counter under the cursor, wrapping to zero past
    /// the largest value.
    pub fn plus(&mut self)
        requires
            old(self).wf(),
            !halted(old(self)@),
        ensures
            final(self).wf(),
            final(self)@ == eval_spec(old(self)@, '+')->Ok_0,
    {
        let v = self.read_register();
        let n: u64 = if v == u64::MAX {
            0
        } else {
            v + 1
        };
        self.registers.set(self.current_register, n);
        self.next_instruction();
    }

    /// `-`: takes one from the counter under the cursor; a zero counter is a
    /// fault.
    pub fn min(&mut self) -> (r: Result<(), Fault>)
        requires
            old(self).wf(),
            !halted(old(self)@),
        ensures
            final(self).wf(),
            applied(old(self)@, final(self)@, r, eval_spec(old(self)@, '-')),
    {
        let v = self.read_register();
        if v == 0 {
            return Err(Fault::ArithmeticUnderflow);
        }
        self.registers.set(self.current_register, v - 1);
        self.next_instruction();
        Ok(())
    }

    /// `>`: moves the cursor one cell right, first appending a zero cell
    /// where the cursor stands on the last one.
    pub fn next_register(&mut self)
        requires
            old(self).wf(),
            !halted(old(self)@),
        ensures
            final(self).wf(),
            final(self)@ == eval_spec(old(self)@, '>')->Ok_0,
    {
        let len = self.registers.len();
        if self.current_register + 1 == len {
            self.registers.push(0);
        }
        self.current_register = self.current_register + 1;
        self.next_instruction();
    }

    /// `<`: moves the cursor one cell left; at the leftmost cell this is a
    /// fault.
    pub fn previous_register(&mut self) -> (r: Result<(), Fault>)
        requires
            old(self).wf(),
            !halted(old(self)@),
        ensures
            final(self).wf(),
            applied(old(self)@, final(self)@, r, eval_spec(old(self)@, '<')),
    {
        if self.current_register == 0 {
            return Err(Fault::CursorUnderflow);
        }
        self.current_register = self.current_register - 1;
        self.next_instruction();
        Ok(())
    }

    /// `.`: emits the counter under the cursor.
    pub fn print(&mut self)
        requires
            old(self).wf(),
            !halted(old(self)@),
        ensures
            final(self).wf(),
            final(self)@ == eval_spec(old(self)@, '.')->Ok_0,
    {
        let v = self.read_register();
        self.output.push(v);
        self.next_instruction();
    }

    /// Any character outside the operator set: only moves on.
    pub fn ignore(&mut self)
        requires
            old(self).wf(),
            !halted(old(self)@),
        ensures
            final(self).wf(),
            final(self)@ == advance(old(self)@),
    {
        self.next_instruction();
    }

    /// Scans from the instruction pointer for the first `]`, with no count of
    /// nesting, and moves the pointer just past it. Where no `]` follows, the
    /// program is malformed and nothing changes.
    pub fn jump_after_closed(&mut self) -> (r: Result<(), Fault>)
        requires
            old(self).wf(),
            !halted(old(self)@),
        ensures
            final(self).wf(),
            ({
                let j = first_closing(old(self)@.instructions, old(self)@.current_instruction);
                if j < old(self)@.instructions.len() {
                    r is Ok && final(self)@ == (Machine { current_instruction: j + 1, ..old(self)@ })
                } else {
                    r == Err::<(), Fault>(Fault::MalformedProgram) && final(self)@ == old(self)@
                }
            }),
    {
        let len = self.instructions.len();
        let mut i = self.current_instruction;
        while i < len && self.instructions[i] != ']'
            invariant
                self.wf(),
                len == self@.instructions.len(),
                self@.current_instruction <= i <= len,
                first_closing(self@.instructions, i as int) == first_closing(
                    self@.instructions,
                    self@.current_instruction,
                ),
            decreases len - i,
        {
            i = i + 1;
        }
        if i == len {
            return Err(Fault::MalformedProgram);
        }
        self.current_instruction = i + 1;
        assert(self@.jumps == old(self)@.jumps);
        Ok(())
    }

    /// `[`: on a nonzero counter, saves its own position and enters the loop
    /// body; on zero, skips past the first `]` that follows.
    pub fn jump_open(&mut self) -> (r: Result<(), Fault>)
        requires
            old(self).wf(),
            !halted(old(self)@),
        ensures
            final(self).wf(),
            applied(old(self)@, final(self)@, r, eval_spec(old(self)@, '[')),
    {
        if self.read_register() > 0 {
            let ghost before = self@;
            self.jumps.push(self.current_instruction);
            assert(self@.jumps =~= before.jumps.push(before.current_instruction));
            self.next_instruction();
            Ok(())
        } else {
            self.jump_after_closed()
        }
    }

    /// `]`: takes the most recently saved position off the jump stack and
    /// moves the instruction pointer back to exactly that `[`, whose test
    /// the next step runs again. With no saved position it is a fault.
    pub fn jump_closed(&mut self) -> (r: Result<(), Fault>)
        requires
            old(self).wf(),
            !halted(old(self)@),
        ensures
            final(self).wf(),
            applied(old(self)@, final(self)@, r, eval_spec(old(self)@, ']')),
    {
        match self.jumps.pop() {
            None => Err(Fault::UnmatchedBracket),
            Some(pos) => {
                assert(self@.jumps =~= old(self)@.jumps.drop_last());
                self.current_instruction = pos;
                Ok(())
            },
        }
    }

    /// Dispatches `symbol` as the instruction under the instruction pointer.
    pub fn eval(&mut self, symbol: char) -> (r: Result<(), Fault>)
        requires
            old(self).wf(),
            !halted(old(self)@),
        ensures
            final(self).wf(),
            applied(old(self)@, final(self)@, r, eval_spec(old(self)@, symbol)),
    {
        if symbol == '>' {
            self.next_register();
            Ok(())
        } else if symbol == '<' {
            self.previous_register()
        } else if symbol == '+' {
            self.plus();
            Ok(())
        } else if symbol == '-' {
            self.min()
        } else if symbol == '.' {
            self.print();
            Ok(())
        } else if symbol == '[' {
            self.jump_open()
        } else if symbol == ']' {
            self.jump_closed()
        } else {
            self.ignore();
            Ok(())
        }
    }

    /// Runs at most `fuel` steps from the current state. Returns `Ok(true)`
    /// when the program ran to its end, `Ok(false)` when the steps ran out
    /// first, or the fault that stopped it, with the state left as it was
    /// before the faulting step.
    pub fn run(&mut self, fuel: u64) -> (r: Result<bool, Fault>)
        requires
            old(self).wf(),
        ensures
            final(self).wf(),
            (final(self)@, r) == run_spec(old(self)@, fuel as nat),
    {
        let ghost start = self@;
        let mut remaining = fuel;
        loop
            invariant
                self.wf(),
                start == old(self)@,
                run_spec(self@, remaining as nat) == run_spec(start, fuel as nat),
            decreases remaining,
        {
            if self.current_instruction >= self.instructions.len() {
                assert(run_spec(self@, remaining as nat) == (self@, Ok::<bool, Fault>(true)));
                return Ok(true);
            }
            if remaining == 0 {
                assert(run_spec(self@, 0) == (self@, Ok::<bool, Fault>(false)));
                return Ok(false);
            }
            let ghost before = self@;
            let symbol = self.get_current_instruction();
            let step = self.eval(symbol);
            assert(run_spec(before, remaining as nat) == match step_spec(before) {
                Err(f) => (before, Err(f)),
                Ok(next) => run_spec(next, (remaining - 1) as nat),
            });
            if let Err(f) = step {
                return Err(f);
            }
            remaining = remaining - 1;
        }
    }

    /// The tape, leftmost cell first.
    pub fn registers(&self) -> (r: &Vec<u64>)
        ensures
            r@ == self@.registers,
    {
        &self.registers
    }

    /// The position of the cursor on the tape.
    pub fn current_register(&self) -> (r: usize)
        ensures
            r == self@.current_register,
    {
        self.current_register
    }

    /// The values emitted so far and not yet taken, oldest first.
    pub fn output(&self) -> (r: &Vec<u64>)
        ensures
            r@ == self@.output,
    {
        &self.output
    }

    /// Hands out the values emitted so far and clears them; nothing else
    /// changes.
    pub fn take_output(&mut self) -> (r: Vec<u64>)
        requires
            old(self).wf(),
        ensures
            final(self).wf(),
            r@ == old(self)@.output,
            final(self)@ == (Machine { output: Seq::empty(), ..old(self)@ }),
    {
        let mut taken: Vec<u64> = Vec::new();
        std::mem::swap(&mut taken, &mut self.output);
        assert(self@.jumps == old(self)@.jumps);
        assert(self@.output =~= Seq::<u64>::empty());
        taken
    }

} // impl Environment

} // verus!
