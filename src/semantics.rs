//! The abstract machine: a tape of counters, the program, the jump stack,
//! the two cursors and what has been emitted so far.
use vstd::prelude::*;

verus! {

/// A fault that stops a run.
#[derive(Debug, Clone, Copy, PartialEq, Eq, Structural)]
pub enum Fault {
    /// `<` was dispatched with the cursor on the leftmost cell.
    CursorUnderflow,
    /// `-` was dispatched on a counter that holds zero.
    ArithmeticUnderflow,
    /// `]` was dispatched while no loop was open.
    UnmatchedBracket,
    /// `[` on a zero counter found no `]` at or after its position.
    MalformedProgram,
}

/// The state of one run, as mathematical values.
pub struct Machine {
    pub registers: Seq<u64>,
    pub instructions: Seq<char>,
    pub jumps: Seq<int>,
    pub current_register: int,
    pub current_instruction: int,
    pub output: Seq<u64>,
}

pub open spec fn is_operator(c: char) -> bool {
    c == '+' || c == '-' || c == '<' || c == '>' || c == '.' || c == '[' || c == ']'
}

/// A fresh run of `instructions`: one zero cell, both cursors at zero,
/// no open loop, nothing emitted.
pub open spec fn initial(instructions: Seq<char>) -> Machine {
    Machine {
        registers: seq![0u64],
        instructions,
        jumps: Seq::empty(),
        current_register: 0,
        current_instruction: 0,
        output: Seq::empty(),
    }
}

/// The cursors are in range and every saved position is a program position.
pub open spec fn machine_wf(m: Machine) -> bool {
    &&& 0 <= m.current_register < m.registers.len()
    &&& 0 <= m.current_instruction <= m.instructions.len()
    &&& forall|i: int| 0 <= i < m.jumps.len() ==> 0 <= #[trigger] m.jumps[i] < m.instructions.len()
}

/// Every position has been dispatched: the run is over.
pub open spec fn halted(m: Machine) -> bool {
    m.current_instruction >= m.instructions.len()
}

pub open spec fn current_value(m: Machine) -> u64 {
    m.registers[m.current_register]
}

/// Increment of a fixed-width counter: it wraps to zero past the maximum.
pub open spec fn incremented(v: u64) -> u64 {
    if v == u64::MAX {
        0
    } else {
        (v + 1) as u64
    }
}

/// The machine with the instruction pointer moved one position on.
pub open spec fn advance(m: Machine) -> Machine {
    Machine { current_instruction: m.current_instruction + 1, ..m }
}

/// The machine with the counter under the cursor replaced by `v`.
pub open spec fn with_current(m: Machine, v: u64) -> Machine {
    Machine { registers: m.registers.update(m.current_register, v), ..m }
}

/// The first position at or after `from` that holds `]`, or the program's
/// length where there is none. The scan keeps no count of nesting.
pub open spec fn first_closing(s: Seq<char>, from: int) -> int
    decreases s.len() - from,
{
    if from < 0 || from >= s.len() {
        s.len() as int
    } else if s[from] == ']' {
        from
    } else {
        first_closing(s, from + 1)
    }
}

/// What dispatching `symbol` does to `m`: the next machine, or the fault.
pub open spec fn eval_spec(m: Machine, symbol: char) -> Result<Machine, Fault> {
    let v = current_value(m);
    if symbol == '+' {
        Ok(advance(with_current(m, incremented(v))))
    } else if symbol == '-' {
        if v == 0 {
            Err(Fault::ArithmeticUnderflow)
        } else {
            Ok(advance(with_current(m, (v - 1) as u64)))
        }
    } else if symbol == '>' {
        let registers = if m.current_register == m.registers.len() - 1 {
            m.registers.push(0u64)
        } else {
            m.registers
        };
        Ok(advance(Machine { registers, current_register: m.current_register + 1, ..m }))
    } else if symbol == '<' {
        if m.current_register == 0 {
            Err(Fault::CursorUnderflow)
        } else {
            Ok(advance(Machine { current_register: m.current_register - 1, ..m }))
        }
    } else if symbol == '.' {
        Ok(advance(Machine { output: m.output.push(v), ..m }))
    } else if symbol == '[' {
        if v != 0 {
            Ok(advance(Machine { jumps: m.jumps.push(m.current_instruction), ..m }))
        } else {
            let j = first_closing(m.instructions, m.current_instruction);
            if j >= m.instructions.len() {
                Err(Fault::MalformedProgram)
            } else {
                Ok(Machine { current_instruction: j + 1, ..m })
            }
        }
    } else if symbol == ']' {
        if m.jumps.len() == 0 {
            Err(Fault::UnmatchedBracket)
        } else {
            Ok(
                Machine {
                    current_instruction: m.jumps.last(),
                    jumps: m.jumps.drop_last(),
                    ..m
                },
            )
        }
    } else {
        Ok(advance(m))
    }
}

/// One step: dispatch the instruction under the instruction pointer.
pub open spec fn step_spec(m: Machine) -> Result<Machine, Fault> {
    eval_spec(m, m.instructions[m.current_instruction])
}

/// At most `fuel` steps from `m`. The result is the machine reached and
/// `Ok(true)` when the program ran to its end, `Ok(false)` when the steps ran
/// out first, or the fault, with the machine as it stood before the faulting
/// step.
pub open spec fn run_spec(m: Machine, fuel: nat) -> (Machine, Result<bool, Fault>)
    decreases fuel,
{
    if halted(m) {
        (m, Ok(true))
    } else if fuel == 0 {
        (m, Ok(false))
    } else {
        match step_spec(m) {
            Err(f) => (m, Err(f)),
            Ok(next) => run_spec(next, (fuel - 1) as nat),
        }
    }
}

} // verus!
