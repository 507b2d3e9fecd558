//! Properties of whole runs, stated over the abstract machine.
use vstd::prelude::*;
use crate::semantics::{
    current_value, first_closing, halted, initial, is_operator, machine_wf, run_spec, step_spec,
    Fault, Machine,
};

verus! {

/// From a well-formed machine whose remaining instructions are all outside
/// the operator set, each step only moves the instruction pointer on: after
/// `fuel` steps it stands `fuel` positions further, or at the end, and the run
/// has ended exactly when it reached the end. Nothing else changes.
pub proof fn lemma_noops_only_advance(m: Machine, fuel: nat)
    requires
        machine_wf(m),
        forall|k: int| m.current_instruction <= k < m.instructions.len() ==> !is_operator(#[trigger] m.instructions[k]),
    ensures
        run_spec(m, fuel) == ({
            let end = if m.current_instruction + fuel >= m.instructions.len() {
                m.instructions.len() as int
            } else {
                m.current_instruction + fuel
            };
            (
                Machine { current_instruction: end, ..m },
                Ok::<bool, Fault>(m.current_instruction + fuel >= m.instructions.len()),
            )
        }),
    decreases fuel,
{
    if !halted(m) && fuel > 0 {
        let c = m.instructions[m.current_instruction];
        assert(!is_operator(c));
        let next = Machine { current_instruction: m.current_instruction + 1, ..m };
        assert(step_spec(m) == Ok::<Machine, Fault>(next));
        lemma_noops_only_advance(next, (fuel - 1) as nat);
    }
}

/// A program made only of characters outside the operator set runs to its
/// end in one step per character, emits nothing, faults nowhere and leaves
/// the tape as a single zero cell.
pub proof fn lemma_noop_program_is_silent(program: Seq<char>)
    requires
        forall|k: int| 0 <= k < program.len() ==> !is_operator(#[trigger] program[k]),
    ensures
        run_spec(initial(program), program.len()).1 == Ok::<bool, Fault>(true),
        run_spec(initial(program), program.len()).0.output == Seq::<u64>::empty(),
        run_spec(initial(program), program.len()).0.registers == seq![0u64],
        run_spec(initial(program), program.len()).0.jumps == Seq::<int>::empty(),
{
    lemma_noops_only_advance(initial(program), program.len());
}

/// `[` on a zero counter with no `]` at or after it is a fault of a malformed
/// program: the skip never reads past the program's end.
pub proof fn lemma_unclosed_skip_is_malformed(m: Machine)
    requires
        machine_wf(m),
        !halted(m),
        m.instructions[m.current_instruction] == '[',
        current_value(m) == 0,
        forall|k: int| m.current_instruction <= k < m.instructions.len() ==> #[trigger] m.instructions[k] != ']',
    ensures
        step_spec(m) == Err::<Machine, Fault>(Fault::MalformedProgram),
{
    lemma_no_closing_scans_to_end(m.instructions, m.current_instruction);
}

/// Where no `]` stands at or after `from`, the scan ends at the program's end.
proof fn lemma_no_closing_scans_to_end(s: Seq<char>, from: int)
    requires
        0 <= from <= s.len(),
        forall|k: int| from <= k < s.len() ==> #[trigger] s[k] != ']',
    ensures
        first_closing(s, from) == s.len(),
    decreases s.len() - from,
{
    if from < s.len() {
        lemma_no_closing_scans_to_end(s, from + 1);
    }
}

} // verus!
