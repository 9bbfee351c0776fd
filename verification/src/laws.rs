//! Laws of the instruction set: what holds of every state and every opcode.

use crate::state::{row_collides, wrap_address, CpuState, Outcome};
use crate::display::DisplayView;
use crate::instruction::{decode_spec, Instruction};
use vstd::prelude::*;

verus! {

/// Loading `kk` into `V[x]` (`6xkk`) and then adding `kk` to it (`7xkk`)
/// leaves `(kk + kk) mod 256` in `V[x]`.
pub proof fn load_then_add_doubles(
    s: CpuState,
    x: u8,
    kk: u8,
    random: u8,
    mem: Seq<u8>,
    display: DisplayView,
)
    requires
        s.wf(),
        x < 16,
    ensures
        decode_spec((0x6000 + 0x100 * x + kk) as u16) == (Instruction::Load { x, kk }),
        decode_spec((0x7000 + 0x100 * x + kk) as u16) == (Instruction::AddImmediate { x, kk }),
        s.execute(Instruction::Load { x, kk }, random, mem, display).execute(
            Instruction::AddImmediate { x, kk },
            random,
            mem,
            display,
        ).v[x as int] == (kk + kk) % 256,
{
}

/// A call (`2addr`) pushes the address of the instruction that follows it
/// and jumps to `addr`. A return (`00EE`) in any later state that has the
/// same stack depth and still holds that entry brings the program counter
/// back to the instruction after the call and the stack pointer to what it
/// was before the call.
pub proof fn call_then_return_restores(
    s: CpuState,
    later: CpuState,
    addr: u16,
    random: u8,
    mem: Seq<u8>,
    later_mem: Seq<u8>,
    display: DisplayView,
    later_display: DisplayView,
)
    requires
        s.wf(),
        later.wf(),
        addr < 4096,
        s.sp < 16,
        s.fetch(mem) == 0x2000 + addr,
        later.fetch(later_mem) == 0x00EE,
        later.sp == s.cycle(random, mem, display).sp,
        later.stack[s.sp as int] == s.cycle(random, mem, display).stack[s.sp as int],
    ensures
        s.cycle(random, mem, display).pc == addr,
        s.cycle(random, mem, display).sp == s.sp + 1,
        s.cycle_outcome(mem) == Outcome::Executed,
        later.cycle(random, later_mem, later_display).pc == wrap_address(s.pc + 2),
        later.cycle(random, later_mem, later_display).sp == s.sp,
        later.cycle_outcome(later_mem) == Outcome::Executed,
{
    assert(decode_spec((0x2000 + addr) as u16) == (Instruction::Call { addr }));
}

/// The condition on which an instruction skips the one after it; `false`
/// for an instruction that never skips.
pub open spec fn skip_condition(s: CpuState, instr: Instruction) -> bool {
    match instr {
        Instruction::SkipIfEqual { x, kk } => s.v[x as int] == kk,
        Instruction::SkipIfNotEqual { x, kk } => s.v[x as int] != kk,
        Instruction::SkipIfRegistersEqual { x, y } => s.v[x as int] == s.v[y as int],
        Instruction::SkipIfRegistersNotEqual { x, y } => s.v[x as int] != s.v[y as int],
        _ => false,
    }
}

/// Whether `instr` is one of the four skip instructions.
pub open spec fn is_skip(instr: Instruction) -> bool {
    instr is SkipIfEqual || instr is SkipIfNotEqual || instr is SkipIfRegistersEqual
        || instr is SkipIfRegistersNotEqual
}

/// A cycle that fetches a skip instruction moves the program counter by
/// four (two for the fetch, two for the skip) exactly when the
/// instruction's condition holds, and by two otherwise; it changes nothing
/// else. Addresses wrap at the end of the memory.
pub proof fn skip_advances_by_four_or_two(
    s: CpuState,
    random: u8,
    mem: Seq<u8>,
    display: DisplayView,
)
    requires
        s.wf(),
        is_skip(decode_spec(s.fetch(mem))),
    ensures
        skip_condition(s, decode_spec(s.fetch(mem))) ==> s.cycle(random, mem, display)
            == s.with_pc(wrap_address(s.pc + 4)),
        !skip_condition(s, decode_spec(s.fetch(mem))) ==> s.cycle(random, mem, display)
            == s.with_pc(wrap_address(s.pc + 2)),
        wrap_address(s.pc + 4) != wrap_address(s.pc + 2),
        s.cycle_display(mem, display) == display,
{
    let fetched = s.advance();
    let instr = decode_spec(s.fetch(mem));
    assert(wrap_address(fetched.pc + 2) == wrap_address(s.pc + 4));
    assert(skip_condition(fetched, instr) == skip_condition(s, instr));
    assert(fetched.execute(instr, random, mem, display) == fetched.skip_if(
        skip_condition(s, instr),
    ));
}

/// After a sprite draw the flag register is 1 if any of the `n` rows
/// reported a collision and 0 if none did; no other register changes.
pub proof fn draw_flag_aggregates_collisions(
    s: CpuState,
    x: u8,
    y: u8,
    n: u8,
    random: u8,
    mem: Seq<u8>,
    display: DisplayView,
)
    requires
        s.wf(),
        x < 16,
        y < 16,
        n < 16,
    ensures
        ({
            let after = s.execute(Instruction::Draw { x, y, n }, random, mem, display);
            let some_row = exists|r: int|
                0 <= r < n && #[trigger] row_collides(
                    display,
                    mem,
                    s.i,
                    s.v[x as int] as int,
                    s.v[y as int] as int,
                    r,
                );
            &&& some_row ==> after.v[0xF] == 1
            &&& !some_row ==> after.v[0xF] == 0
            &&& forall|k: int| 0 <= k < 15 ==> after.v[k] == s.v[k]
            &&& after.i == s.i && after.pc == s.pc && after.sp == s.sp && after.stack == s.stack
        }),
{
}

/// A cycle that fetches an opcode which encodes no instruction moves the
/// program counter past it, changes nothing else and reports the opcode.
pub proof fn unknown_opcode_only_advances(
    s: CpuState,
    random: u8,
    mem: Seq<u8>,
    display: DisplayView,
)
    requires
        s.wf(),
        decode_spec(s.fetch(mem)) is Unknown,
    ensures
        s.cycle(random, mem, display) == s.with_pc(wrap_address(s.pc + 2)),
        s.cycle_display(mem, display) == display,
        s.cycle_outcome(mem) == (Outcome::Unimplemented { opcode: s.fetch(mem) }),
{
}

/// The random byte plays no part in any instruction but `Random`.
pub proof fn random_byte_matters_only_to_random(
    s: CpuState,
    instr: Instruction,
    first: u8,
    second: u8,
    mem: Seq<u8>,
    display: DisplayView,
)
    requires
        !(instr is Random),
    ensures
        s.execute(instr, first, mem, display) == s.execute(instr, second, mem, display),
{
}

/// Whether `instr` may set the program counter: a jump, a call, a return or
/// a skip.
pub open spec fn is_control_flow(instr: Instruction) -> bool {
    is_skip(instr) || instr is Jump || instr is JumpOffset || instr is Call || instr is Return
}

/// A cycle that fetches an instruction which is no jump, call, return or
/// skip leaves the program counter two past where it was, wrapped into the
/// memory.
pub proof fn plain_instruction_advances_by_two(
    s: CpuState,
    random: u8,
    mem: Seq<u8>,
    display: DisplayView,
)
    requires
        s.wf(),
        !is_control_flow(decode_spec(s.fetch(mem))),
    ensures
        s.cycle(random, mem, display).pc == wrap_address(s.pc + 2),
{
}

/// Addresses stay within the memory: if every live return address and the
/// index register lie within it before a cycle, then so do they, and the
/// program counter, after it.
pub proof fn addresses_stay_in_memory(
    s: CpuState,
    random: u8,
    mem: Seq<u8>,
    display: DisplayView,
)
    requires
        s.wf(),
        s.i < 4096,
        forall|k: int| 0 <= k < s.sp ==> #[trigger] s.stack[k] < 4096,
    ensures
        s.cycle(random, mem, display).in_memory(),
{
    let fetched = s.advance();
    assert(fetched.pc < 4096);
    assert(forall|k: int| 0 <= k < fetched.sp ==> #[trigger] fetched.stack[k] < 4096);
}

/// Every instruction keeps the stack pointer within the stack, and none
/// but a call or a return changes it.
pub proof fn stack_pointer_stays_in_range(
    s: CpuState,
    instr: Instruction,
    random: u8,
    mem: Seq<u8>,
    display: DisplayView,
)
    requires
        s.wf(),
        instr.wf(),
    ensures
        s.execute(instr, random, mem, display).wf(),
        !(instr is Call || instr is Return) ==> s.execute(instr, random, mem, display).sp
            == s.sp,
{
}

} // verus!
