use crate::cpu::{
    CpuState, advance, blank_screen, draw_cols, draw_rows, draw_x0, draw_y0, fault, fetch,
    next_state, op_kind, op_nn, renders,
};
use vstd::prelude::*;

verus! {

/// Setting VX to `nn1` (6XNN) and then adding `nn2` (7XNN) leaves
/// `(nn1 + nn2) mod 256` in VX; neither opcode can fail.
pub proof fn lemma_set_then_add(
    s: CpuState,
    x: u8,
    nn1: u8,
    nn2: u8,
    key: bool,
    last_press: Option<u8>,
    random: u8,
)
    requires
        s.v.len() == 16,
        x < 16,
    ensures
        ({
            let set = (0x6000 + x as int * 0x100 + nn1 as int) as u16;
            let add = (0x7000 + x as int * 0x100 + nn2 as int) as u16;
            let s1 = next_state(s, set, key, last_press, random);
            &&& fault(s, set) is None
            &&& fault(s1, add) is None
            &&& next_state(s1, add, key, last_press, random).v[x as int] == (nn1 as int
                + nn2 as int) % 256
        }),
{
}

/// Clearing a display that is already clear leaves it unchanged, and still
/// owes the renderer one frame.
pub proof fn lemma_clear_idempotent(
    s: CpuState,
    key: bool,
    last_press: Option<u8>,
    random: u8,
)
    requires
        s.video == blank_screen(),
    ensures
        fault(s, 0x00E0) is None,
        renders(0x00E0),
        next_state(s, 0x00E0, key, last_press, random) == s,
{
}

/// When FX0A finds no key press, the cycle that ran it leaves the program
/// counter where it was, so that the same instruction runs again.
pub proof fn lemma_key_wait_repeats(s: CpuState, key: bool, random: u8)
    requires
        s.pc <= 0xFFE,
        s.ram.len() == 4096,
        s.v.len() == 16,
        op_kind(fetch(s)) == 0xF,
        op_nn(fetch(s)) == 0x0A,
    ensures
        fault(advance(s), fetch(s)) is None,
        next_state(advance(s), fetch(s), key, None, random).pc == s.pc,
{
}

/// After DXYN the flag VF holds the prior value of the last cell drawn (the
/// bottom-right one of the drawn part of the sprite), whatever collisions
/// came before it in the same draw; when no row is drawn it is 0.
pub proof fn lemma_draw_flag_is_last_cell(
    s: CpuState,
    inst: u16,
    key: bool,
    last_press: Option<u8>,
    random: u8,
)
    requires
        s.v.len() == 16,
        op_kind(inst) == 0xD,
    ensures
        ({
            let after = next_state(s, inst, key, last_press, random);
            &&& draw_rows(s, inst) > 0 ==> after.v[15] == s.video[draw_y0(s, inst) + draw_rows(
                s,
                inst,
            ) - 1][draw_x0(s, inst) + draw_cols(s, inst) - 1]
            &&& draw_rows(s, inst) == 0 ==> after.v[15] == 0
        }),
{
}

} // verus!
