//! Properties of the machine that hold across calls, proved over the model.
use vstd::prelude::*;
use crate::instruction::{decode_spec, lemma_decode_wf, Instruction};
use crate::machine::{
    any_pressed, drawn_screen, exec_spec, fetch_spec, first_pressed, pixel_cell, sprite_collides, sprite_covers,
    sprite_pixel, step_spec, Fault, MachineState, FLAG_REG, NUM_KEYS, RAM_SIZE, SCREEN_CELLS,
    STACK_SIZE,
};

verus! {

proof fn lemma_exec_preserves_wf(s: MachineState, ins: Instruction, rnd: u8)
    requires
        s.wf(),
        ins.wf(),
    ensures
        exec_spec(s, ins, rnd) matches Ok(t) ==> t.wf(),
{
}

/// Every step from a well-formed state reaches a well-formed state: the stack
/// pointer stays within `0..=16` and every array keeps its size.
pub proof fn law_step_preserves_wf(s: MachineState, rnd: u8)
    requires
        s.wf(),
    ensures
        step_spec(s, rnd) matches Ok(t) ==> t.wf(),
{
    if let Ok(t) = step_spec(s, rnd) {
        let op = fetch_spec(s)->Some_0;
        let ins = decode_spec(op)->Some_0;
        let s2 = MachineState { pc: (s.pc + 2) as u16, ..s };
        lemma_decode_wf(op);
        lemma_exec_preserves_wf(s2, ins, rnd);
    }
}

/// A call with all sixteen stack slots in use, and a return with none in use,
/// fault instead of touching the stack.
pub proof fn law_stack_faults(s: MachineState, rnd: u8, op: u16)
    requires
        s.wf(),
        fetch_spec(s) == Some(op),
    ensures
        decode_spec(op) matches Some(Instruction::Call { .. }) && s.sp == STACK_SIZE
            ==> step_spec(s, rnd) == Err::<MachineState, Fault>(Fault::StackOverflow),
        decode_spec(op) == Some(Instruction::Return) && s.sp == 0
            ==> step_spec(s, rnd) == Err::<MachineState, Fault>(Fault::StackUnderflow),
{
}

/// After a clear-screen step the framebuffer holds 64 x 32 cells, all dark.
pub proof fn law_clear_screen(s: MachineState, rnd: u8)
    requires
        s.wf(),
        fetch_spec(s) matches Some(op) && decode_spec(op) == Some(Instruction::ClearScreen),
    ensures
        step_spec(s, rnd) matches Ok(t) && t.screen.len() == SCREEN_CELLS
            && forall|c: int| 0 <= c < SCREEN_CELLS ==> !#[trigger] t.screen[c],
{
}

/// Every pixel of a sprite of up to 16 rows lands inside the framebuffer, and
/// distinct pixels land on distinct cells.
pub proof fn law_sprite_cells(cx: u8, cy: u8, j1: int, j2: int)
    requires
        0 <= j1 < j2 < 128,
    ensures
        pixel_cell(cx, cy, j1) != pixel_cell(cx, cy, j2),
        0 <= pixel_cell(cx, cy, j1) < SCREEN_CELLS,
{
    let (c1, c2, r1, r2) = (j1 % 8, j2 % 8, j1 / 8, j2 / 8);
    assert(j1 == 8 * r1 + c1 && j2 == 8 * r2 + c2);
    let (x1, x2) = ((cx + c1) % 64, (cx + c2) % 64);
    let (y1, y2) = ((cy + r1) % 32, (cy + r2) % 32);
    if pixel_cell(cx, cy, j1) == pixel_cell(cx, cy, j2) {
        assert(x1 == x2 && y1 == y2);
        assert(c1 == c2);
        assert(r1 == r2);
    }
}

proof fn lemma_redraw_restores(screen: Seq<bool>, mem: Seq<u8>, i: int, cx: u8, cy: u8, rows: int)
    requires
        screen.len() == SCREEN_CELLS,
    ensures
        drawn_screen(drawn_screen(screen, mem, i, cx, cy, rows), mem, i, cx, cy, rows) == screen,
{
    assert(drawn_screen(drawn_screen(screen, mem, i, cx, cy, rows), mem, i, cx, cy, rows) =~= screen);
}

proof fn lemma_redraw_collides(screen: Seq<bool>, mem: Seq<u8>, i: int, cx: u8, cy: u8, rows: int, j: int)
    requires
        screen.len() == SCREEN_CELLS,
        0 <= rows < 16,
        0 <= j < 8 * rows,
        sprite_pixel(mem, i, j),
        !sprite_collides(screen, mem, i, cx, cy, rows),
    ensures
        sprite_collides(drawn_screen(screen, mem, i, cx, cy, rows), mem, i, cx, cy, rows),
{
    law_sprite_cells(cx, cy, j, j + 1);
    let c = pixel_cell(cx, cy, j);
    assert(sprite_covers(mem, i, cx, cy, 8 * rows, c));
    assert(!screen[c]);
    assert(drawn_screen(screen, mem, i, cx, cy, rows)[c]);
}

/// Drawing the same sprite twice at the same place gives the framebuffer back as
/// it was. When the first draw lit only dark cells and the sprite has a lit pixel,
/// the second draw turns lit cells dark and so sets the flag register to 1.
/// (The coordinates must not sit in the flag register, which the first draw overwrites.)
pub proof fn law_draw_twice(s: MachineState, x: u8, y: u8, rows: u8, rnd: u8)
    requires
        s.wf(),
        x < FLAG_REG,
        y < FLAG_REG,
        rows < 16,
        s.i + rows <= RAM_SIZE,
    ensures
        exec_spec(s, Instruction::Draw { x, y, rows }, rnd) matches Ok(t)
            && exec_spec(t, Instruction::Draw { x, y, rows }, rnd) matches Ok(u)
            && u.screen == s.screen
            && (t.v[FLAG_REG as int] == 0
                && (exists|j: int| 0 <= j < 8 * rows && #[trigger] sprite_pixel(s.memory, s.i as int, j))
                ==> u.v[FLAG_REG as int] == 1),
{
    let d = Instruction::Draw { x, y, rows };
    let (cx, cy, i) = (s.v[x as int], s.v[y as int], s.i as int);
    let hit1 = sprite_collides(s.screen, s.memory, i, cx, cy, rows as int);
    let screen1 = drawn_screen(s.screen, s.memory, i, cx, cy, rows as int);
    let t = MachineState { screen: screen1, v: s.v.update(FLAG_REG as int, if hit1 { 1u8 } else { 0u8 }), ..s };
    assert(exec_spec(s, d, rnd) == Ok::<MachineState, Fault>(t));
    assert(t.v[x as int] == cx && t.v[y as int] == cy);
    let hit2 = sprite_collides(screen1, s.memory, i, cx, cy, rows as int);
    let u = MachineState {
        screen: drawn_screen(screen1, s.memory, i, cx, cy, rows as int),
        v: t.v.update(FLAG_REG as int, if hit2 { 1u8 } else { 0u8 }),
        ..t
    };
    assert(exec_spec(t, d, rnd) == Ok::<MachineState, Fault>(u));
    lemma_redraw_restores(s.screen, s.memory, i, cx, cy, rows as int);
    if !hit1 && (exists|j: int| 0 <= j < 8 * rows && #[trigger] sprite_pixel(s.memory, i, j)) {
        let j = choose|j: int| 0 <= j < 8 * rows && #[trigger] sprite_pixel(s.memory, i, j);
        lemma_redraw_collides(s.screen, s.memory, i, cx, cy, rows as int, j);
    }
}

/// Waiting for a key with none pressed leaves the machine as it was, program
/// counter included, so the same instruction runs again. With key `k` the lowest
/// one pressed, the step moves on and stores `k` in `VX`.
pub proof fn law_wait_key(s: MachineState, rnd: u8, x: u8, k: int)
    requires
        s.wf(),
        fetch_spec(s) matches Some(op) && decode_spec(op) == Some(Instruction::WaitKey { x }),
    ensures
        (forall|m: int| 0 <= m < NUM_KEYS ==> !#[trigger] s.keys[m])
            ==> step_spec(s, rnd) == Ok::<MachineState, Fault>(s),
        0 <= k < NUM_KEYS && s.keys[k] && (forall|m: int| 0 <= m < k ==> !#[trigger] s.keys[m])
            ==> step_spec(s, rnd) == Ok::<MachineState, Fault>(MachineState {
                pc: (s.pc + 2) as u16,
                v: s.v.update(x as int, k as u8),
                ..s
            }),
{
    let op = fetch_spec(s)->Some_0;
    lemma_decode_wf(op);
    if forall|m: int| 0 <= m < NUM_KEYS ==> !#[trigger] s.keys[m] {
        assert(!any_pressed(s.keys));
        assert(s.pc + 1 < RAM_SIZE);
    }
    if 0 <= k < NUM_KEYS && s.keys[k] && (forall|m: int| 0 <= m < k ==> !#[trigger] s.keys[m]) {
        assert(any_pressed(s.keys));
        let f = first_pressed(s.keys);
        assert(0 <= f < NUM_KEYS && s.keys[f] && forall|m: int| 0 <= m < f ==> !s.keys[m]);
        assert(f == k);
    }
}

} // verus!
