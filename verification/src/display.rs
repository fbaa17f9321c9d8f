use crate::machine::{Machine, DISPLAY_HEIGHT, DISPLAY_WIDTH};
use crate::vm::VM;
use vstd::prelude::*;

verus! {

/// Whether cell `p` is under a set bit of the sprite in one of the rows
/// above `row`, or in `row` itself left of column `col`.
spec fn hit_before(m: Machine, left: u8, top: u8, rows: u8, row: int, col: int, p: int) -> bool {
    &&& m.sprite_hits(left, top, rows, p)
    &&& (p / 64 - top < row || (p / 64 - top == row && p % 64 - left < col))
}

impl VM {
    /// Draws the sprite of `rows` rows that starts at `I` with its top left
    /// corner at (`left`, `top`), and says whether a lit pixel went dark.
    pub(crate) fn draw_sprite(&mut self, left: u8, top: u8, rows: u8) -> (collision: bool)
        requires
            old(self)@.wf(),
            rows < 16,
            rows > 0 ==> old(self)@.index + rows <= 4096,
        ensures
            final(self)@ == (Machine {
                framebuffer: old(self)@.sprite_drawn(left, top, rows),
                ..old(self)@
            }),
            collision == old(self)@.sprite_collides(left, top, rows),
    {
        let index = self.index_register() as usize;
        let ghost before = self@;
        let mut collision = false;
        let mut row: u8 = 0;
        while row < rows
            invariant
                row <= rows,
                rows < 16,
                before.wf(),
                index == before.index,
                rows > 0 ==> index + rows <= 4096,
                self@ == (Machine { framebuffer: self@.framebuffer, ..before }),
                self@.framebuffer.len() == 2048,
                forall|p: int|
                    0 <= p < 2048 ==> self@.framebuffer[p] == (before.framebuffer[p] != hit_before(
                        before,
                        left,
                        top,
                        rows,
                        row as int,
                        0,
                        p,
                    )),
                collision <==> exists|p: int|
                    0 <= p < 2048 && before.framebuffer[p] && #[trigger] hit_before(
                        before,
                        left,
                        top,
                        rows,
                        row as int,
                        0,
                        p,
                    ),
            decreases rows - row,
        {
            let bits = self.read(index + row as usize);
            let mut col: u8 = 0;
            while col < 8
                invariant
                    col <= 8,
                    row < rows,
                    rows < 16,
                    before.wf(),
                    index == before.index,
                    index + rows <= 4096,
                    bits == before.memory[index + row],
                    self@ == (Machine { framebuffer: self@.framebuffer, ..before }),
                    self@.framebuffer.len() == 2048,
                    forall|p: int|
                        0 <= p < 2048 ==> self@.framebuffer[p] == (before.framebuffer[p]
                            != hit_before(before, left, top, rows, row as int, col as int, p)),
                    collision <==> exists|p: int|
                        0 <= p < 2048 && before.framebuffer[p] && #[trigger] hit_before(
                            before,
                            left,
                            top,
                            rows,
                            row as int,
                            col as int,
                            p,
                        ),
                decreases 8 - col,
            {
                let px = left as usize + col as usize;
                let py = top as usize + row as usize;
                if bits & (0x80u8 >> col) != 0 && px < DISPLAY_WIDTH && py < DISPLAY_HEIGHT {
                    let cell = py * DISPLAY_WIDTH + px;
                    if self.pixel(cell) {
                        collision = true;
                    }
                    self.toggle_pixel(cell);
                    assert(hit_before(before, left, top, rows, row as int, col + 1, cell as int));
                }
                assert forall|p: int| 0 <= p < 2048 implies (hit_before(
                    before,
                    left,
                    top,
                    rows,
                    row as int,
                    col + 1,
                    p,
                ) <==> hit_before(before, left, top, rows, row as int, col as int, p) || (p == py
                    * 64 + px && px < 64 && bits & (0x80u8 >> col) != 0)) by {}
                col += 1;
            }
            assert forall|p: int| 0 <= p < 2048 implies (hit_before(
                before,
                left,
                top,
                rows,
                row as int,
                8,
                p,
            ) <==> hit_before(before, left, top, rows, row + 1, 0, p)) by {}
            row += 1;
        }
        assert forall|p: int| 0 <= p < 2048 implies (hit_before(
            before,
            left,
            top,
            rows,
            rows as int,
            0,
            p,
        ) <==> before.sprite_hits(left, top, rows, p)) by {}
        assert(self@.framebuffer =~= before.sprite_drawn(left, top, rows));
        collision
    }
}

} // verus!
