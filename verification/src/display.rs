use vstd::prelude::*;

use crate::machine::{EmuError, MState, Machine, DISPLAY_BUFFER_LEN, DISPLAY_END, DISPLAY_START};

verus! {

/// The palette: each display byte names one of six colors, values 8 and
/// above aliasing back onto the same six, with cyan as the fallback for
/// anything else.
pub open spec fn spec_color(b: u8) -> (u8, u8, u8) {
    match b {
        0 => (0, 0, 0),  // black
        1 => (255, 255, 255),  // white
        2 | 9 => (128, 128, 128),  // gray
        3 | 10 => (255, 0, 0),  // red
        4 | 11 => (0, 255, 0),  // green
        5 | 12 => (0, 0, 255),  // blue
        6 | 13 => (255, 0, 255),  // magenta
        7 | 14 => (255, 255, 0),  // yellow
        _ => (0, 255, 255),  // cyan
    }
}

/// Map a display byte to its RGB triple.
pub fn color(byte: u8) -> (rgb: (u8, u8, u8))
    ensures
        rgb == spec_color(byte),
{
    match byte {
        0 => (0, 0, 0),
        1 => (255, 255, 255),
        2 | 9 => (128, 128, 128),
        3 | 10 => (255, 0, 0),
        4 | 11 => (0, 255, 0),
        5 | 12 => (0, 0, 255),
        6 | 13 => (255, 0, 255),
        7 | 14 => (255, 255, 0),
        _ => (0, 255, 255),
    }
}

/// One channel of an RGB triple.
pub open spec fn channel(t: (u8, u8, u8), j: int) -> u8 {
    if j == 0 {
        t.0
    } else if j == 1 {
        t.1
    } else {
        t.2
    }
}

/// The RGB snapshot of the display region: three channel bytes per cell, in
/// address order.
pub open spec fn render(mem: Seq<u8>) -> Seq<u8> {
    Seq::new(DISPLAY_BUFFER_LEN as nat, |i: int| channel(spec_color(mem[DISPLAY_START + i / 3]), i % 3))
}

impl MState {
    /// The state after a display refresh: the snapshot recomputed from the
    /// display region and the dirty signal cleared.
    pub open spec fn rendered(self) -> MState {
        MState { display_buffer: render(self.memory), display_dirty: false, ..self }
    }
}

impl Machine {
    /// Refresh the RGB snapshot from the display region and clear the dirty
    /// signal; a clean display is left untouched. The external sink hands
    /// the snapshot to the renderer.
    pub fn display(&mut self) -> (r: Result<(), EmuError>)
        requires
            old(self)@.wf(),
        ensures
            final(self)@.wf(),
            r == Ok::<(), EmuError>(()),
            !old(self)@.display_dirty ==> final(self)@ == old(self)@,
            old(self)@.display_dirty ==> final(self)@ == old(self)@.rendered(),
    {
        if !self.display_dirty {
            return Ok(());
        }
        let mut frame_i: usize = 0;
        let mut i: usize = DISPLAY_START;
        while i < DISPLAY_END
            invariant
                DISPLAY_START <= i <= DISPLAY_END,
                frame_i == 3 * (i - DISPLAY_START),
                self@ == (MState { display_buffer: self@.display_buffer, ..old(self)@ }),
                self@.wf(),
                old(self)@.wf(),
                forall|j: int|
                    0 <= j < frame_i ==> self@.display_buffer[j] == render(old(self)@.memory)[j],
            decreases DISPLAY_END - i,
        {
            let v = match self.read_memory(i) {
                Ok(v) => v,
                Err(e) => {
                    proof {
                        assert(false);
                    }
                    return Err(e);
                },
            };
            let (cr, cg, cb) = color(v);
            self.display_buffer[frame_i] = cr;
            self.display_buffer[frame_i + 1] = cg;
            self.display_buffer[frame_i + 2] = cb;
            proof {
                let mem = old(self)@.memory;
                assert(v == mem[i as int]);
                assert(render(mem)[frame_i as int] == channel(
                    spec_color(mem[DISPLAY_START + frame_i as int / 3]),
                    frame_i as int % 3,
                ));
                assert(render(mem)[frame_i + 1] == channel(
                    spec_color(mem[DISPLAY_START + (frame_i + 1) / 3]),
                    (frame_i + 1) % 3,
                ));
                assert(render(mem)[frame_i + 2] == channel(
                    spec_color(mem[DISPLAY_START + (frame_i + 2) / 3]),
                    (frame_i + 2) % 3,
                ));
            }
            frame_i = frame_i + 3;
            i = i + 1;
        }
        self.display_dirty = false;
        proof {
            assert(self@.display_buffer =~= render(old(self)@.memory));
            assert(self@ =~= old(self)@.rendered());
        }
        Ok(())
    }
}

} // verus!
