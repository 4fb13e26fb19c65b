//! The drawing layer: a canvas that queues clear commands and paints them
//! into its backing framebuffer on flush.
//!
//! The canvas has a declared logical size, set before any drawing. A clear
//! command fills a rectangle with a solid opaque colour; the rectangle is
//! queued as given, with no boundary check, and may exceed the declared
//! size. `flush` executes the queued commands in order against the backing
//! framebuffer; a screenshot captures that framebuffer at the declared
//! size. Commands issued after the last flush have no effect on a
//! screenshot.

use crate::color::Color;
use crate::color::Pixel;
use crate::framebuffer::FrameBuffer;
use vstd::prelude::*;

verus! {

/// A queued clear command: fill the rectangle with the colour, opaque.
#[derive(Clone, Copy, PartialEq, Eq, Structural, Debug)]
pub struct ClearRect {
    pub x: u32,
    pub y: u32,
    pub width: u32,
    pub height: u32,
    pub color: Color,
}

/// The clear rectangle covers the position at column `x`, row `y`.
pub open spec fn covers(cmd: ClearRect, x: int, y: int) -> bool {
    &&& cmd.x <= x < cmd.x + cmd.width
    &&& cmd.y <= y < cmd.y + cmd.height
}

/// The framebuffer after one clear command: every covered position of the
/// row-major store takes the command's colour, fully opaque; every other
/// position keeps its pixel. Positions beyond the canvas size do not exist
/// in the store, so an oversized rectangle paints up to the edge and no
/// further.
pub open spec fn painted(frame: Seq<Pixel>, width: int, cmd: ClearRect) -> Seq<Pixel> {
    Seq::new(
        frame.len(),
        |i: int|
            if covers(cmd, i % width, i / width) {
                Pixel::of_color(cmd.color)
            } else {
                frame[i]
            },
    )
}

/// The framebuffer after a whole queue of clear commands, applied in the
/// order they were issued.
pub open spec fn painted_all(frame: Seq<Pixel>, width: int, cmds: Seq<ClearRect>) -> Seq<Pixel>
    decreases cmds.len(),
{
    if cmds.len() == 0 {
        frame
    } else {
        painted_all(painted(frame, width, cmds[0]), width, cmds.drop_first())
    }
}

/// A drawing surface with a declared logical size, a queue of pending
/// clear commands, and the backing framebuffer that flushes paint into.
pub struct Canvas {
    pub sized: bool,
    pub width: u32,
    pub height: u32,
    pub pending: Vec<ClearRect>,
    pub frame: Vec<Pixel>,
}

impl Canvas {
    /// The backing framebuffer matches the declared size, and nothing is
    /// declared or queued before the size is set.
    pub open spec fn wf(self) -> bool {
        &&& self.frame@.len() == self.width as int * self.height as int
        &&& !self.sized ==> self.width == 0 && self.height == 0 && self.pending@.len() == 0
    }

    /// A fresh canvas: no size declared, nothing queued, empty store.
    pub fn new() -> (c: Canvas)
        ensures
            c.wf(),
            !c.sized,
    {
        Canvas { sized: false, width: 0, height: 0, pending: Vec::new(), frame: Vec::new() }
    }

    /// Declare the logical drawing area. Must come before any drawing;
    /// a later call replaces the earlier size (last call wins) and hands
    /// the canvas a fresh all-zero backing framebuffer of the new size.
    pub fn set_size(&mut self, width: u32, height: u32)
        requires
            old(self).wf(),
            width as int * height as int <= usize::MAX,
        ensures
            final(self).wf(),
            final(self).sized,
            final(self).width == width,
            final(self).height == height,
            final(self).pending@ == old(self).pending@,
            final(self).frame@ == Seq::new(
                (width as int * height as int) as nat,
                |i: int| Pixel::blank(),
            ),
    {
        let n: usize = (width as usize) * (height as usize);
        let mut frame: Vec<Pixel> = Vec::new();
        let mut i: usize = 0;
        while i < n
            invariant
                i <= n,
                frame@.len() == i,
                forall|k: int| 0 <= k < i ==> frame@[k] == Pixel::blank(),
            decreases n - i,
        {
            frame.push(Pixel { r: 0, g: 0, b: 0, a: 0 });
            i = i + 1;
        }
        self.frame = frame;
        self.width = width;
        self.height = height;
        self.sized = true;
        proof {
            assert(self.frame@ =~= Seq::new(
                (width as int * height as int) as nat,
                |k: int| Pixel::blank(),
            ));
        }
    }

    /// Queue a clear command: fill the rectangle with the solid opaque
    /// colour. The rectangle is recorded as given, even when it exceeds
    /// the declared size; nothing is painted until the next flush.
    pub fn clear_rect(&mut self, x: u32, y: u32, width: u32, height: u32, color: Color)
        requires
            old(self).wf(),
            old(self).sized,
        ensures
            final(self).wf(),
            final(self).sized == old(self).sized,
            final(self).width == old(self).width,
            final(self).height == old(self).height,
            final(self).frame@ == old(self).frame@,
            final(self).pending@ == old(self).pending@.push(
                ClearRect { x, y, width, height, color },
            ),
    {
        self.pending.push(ClearRect { x, y, width, height, color });
    }

    /// Execute every queued command, in order, against the backing
    /// framebuffer, and empty the queue. Flushing an empty queue leaves
    /// the framebuffer as it is, so a second flush right after a first
    /// changes nothing.
    pub fn flush(&mut self)
        requires
            old(self).wf(),
            old(self).sized,
        ensures
            final(self).wf(),
            final(self).sized == old(self).sized,
            final(self).width == old(self).width,
            final(self).height == old(self).height,
            final(self).pending@.len() == 0,
            final(self).frame@ == painted_all(
                old(self).frame@,
                old(self).width as int,
                old(self).pending@,
            ),
    {
        let ghost frame0 = self.frame@;
        let ghost cmds = self.pending@;
        let mut k: usize = 0;
        while k < self.pending.len()
            invariant
                k <= cmds.len(),
                self.pending@ == cmds,
                self.sized == old(self).sized,
                self.width == old(self).width,
                self.height == old(self).height,
                self.frame@.len() == frame0.len(),
                frame0.len() == self.width as int * self.height as int,
                self.frame@ == painted_all(frame0, self.width as int, cmds.take(k as int)),
            decreases cmds.len() - k,
        {
            let cmd = self.pending[k];
            proof {
                if self.frame@.len() > 0 {
                    assert(self.width > 0) by {
                        if self.width == 0 {
                            assert(self.width as int * self.height as int == 0);
                        }
                    }
                }
            }
            paint(&mut self.frame, self.width, cmd);
            proof {
                lemma_painted_all_snoc(frame0, self.width as int, cmds.take(k as int), cmd);
                assert(cmds.take(k as int + 1) =~= cmds.take(k as int).push(cmd));
            }
            k = k + 1;
        }
        self.pending = Vec::new();
        proof {
            assert(cmds.take(cmds.len() as int) =~= cmds);
        }
    }

    /// Capture the backing framebuffer at the declared size. Yields
    /// nothing when no size was ever declared, a pixel-for-pixel copy of
    /// the framebuffer otherwise.
    pub fn screenshot(&self) -> (r: Option<FrameBuffer>)
        requires
            self.wf(),
        ensures
            r is Some <==> self.sized,
            r matches Some(fb) ==> {
                &&& fb.wf()
                &&& fb.width == self.width
                &&& fb.height == self.height
                &&& fb.pixels@ == self.frame@
            },
    {
        if !self.sized {
            return None;
        }
        let mut pixels: Vec<Pixel> = Vec::new();
        let mut i: usize = 0;
        while i < self.frame.len()
            invariant
                i <= self.frame@.len(),
                pixels@.len() == i,
                forall|k: int| 0 <= k < i ==> pixels@[k] == self.frame@[k],
            decreases self.frame@.len() - i,
        {
            pixels.push(self.frame[i]);
            i = i + 1;
        }
        proof {
            assert(pixels@ =~= self.frame@);
        }
        Some(FrameBuffer { width: self.width, height: self.height, pixels })
    }
}

/// Paint one clear command into a row-major pixel store of the given row
/// width.
fn paint(frame: &mut Vec<Pixel>, width: u32, cmd: ClearRect)
    requires
        old(frame)@.len() > 0 ==> width > 0,
    ensures
        final(frame)@ == painted(old(frame)@, width as int, cmd),
{
    let n: usize = frame.len();
    let mut i: usize = 0;
    while i < n
        invariant
            i <= n,
            n == frame@.len(),
            frame@.len() == old(frame)@.len(),
            n > 0 ==> width > 0,
            forall|k: int|
                0 <= k < i ==> frame@[k] == painted(old(frame)@, width as int, cmd)[k],
            forall|k: int| i <= k < n ==> frame@[k] == old(frame)@[k],
        decreases n - i,
    {
        let x: usize = i % (width as usize);
        let y: usize = i / (width as usize);
        let inside = (x as u64) >= (cmd.x as u64) && (x as u64) < (cmd.x as u64) + (cmd.width
            as u64) && (y as u64) >= (cmd.y as u64) && (y as u64) < (cmd.y as u64) + (cmd.height
            as u64);
        if inside {
            frame.set(i, Pixel { r: cmd.color.r, g: cmd.color.g, b: cmd.color.b, a: 255 });
        }
        i = i + 1;
    }
    proof {
        assert(final(frame)@ =~= painted(old(frame)@, width as int, cmd));
    }
}

/// Appending one command to a queue paints it after the rest: executing
/// `cmds.push(cmd)` equals executing `cmds`, then `cmd`.
proof fn lemma_painted_all_snoc(frame: Seq<Pixel>, width: int, cmds: Seq<ClearRect>, cmd: ClearRect)
    ensures
        painted_all(frame, width, cmds.push(cmd)) == painted(
            painted_all(frame, width, cmds),
            width,
            cmd,
        ),
    decreases cmds.len(),
{
    let s = cmds.push(cmd);
    if cmds.len() == 0 {
        assert(s[0] == cmd);
        assert(s.drop_first() =~= Seq::<ClearRect>::empty());
        assert(painted_all(frame, width, s) == painted_all(
            painted(frame, width, cmd),
            width,
            Seq::<ClearRect>::empty(),
        ));
        assert(painted_all(frame, width, cmds) == frame);
    } else {
        assert(s[0] == cmds[0]);
        assert(s.drop_first() =~= cmds.drop_first().push(cmd));
        assert(painted_all(frame, width, s) == painted_all(
            painted(frame, width, cmds[0]),
            width,
            cmds.drop_first().push(cmd),
        ));
        lemma_painted_all_snoc(painted(frame, width, cmds[0]), width, cmds.drop_first(), cmd);
        assert(painted_all(frame, width, cmds) == painted_all(
            painted(frame, width, cmds[0]),
            width,
            cmds.drop_first(),
        ));
    }
}

/// Flushing with no pending commands is the identity on the framebuffer:
/// a second flush right after a first produces the identical framebuffer.
pub proof fn lemma_flush_idempotent(frame: Seq<Pixel>, width: int)
    ensures
        painted_all(frame, width, Seq::<ClearRect>::empty()) == frame,
{
}

/// A clear rectangle anchored at the origin and at least as large as the
/// canvas paints every pixel of the framebuffer with its colour, alpha
/// 255 — also when the rectangle is strictly larger than the canvas.
pub proof fn lemma_covering_clear_paints_all(
    frame: Seq<Pixel>,
    width: int,
    height: int,
    cmd: ClearRect,
)
    requires
        width >= 0,
        height >= 0,
        frame.len() == width * height,
        cmd.x == 0,
        cmd.y == 0,
        cmd.width >= width,
        cmd.height >= height,
    ensures
        forall|i: int|
            0 <= i < frame.len() ==> painted(frame, width, cmd)[i] == (Pixel {
                r: cmd.color.r,
                g: cmd.color.g,
                b: cmd.color.b,
                a: 255,
            }),
{
    assert forall|i: int| 0 <= i < frame.len() implies painted(frame, width, cmd)[i] == (Pixel {
        r: cmd.color.r,
        g: cmd.color.g,
        b: cmd.color.b,
        a: 255,
    }) by {
        assert(width > 0 && height > 0) by (nonlinear_arith)
            requires
                width >= 0,
                height >= 0,
                frame.len() == width * height,
                0 <= i < frame.len(),
        ;
        assert(0 <= i % width < width && 0 <= i / width < height) by (nonlinear_arith)
            requires
                width > 0,
                height > 0,
                0 <= i < width * height,
        ;
        assert(covers(cmd, i % width, i / width));
    }
}

/// Executing exactly one covering clear command — the queue after a
/// single `clear_rect` on a freshly flushed canvas — paints every pixel
/// with the command's colour, fully opaque.
pub proof fn lemma_single_covering_flush(
    frame: Seq<Pixel>,
    width: int,
    height: int,
    cmd: ClearRect,
)
    requires
        width >= 0,
        height >= 0,
        frame.len() == width * height,
        cmd.x == 0,
        cmd.y == 0,
        cmd.width >= width,
        cmd.height >= height,
    ensures
        forall|i: int|
            0 <= i < frame.len() ==> painted_all(frame, width, seq![cmd])[i] == (Pixel {
                r: cmd.color.r,
                g: cmd.color.g,
                b: cmd.color.b,
                a: 255,
            }),
{
    assert(seq![cmd].drop_first() =~= Seq::<ClearRect>::empty());
    assert(seq![cmd][0] == cmd);
    assert(painted_all(frame, width, seq![cmd]) == painted_all(
        painted(frame, width, cmd),
        width,
        Seq::<ClearRect>::empty(),
    ));
    assert(painted_all(frame, width, seq![cmd]) == painted(frame, width, cmd));
    lemma_covering_clear_paints_all(frame, width, height, cmd);
}

} // verus!
