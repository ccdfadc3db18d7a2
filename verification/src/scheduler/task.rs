//! Tasks: a private stack each, and the register frame saved on it.
use super::arguments::AbiArguments;
use crate::control::{
    control_drop_privilege, control_from_bits, control_into_bits, control_select_process_stack,
};
use vstd::prelude::*;

verus! {

/// Size of a task stack in bytes.
pub const STACK_SIZE: usize = 256;

/// Size of a task stack in 32-bit words.
pub const STACK_WORDS: usize = 64;

/// Size of a saved [`ExtendedFrame`] in bytes.
pub const FRAME_SIZE: usize = 72;

/// Size of a saved [`ExtendedFrame`] in 32-bit words.
pub const FRAME_WORDS: usize = 18;

/// Where the first frame of a new task is laid: at the top of its stack.
pub const STACK_OFFSET: usize = 184;

/// Position of `r0` inside a saved frame, in words.
pub const R0_WORD: usize = 10;

/// `xPSR` with the Thumb bit (bit 24) set.
pub const THUMB_BIT: u32 = 0x0100_0000;

/// A task stack: 256 bytes, word aligned.
pub struct Stack([u32; STACK_WORDS]);

impl View for Stack {
    type V = Seq<u32>;

    /// The stack's words, lowest address first.
    closed spec fn view(&self) -> Seq<u32> {
        self.0@
    }
}

impl core::ops::Deref for Stack {
    type Target = [u32; STACK_WORDS];

    /// The stack's words.
    fn deref(&self) -> (r: &[u32; STACK_WORDS])
        ensures
            r@ == self@,
    {
        &self.0
    }
}

impl core::ops::DerefMut for Stack {
    /// The stack's words, to write them.
    fn deref_mut(&mut self) -> (r: &mut [u32; STACK_WORDS])
        ensures
            r@ == old(self)@,
            final(self)@ == final(r)@,
    {
        &mut self.0
    }
}

/// `s` with the words `w` written from word `at` on.
pub open spec fn write_words(s: Seq<u32>, at: int, w: Seq<u32>) -> Seq<u32> {
    Seq::new(s.len(), |j: int| if at <= j < at + w.len() { w[j - at] } else { s[j] })
}

/// A stack of zero words.
pub open spec fn zero_stack() -> Seq<u32> {
    Seq::new(STACK_WORDS as nat, |j: int| 0u32)
}

impl Stack {
    /// A stack with every word 0.
    pub fn new() -> (r: Self)
        ensures
            r@ == zero_stack(),
    {
        let r = Stack([0u32; STACK_WORDS]);
        assert(r@ =~= zero_stack());
        r
    }

    /// The word at index `i` (byte offset `4 * i`).
    pub fn word(&self, i: usize) -> (w: u32)
        requires
            i < STACK_WORDS,
        ensures
            w == self@[i as int],
    {
        self.0[i]
    }

    /// Writes `w` over the words from index `at` on.
    fn write(&mut self, at: usize, w: &[u32])
        requires
            at + w@.len() <= STACK_WORDS,
        ensures
            final(self)@ == write_words(old(self)@, at as int, w@),
    {
        let mut i: usize = 0;
        while i < w.len()
            invariant
                at + w@.len() <= STACK_WORDS,
                i <= w@.len(),
                self@.len() == STACK_WORDS,
                self@ =~= write_words(old(self)@, at as int, w@.subrange(0, i as int)),
            decreases w.len() - i,
        {
            self.0[at + i] = w[i];
            i = i + 1;
            assert(self@ =~= write_words(old(self)@, at as int, w@.subrange(0, i as int)));
        }
        assert(w@.subrange(0, w@.len() as int) =~= w@);
    }
}

/// The contents of an [`ExtendedFrame`].
pub struct FrameView {
    pub control: u32,
    pub low_regs: Seq<u32>,
    pub high_regs: Seq<u32>,
    pub r0: u32,
    pub r1: u32,
    pub r2: u32,
    pub r3: u32,
    pub r12: u32,
    pub lr: u32,
    pub pc: usize,
    pub xpsr: u32,
}

/// The 18 words of a saved frame as they lie on the stack: CONTROL,
/// `r4`-`r7`, `r8`-`r12`, then the hardware exception frame `r0`-`r3`,
/// `r12`, `lr`, `pc`, `xPSR`.
pub open spec fn frame_words(f: FrameView) -> Seq<u32> {
    seq![f.control] + f.low_regs + f.high_regs + seq![
        f.r0,
        f.r1,
        f.r2,
        f.r3,
        f.r12,
        f.lr,
        f.pc as u32,
        f.xpsr,
    ]
}

/// The frame of a task that has never run: it enters `entry` in Thumb
/// state, unprivileged and on the process stack, with every other register 0.
pub open spec fn initial_frame(entry: usize) -> FrameView {
    FrameView {
        control: 3,
        low_regs: seq![0u32, 0u32, 0u32, 0u32],
        high_regs: seq![0u32, 0u32, 0u32, 0u32, 0u32],
        r0: 0,
        r1: 0,
        r2: 0,
        r3: 0,
        r12: 0,
        lr: 0,
        pc: entry,
        xpsr: THUMB_BIT,
    }
}

/// The registers a task saves when it leaves the processor: the software
/// part (CONTROL, `r4`-`r12`) and the exception frame the hardware pushes.
pub struct ExtendedFrame {
    /// control register
    control: u32,
    /// contains r4-r7
    low_regs: [u32; 4],
    /// contains r8-r12
    high_regs: [u32; 5],
    r0: u32,
    r1: u32,
    r2: u32,
    r3: u32,
    r12: u32,
    lr: u32,
    pc: usize,
    xpsr: u32,
}

impl View for ExtendedFrame {
    type V = FrameView;

    closed spec fn view(&self) -> FrameView {
        FrameView {
            control: self.control,
            low_regs: self.low_regs@,
            high_regs: self.high_regs@,
            r0: self.r0,
            r1: self.r1,
            r2: self.r2,
            r3: self.r3,
            r12: self.r12,
            lr: self.lr,
            pc: self.pc,
            xpsr: self.xpsr,
        }
    }
}

impl Default for ExtendedFrame {
    /// Every register 0.
    fn default() -> (r: Self)
        ensures
            r@ == (FrameView {
                control: 0,
                low_regs: seq![0u32, 0u32, 0u32, 0u32],
                high_regs: seq![0u32, 0u32, 0u32, 0u32, 0u32],
                r0: 0,
                r1: 0,
                r2: 0,
                r3: 0,
                r12: 0,
                lr: 0,
                pc: 0,
                xpsr: 0,
            }),
    {
        let r = ExtendedFrame {
            control: 0,
            low_regs: [0u32; 4],
            high_regs: [0u32; 5],
            r0: 0,
            r1: 0,
            r2: 0,
            r3: 0,
            r12: 0,
            lr: 0,
            pc: 0,
            xpsr: 0,
        };
        assert(r.low_regs@ =~= seq![0u32, 0u32, 0u32, 0u32]);
        assert(r.high_regs@ =~= seq![0u32, 0u32, 0u32, 0u32, 0u32]);
        r
    }
}

impl ExtendedFrame {
    /// The frame with CONTROL set to `bits`.
    pub fn control(self, bits: u32) -> (r: Self)
        ensures
            r@ == (FrameView { control: bits, ..self@ }),
    {
        Self { control: bits, ..self }
    }

    /// The frame with the program counter set to `addr`.
    pub fn pc(self, addr: usize) -> (r: Self)
        ensures
            r@ == (FrameView { pc: addr, ..self@ }),
    {
        Self { pc: addr, ..self }
    }

    /// The frame with the Thumb bit of `xPSR` set when `active`, other
    /// bits kept.
    pub fn thumb(self, active: bool) -> (r: Self)
        ensures
            r@ == (FrameView { xpsr: self@.xpsr | (if active { THUMB_BIT } else { 0u32 }), ..self@ }),
    {
        let bit: u32 = if active { 1 } else { 0 };
        let xpsr = self.xpsr | (bit << 24u32);
        assert(bit << 24u32 == (if active { THUMB_BIT } else { 0u32 })) by (bit_vector)
            requires bit == (if active { 1u32 } else { 0u32 });
        Self { xpsr, ..self }
    }

    /// The frame's words in stack order.
    pub fn to_words(&self) -> (w: [u32; FRAME_WORDS])
        ensures
            w@ == frame_words(self@),
    {
        let w = [
            self.control,
            self.low_regs[0],
            self.low_regs[1],
            self.low_regs[2],
            self.low_regs[3],
            self.high_regs[0],
            self.high_regs[1],
            self.high_regs[2],
            self.high_regs[3],
            self.high_regs[4],
            self.r0,
            self.r1,
            self.r2,
            self.r3,
            self.r12,
            self.lr,
            #[verifier::truncate] (self.pc as u32),
            self.xpsr,
        ];
        assert(w@ =~= frame_words(self@));
        w
    }
}

/// Where a suspended task's frame lies: a byte offset from the base of the
/// task's own stack, not an absolute address.
#[derive(Clone, Copy, Debug)]
pub struct FramePtr(usize);

impl View for FramePtr {
    type V = usize;

    closed spec fn view(&self) -> usize {
        self.0
    }
}

/// A frame at byte offset `offset` lies word aligned and wholly inside a stack.
pub open spec fn frame_fits(offset: usize) -> bool {
    offset % 4 == 0 && offset + FRAME_SIZE <= STACK_SIZE
}

impl FramePtr {
    /// A frame always lies word aligned and wholly inside its stack.
    #[verifier::type_invariant]
    spec fn inside_stack(self) -> bool {
        frame_fits(self.0)
    }

    /// The frame at byte offset `offset` from the stack base.
    pub fn new(offset: usize) -> (r: Self)
        requires
            frame_fits(offset),
        ensures
            r@ == offset,
    {
        FramePtr(offset)
    }

    /// The byte offset from the stack base.
    pub fn offset(&self) -> (r: usize)
        ensures
            r == self@,
    {
        self.0
    }

    /// The frame at absolute address `address` on a stack based at `base`:
    /// `None` unless the frame lies word aligned and wholly inside the stack.
    pub fn at_address(base: usize, address: usize) -> (r: Option<Self>)
        ensures
            r is Some <==> base <= address && frame_fits((address - base) as usize),
            r matches Some(f) ==> f@ == address - base,
    {
        if base <= address && (address - base) % 4 == 0 && address - base <= STACK_SIZE - FRAME_SIZE {
            Some(FramePtr(address - base))
        } else {
            None
        }
    }

    /// The absolute address of the frame on a stack based at `base`, `None`
    /// when it would not fit in a `usize`.
    pub fn address(&self, base: usize) -> (r: Option<usize>)
        ensures
            r is Some <==> base + self@ <= usize::MAX,
            r matches Some(a) ==> a == base + self@,
    {
        base.checked_add(self.0)
    }
}

/// A task: its stack, on the heap so that it never moves, and where its
/// saved frame lies on it.
pub struct Task {
    stack: Box<Stack>,
    /// offset from stack base,
    /// NOT absolute address
    suspended_stack: FramePtr,
}

impl Task {
    /// The words of the task's stack.
    pub closed spec fn stack_view(&self) -> Seq<u32> {
        self.stack@
    }

    /// Where the task's saved frame lies.
    pub closed spec fn sp_view(&self) -> usize {
        self.suspended_stack@
    }

    /// Word index of register `r0` of the saved frame.
    pub open spec fn r0_index(&self) -> int {
        self.sp_view() / 4 + R0_WORD
    }

    /// A new task that starts at the code address `entry`: a fresh stack
    /// whose top holds the frame of [`initial_frame`], ready to be loaded.
    pub fn create(entry: usize) -> (r: Self)
        ensures
            r.sp_view() == STACK_OFFSET,
            r.stack_view() == write_words(
                zero_stack(),
                (STACK_OFFSET / 4) as int,
                frame_words(initial_frame(entry)),
            ),
    {
        let mut stack = Box::new(Stack::new());

        let mut control = control_from_bits(0);
        control_select_process_stack(&mut control);
        control_drop_privilege(&mut control);
        assert((0u32 | 2u32) | 1u32 == 3u32) by (bit_vector);
        assert(0u32 | THUMB_BIT == THUMB_BIT) by (bit_vector);

        let bits = control_into_bits(control);
        let frame = ExtendedFrame::default().pc(entry).thumb(true).control(bits);
        assert(frame@ == initial_frame(entry));
        let words = frame.to_words();
        stack.write(STACK_OFFSET / 4, words.as_slice());

        Task { stack, suspended_stack: FramePtr(STACK_OFFSET) }
    }

    /// Where the saved frame lies.
    pub fn sp(&self) -> (r: FramePtr)
        ensures
            r@ == self.sp_view(),
    {
        self.suspended_stack
    }

    /// The task's stack.
    pub fn stack(&self) -> (r: &Stack)
        ensures
            r@ == self.stack_view(),
    {
        &self.stack
    }

    /// Records that the task's frame now lies at `frame`.
    pub fn save_sp(&mut self, frame: FramePtr)
        ensures
            final(self).sp_view() == frame@,
            final(self).stack_view() == old(self).stack_view(),
    {
        self.suspended_stack = frame;
    }

    /// Writes the pushed values of `args` into the argument registers of
    /// the saved frame, `r0` first; the task reads them when it resumes.
    pub fn apply<const U: usize>(&mut self, args: AbiArguments<U>)
        requires
            U <= 4,
        ensures
            final(self).sp_view() == old(self).sp_view(),
            final(self).stack_view() == write_words(
                old(self).stack_view(),
                old(self).r0_index(),
                args@.subrange(0, U as int),
            ),
    {
        proof {
            use_type_invariant(&self.suspended_stack);
        }
        let at = self.suspended_stack.0 / 4 + R0_WORD;
        let pushed = args.pushed();
        self.stack.write(at, pushed);
    }
}

/// A task waiting for a value before it can run again.
pub struct PendingTask(Task);

impl PendingTask {
    /// The waiting task.
    pub closed spec fn task(&self) -> Task {
        self.0
    }

    /// Marks `task` as waiting.
    pub fn new(task: Task) -> (r: PendingTask)
        ensures
            r.task() == task,
    {
        PendingTask(task)
    }

    /// Hands `r0` to the task and makes it runnable again: the value is
    /// written into register `r0` of its saved frame.
    pub fn resolve_args(self, r0: u32) -> (r: Task)
        ensures
            r.sp_view() == self.task().sp_view(),
            r.stack_view() == self.task().stack_view().update(self.task().r0_index(), r0),
    {
        let mut task = self.0;
        proof {
            use_type_invariant(&task.suspended_stack);
        }
        let at = task.suspended_stack.0 / 4 + R0_WORD;
        task.stack.0[at] = r0;
        task
    }
}

} // verus!
