use vstd::prelude::*;

use crate::ec::{with_bit, write_bit, RWData, Reg};
use crate::error::EcError;
use crate::traits::{WriteEC, WriteResult};

verus! {

/// Number of registers in the embedded controller's register file.
pub const REGISTER_FILE_SIZE: usize = 256;

/// The next raw access that a batch needs from the hardware.
#[derive(Clone, Copy, Debug, PartialEq, Eq, Structural)]
pub enum EcAccess {
    /// Seek to `reg` and read `len` bytes, then hand them to `RegisterBatch::on_read`.
    Read { reg: Reg, len: usize },
    /// Seek to `reg` and write `value`, then call `RegisterBatch::on_written`.
    Write { reg: Reg, value: u8 },
    /// Every operation of the batch has been carried out.
    Finished,
}

/// The first index at or after `i` that does not hold a 16-bit operation.
/// 16-bit registers are read-only, so a write batch passes over them.
pub open spec fn skip_words(ops: Seq<RWData>, i: int) -> int
    decreases ops.len() - i,
{
    if 0 <= i < ops.len() && ops[i] is U16 {
        skip_words(ops, i + 1)
    } else {
        i
    }
}

pub proof fn lemma_skip_words_bounds(ops: Seq<RWData>, i: int)
    requires
        0 <= i <= ops.len(),
    ensures
        i <= skip_words(ops, i) <= ops.len(),
    decreases ops.len() - i,
{
    if i < ops.len() && ops[i] is U16 {
        lemma_skip_words_bounds(ops, i + 1);
    }
}

/// The operations of a descriptor that fit in the register file.
pub open spec fn op_in_bounds(op: RWData) -> bool {
    op.reg() + op.width() <= REGISTER_FILE_SIZE
}

/// What a read of `op` yields on a register file holding `regs`.
pub open spec fn read_op(regs: Seq<u8>, op: RWData) -> RWData {
    op.filled(regs.subrange(op.reg() as int, op.reg() + op.width()))
}

/// What reads of `ops` yield on a register file holding `regs`.
pub open spec fn read_all(regs: Seq<u8>, ops: Seq<RWData>) -> Seq<RWData> {
    ops.map_values(|op: RWData| read_op(regs, op))
}

/// A read of `before` that stopped at operation `k`, the first one that runs
/// past the register file: `after` holds the operations before `k` filled
/// with the values read from `regs`, and the others as they were.
pub open spec fn read_stopped_at(regs: Seq<u8>, before: Seq<RWData>, after: Seq<RWData>, k: int) -> bool {
    &&& 0 <= k < before.len()
    &&& after.len() == before.len()
    &&& !op_in_bounds(before[k])
    &&& forall|j: int| 0 <= j < k ==> op_in_bounds(#[trigger] before[j])
    &&& forall|j: int| 0 <= j < k ==> #[trigger] after[j] == read_op(regs, before[j])
    &&& forall|j: int| k <= j < before.len() ==> #[trigger] after[j] == before[j]
}

/// The register file after `op` was written to it.
pub open spec fn apply_op(regs: Seq<u8>, op: RWData) -> Seq<u8> {
    match op {
        RWData::U1 { reg, pos, state } => regs.update(
            reg as int,
            with_bit(regs[reg as int], pos.index(), state),
        ),
        RWData::U8 { reg, value } => regs.update(reg as int, value),
        RWData::U16 { .. } => regs,
    }
}

/// The register file after the operations were written to it in order.
pub open spec fn apply_ops(regs: Seq<u8>, ops: Seq<RWData>) -> Seq<u8>
    decreases ops.len(),
{
    if ops.len() == 0 {
        regs
    } else {
        apply_op(apply_ops(regs, ops.drop_last()), ops.last())
    }
}

proof fn lemma_skip_words_apply(regs: Seq<u8>, ops: Seq<RWData>, i: int)
    requires
        0 <= i <= ops.len(),
    ensures
        apply_ops(regs, ops.take(skip_words(ops, i))) == apply_ops(regs, ops.take(i)),
    decreases ops.len() - i,
{
    if i < ops.len() && ops[i] is U16 {
        lemma_skip_words_apply(regs, ops, i + 1);
        assert(ops.take(i + 1).drop_last() =~= ops.take(i));
    }
}

/// One descriptor being carried out against the hardware, one raw access at
/// a time. A read batch fills each operation in place with the value read;
/// a write batch commits each operation, a bit operation as a read of the
/// containing byte followed by a write of it, and passes over 16-bit ones.
pub struct RegisterBatch {
    ops: Vec<RWData>,
    writing: bool,
    next: usize,
    staged: Option<u8>,
}

impl RegisterBatch {
    /// The operations, those before `position()` already carried out.
    pub closed spec fn ops(self) -> Seq<RWData> {
        self.ops@
    }

    pub closed spec fn is_writing(self) -> bool {
        self.writing
    }

    /// Index of the operation being carried out.
    pub closed spec fn position(self) -> int {
        self.next as int
    }

    /// In a write batch, the byte computed for the current bit operation and
    /// not yet written.
    pub closed spec fn staged(self) -> Option<u8> {
        self.staged
    }

    /// A batch that no event has reached yet.
    pub open spec fn fresh(self) -> bool {
        &&& self.wf()
        &&& self.staged() is None
        &&& self.position() == (if self.is_writing() {
            skip_words(self.ops(), 0)
        } else {
            0
        })
    }

    pub closed spec fn wf(self) -> bool {
        &&& self.next <= self.ops@.len()
        &&& self.writing ==> skip_words(self.ops@, self.next as int) == self.next
        &&& self.staged is Some ==> {
            &&& self.writing
            &&& self.next < self.ops@.len()
            &&& self.ops@[self.next as int] is U1
        }
    }

    /// A measure that every event handed to the batch decreases.
    pub closed spec fn remaining(self) -> nat {
        (2 * (self.ops@.len() - self.next) - (if self.staged is Some {
            1int
        } else {
            0int
        })) as nat
    }

    /// The access the batch waits for.
    pub open spec fn pending(self) -> EcAccess {
        if self.position() >= self.ops().len() {
            EcAccess::Finished
        } else {
            match self.ops()[self.position()] {
                RWData::U1 { reg, .. } => if self.is_writing() && self.staged() is Some {
                    EcAccess::Write { reg, value: self.staged()->Some_0 }
                } else {
                    EcAccess::Read { reg, len: 1 }
                },
                RWData::U8 { reg, value } => if self.is_writing() {
                    EcAccess::Write { reg, value }
                } else {
                    EcAccess::Read { reg, len: 1 }
                },
                RWData::U16 { reg, .. } => EcAccess::Read { reg, len: 2 },
            }
        }
    }

    /// A batch that reads the operations and fills in their values.
    pub fn reading(ops: Vec<RWData>) -> (r: Self)
        ensures
            r.wf(),
            r.fresh(),
            r.ops() == ops@,
            !r.is_writing(),
            r.position() == 0,
            r.staged() is None,
    {
        RegisterBatch { ops, writing: false, next: 0, staged: None }
    }

    /// A batch that writes the operations in order.
    pub fn writing(ops: Vec<RWData>) -> (r: Self)
        ensures
            r.wf(),
            r.fresh(),
            r.ops() == ops@,
            r.is_writing(),
            r.position() == skip_words(ops@, 0),
            r.staged() is None,
    {
        let mut batch = RegisterBatch { ops, writing: true, next: 0, staged: None };
        batch.skip_words();
        batch
    }

    fn skip_words(&mut self)
        requires
            old(self).next <= old(self).ops@.len(),
        ensures
            final(self).ops == old(self).ops,
            final(self).writing == old(self).writing,
            final(self).staged == old(self).staged,
            final(self).next == skip_words(old(self).ops@, old(self).next as int),
            skip_words(final(self).ops@, final(self).next as int) == final(self).next,
            final(self).next <= final(self).ops@.len(),
    {
        while self.next < self.ops.len() && is_word(&self.ops[self.next])
            invariant
                self.next <= self.ops@.len(),
                self.ops == old(self).ops,
                self.writing == old(self).writing,
                self.staged == old(self).staged,
                skip_words(self.ops@, self.next as int) == skip_words(
                    old(self).ops@,
                    old(self).next as int,
                ),
            decreases self.ops@.len() - self.next,
        {
            self.next = self.next + 1;
        }
    }

    /// The access the batch waits for.
    pub fn next_access(&self) -> (r: EcAccess)
        requires
            self.wf(),
        ensures
            r == self.pending(),
    {
        if self.next >= self.ops.len() {
            return EcAccess::Finished;
        }
        let op = self.ops[self.next];
        match op {
            RWData::U1 { reg, .. } => match self.staged {
                Some(value) => EcAccess::Write { reg, value },
                None => EcAccess::Read { reg, len: 1 },
            },
            RWData::U8 { reg, value } => if self.writing {
                EcAccess::Write { reg, value }
            } else {
                EcAccess::Read { reg, len: 1 }
            },
            RWData::U16 { reg, .. } => EcAccess::Read { reg, len: 2 },
        }
    }

    proof fn lemma_current_not_word(self)
        requires
            self.wf(),
            self.writing,
            self.next < self.ops@.len(),
        ensures
            self.ops@[self.next as int] !is U16,
    {
        if self.ops@[self.next as int] is U16 {
            lemma_skip_words_bounds(self.ops@, self.next + 1);
        }
    }

    /// Hands over the bytes of a requested read.
    pub fn on_read(&mut self, raw: &[u8])
        requires
            old(self).wf(),
            old(self).pending() matches EcAccess::Read { len, .. } && raw@.len() == len,
        ensures
            final(self).wf(),
            final(self).remaining() < old(self).remaining(),
            final(self).is_writing() == old(self).is_writing(),
            !old(self).is_writing() ==> final(self).ops() == old(self).ops().update(
                old(self).position(),
                old(self).ops()[old(self).position()].filled(raw@),
            ),
            !old(self).is_writing() ==> final(self).position() == old(self).position() + 1,
            !old(self).is_writing() ==> final(self).staged() is None,
            old(self).is_writing() ==> final(self).ops() == old(self).ops(),
            old(self).is_writing() ==> final(self).position() == old(self).position(),
            old(self).is_writing() ==> (old(self).ops()[old(self).position()] matches RWData::U1 {
                pos,
                state,
                ..
            } && final(self).staged() == Some(with_bit(raw@[0], pos.index(), state))),
    {
        let len = self.ops.len();
        proof {
            if self.writing {
                self.lemma_current_not_word();
            }
        }
        let op = self.ops[self.next];
        if self.writing {
            match op {
                RWData::U1 { pos, state, .. } => {
                    self.staged = Some(write_bit(raw[0], pos, state));
                },
                _ => {},
            }
        } else {
            let filled = op.fill(raw);
            self.ops.set(self.next, filled);
            self.next = self.next + 1;
        }
    }

    /// Reports that a requested write was committed.
    pub fn on_written(&mut self)
        requires
            old(self).wf(),
            old(self).pending() is Write,
        ensures
            final(self).wf(),
            final(self).remaining() < old(self).remaining(),
            final(self).ops() == old(self).ops(),
            final(self).is_writing() == old(self).is_writing(),
            final(self).position() == skip_words(old(self).ops(), old(self).position() + 1),
            final(self).staged() is None,
    {
        let len = self.ops.len();
        proof {
            lemma_skip_words_bounds(self.ops@, self.next + 1);
        }
        self.staged = None;
        self.next = self.next + 1;
        self.skip_words();
    }

    /// Whether every operation has been carried out.
    pub fn is_finished(&self) -> (r: bool)
        requires
            self.wf(),
        ensures
            r == (self.pending() is Finished),
    {
        self.next >= self.ops.len()
    }

    pub fn is_write(&self) -> (r: bool)
        ensures
            r == self.is_writing(),
    {
        self.writing
    }

    /// The operations, read values filled in.
    pub fn into_ops(self) -> (r: Vec<RWData>)
        ensures
            r@ == self.ops(),
    {
        self.ops
    }
}

fn is_word(op: &RWData) -> (r: bool)
    ensures
        r == (*op is U16),
{
    match op {
        RWData::U16 { .. } => true,
        _ => false,
    }
}

} // verus!

verus! {

/// An in-memory register file that carries out batches the way the
/// hardware does; it stands in for the embedded controller where no
/// hardware is at hand.
pub struct RegisterBank {
    regs: Vec<u8>,
}

impl View for RegisterBank {
    type V = Seq<u8>;

    closed spec fn view(&self) -> Seq<u8> {
        self.regs@
    }
}

impl RegisterBank {
    pub open spec fn wf(&self) -> bool {
        self@.len() == REGISTER_FILE_SIZE
    }

    /// A register file with every register at 0.
    pub fn new() -> (r: Self)
        ensures
            r.wf(),
            forall|i: int| 0 <= i < REGISTER_FILE_SIZE ==> r@[i] == 0,
    {
        RegisterBank { regs: vec![0u8; REGISTER_FILE_SIZE] }
    }

    pub fn get(&self, reg: Reg) -> (r: u8)
        requires
            self.wf(),
        ensures
            r == self@[reg as int],
    {
        self.regs[reg as usize]
    }

    pub fn set(&mut self, reg: Reg, value: u8)
        requires
            old(self).wf(),
        ensures
            final(self)@ == old(self)@.update(reg as int, value),
    {
        self.regs.set(reg as usize, value);
    }

    /// Carries out a fresh batch. A read batch fills each operation with the
    /// value of its registers and fails when one runs past the register
    /// file; a write batch applies its operations in order.
    pub fn run(&mut self, batch: &mut RegisterBatch) -> (r: Result<(), EcError>)
        requires
            old(self).wf(),
            old(batch).fresh(),
        ensures
            final(self).wf(),
            final(batch).is_writing() == old(batch).is_writing(),
            !old(batch).is_writing() ==> final(self)@ == old(self)@,
            !old(batch).is_writing() ==> (r is Ok <==> forall|i: int|
                0 <= i < old(batch).ops().len() ==> op_in_bounds(old(batch).ops()[i])),
            !old(batch).is_writing() && r is Ok ==> final(batch).ops() == read_all(
                old(self)@,
                old(batch).ops(),
            ),
            !old(batch).is_writing() && r is Err ==> exists|k: int|
                read_stopped_at(old(self)@, old(batch).ops(), final(batch).ops(), k)
                    && r->Err_0 == EcError::RegisterOutOfRange(old(batch).ops()[k].reg()),
            old(batch).is_writing() ==> r is Ok && final(batch).ops() == old(batch).ops(),
            old(batch).is_writing() ==> final(self)@ == apply_ops(old(self)@, old(batch).ops()),
            r is Ok ==> final(batch).wf() && final(batch).pending() is Finished,
    {
        let ghost start = self@;
        let ghost initial = batch.ops();
        let ghost writing = batch.is_writing();
        proof {
            if writing {
                lemma_skip_words_apply(start, initial, 0);
                assert(initial.take(0) =~= Seq::<RWData>::empty());
                lemma_skip_words_bounds(initial, 0);
            }
        }
        loop
            invariant
                self.wf(),
                batch.wf(),
                batch.is_writing() == writing,
                writing == old(batch).is_writing(),
                initial == old(batch).ops(),
                start == old(self)@,
                batch.ops().len() == initial.len(),
                0 <= batch.position() <= initial.len(),
                !writing ==> self@ == start,
                !writing ==> batch.staged() is None,
                !writing ==> forall|j: int|
                    0 <= j < batch.position() ==> op_in_bounds(#[trigger] initial[j]),
                !writing ==> forall|j: int|
                    0 <= j < batch.position() ==> #[trigger] batch.ops()[j] == read_op(
                        start,
                        initial[j],
                    ),
                !writing ==> forall|j: int|
                    batch.position() <= j < initial.len() ==> #[trigger] batch.ops()[j]
                        == initial[j],
                writing ==> batch.ops() == initial,
                writing ==> self@ == apply_ops(start, initial.take(batch.position())),
                writing && batch.staged() is Some ==> (initial[batch.position()] matches RWData::U1 {
                    reg,
                    pos,
                    state,
                } && batch.staged()->Some_0 == with_bit(self@[reg as int], pos.index(), state)),
            ensures
                self.wf(),
                batch.wf(),
                batch.is_writing() == writing,
                batch.pending() is Finished,
                batch.position() == initial.len(),
                !writing ==> self@ == start,
                !writing ==> forall|j: int| 0 <= j < initial.len() ==> op_in_bounds(#[trigger] initial[j]),
                !writing ==> forall|j: int|
                    0 <= j < initial.len() ==> #[trigger] batch.ops()[j] == read_op(
                        start,
                        initial[j],
                    ),
                writing ==> batch.ops() == initial,
                writing ==> self@ == apply_ops(start, initial.take(initial.len() as int)),
            decreases batch.remaining(),
        {
            match batch.next_access() {
                EcAccess::Finished => {
                    break ;
                },
                EcAccess::Read { reg, len } => {
                    proof {
                        if writing {
                            batch.lemma_current_not_word();
                        }
                    }
                    if reg as usize + len > REGISTER_FILE_SIZE {
                        assert(!op_in_bounds(initial[batch.position()]));
                        assert(read_stopped_at(start, initial, batch.ops(), batch.position()));
                        return Err(EcError::RegisterOutOfRange(reg));
                    }
                    let mut raw: Vec<u8> = Vec::new();
                    raw.push(self.regs[reg as usize]);
                    if len == 2 {
                        raw.push(self.regs[reg as usize + 1]);
                    }
                    assert(raw@ =~= self@.subrange(reg as int, reg + len));
                    batch.on_read(raw.as_slice());
                },
                EcAccess::Write { reg, value } => {
                    let ghost p = batch.position();
                    let ghost before = self@;
                    self.regs.set(reg as usize, value);
                    proof {
                        assert(self@ == apply_op(before, initial[p]));
                        assert(initial.take(p + 1).drop_last() =~= initial.take(p));
                        lemma_skip_words_apply(start, initial, p + 1);
                        lemma_skip_words_bounds(initial, p + 1);
                    }
                    batch.on_written();
                },
            }
        }
        proof {
            if writing {
                assert(initial.take(initial.len() as int) =~= initial);
            } else {
                assert(batch.ops() =~= read_all(start, initial));
            }
        }
        Ok(())
    }

    /// Reads every operation of `data` in order and overwrites its value with
    /// the value read. Fails when an operation runs past the register file.
    pub fn read_data_inner(&mut self, data: &mut Vec<RWData>) -> (r: Result<(), EcError>)
        requires
            old(self).wf(),
        ensures
            final(self)@ == old(self)@,
            final(self).wf(),
            r is Ok <==> forall|i: int| 0 <= i < old(data)@.len() ==> op_in_bounds(old(data)@[i]),
            r is Ok ==> final(data)@ == read_all(old(self)@, old(data)@),
            r is Err ==> exists|k: int|
                read_stopped_at(old(self)@, old(data)@, final(data)@, k) && r->Err_0
                    == EcError::RegisterOutOfRange(old(data)@[k].reg()),
    {
        let mut ops: Vec<RWData> = Vec::new();
        core::mem::swap(data, &mut ops);
        let mut batch = RegisterBatch::reading(ops);
        let r = self.run(&mut batch);
        *data = batch.into_ops();
        r
    }

    /// Writes the operations of `data` in order: a bit operation changes one
    /// bit of its register, a byte operation replaces it, and a 16-bit
    /// operation changes nothing.
    pub fn write_data<W: WriteEC>(&mut self, data: &W) -> (r: WriteResult)
        requires
            old(self).wf(),
        ensures
            final(self).wf(),
            final(self)@ == apply_ops(old(self)@, data.write_ops()),
            r == WriteResult::Done,
    {
        let ops = data.data_to_write();
        let mut batch = RegisterBatch::writing(ops);
        let _ = self.run(&mut batch);
        WriteResult::Done
    }
}

} // verus!

verus! {

/// No two operations address the same register.
pub open spec fn distinct_registers(ops: Seq<RWData>) -> bool {
    forall|i: int, j: int|
        0 <= i < ops.len() && 0 <= j < ops.len() && i != j ==> #[trigger] ops[i].reg()
            != #[trigger] ops[j].reg()
}

/// When a batch addresses each register at most once, each register it
/// addresses ends up as its own operation left it, and every other register
/// keeps its value.
pub proof fn lemma_apply_distinct(regs: Seq<u8>, ops: Seq<RWData>)
    requires
        regs.len() == REGISTER_FILE_SIZE,
        distinct_registers(ops),
    ensures
        apply_ops(regs, ops).len() == REGISTER_FILE_SIZE,
        forall|i: int|
            0 <= i < ops.len() ==> #[trigger] apply_ops(regs, ops)[ops[i].reg() as int]
                == apply_op(regs, ops[i])[ops[i].reg() as int],
        forall|r: int|
            0 <= r < REGISTER_FILE_SIZE && (forall|i: int| 0 <= i < ops.len() ==> ops[i].reg() != r)
                ==> #[trigger] apply_ops(regs, ops)[r] == regs[r],
    decreases ops.len(),
{
    if ops.len() > 0 {
        let init = ops.drop_last();
        let last = ops.last();
        let n = ops.len() - 1;
        assert forall|i: int, j: int|
            0 <= i < init.len() && 0 <= j < init.len() && i != j implies #[trigger] init[i].reg()
            != #[trigger] init[j].reg() by {
            assert(init[i] == ops[i] && init[j] == ops[j]);
        }
        lemma_apply_distinct(regs, init);
        let before = apply_ops(regs, init);
        assert forall|i: int| 0 <= i < ops.len() implies #[trigger] apply_ops(regs, ops)[ops[i].reg() as int]
            == apply_op(regs, ops[i])[ops[i].reg() as int] by {
            if i < n {
                assert(init[i] == ops[i]);
                assert(ops[i].reg() != ops[n].reg());
                assert(before[ops[i].reg() as int] == apply_op(regs, init[i])[init[i].reg() as int]);
            } else {
                assert forall|k: int| 0 <= k < init.len() implies init[k].reg() != last.reg() by {
                    assert(init[k] == ops[k]);
                    assert(ops[k].reg() != ops[n].reg());
                }
                assert(before[last.reg() as int] == regs[last.reg() as int]);
            }
        }
        assert forall|r: int|
            0 <= r < REGISTER_FILE_SIZE && (forall|i: int| 0 <= i < ops.len() ==> ops[i].reg() != r)
            implies #[trigger] apply_ops(regs, ops)[r] == regs[r] by {
            assert(ops[n].reg() != r);
            assert forall|k: int| 0 <= k < init.len() implies init[k].reg() != r by {
                assert(init[k] == ops[k]);
            }
        }
    }
}

} // verus!
