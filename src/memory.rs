use vstd::prelude::*;

use crate::constants::{Byte, Word, MAX_MEM};

verus! {

/// Bytes shown on one row of a memory dump.
pub const DUMP_ROW_WIDTH: usize = 16;

/// The 64 KiB address space: a fixed array of bytes, zero-filled when made.
pub struct Mem {
    data: Vec<Byte>,
}

/// One row of a memory dump: the address of its first byte and the bytes
/// from there, at most [`DUMP_ROW_WIDTH`] of them.
pub struct DumpRow {
    /// Address of the first byte.
    pub base: usize,
    /// The bytes of the row, in address order.
    pub bytes: Vec<Byte>,
}

/// End (exclusive) of the region that a dump of `length` bytes from `start`
/// covers: clamped to the address space.
pub open spec fn dump_end(start: int, length: int) -> int {
    if start + length < MAX_MEM {
        start + length
    } else {
        MAX_MEM as int
    }
}

/// Number of rows in a dump of the bytes from `start` to `end`.
pub open spec fn dump_row_count(start: int, end: int) -> int {
    if start < end {
        (end - start + DUMP_ROW_WIDTH - 1) / (DUMP_ROW_WIDTH as int)
    } else {
        0
    }
}

/// The dump of `mem` from `start` to `end`: row `k` starts at
/// `start + 16 * k` and holds the bytes up to the next row or to `end`.
pub open spec fn dump_matches(rows: Seq<DumpRow>, mem: Seq<u8>, start: int, end: int) -> bool {
    &&& rows.len() == dump_row_count(start, end)
    &&& rows_match(rows, mem, start, end)
}

/// Each of `rows` is the row of the dump of `mem` from `start` to `end` at
/// its position.
pub open spec fn rows_match(rows: Seq<DumpRow>, mem: Seq<u8>, start: int, end: int) -> bool {
    forall|k: int|
        0 <= k < rows.len() ==> {
            let base = start + DUMP_ROW_WIDTH * k;
            &&& (#[trigger] rows[k]).base == base
            &&& rows[k].bytes@ == mem.subrange(base, row_start(start, k + 1, end))
        }
}

/// Where the row after the first `k` rows of a dump from `start` to `end`
/// starts; `end` once every row is done.
pub open spec fn row_start(start: int, k: int, end: int) -> int {
    if start + DUMP_ROW_WIDTH * k < end {
        start + DUMP_ROW_WIDTH * k
    } else {
        end
    }
}

/// What `read` of `address` gives on memory `mem`.
pub open spec fn read_result(mem: Seq<Byte>, address: u32) -> Option<Byte> {
    if address < MAX_MEM {
        Some(mem[address as int])
    } else {
        None
    }
}

/// The memory after `write` of `value` at `address` on memory `mem`, and
/// what the write gives.
pub open spec fn write_result(mem: Seq<Byte>, address: u32, value: Byte) -> (Seq<Byte>, Option<
    Byte,
>) {
    if address < MAX_MEM {
        (mem.update(address as int, value), Some(value))
    } else {
        (mem, None)
    }
}

/// A byte written at an address in range is what a read there gives next;
/// at an address out of range, the write and the read both fail.
pub proof fn lemma_memory_round_trip(mem: Mem, address: u32, value: Byte)
    requires
        mem.wf(),
    ensures
        ({
            let (after, written) = write_result(mem@, address, value);
            &&& after.len() == MAX_MEM
            &&& address < MAX_MEM ==> written == Some(value) && read_result(after, address) == Some(
                value,
            )
            &&& address >= MAX_MEM ==> written is None && read_result(after, address) is None
        }),
{
}

impl View for Mem {
    type V = Seq<Byte>;

    closed spec fn view(&self) -> Seq<Byte> {
        self.data@
    }
}

impl Mem {
    /// Holds of every memory: one byte per address.
    pub open spec fn wf(&self) -> bool {
        self@.len() == MAX_MEM
    }

    /// A zero-filled address space.
    pub fn new() -> (r: Mem)
        ensures
            r.wf(),
            forall|i: int| 0 <= i < MAX_MEM ==> #[trigger] r@[i] == 0,
    {
        let mut data: Vec<Byte> = Vec::new();
        let mut i: usize = 0;
        while i < MAX_MEM
            invariant
                i <= MAX_MEM,
                data@.len() == i,
                forall|j: int| 0 <= j < i ==> #[trigger] data@[j] == 0,
            decreases MAX_MEM - i,
        {
            data.push(0);
            i = i + 1;
        }
        Mem { data }
    }

    /// Clears every byte to zero, as at power-on.
    pub fn initialize(&mut self)
        requires
            old(self).wf(),
        ensures
            final(self).wf(),
            forall|i: int| 0 <= i < MAX_MEM ==> #[trigger] final(self)@[i] == 0,
    {
        let mut i: usize = 0;
        while i < MAX_MEM
            invariant
                i <= MAX_MEM,
                self.data@.len() == MAX_MEM,
                forall|j: int| 0 <= j < i ==> #[trigger] self.data@[j] == 0,
            decreases MAX_MEM - i,
        {
            self.data.set(i, 0);
            i = i + 1;
        }
    }

    /// The byte at `address`; every 16-bit address is in range.
    pub fn byte_at(&self, address: Word) -> (r: Byte)
        requires
            self.wf(),
        ensures
            r == self@[address as int],
    {
        self.data[address as usize]
    }

    /// Stores `value` at `address`; every 16-bit address is in range.
    pub fn store(&mut self, address: Word, value: Byte)
        requires
            old(self).wf(),
        ensures
            final(self)@ == old(self)@.update(address as int, value),
    {
        self.data.set(address as usize, value);
    }

    /// The rows of a dump of `length` bytes from `start`, clamped to the
    /// address space: row `k` starts at `start + 16 * k`.
    pub fn dump_range(&self, start: usize, length: usize) -> (rows: Vec<DumpRow>)
        requires
            self.wf(),
        ensures
            dump_matches(rows@, self@, start as int, dump_end(start as int, length as int)),
    {
        let end: usize = if length < MAX_MEM && start < MAX_MEM - length {
            start + length
        } else {
            MAX_MEM
        };
        let mut rows: Vec<DumpRow> = Vec::new();
        let mut base: usize = start;
        while base < end
            invariant
                self.wf(),
                end == dump_end(start as int, length as int),
                end <= MAX_MEM,
                start < end ==> base == row_start(start as int, rows@.len() as int, end as int),
                start >= end ==> base == start && rows@.len() == 0,
                rows@.len() > 0 ==> start + DUMP_ROW_WIDTH * (rows@.len() - 1) < end,
                rows_match(rows@, self@, start as int, end as int),
            decreases end - base,
        {
            let stop: usize = if end - base > DUMP_ROW_WIDTH {
                base + DUMP_ROW_WIDTH
            } else {
                end
            };
            let mut bytes: Vec<Byte> = Vec::new();
            let mut i: usize = base;
            while i < stop
                invariant
                    self.wf(),
                    base <= i <= stop,
                    stop <= MAX_MEM,
                    bytes@ == self@.subrange(base as int, i as int),
                decreases stop - i,
            {
                bytes.push(self.data[i]);
                i = i + 1;
            }
            let ghost old_rows = rows@;
            rows.push(DumpRow { base, bytes });
            assert(rows@[old_rows.len() as int].base == base);
            base = stop;
        }
        proof {
            if start < end {
                let n = rows@.len() as int;
                assert(n >= 1);
                assert(dump_row_count(start as int, end as int) == n) by (nonlinear_arith)
                    requires
                        start as int + DUMP_ROW_WIDTH * (n - 1) < end as int,
                        end as int <= start as int + DUMP_ROW_WIDTH * n,
                        DUMP_ROW_WIDTH == 16,
                        dump_row_count(start as int, end as int) == (end - start + 15) / 16,
                ;
            }
        }
        rows
    }

    /// The rows of a dump of the whole address space.
    pub fn dump_all(&self) -> (rows: Vec<DumpRow>)
        requires
            self.wf(),
        ensures
            dump_matches(rows@, self@, 0, MAX_MEM as int),
    {
        self.dump_range(0, MAX_MEM)
    }

    /// The rows of a dump of the `context` bytes on either side of
    /// `address`, and of `address` itself, clamped to the address space.
    pub fn dump_around_address(&self, address: usize, context: usize) -> (rows: Vec<DumpRow>)
        requires
            self.wf(),
        ensures
            ({
                let start = if address >= context { address - context } else { 0 };
                dump_matches(rows@, self@, start, dump_end(start, 2 * context + 1))
            }),
    {
        let start: usize = address.saturating_sub(context);
        let length: usize = if context < (usize::MAX - 1) / 2 {
            context * 2 + 1
        } else {
            usize::MAX
        };
        self.dump_range(start, length)
    }

    /// The byte at `address`, or `None` when `address` is beyond the
    /// address space.
    pub fn read(&self, address: u32) -> (r: Option<Byte>)
        requires
            self.wf(),
        ensures
            r == read_result(self@, address),
    {
        if address as usize >= MAX_MEM {
            None
        } else {
            Some(self.byte_at(address as Word))
        }
    }

    /// Stores `value` at `address` and returns the byte stored there, or
    /// returns `None` and changes nothing when `address` is beyond the
    /// address space.
    pub fn write(&mut self, address: u32, value: Byte) -> (r: Option<Byte>)
        requires
            old(self).wf(),
        ensures
            final(self).wf(),
            (final(self)@, r) == write_result(old(self)@, address, value),
    {
        if address as usize >= MAX_MEM {
            None
        } else {
            self.store(address as Word, value);
            Some(self.byte_at(address as Word))
        }
    }
}

} // verus!
