use vstd::prelude::*;

use crate::bytes::{digest_from_elements, digest_of};
use crate::layout::{TraceMetadata, DECODER_WIDTH, OP_COUNTER_INDEX, SPONGE_OFFSET};
use crate::trace::ExecutionTrace;

verus! {

/// The user stack held by `row` under layout `m`, top first.
pub open spec fn user_stack_of(row: Seq<u128>, m: TraceMetadata) -> Seq<u128> {
    row.subrange(m.user_stack_offset() as int, m.user_stack_offset() + m.stack_depth)
}

/// The program digest that the sponge of `row` has accumulated.
pub open spec fn row_hash(row: Seq<u128>) -> Seq<u8> {
    digest_of(row[SPONGE_OFFSET as int], row[SPONGE_OFFSET + 1])
}

/// One row of a trace read through its layout. Reading is a reinterpretation:
/// nothing is checked.
#[derive(Debug)]
pub struct TraceState {
    row: Vec<u128>,
    layout: TraceMetadata,
}

impl TraceState {
    /// The raw row.
    pub closed spec fn row(&self) -> Seq<u128> {
        self.row@
    }

    /// The layout the row is read through.
    pub closed spec fn layout(&self) -> TraceMetadata {
        self.layout
    }

    /// The row has the width that its layout gives.
    pub open spec fn wf(&self) -> bool {
        &&& self.layout().wf()
        &&& self.row().len() == self.layout().row_width()
    }

    /// The user stack, top first.
    pub open spec fn user_stack(&self) -> Seq<u128> {
        user_stack_of(self.row(), self.layout())
    }

    /// Reads `row` through the layout given by the three depths. The row is
    /// taken over, not copied; `into_row` hands it back.
    pub fn from_slice(ctx_depth: usize, loop_depth: usize, stack_depth: usize, row: Vec<u128>) -> (r:
        TraceState)
        requires
            (TraceMetadata { ctx_depth, loop_depth, stack_depth }).wf(),
            row@.len() == (TraceMetadata { ctx_depth, loop_depth, stack_depth }).row_width(),
        ensures
            r.wf(),
            r.row() == row@,
            r.layout() == (TraceMetadata { ctx_depth, loop_depth, stack_depth }),
    {
        TraceState { row, layout: TraceMetadata { ctx_depth, loop_depth, stack_depth } }
    }

    /// Gives back the row buffer.
    pub fn into_row(self) -> (r: Vec<u128>)
        ensures
            r@ == self.row(),
    {
        self.row
    }

    /// The number of operations executed up to this step.
    pub fn op_counter(&self) -> (r: u128)
        requires
            self.wf(),
        ensures
            r == self.row()[OP_COUNTER_INDEX as int],
    {
        self.row[OP_COUNTER_INDEX]
    }

    /// The program digest accumulated up to this step.
    pub fn program_hash(&self) -> (r: [u8; 32])
        requires
            self.wf(),
        ensures
            r@ == row_hash(self.row()),
    {
        digest_from_elements(self.row[SPONGE_OFFSET], self.row[SPONGE_OFFSET + 1])
    }

    /// The `i`-th value of the context stack.
    pub fn ctx_stack_value(&self, i: usize) -> (r: u128)
        requires
            self.wf(),
            i < self.layout().ctx_depth,
        ensures
            r == self.row()[DECODER_WIDTH + i],
    {
        self.row[DECODER_WIDTH + i]
    }

    /// The `i`-th value of the loop stack.
    pub fn loop_stack_value(&self, i: usize) -> (r: u128)
        requires
            self.wf(),
            i < self.layout().loop_depth,
        ensures
            r == self.row()[DECODER_WIDTH + self.layout().ctx_depth + i],
    {
        self.row[DECODER_WIDTH + self.layout.ctx_depth + i]
    }

    /// The `i`-th value of the user stack, counted from the top.
    pub fn user_stack_value(&self, i: usize) -> (r: u128)
        requires
            self.wf(),
            i < self.layout().stack_depth,
        ensures
            r == self.user_stack()[i as int],
    {
        self.row[DECODER_WIDTH + self.layout.ctx_depth + self.layout.loop_depth + i]
    }

    /// The depth of the user stack.
    pub fn user_stack_depth(&self) -> (r: usize)
        ensures
            r == self.layout().stack_depth,
    {
        self.layout.stack_depth
    }

    /// The `k` values at the top of the user stack, top first. The row is
    /// only read.
    pub fn user_stack_top(&self, k: usize) -> (r: Vec<u128>)
        requires
            self.wf(),
            k <= self.layout().stack_depth,
        ensures
            r@ == self.user_stack().take(k as int),
    {
        let mut out: Vec<u128> = Vec::new();
        let mut i: usize = 0;
        while i < k
            invariant
                self.wf(),
                k <= self.layout().stack_depth,
                0 <= i <= k,
                out@ == self.user_stack().take(i as int),
            decreases k - i,
        {
            let v = self.user_stack_value(i);
            out.push(v);
            i = i + 1;
            assert(out@ =~= self.user_stack().take(i as int));
        }
        out
    }
}

/// Reads the last row of `trace` through its layout.
pub fn get_last_state(trace: &ExecutionTrace) -> (r: TraceState)
    requires
        trace.wf(),
    ensures
        r.wf(),
        r.row() == trace.last_row(),
        r.layout() == trace.layout(),
{
    get_state(trace, trace.length() - 1)
}

/// Reads the row of `step` of `trace` through its layout.
pub fn get_state(trace: &ExecutionTrace, step: usize) -> (r: TraceState)
    requires
        trace.wf(),
        step < trace.rows().len(),
    ensures
        r.wf(),
        r.row() == trace.rows()[step as int],
        r.layout() == trace.layout(),
{
    let meta = TraceMetadata::from_trace_info(&trace.get_info()).unwrap();
    let mut row: Vec<u128> = Vec::new();
    let mut i: usize = 0;
    let width = trace.width();
    while i < width
        invariant
            0 <= i <= width,
            row@.len() == i,
        decreases width - i,
    {
        row.push(0);
        i = i + 1;
    }
    trace.read_row_into(step, &mut row);
    TraceState::from_slice(meta.ctx_depth, meta.loop_depth, meta.stack_depth, row)
}

} // verus!
