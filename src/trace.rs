use vstd::prelude::*;

use crate::layout::{layout_fits, layout_of, TraceInfo, TraceMetadata, MIN_STACK_DEPTH};
use crate::run::MAX_OUTPUTS;
use crate::state::get_last_state;
use crate::validate::last_stack;

verus! {

/// A table of machine states, one row per step, all rows of one width.
pub struct ExecutionTrace {
    meta: Vec<u8>,
    layout: TraceMetadata,
    rows: Vec<Vec<u128>>,
}

/// Whether every row of `rows` has `width` columns.
pub open spec fn rows_have_width(rows: Seq<Seq<u128>>, width: nat) -> bool {
    forall|i: int| 0 <= i < rows.len() ==> (#[trigger] rows[i]).len() == width
}

impl ExecutionTrace {
    /// The rows of the trace, first step first.
    pub closed spec fn rows(&self) -> Seq<Seq<u128>> {
        self.rows@.map_values(|r: Vec<u128>| r@)
    }

    /// The layout of each row.
    pub closed spec fn layout(&self) -> TraceMetadata {
        self.layout
    }

    /// The layout bytes the trace was made with.
    pub closed spec fn meta(&self) -> Seq<u8> {
        self.meta@
    }

    /// A trace has at least one row, and each row has the width its layout gives.
    pub open spec fn wf(&self) -> bool {
        &&& self.rows().len() >= 1
        &&& self.layout().wf()
        &&& layout_fits(self.layout().row_width(), self.meta())
        &&& self.layout() == layout_of(self.layout().row_width(), self.meta())
        &&& rows_have_width(self.rows(), self.layout().row_width())
    }

    /// The first row.
    pub open spec fn first_row(&self) -> Seq<u128> {
        self.rows()[0]
    }

    /// The last row.
    pub open spec fn last_row(&self) -> Seq<u128> {
        self.rows()[self.rows().len() - 1]
    }

    /// Makes a trace of `rows` that are `width` columns wide, laid out as
    /// `meta` says; `None` where there is no row, a row of another width, or
    /// layout bytes that do not fit the width.
    pub fn new(width: usize, meta: Vec<u8>, rows: Vec<Vec<u128>>) -> (r: Option<ExecutionTrace>)
        ensures
            r is Some <==> rows@.len() >= 1 && layout_fits(width as nat, meta@) && rows_have_width(
                rows@.map_values(|v: Vec<u128>| v@),
                width as nat,
            ),
            r matches Some(t) ==> t.wf() && t.rows() == rows@.map_values(|v: Vec<u128>| v@)
                && t.meta() == meta@ && t.layout() == layout_of(width as nat, meta@),
    {
        let info = TraceInfo { width, length: rows.len(), meta };
        let layout = match TraceMetadata::from_trace_info(&info) {
            Some(m) => m,
            None => {
                return None;
            },
        };
        if rows.len() == 0 {
            return None;
        }
        let mut i: usize = 0;
        while i < rows.len()
            invariant
                0 <= i <= rows@.len(),
                forall|j: int| 0 <= j < i ==> (#[trigger] rows@[j])@.len() == width,
            decreases rows@.len() - i,
        {
            if rows[i].len() != width {
                assert(rows@.map_values(|v: Vec<u128>| v@)[i as int].len() != width);
                return None;
            }
            i = i + 1;
        }
        let t = ExecutionTrace { meta: info.meta, layout, rows };
        assert(rows_have_width(t.rows(), width as nat));
        Some(t)
    }

    /// Number of columns in each row.
    pub fn width(&self) -> (r: usize)
        requires
            self.wf(),
        ensures
            r == self.layout().row_width(),
    {
        self.layout.stack_depth + self.layout.loop_depth + self.layout.ctx_depth
            + crate::layout::DECODER_WIDTH
    }

    /// Number of steps.
    pub fn length(&self) -> (r: usize)
        ensures
            r == self.rows().len(),
    {
        self.rows.len()
    }

    /// The layout of each row.
    pub fn metadata(&self) -> (r: TraceMetadata)
        ensures
            r == self.layout(),
    {
        self.layout
    }

    /// The shape of the trace.
    pub fn get_info(&self) -> (r: TraceInfo)
        requires
            self.wf(),
        ensures
            r.width == self.layout().row_width(),
            r.length == self.rows().len(),
            r.meta@ == self.meta(),
    {
        let mut meta: Vec<u8> = Vec::new();
        let mut i: usize = 0;
        while i < self.meta.len()
            invariant
                0 <= i <= self.meta@.len(),
                meta@ == self.meta@.subrange(0, i as int),
            decreases self.meta@.len() - i,
        {
            meta.push(self.meta[i]);
            i = i + 1;
            assert(meta@ =~= self.meta@.subrange(0, i as int));
        }
        assert(meta@ =~= self.meta@);
        TraceInfo { width: self.width(), length: self.rows.len(), meta }
    }

    /// The values a run reports: the `MAX_OUTPUTS` values at the top of the
    /// stack at the last step, top first.
    pub fn program_outputs(&self) -> (r: Vec<u128>)
        requires
            self.wf(),
        ensures
            r@ == last_stack(*self).take(MAX_OUTPUTS as int),
    {
        let last = get_last_state(self);
        assert(MAX_OUTPUTS <= MIN_STACK_DEPTH);
        last.user_stack_top(MAX_OUTPUTS)
    }

    /// Copies the row of `step` into `buf`, which the caller owns and may reuse.
    pub fn read_row_into(&self, step: usize, buf: &mut Vec<u128>)
        requires
            self.wf(),
            step < self.rows().len(),
            old(buf)@.len() == self.layout().row_width(),
        ensures
            final(buf)@ == self.rows()[step as int],
    {
        let row = &self.rows[step];
        assert(row@ == self.rows()[step as int]);
        let mut i: usize = 0;
        while i < row.len()
            invariant
                0 <= i <= row@.len(),
                buf@.len() == row@.len(),
                forall|j: int| 0 <= j < i ==> buf@[j] == row@[j],
            decreases row@.len() - i,
        {
            buf.set(i, row[i]);
            i = i + 1;
        }
        assert(buf@ =~= row@);
    }
}

} // verus!
