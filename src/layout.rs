use vstd::prelude::*;

verus! {

/// Column of the operation counter in a trace row.
pub const OP_COUNTER_INDEX: usize = 0;

/// First column of the program-hash sponge in a trace row.
pub const SPONGE_OFFSET: usize = 1;

/// Number of sponge columns in a trace row.
pub const SPONGE_WIDTH: usize = 4;

/// Number of leading sponge columns that hold the program digest.
pub const DIGEST_SIZE: usize = 2;

/// Number of decoder columns (counter, sponge and operation bits) that
/// precede the stacks in a trace row.
pub const DECODER_WIDTH: usize = 15;

/// The least depth of the user stack in any trace.
pub const MIN_STACK_DEPTH: usize = 8;

/// The fewest steps that a trace must have to be proved.
pub const MIN_TRACE_LENGTH: usize = 16;

/// The shape of a trace: its width, its length and the layout bytes that
/// the execution engine recorded (context-stack depth, then loop-stack depth).
pub struct TraceInfo {
    pub width: usize,
    pub length: usize,
    pub meta: Vec<u8>,
}

/// How the columns of a row after the decoder split into the context stack,
/// the loop stack and the user stack.
#[derive(Clone, Copy, Debug, PartialEq, Eq, Structural)]
pub struct TraceMetadata {
    pub ctx_depth: usize,
    pub loop_depth: usize,
    pub stack_depth: usize,
}

/// Whether the layout bytes `meta` describe a valid layout of rows of `width` columns.
pub open spec fn layout_fits(width: nat, meta: Seq<u8>) -> bool {
    &&& meta.len() == 2
    &&& DECODER_WIDTH + meta[0] + meta[1] + MIN_STACK_DEPTH <= width
}

/// The layout that `meta` describes for rows of `width` columns.
pub open spec fn layout_of(width: nat, meta: Seq<u8>) -> TraceMetadata {
    TraceMetadata {
        ctx_depth: meta[0] as usize,
        loop_depth: meta[1] as usize,
        stack_depth: (width - DECODER_WIDTH - meta[0] - meta[1]) as usize,
    }
}

impl TraceMetadata {
    /// The number of columns a row with this layout has.
    pub open spec fn row_width(self) -> nat {
        (DECODER_WIDTH + self.ctx_depth + self.loop_depth + self.stack_depth) as nat
    }

    /// The first column of the user stack.
    pub open spec fn user_stack_offset(self) -> nat {
        (DECODER_WIDTH + self.ctx_depth + self.loop_depth) as nat
    }

    /// Every layout that a trace can have: its user stack is deep enough.
    pub open spec fn wf(self) -> bool {
        &&& self.stack_depth >= MIN_STACK_DEPTH
        &&& self.row_width() <= usize::MAX
    }

    /// Derives the layout of a trace from its shape; `None` where the layout
    /// bytes are malformed or do not fit the width.
    pub fn from_trace_info(info: &TraceInfo) -> (r: Option<TraceMetadata>)
        ensures
            r is Some <==> layout_fits(info.width as nat, info.meta@),
            r matches Some(m) ==> m == layout_of(info.width as nat, info.meta@) && m.wf()
                && m.row_width() == info.width,
    {
        if info.meta.len() != 2 {
            return None;
        }
        let ctx_depth = info.meta[0] as usize;
        let loop_depth = info.meta[1] as usize;
        if info.width < DECODER_WIDTH || info.width - DECODER_WIDTH < ctx_depth + loop_depth
            + MIN_STACK_DEPTH {
            return None;
        }
        let stack_depth = info.width - DECODER_WIDTH - ctx_depth - loop_depth;
        Some(TraceMetadata { ctx_depth, loop_depth, stack_depth })
    }
}

} // verus!
