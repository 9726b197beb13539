use vstd::prelude::*;

verus! {

/// What binding a period's channel buffers yields: how many input and output
/// channels the plugin sees, and how many frames each of them holds.
#[derive(Clone, Copy, Debug, PartialEq, Eq, Structural)]
pub struct BoundLayout {
    pub inputs: usize,
    pub outputs: usize,
    pub frames: usize,
}

/// Why a set of channel buffers cannot be bound.
#[derive(Clone, Copy, Debug, PartialEq, Eq, Structural)]
pub enum BindError {
    /// More input channels than the plugin declared.
    TooManyInputs,
    /// More output channels than the plugin declared.
    TooManyOutputs,
    /// The channel buffers do not all have the same length.
    MismatchedLengths,
}

/// Binds per-channel sample buffers into the plugin's buffer layout for the
/// channel counts the plugin declared. Binding only reads the buffers'
/// lengths; the samples themselves are neither copied nor touched.
#[derive(Clone, Copy, Debug, PartialEq, Eq, Structural)]
pub struct BufferBinder {
    pub inputs: usize,
    pub outputs: usize,
}

/// The length every bound channel shares: that of the first input, else of
/// the first output, else zero.
pub open spec fn common_length(input_lens: Seq<usize>, output_lens: Seq<usize>) -> usize {
    if input_lens.len() > 0 {
        input_lens[0]
    } else if output_lens.len() > 0 {
        output_lens[0]
    } else {
        0
    }
}

/// Every length in `lens` is `n`.
pub open spec fn all_equal(lens: Seq<usize>, n: usize) -> bool {
    forall|i: int| 0 <= i < lens.len() ==> #[trigger] lens[i] == n
}

/// The outcome of binding channels of the given lengths.
pub open spec fn bind_result(binder: BufferBinder, input_lens: Seq<usize>, output_lens: Seq<usize>) -> Result<BoundLayout, BindError> {
    let n = common_length(input_lens, output_lens);
    if input_lens.len() > binder.inputs {
        Err(BindError::TooManyInputs)
    } else if output_lens.len() > binder.outputs {
        Err(BindError::TooManyOutputs)
    } else if !(all_equal(input_lens, n) && all_equal(output_lens, n)) {
        Err(BindError::MismatchedLengths)
    } else {
        Ok(BoundLayout { inputs: input_lens.len() as usize, outputs: output_lens.len() as usize, frames: n })
    }
}

fn lengths_all_equal(lens: &[usize], n: usize) -> (r: bool)
    ensures
        r == all_equal(lens@, n),
{
    let mut i: usize = 0;
    while i < lens.len()
        invariant
            i <= lens@.len(),
            forall|k: int| 0 <= k < i ==> lens@[k] == n,
        decreases lens@.len() - i,
    {
        if lens[i] != n {
            return false;
        }
        i = i + 1;
    }
    true
}

impl BufferBinder {
    /// A binder for a plugin with the given channel counts.
    pub fn new(inputs: usize, outputs: usize) -> (r: BufferBinder)
        ensures
            r.inputs == inputs,
            r.outputs == outputs,
    {
        BufferBinder { inputs, outputs }
    }

    /// Checks the lengths of the channel buffers supplied for one period and
    /// gives the layout the plugin will see: at most the declared number of
    /// channels each way, all of one length.
    pub fn bind(&self, input_lens: &[usize], output_lens: &[usize]) -> (r: Result<BoundLayout, BindError>)
        ensures
            r == bind_result(*self, input_lens@, output_lens@),
    {
        let n: usize = if input_lens.len() > 0 {
            input_lens[0]
        } else if output_lens.len() > 0 {
            output_lens[0]
        } else {
            0
        };
        if input_lens.len() > self.inputs {
            Err(BindError::TooManyInputs)
        } else if output_lens.len() > self.outputs {
            Err(BindError::TooManyOutputs)
        } else if !(lengths_all_equal(input_lens, n) && lengths_all_equal(output_lens, n)) {
            Err(BindError::MismatchedLengths)
        } else {
            Ok(BoundLayout { inputs: input_lens.len(), outputs: output_lens.len(), frames: n })
        }
    }
}

/// When every supplied channel holds one period of `period` frames and no
/// more channels are supplied than declared, binding succeeds and every
/// bound channel, input or output, holds exactly `period` frames.
pub proof fn lemma_bind_full_period(binder: BufferBinder, input_lens: Seq<usize>, output_lens: Seq<usize>, period: usize)
    requires
        input_lens.len() <= binder.inputs,
        output_lens.len() <= binder.outputs,
        all_equal(input_lens, period),
        all_equal(output_lens, period),
    ensures
        bind_result(binder, input_lens, output_lens) matches Ok(layout) && {
            &&& layout.inputs == input_lens.len()
            &&& layout.outputs == output_lens.len()
            &&& (layout.inputs + layout.outputs > 0 ==> layout.frames == period)
        },
{
    if input_lens.len() > 0 {
        assert(input_lens[0] == period);
    } else if output_lens.len() > 0 {
        assert(output_lens[0] == period);
    }
}

} // verus!
