//! The call frame of newer hosts: a header, and behind it one (value, null
//! flag) pair for each declared argument.
pub use crate::datum::NullableDatum;
use crate::datum::{Datum, Oid, INVALID_OID};
use crate::frame::{CallFrame, CallFrameView, FrameError};
use vstd::layout::{layout_of_primitives, size_of};
use vstd::prelude::*;

verus! {

/// A call frame whose argument area is a run of pairs. The fields stand in
/// the order of the host's own structure; the addresses and the argument
/// count are held as plain integers of full width, so that nothing but memory
/// bounds the argument area.
#[derive(Debug, PartialEq, Eq)]
pub struct FunctionCallInfoBaseData {
    pub flinfo: usize,
    pub context: usize,
    pub resultinfo: usize,
    pub fncollation: Oid,
    pub isnull: bool,
    pub nargs: usize,
    pub args: Vec<NullableDatum>,
}

impl Clone for FunctionCallInfoBaseData {
    fn clone(&self) -> (r: Self)
        ensures
            r@ == self@,
            r.nargs == self.nargs,
    {
        let args = self.args.clone();
        assert(args@ =~= self.args@);
        FunctionCallInfoBaseData {
            flinfo: self.flinfo,
            context: self.context,
            resultinfo: self.resultinfo,
            fncollation: self.fncollation,
            isnull: self.isnull,
            nargs: self.nargs,
            args,
        }
    }
}

impl View for FunctionCallInfoBaseData {
    type V = CallFrameView;

    open spec fn view(&self) -> CallFrameView {
        CallFrameView {
            flinfo: self.flinfo,
            context: self.context,
            resultinfo: self.resultinfo,
            fncollation: self.fncollation,
            isnull: self.isnull,
            args: self.args@,
        }
    }
}

/// Bytes that the header takes in the host's memory: three addresses, the
/// 32-bit collation, the null flag, one byte of padding and the host's 16-bit
/// count.
pub open spec fn spec_header_size() -> nat {
    3 * size_of::<usize>() + 8
}

/// Bytes that one argument pair takes in the host's memory: the value, and
/// the null flag padded to the value's alignment.
pub open spec fn spec_pair_size() -> nat {
    2 * size_of::<usize>()
}

/// Bytes that a frame for `count` arguments takes in the host's memory.
pub open spec fn spec_frame_size(count: nat) -> nat {
    spec_header_size() + count * spec_pair_size()
}

/// The largest argument count whose frame has a size that a `usize` can
/// hold.
pub open spec fn spec_max_nargs() -> nat {
    ((usize::MAX - spec_header_size()) / (spec_pair_size() as int)) as nat
}

/// A frame for `count` arguments has a size that a `usize` can hold exactly
/// if `count` is at most [`spec_max_nargs`], a bound that is never under
/// 2^28 - 1.
pub proof fn lemma_frame_size_fits(count: nat)
    ensures
        spec_frame_size(count) <= usize::MAX <==> count <= spec_max_nargs(),
        spec_max_nargs() <= usize::MAX,
        spec_max_nargs() >= 0x0fff_ffff,
{
    broadcast use layout_of_primitives;

    let room = usize::MAX - spec_header_size();
    assert(room >= 0xffff_ffff - 32);
    if spec_pair_size() == 8 {
        assert(count * spec_pair_size() == count * 8);
        assert(spec_max_nargs() == room / 8);
    } else {
        assert(spec_pair_size() == 16);
        assert(count * spec_pair_size() == count * 16);
        assert(spec_max_nargs() == room / 16);
    }
}

/// Bytes that the header takes in the host's memory.
pub fn header_size() -> (r: usize)
    ensures
        r == spec_header_size(),
{
    broadcast use layout_of_primitives;

    3 * std::mem::size_of::<usize>() + 8
}

/// Bytes that one argument pair takes in the host's memory.
pub fn pair_size() -> (r: usize)
    ensures
        r == spec_pair_size(),
{
    broadcast use layout_of_primitives;

    2 * std::mem::size_of::<usize>()
}

/// The pair in slot `num`.
pub fn get_nullable_datum(fcinfo: &FunctionCallInfoBaseData, num: usize) -> (r: NullableDatum)
    requires
        fcinfo.wf(),
        num < fcinfo@.args.len(),
    ensures
        r == fcinfo@.args[num as int],
{
    fcinfo.args[num]
}

impl FunctionCallInfoBaseData {
    /// Bytes that this frame takes in the host's memory: the header and one
    /// pair for each slot of the argument area.
    pub open spec fn spec_byte_size(&self) -> nat {
        spec_frame_size(self@.args.len())
    }

    /// Bytes that this frame takes in the host's memory.
    pub fn byte_size(&self) -> (r: usize)
        requires
            self.wf(),
        ensures
            r == self.spec_byte_size(),
    {
        let count: usize = self.args.len();
        assert(count * spec_pair_size() <= usize::MAX - spec_header_size());
        header_size() + count * pair_size()
    }
}

impl Default for FunctionCallInfoBaseData {
    /// The frame without arguments, all of it zero.
    fn default() -> (r: Self)
        ensures
            r.wf(),
            r@ == CallFrameView::zeroed(0),
    {
        proof {
            lemma_frame_size_fits(0);
        }
        let r = FunctionCallInfoBaseData {
            flinfo: 0,
            context: 0,
            resultinfo: 0,
            fncollation: INVALID_OID,
            isnull: false,
            nargs: 0,
            args: Vec::new(),
        };
        assert(r@.args =~= CallFrameView::zeroed(0).args);
        r
    }
}

impl CallFrame for FunctionCallInfoBaseData {
    open spec fn wf(&self) -> bool {
        self.args@.len() == self.nargs && spec_frame_size(self.nargs as nat) <= usize::MAX
    }

    open spec fn max_args() -> nat {
        spec_max_nargs()
    }

    proof fn lemma_max_args_at_least_func_max_args() {
        lemma_frame_size_fits(0);
    }

    fn capacity() -> (r: usize) {
        proof {
            lemma_frame_size_fits(0);
        }
        (usize::MAX - header_size()) / pair_size()
    }

    /// The new frame takes the header's bytes and `count` pairs' bytes in the
    /// host's memory, no more and no less.
    fn allocate(count: usize) -> (r: Result<Self, FrameError>)
        ensures
            r matches Ok(frame) ==> frame.nargs == count && frame.spec_byte_size()
                == spec_header_size() + count * spec_pair_size(),
    {
        proof {
            lemma_frame_size_fits(count as nat);
        }
        let capacity: usize = Self::capacity();
        if count > capacity {
            return Err(FrameError::TooManyArguments { requested: count, capacity });
        }
        let mut args: Vec<NullableDatum> = Vec::new();
        let mut i: usize = 0;
        while i < count
            invariant
                i <= count,
                args@ =~= Seq::new(i as nat, |j: int| NullableDatum { value: 0, isnull: false }),
            decreases count - i,
        {
            args.push(NullableDatum { value: 0, isnull: false });
            i += 1;
        }
        Ok(
            FunctionCallInfoBaseData {
                flinfo: 0,
                context: 0,
                resultinfo: 0,
                fncollation: INVALID_OID,
                isnull: false,
                nargs: count,
                args,
            },
        )
    }

    fn nargs(&self) -> (r: usize) {
        self.nargs
    }

    fn get_raw(&self, i: usize) -> (r: Datum) {
        get_nullable_datum(self, i).value
    }

    fn get_null_flag(&self, i: usize) -> (r: bool) {
        get_nullable_datum(self, i).isnull
    }

    fn set_arg(&mut self, i: usize, value: Datum, isnull: bool) {
        self.args[i] = NullableDatum { value, isnull };
    }

    fn result_is_null(&self) -> (r: bool) {
        self.isnull
    }

    fn set_result_null(&mut self) {
        self.isnull = true;
    }
}

} // verus!
