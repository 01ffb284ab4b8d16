//! The call frame of older hosts: a header, then an array of argument values
//! and an array of null flags, both of the host's fixed capacity whatever the
//! declared argument count.
use crate::datum::{Datum, NullableDatum, Oid, INVALID_OID};
use crate::frame::{spec_paired, CallFrame, CallFrameView, FrameError, FUNC_MAX_ARGS};
use vstd::prelude::*;

verus! {

/// A call frame whose argument area is two parallel arrays. The fields stand
/// in the order of the host's own structure; the addresses and the argument
/// count are held as plain integers of full width. Slots at and beyond the declared count are there, but are no
/// part of the call.
#[derive(Debug, Clone, Copy, PartialEq, Eq)]
pub struct FunctionCallInfoData {
    pub flinfo: usize,
    pub context: usize,
    pub resultinfo: usize,
    pub fncollation: Oid,
    pub isnull: bool,
    pub nargs: usize,
    pub arg: [Datum; 100],
    pub argnull: [bool; 100],
}

impl View for FunctionCallInfoData {
    type V = CallFrameView;

    open spec fn view(&self) -> CallFrameView {
        CallFrameView {
            flinfo: self.flinfo,
            context: self.context,
            resultinfo: self.resultinfo,
            fncollation: self.fncollation,
            isnull: self.isnull,
            args: spec_paired(self.nargs as nat, self.arg, self.argnull),
        }
    }
}

impl Default for FunctionCallInfoData {
    /// The frame without arguments, all of it zero.
    fn default() -> (r: Self)
        ensures
            r.wf(),
            r@ == CallFrameView::zeroed(0),
    {
        let r = FunctionCallInfoData {
            flinfo: 0,
            context: 0,
            resultinfo: 0,
            fncollation: INVALID_OID,
            isnull: false,
            nargs: 0,
            arg: [0usize;100],
            argnull: [false;100],
        };
        assert(r@.args =~= CallFrameView::zeroed(0).args);
        r
    }
}

impl CallFrame for FunctionCallInfoData {
    open spec fn wf(&self) -> bool {
        self.nargs <= FUNC_MAX_ARGS
    }

    open spec fn max_args() -> nat {
        FUNC_MAX_ARGS as nat
    }

    proof fn lemma_max_args_at_least_func_max_args() {
    }

    fn capacity() -> (r: usize) {
        FUNC_MAX_ARGS
    }

    /// The new frame declares exactly `count` arguments, and the whole of
    /// both arrays is zero, the part beyond the count too.
    fn allocate(count: usize) -> (r: Result<Self, FrameError>)
        ensures
            r matches Ok(frame) ==> frame.nargs == count && forall|i: int|
                0 <= i < FUNC_MAX_ARGS ==> frame.arg@[i] == 0 && !frame.argnull@[i],
    {
        if count > FUNC_MAX_ARGS {
            return Err(FrameError::TooManyArguments { requested: count, capacity: FUNC_MAX_ARGS });
        }
        let frame = FunctionCallInfoData {
            flinfo: 0,
            context: 0,
            resultinfo: 0,
            fncollation: INVALID_OID,
            isnull: false,
            nargs: count,
            arg: [0usize;100],
            argnull: [false;100],
        };
        assert(frame@.args =~= CallFrameView::zeroed(count as nat).args);
        Ok(frame)
    }

    fn nargs(&self) -> (r: usize) {
        self.nargs
    }

    fn get_raw(&self, i: usize) -> (r: Datum) {
        self.arg[i]
    }

    fn get_null_flag(&self, i: usize) -> (r: bool) {
        self.argnull[i]
    }

    fn set_arg(&mut self, i: usize, value: Datum, isnull: bool) {
        self.arg[i] = value;
        self.argnull[i] = isnull;
        assert(self@.args =~= old(self)@.args.update(i as int, NullableDatum { value, isnull }));
    }

    fn result_is_null(&self) -> (r: bool) {
        self.isnull
    }

    fn set_result_null(&mut self) {
        self.isnull = true;
    }
}

/// The two arrays hold 100 slots and no frame is made for more: every answer
/// of [`CallFrame::allocate`] for this layout to a count above 100 is the
/// error, and none is a frame.
pub proof fn lemma_allocate_refuses_more_than_the_arrays_hold(count: usize)
    requires
        count > FUNC_MAX_ARGS,
    ensures
        forall|r: Result<FunctionCallInfoData, FrameError>|
            call_ensures(FunctionCallInfoData::allocate, (count,), r) ==> r == Err::<
                FunctionCallInfoData,
                FrameError,
            >(FrameError::TooManyArguments { requested: count, capacity: 100 }),
{
}

} // verus!
