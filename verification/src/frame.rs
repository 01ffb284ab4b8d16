//! What every layout of a call frame has in common.
use crate::datum::{Datum, NullableDatum, Oid, INVALID_OID};
use vstd::prelude::*;

verus! {

/// The largest number of arguments that the host passes to one function.
pub const FUNC_MAX_ARGS: usize = 100;

/// Why a frame could not be made.
#[derive(Clone, Copy, Debug, PartialEq, Eq, Structural)]
pub enum FrameError {
    /// More argument slots were asked for than the layout can hold.
    TooManyArguments { requested: usize, capacity: usize },
}

/// The first `count` entries of an array of values and an array of null
/// flags, paired up into slots.
pub open spec fn spec_paired(count: nat, values: [Datum; 100], nulls: [bool; 100]) -> Seq<
    NullableDatum,
> {
    Seq::new(count, |i: int| NullableDatum { value: values@[i], isnull: nulls@[i] })
}

/// A call frame as the contracts see it, whatever its layout: the header
/// fields, and the argument slots as a sequence whose length is the declared
/// argument count.
pub struct CallFrameView {
    /// Address of the called function's metadata; zero where there is none.
    pub flinfo: usize,
    /// Address of the caller's context node; zero where there is none.
    pub context: usize,
    /// Address of the node that receives extra result information.
    pub resultinfo: usize,
    /// The collation that the function is to use.
    pub fncollation: Oid,
    /// Whether the function's result is null.
    pub isnull: bool,
    /// The argument slots, in order.
    pub args: Seq<NullableDatum>,
}

impl CallFrameView {
    /// The frame that a fresh allocation for `count` arguments gives: every
    /// address zero, no collation, result not null, every slot zero and not
    /// null.
    pub open spec fn zeroed(count: nat) -> CallFrameView {
        CallFrameView {
            flinfo: 0,
            context: 0,
            resultinfo: 0,
            fncollation: INVALID_OID,
            isnull: false,
            args: Seq::new(count, |i: int| NullableDatum { value: 0, isnull: false }),
        }
    }

    /// The frame that is handed to a function called with the arguments
    /// `slots`: a fresh frame with those slots.
    pub open spec fn for_call(slots: Seq<NullableDatum>) -> CallFrameView {
        CallFrameView { args: slots, ..Self::zeroed(slots.len()) }
    }

    /// This frame with slot `i` replaced.
    pub open spec fn with_arg(self, i: int, slot: NullableDatum) -> CallFrameView {
        CallFrameView { args: self.args.update(i, slot), ..self }
    }

    /// This frame with its result flagged as null.
    pub open spec fn with_null_result(self) -> CallFrameView {
        CallFrameView { isnull: true, ..self }
    }
}

/// One layout of a call frame. The methods are the only code that knows how
/// the argument area is laid out; their contracts speak of the frame's view
/// alone, so whatever is proved through them holds of every layout.
pub trait CallFrame: Sized + View<V = CallFrameView> {
    /// The frame is consistent: its declared argument count is one that the
    /// layout can hold, and the argument area has exactly that many slots.
    spec fn wf(&self) -> bool;

    /// The largest argument count that the layout can hold.
    spec fn max_args() -> nat;

    /// Every layout holds at least as many arguments as the host ever passes.
    proof fn lemma_max_args_at_least_func_max_args()
        ensures
            Self::max_args() >= FUNC_MAX_ARGS,
    ;

    /// The largest argument count that the layout can hold.
    fn capacity() -> (r: usize)
        ensures
            r == Self::max_args(),
    ;

    /// A fresh frame for `count` arguments, all of it zero. A count beyond the
    /// layout's capacity is refused, never cut down to fit.
    fn allocate(count: usize) -> (r: Result<Self, FrameError>)
        ensures
            r is Ok <==> count <= Self::max_args(),
            r matches Ok(frame) ==> frame.wf() && frame@ == CallFrameView::zeroed(count as nat),
            r matches Err(e) ==> e == (FrameError::TooManyArguments {
                requested: count,
                capacity: Self::max_args() as usize,
            }),
    ;

    /// The declared argument count.
    fn nargs(&self) -> (r: usize)
        requires
            self.wf(),
        ensures
            r == self@.args.len(),
    ;

    /// The raw value in slot `i`, whether or not the slot is null.
    fn get_raw(&self, i: usize) -> (r: Datum)
        requires
            self.wf(),
            i < self@.args.len(),
        ensures
            r == self@.args[i as int].value,
    ;

    /// Whether slot `i` is null.
    fn get_null_flag(&self, i: usize) -> (r: bool)
        requires
            self.wf(),
            i < self@.args.len(),
        ensures
            r == self@.args[i as int].isnull,
    ;

    /// Writes a raw value and its null flag into slot `i`; nothing else
    /// changes.
    fn set_arg(&mut self, i: usize, value: Datum, isnull: bool)
        requires
            old(self).wf(),
            i < old(self)@.args.len(),
        ensures
            final(self).wf(),
            final(self)@ == old(self)@.with_arg(i as int, NullableDatum { value, isnull }),
    ;

    /// Whether the result has been flagged as null.
    fn result_is_null(&self) -> (r: bool)
        ensures
            r == self@.isnull,
    ;

    /// Flags the result as null; nothing else changes.
    fn set_result_null(&mut self)
        ensures
            final(self)@ == old(self)@.with_null_result(),
            old(self).wf() ==> final(self).wf(),
    ;
}

/// A frame is never cut down to fit: whatever the layout, every answer of
/// [`CallFrame::allocate`] to a count beyond the layout's capacity is the
/// error that names the count and the capacity, and every frame that it
/// answers with declares exactly the count that was asked for.
pub proof fn lemma_allocate_never_truncates<C: CallFrame>(count: usize)
    ensures
        forall|r: Result<C, FrameError>|
            call_ensures(C::allocate, (count,), r) ==> {
                &&& count > C::max_args() ==> r == Err::<C, FrameError>(
                    FrameError::TooManyArguments {
                        requested: count,
                        capacity: C::max_args() as usize,
                    },
                )
                &&& r matches Ok(frame) ==> frame.wf() && frame@.args.len() == count
            },
{
}

} // verus!
