//! The accessors that extension code uses on a call frame, and the call of a
//! native function through a frame made for the purpose. All of them are
//! written against [`CallFrame`], so none depends on a layout.
use crate::datum::{Datum, NullableDatum, PgDatum};
use crate::frame::{spec_paired, CallFrame, CallFrameView, FUNC_MAX_ARGS};
use vstd::prelude::*;

verus! {

/// Argument `num` as a nullable value read as a `T`.
pub fn pg_getarg<T, C: CallFrame>(fcinfo: &C, num: usize) -> (r: PgDatum<T>)
    requires
        fcinfo.wf(),
        num < fcinfo@.args.len(),
    ensures
        r@ == fcinfo@.args[num as int],
{
    PgDatum::new(fcinfo.get_raw(num), fcinfo.get_null_flag(num))
}

/// Whether argument `num` is null.
pub fn pg_arg_is_null<C: CallFrame>(fcinfo: &C, num: usize) -> (r: bool)
    requires
        fcinfo.wf(),
        num < fcinfo@.args.len(),
    ensures
        r == fcinfo@.args[num as int].isnull,
{
    fcinfo.get_null_flag(num)
}

/// The raw value of argument `num`, or `None` if the argument is null.
pub fn pg_getarg_datum<C: CallFrame>(fcinfo: &C, num: usize) -> (r: Option<Datum>)
    requires
        fcinfo.wf(),
        num < fcinfo@.args.len(),
    ensures
        r == if fcinfo@.args[num as int].isnull {
            None
        } else {
            Some(fcinfo@.args[num as int].value)
        },
{
    if pg_arg_is_null(fcinfo, num) {
        None
    } else {
        Some(fcinfo.get_raw(num))
    }
}

/// The raw value of argument `num`, even where the argument is null.
pub fn pg_getarg_datum_raw<C: CallFrame>(fcinfo: &C, num: usize) -> (r: Datum)
    requires
        fcinfo.wf(),
        num < fcinfo@.args.len(),
    ensures
        r == fcinfo@.args[num as int].value,
{
    fcinfo.get_raw(num)
}

/// Flags the call's result as null, and returns the zero value that stands
/// in for a result nobody will read.
pub fn pg_return_null<C: CallFrame>(fcinfo: &mut C) -> (r: Datum)
    ensures
        r == 0,
        final(fcinfo)@ == old(fcinfo)@.with_null_result(),
        old(fcinfo).wf() ==> final(fcinfo).wf(),
{
    fcinfo.set_result_null();
    0
}

/// The address that argument `num` holds, or `None` if the argument is null.
pub fn pg_getarg_pointer<C: CallFrame>(fcinfo: &C, num: usize) -> (r: Option<usize>)
    requires
        fcinfo.wf(),
        num < fcinfo@.args.len(),
    ensures
        r == if fcinfo@.args[num as int].isnull {
            None
        } else {
            Some(fcinfo@.args[num as int].value)
        },
{
    match pg_getarg_datum(fcinfo, num) {
        Some(datum) => Some(datum),
        None => None,
    }
}

/// The value that a function without a result returns.
pub fn pg_return_void() -> (r: Datum)
    ensures
        r == 0,
{
    0
}

/// Reading is repeatable: a frame is not changed by being read, so any two
/// answers of [`pg_arg_is_null`] for the same frame and index are the same.
pub proof fn lemma_arg_is_null_repeatable<C: CallFrame>(fcinfo: C, num: usize)
    requires
        fcinfo.wf(),
        num < fcinfo@.args.len(),
    ensures
        forall|first: bool, second: bool|
            call_ensures(pg_arg_is_null::<C>, (&fcinfo, num), first) && call_ensures(
                pg_arg_is_null::<C>,
                (&fcinfo, num),
                second,
            ) ==> first == second,
{
}

/// Whatever the layout, what has been written into a slot is what the
/// accessors read from it. If `after` is `before` with `value` and `isnull`
/// written into slot `num`, as [`CallFrame::set_arg`] leaves it, then on
/// `after` every answer of [`pg_getarg_datum_raw`] for that slot is `value`,
/// every answer of [`pg_arg_is_null`] is `isnull`, and [`pg_getarg_datum`]
/// gives `value` exactly where `isnull` is false; the other slots, the
/// argument count and the header are those of `before`.
pub proof fn lemma_written_slot_reads_back<C: CallFrame>(
    before: C,
    after: C,
    num: usize,
    value: Datum,
    isnull: bool,
)
    requires
        before.wf(),
        after.wf(),
        num < before@.args.len(),
        after@ == before@.with_arg(num as int, NullableDatum { value, isnull }),
    ensures
        after@.args.len() == before@.args.len(),
        after@.args[num as int] == (NullableDatum { value, isnull }),
        forall|other: int|
            0 <= other < before@.args.len() && other != num ==> after@.args[other]
                == before@.args[other],
        after@ == (CallFrameView { args: after@.args, ..before@ }),
        forall|raw: Datum|
            call_ensures(pg_getarg_datum_raw::<C>, (&after, num), raw) ==> raw == value,
        forall|flag: bool| call_ensures(pg_arg_is_null::<C>, (&after, num), flag) ==> flag == isnull,
        forall|read: Option<Datum>|
            call_ensures(pg_getarg_datum::<C>, (&after, num), read) ==> read == if isnull {
                None
            } else {
                Some(value)
            },
{
}

/// A fresh frame that declares `nargs` arguments and holds, in slot `i`,
/// entry `i` of `arg_array` with entry `i` of `null_array` as its null flag.
pub fn make_function_call_info<C: CallFrame>(
    nargs: usize,
    arg_array: [Datum; 100],
    null_array: [bool; 100],
) -> (fcid: C)
    requires
        nargs <= FUNC_MAX_ARGS,
    ensures
        fcid.wf(),
        fcid@ == CallFrameView::for_call(spec_paired(nargs as nat, arg_array, null_array)),
{
    proof {
        C::lemma_max_args_at_least_func_max_args();
    }
    let mut fcid: C = C::allocate(nargs).unwrap();
    let mut i: usize = 0;
    while i < nargs
        invariant
            i <= nargs <= FUNC_MAX_ARGS,
            fcid.wf(),
            fcid@.args.len() == nargs,
            fcid@ == (CallFrameView { args: fcid@.args, ..CallFrameView::zeroed(nargs as nat) }),
            forall|j: int|
                0 <= j < i ==> fcid@.args[j] == (NullableDatum {
                    value: arg_array@[j],
                    isnull: null_array@[j],
                }),
        decreases nargs - i,
    {
        fcid.set_arg(i, arg_array[i], null_array[i]);
        i += 1;
    }
    assert(fcid@.args =~= spec_paired(nargs as nat, arg_array, null_array));
    fcid
}

/// The nullable value that a call hands back: the raw value that the function
/// returned, null if and only if the function flagged the frame's result as
/// null.
pub fn call_result<C: CallFrame>(result: Datum, fcinfo: &C) -> (r: PgDatum<Datum>)
    ensures
        r@ == (NullableDatum { value: result, isnull: fcinfo@.isnull }),
{
    PgDatum::new(result, fcinfo.result_is_null())
}

/// The slots that a list of nullable values fills, in order.
pub open spec fn spec_slots(args: Seq<PgDatum<Datum>>) -> Seq<NullableDatum> {
    Seq::new(args.len(), |i: int| args[i]@)
}

/// Calls `func` as the host would: on a fresh frame that holds `args`, in
/// order, as its arguments. The result is the raw value that `func` returned,
/// null if and only if `func` left the frame's result flagged as null.
///
/// The list may be as long as the layout `C` can hold, and no longer: a frame
/// never holds a part of the list.
///
/// The frame is made for this one call and belongs to it: `func` borrows it,
/// and it is dropped before this function returns.
pub fn direct_function_call<F: FnOnce(&mut C) -> Datum, C: CallFrame>(
    func: F,
    args: Vec<PgDatum<Datum>>,
) -> (r: PgDatum<Datum>)
    requires
        args@.len() <= C::max_args(),
        forall|fcinfo: &mut C|
            (*fcinfo).wf() && (*fcinfo)@ == CallFrameView::for_call(spec_slots(args@))
                ==> call_requires(func, (fcinfo,)),
    ensures
        exists|fcinfo: &mut C|
            (*fcinfo).wf() && (*fcinfo)@ == CallFrameView::for_call(spec_slots(args@))
                && call_ensures(func, (fcinfo,), r@.value) && r@.isnull == (*final(fcinfo))@.isnull,
{
    let nargs: usize = args.len();
    let mut fcid: C = C::allocate(nargs).unwrap();
    let mut i: usize = 0;
    while i < nargs
        invariant
            i <= nargs == args@.len(),
            fcid.wf(),
            fcid@.args.len() == nargs,
            fcid@ == (CallFrameView { args: fcid@.args, ..CallFrameView::zeroed(nargs as nat) }),
            forall|j: int| 0 <= j < i ==> fcid@.args[j] == args@[j]@,
        decreases nargs - i,
    {
        let datum = args[i];
        fcid.set_arg(i, datum.into_datum(), datum.is_null());
        i += 1;
    }
    assert(fcid@.args =~= spec_slots(args@));
    let result: Datum = func(&mut fcid);
    call_result(result, &fcid)
}

/// The called function sees the whole list or is not called: on every frame
/// that [`direct_function_call`] hands to `func`, the argument count is the
/// length of `args`, and slot `i` is entry `i` of `args`.
pub proof fn lemma_call_frame_holds_every_argument<F: FnOnce(&mut C) -> Datum, C: CallFrame>(
    func: F,
    args: Vec<PgDatum<Datum>>,
)
    ensures
        forall|r: PgDatum<Datum>|
            call_ensures(direct_function_call::<F, C>, (func, args), r) ==> exists|fcinfo: &mut C|
                call_ensures(func, (fcinfo,), r@.value) && (*fcinfo)@.args.len() == args@.len()
                    && forall|i: int|
                    0 <= i < args@.len() ==> (*fcinfo)@.args[i] == #[trigger] args@[i]@,
{
    assert forall|r: PgDatum<Datum>|
        call_ensures(direct_function_call::<F, C>, (func, args), r) implies exists|fcinfo: &mut C|
        call_ensures(func, (fcinfo,), r@.value) && (*fcinfo)@.args.len() == args@.len()
            && forall|i: int|
            0 <= i < args@.len() ==> (*fcinfo)@.args[i] == #[trigger] args@[i]@ by {
        let fcinfo = choose|fcinfo: &mut C|
            (*fcinfo).wf() && (*fcinfo)@ == CallFrameView::for_call(spec_slots(args@))
                && call_ensures(func, (fcinfo,), r@.value) && r@.isnull == (*final(fcinfo))@.isnull;
        assert(call_ensures(func, (fcinfo,), r@.value) && (*fcinfo)@.args.len() == args@.len()
            && forall|i: int|
            0 <= i < args@.len() ==> (*fcinfo)@.args[i] == #[trigger] args@[i]@);
    }
}

/// A call round-trips its first argument: if `func` returns the raw value of
/// slot 0 and leaves the result flag as it found it, every result of
/// [`direct_function_call`] is the first of `args` by its raw value, and is
/// not null.
pub proof fn lemma_call_returns_copied_argument<F: FnOnce(&mut C) -> Datum, C: CallFrame>(
    func: F,
    args: Vec<PgDatum<Datum>>,
)
    requires
        0 < args@.len() <= C::max_args(),
        forall|fcinfo: &mut C, raw: Datum|
            (*fcinfo).wf() && (*fcinfo)@ == CallFrameView::for_call(spec_slots(args@))
                && call_ensures(func, (fcinfo,), raw) ==> raw == (*fcinfo)@.args[0].value
                && (*final(fcinfo))@.isnull == (*fcinfo)@.isnull,
    ensures
        forall|r: PgDatum<Datum>|
            call_ensures(direct_function_call::<F, C>, (func, args), r) ==> r@ == (NullableDatum {
                value: args@[0]@.value,
                isnull: false,
            }),
{
    assert(spec_slots(args@)[0] == args@[0]@);
}

/// A null result comes through: if `func` always leaves the frame's result
/// flagged as null, as it does after [`pg_return_null`], every result of
/// [`direct_function_call`] is null.
pub proof fn lemma_call_propagates_null<F: FnOnce(&mut C) -> Datum, C: CallFrame>(
    func: F,
    args: Vec<PgDatum<Datum>>,
)
    requires
        args@.len() <= C::max_args(),
        forall|fcinfo: &mut C, raw: Datum|
            (*fcinfo).wf() && (*fcinfo)@ == CallFrameView::for_call(spec_slots(args@))
                && call_ensures(func, (fcinfo,), raw) ==> (*final(fcinfo))@.isnull,
    ensures
        forall|r: PgDatum<Datum>|
            call_ensures(direct_function_call::<F, C>, (func, args), r) ==> r@.isnull,
{
}

} // verus!
