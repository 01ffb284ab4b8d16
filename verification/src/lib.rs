//! Call frames of the host's native function-call convention, and the
//! accessors that extension code uses on them.
//!
//! The host has laid its call frame out in two ways. Older hosts keep the
//! argument values and their null flags in two parallel arrays of fixed
//! capacity ([`pg10_specific::FunctionCallInfoData`], which
//! [`pg11_specific`] shares); newer hosts keep them as
//! a run of (value, null flag) pairs behind the header
//! ([`pg12_specific::FunctionCallInfoBaseData`]). Both implement
//! [`frame::CallFrame`], and every accessor in [`fcinfo`] is written once,
//! against that trait, so that callers choose the layout by type and never see
//! it again.
pub mod datum;
pub mod frame;
pub mod pg10_specific;
pub mod pg11_specific;
pub mod pg12_specific;
pub mod fcinfo;

pub use datum::{Datum, NullableDatum, Oid, PgDatum, INVALID_OID};
pub use fcinfo::{
    call_result, direct_function_call, make_function_call_info, pg_arg_is_null, pg_getarg,
    pg_getarg_datum, pg_getarg_datum_raw, pg_getarg_pointer, pg_return_null, pg_return_void,
};
pub use frame::{CallFrame, CallFrameView, FrameError, FUNC_MAX_ARGS};
