use pgx::pg10_specific::FunctionCallInfoData;
use pgx::pg12_specific::FunctionCallInfoBaseData;
use pgx::{
    call_result, direct_function_call, make_function_call_info, pg_arg_is_null, pg_getarg_datum,
    pg_getarg_datum_raw, pg_return_null, CallFrame, Datum, PgDatum, INVALID_OID,
};

fn copy_first_tail(fcinfo: &mut FunctionCallInfoBaseData) -> Datum {
    pg_getarg_datum_raw(fcinfo, 0)
}

fn copy_first_arrays(fcinfo: &mut FunctionCallInfoData) -> Datum {
    pg_getarg_datum_raw(fcinfo, 0)
}

#[test]
fn call_round_trips_the_first_argument() {
    let result = direct_function_call(copy_first_tail, vec![PgDatum::new(42, false)]);
    assert_eq!(result, PgDatum::new(42, false));
    assert!(!result.is_null());
    assert_eq!(result.into_datum(), 42);

    let result = direct_function_call(copy_first_arrays, vec![PgDatum::new(42, false)]);
    assert_eq!(result, PgDatum::new(42, false));
}

#[test]
fn call_propagates_a_null_result() {
    let result = direct_function_call(
        |fcinfo: &mut FunctionCallInfoBaseData| {
            if pg_arg_is_null(fcinfo, 0) {
                pg_return_null(fcinfo)
            } else {
                pg_getarg_datum_raw(fcinfo, 0)
            }
        },
        vec![PgDatum::null()],
    );
    assert!(result.is_null());
    assert_eq!(result, PgDatum::new(0, true));

    let result = direct_function_call(
        |fcinfo: &mut FunctionCallInfoData| pg_return_null(fcinfo),
        vec![PgDatum::new(0, true)],
    );
    assert!(result.is_null());
}

#[test]
fn called_function_sees_the_arguments_in_order() {
    let args: Vec<PgDatum<Datum>> =
        vec![PgDatum::new(2, false), PgDatum::new(3, false), PgDatum::new(900, true)];
    let sum = direct_function_call(
        |fcinfo: &mut FunctionCallInfoBaseData| {
            assert_eq!(fcinfo.nargs(), 3);
            assert_eq!(fcinfo.nargs, 3);
            assert_eq!(pg_getarg_datum(fcinfo, 0), Some(2));
            assert_eq!(pg_getarg_datum(fcinfo, 1), Some(3));
            assert_eq!(pg_getarg_datum(fcinfo, 2), None);
            assert_eq!(pg_getarg_datum_raw(fcinfo, 2), 900);
            assert!(!fcinfo.result_is_null());
            assert_eq!(fcinfo.flinfo, 0);
            assert_eq!(fcinfo.context, 0);
            assert_eq!(fcinfo.resultinfo, 0);
            assert_eq!(fcinfo.fncollation, INVALID_OID);
            pg_getarg_datum_raw(fcinfo, 0) + pg_getarg_datum_raw(fcinfo, 1)
        },
        args.clone(),
    );
    assert_eq!(sum, PgDatum::new(5, false));

    let sum = direct_function_call(
        |fcinfo: &mut FunctionCallInfoData| {
            assert_eq!(fcinfo.nargs(), 3);
            assert_eq!(pg_getarg_datum(fcinfo, 2), None);
            pg_getarg_datum_raw(fcinfo, 0) + pg_getarg_datum_raw(fcinfo, 1)
        },
        args,
    );
    assert_eq!(sum, PgDatum::new(5, false));
}

#[test]
fn call_without_arguments() {
    let result = direct_function_call(
        |fcinfo: &mut FunctionCallInfoBaseData| {
            assert_eq!(fcinfo.nargs(), 0);
            17
        },
        Vec::new(),
    );
    assert_eq!(result, PgDatum::new(17, false));
}

#[test]
fn call_with_as_many_arguments_as_the_host_passes() {
    let args: Vec<PgDatum<Datum>> = (0..100).map(|i| PgDatum::new(i + 1, i % 2 == 1)).collect();
    let last = direct_function_call(
        |fcinfo: &mut FunctionCallInfoData| {
            assert_eq!(fcinfo.nargs(), 100);
            for i in 0..100 {
                assert_eq!(pg_getarg_datum_raw(fcinfo, i), i + 1);
                assert_eq!(pg_arg_is_null(fcinfo, i), i % 2 == 1);
            }
            pg_getarg_datum_raw(fcinfo, 99)
        },
        args.clone(),
    );
    assert_eq!(last, PgDatum::new(100, false));
    let last = direct_function_call(
        |fcinfo: &mut FunctionCallInfoBaseData| {
            assert_eq!(fcinfo.nargs(), 100);
            assert_eq!(fcinfo.args.len(), 100);
            pg_getarg_datum_raw(fcinfo, 99)
        },
        args,
    );
    assert_eq!(last, PgDatum::new(100, false));
}

#[test]
fn null_result_may_carry_a_raw_value() {
    let result = direct_function_call(
        |fcinfo: &mut FunctionCallInfoBaseData| {
            fcinfo.set_result_null();
            77
        },
        vec![PgDatum::new(1, false)],
    );
    assert!(result.is_null());
    assert_eq!(result.into_datum(), 77);
}

#[test]
fn call_info_holds_the_leading_entries_of_both_arrays() {
    let mut arg_array = [0usize; 100];
    let mut null_array = [false; 100];
    arg_array[0] = 7;
    null_array[1] = true;
    arg_array[2] = 55;
    let frame: FunctionCallInfoBaseData = make_function_call_info(2, arg_array, null_array);
    assert_eq!(frame.nargs(), 2);
    assert_eq!(frame.args.len(), 2);
    assert_eq!(pg_getarg_datum(&frame, 0), Some(7));
    assert_eq!(pg_getarg_datum(&frame, 1), None);
    assert!(!frame.result_is_null());
    assert_eq!(frame.fncollation, INVALID_OID);

    let frame: FunctionCallInfoData = make_function_call_info(2, arg_array, null_array);
    assert_eq!(frame.nargs(), 2);
    assert_eq!(pg_getarg_datum(&frame, 0), Some(7));
    assert_eq!(pg_getarg_datum(&frame, 1), None);
    assert_eq!(frame.arg[2], 0);
}

#[test]
fn call_result_takes_the_flag_from_the_frame() {
    let mut frame = FunctionCallInfoBaseData::allocate(0).unwrap();
    assert_eq!(call_result(5, &frame), PgDatum::new(5, false));
    frame.set_result_null();
    assert_eq!(call_result(5, &frame), PgDatum::new(5, true));
}

#[test]
fn tail_layout_takes_more_arguments_than_the_arrays_hold() {
    let args: Vec<PgDatum<Datum>> = (0..101).map(|i| PgDatum::new(i, false)).collect();
    let result = direct_function_call(
        |fcinfo: &mut FunctionCallInfoBaseData| {
            assert_eq!(fcinfo.nargs(), 101);
            assert_eq!(fcinfo.args.len(), 101);
            pg_getarg_datum_raw(fcinfo, 100)
        },
        args,
    );
    assert_eq!(result, PgDatum::new(100, false));
    assert!(!result.is_null());
    assert_eq!(result.into_datum(), 100);
}

#[test]
fn tail_layout_passes_a_long_list_whole_and_in_order() {
    let args: Vec<PgDatum<Datum>> =
        (0..40000).map(|i| PgDatum::new(3 * i + 1, i % 7 == 0)).collect();
    let result = direct_function_call(
        |fcinfo: &mut FunctionCallInfoBaseData| {
            assert_eq!(fcinfo.nargs(), 40000);
            for i in 0..40000 {
                assert_eq!(pg_getarg_datum_raw(fcinfo, i), 3 * i + 1);
                assert_eq!(pg_arg_is_null(fcinfo, i), i % 7 == 0);
            }
            pg_return_null(fcinfo);
            pg_getarg_datum_raw(fcinfo, 39999)
        },
        args,
    );
    assert_eq!(result, PgDatum::new(119998, true));
}

#[test]
fn array_layout_call_at_its_capacity_sees_every_argument() {
    assert_eq!(FunctionCallInfoData::capacity(), 100);
    let args: Vec<PgDatum<Datum>> = (0..100).map(|i| PgDatum::new(i, i == 99)).collect();
    let result = direct_function_call(
        |fcinfo: &mut FunctionCallInfoData| {
            assert_eq!(fcinfo.nargs(), 100);
            assert!(pg_arg_is_null(fcinfo, 99));
            assert!(!pg_arg_is_null(fcinfo, 98));
            pg_getarg_datum_raw(fcinfo, 99)
        },
        args,
    );
    assert_eq!(result, PgDatum::new(99, false));
}

#[test]
fn shared_layout_is_the_same_frame() {
    let frame: pgx::pg11_specific::FunctionCallInfoData =
        FunctionCallInfoData::allocate(1).unwrap();
    assert_eq!(frame.nargs(), 1);
    assert_eq!(
        pgx::pg11_specific::FunctionCallInfoData::allocate(101),
        FunctionCallInfoData::allocate(101)
    );
}
