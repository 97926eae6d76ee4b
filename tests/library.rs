use pressio::{
    setter_call, to_native_text, Dtype, ErrorState, Pressio, PressioData, PressioOption,
    PressioOptions, SetterCall,
};

fn state(code: i32, message: &str) -> ErrorState {
    ErrorState { code, message: message.as_bytes().to_vec() }
}

fn library() -> Pressio {
    Pressio::new(0x1000).expect("failed to create library")
}

#[test]
fn local_errors_have_distinct_codes() {
    let nul = pressio::PressioError::nul_error();
    let utf8 = pressio::PressioError::utf8_error();
    assert_eq!(nul.error_code, 1);
    assert_eq!(nul.message, "nul error");
    assert_eq!(utf8.error_code, 2);
    assert_eq!(utf8.message, "utf8 error");
}

#[test]
fn native_error_keeps_code_and_message() {
    let e = pressio::PressioError::from_native(7, "no such compressor".as_bytes());
    assert_eq!(e.error_code, 7);
    assert_eq!(e.message, "no such compressor");
}

#[test]
fn native_error_with_invalid_text_is_encoding_error() {
    let e = pressio::PressioError::from_native(7, &[0x66, 0xff, 0xfe]);
    assert_eq!(e.error_code, 2);
    assert_eq!(e.message, "utf8 error");
}

#[test]
fn text_is_terminated() {
    assert_eq!(to_native_text("sz").unwrap(), vec![b's', b'z', 0u8]);
    assert_eq!(to_native_text("").unwrap(), vec![0u8]);
}

#[test]
fn text_with_interior_nul_is_refused() {
    let e = to_native_text("s\0z").unwrap_err();
    assert_eq!(e.error_code, 1);
}

#[test]
fn clone_of_empty_buffer_keeps_dtype_and_shape() {
    let dtypes = [
        Dtype::Byte,
        Dtype::Float,
        Dtype::Double,
        Dtype::Int8,
        Dtype::Int16,
        Dtype::Int32,
        Dtype::Int64,
        Dtype::UInt8,
        Dtype::UInt16,
        Dtype::UInt32,
        Dtype::UInt64,
    ];
    for d in dtypes {
        let allocated = PressioData::new_empty(0x5000, d, &[3, 4, 5]);
        let copy = allocated.clone_at(0x6000);
        assert_eq!(allocated.handle(), 0x5000);
        assert_eq!(copy.handle(), 0x6000);
        assert_eq!(copy.dtype(), d);
        assert_eq!(copy.dims(), &vec![3u64, 4, 5]);
        assert_eq!(allocated.dims(), &vec![3u64, 4, 5]);
    }
    let empty = PressioData::new_empty(0x5000, Dtype::Byte, &[]);
    assert_eq!(empty.clone_at(0x6000).num_dimensions(), 0);
}

#[test]
fn buffer_from_array_shape_is_float() {
    assert_eq!(PressioData::widen_shape(&[30, 7]), vec![30u64, 7]);
    let d = PressioData::from_shape(0x7000, &[30, 30]);
    assert_eq!(d.handle(), 0x7000);
    assert_eq!(d.dtype(), Dtype::Float);
    assert_eq!(d.dims(), &vec![30u64, 30]);
    assert_eq!(d.into_raw(), 0x7000);
}

#[test]
fn present_values_pick_their_setter() {
    assert!(matches!(setter_call(PressioOption::int8(Some(-3))), Ok(SetterCall::Int8(-3))));
    assert!(matches!(setter_call(PressioOption::uint32(Some(9))), Ok(SetterCall::UInt32(9))));
    let bits = 1e-6f64.to_bits();
    match setter_call(PressioOption::float64(Some(bits))) {
        Ok(SetterCall::Double(b)) => assert_eq!(f64::from_bits(b), 1e-6),
        other => panic!("unexpected {:?}", other),
    }
    match setter_call(PressioOption::string(Some("abs".to_string()))) {
        Ok(SetterCall::Text(b)) => assert_eq!(b, vec![b'a', b'b', b's', 0u8]),
        other => panic!("unexpected {:?}", other),
    }
    match setter_call(PressioOption::vec_string(Some(vec!["a".to_string(), "bc".to_string()]))) {
        Ok(SetterCall::Texts(bs)) => {
            assert_eq!(bs, vec![vec![b'a', 0u8], vec![b'b', b'c', 0u8]]);
        },
        other => panic!("unexpected {:?}", other),
    }
    assert!(matches!(setter_call(PressioOption::user_ptr(Some(64))), Ok(SetterCall::UserPtr(64))));
    assert!(matches!(setter_call(PressioOption::unset), Ok(SetterCall::NoCall)));
}

#[test]
fn data_option_keeps_the_callers_buffer() {
    let buffer = PressioData::new_empty(0x8000, Dtype::Int16, &[2, 2]);
    match setter_call(PressioOption::data(Some(buffer))) {
        Ok(SetterCall::Data(d)) => {
            assert_eq!(d.handle(), 0x8000);
            assert_eq!(d.dtype(), Dtype::Int16);
            assert_eq!(d.dims(), &vec![2u64, 2]);
        },
        other => panic!("unexpected {:?}", other),
    }
}

#[test]
fn zero_native_code_still_reports_failure() {
    let e = pressio::PressioError::from_native(0, "failed".as_bytes());
    assert_eq!(e.error_code, -1);
    assert_eq!(e.message, "failed");
    let lib = library();
    let e = lib.compressor_from(0, &state(0, "unknown")).unwrap_err();
    assert_ne!(e.error_code, 0);
}

#[test]
fn absent_values_declare_their_type() {
    assert!(matches!(
        setter_call(PressioOption::int8(None)),
        Ok(SetterCall::DeclareType(Dtype::Int8))
    ));
    assert!(matches!(
        setter_call(PressioOption::float32(None)),
        Ok(SetterCall::DeclareType(Dtype::Float))
    ));
    assert!(matches!(
        setter_call(PressioOption::float64(None)),
        Ok(SetterCall::DeclareType(Dtype::Double))
    ));
    assert!(matches!(
        setter_call(PressioOption::string(None)),
        Ok(SetterCall::DeclareType(Dtype::UInt64))
    ));
    assert!(matches!(
        setter_call(PressioOption::data(None)),
        Ok(SetterCall::DeclareType(Dtype::UInt64))
    ));
}

#[test]
fn nul_in_any_list_element_fails_the_value() {
    let v = vec!["ok".to_string(), "b\0d".to_string()];
    let e = setter_call(PressioOption::vec_string(Some(v))).unwrap_err();
    assert_eq!(e.error_code, 1);
}

#[test]
fn chained_set_records_each_assignment_in_order() {
    let options = PressioOptions::new(0x2000)
        .unwrap()
        .set("sz:error_bound_mode_str", PressioOption::string(Some("abs".to_string())))
        .unwrap()
        .set("sz:abs_err_bound", PressioOption::float64(Some(1e-6f64.to_bits())))
        .unwrap()
        .set("sz:metric", PressioOption::string(Some("size".to_string())))
        .unwrap();
    assert_eq!(options.handle(), 0x2000);
    assert_eq!(options.pending_len(), 3);
    let mut options = options;
    let entries = options.take_pending();
    assert_eq!(options.pending_len(), 0);
    assert_eq!(entries[0].name, b"sz:error_bound_mode_str\0".to_vec());
    assert_eq!(entries[1].name, b"sz:abs_err_bound\0".to_vec());
    assert_eq!(entries[2].name, b"sz:metric\0".to_vec());
    assert!(matches!(&entries[2].call, SetterCall::Text(b) if b == &b"size\0".to_vec()));
}

#[test]
fn failed_set_leaves_other_entries_alone() {
    let mut options = PressioOptions::new(0x2000)
        .unwrap()
        .set("sz:metric", PressioOption::string(Some("size".to_string())))
        .unwrap();
    let e = options.try_set("sz:bad", PressioOption::string(Some("a\0".to_string()))).unwrap_err();
    assert_eq!(e.error_code, 1);
    let e = options
        .try_set("sz:bad", PressioOption::vec_string(Some(vec!["x".to_string(), "\0".to_string()])))
        .unwrap_err();
    assert_eq!(e.error_code, 1);
    let e = options.try_set("sz\0bad", PressioOption::int32(Some(1))).unwrap_err();
    assert_eq!(e.error_code, 1);
    assert_eq!(options.pending_len(), 1);
    let entries = options.take_pending();
    assert_eq!(entries[0].name, b"sz:metric\0".to_vec());
}

#[test]
fn null_dictionary_is_allocation_error() {
    let e = PressioOptions::new(0).unwrap_err();
    assert_eq!(e.error_code, 1);
    assert_eq!(e.message, "failed to allocate options");
}

#[test]
fn null_instance_is_initialization_error() {
    let e = Pressio::new(0).unwrap_err();
    assert_eq!(e.error_code, 1);
    assert_eq!(e.message, "failed to init library");
    assert_eq!(library().into_raw(), 0x1000);
}

#[test]
fn compressor_request_uses_marshaled_name() {
    assert_eq!(Pressio::compressor_id("sz").unwrap(), vec![b's', b'z', 0u8]);
    assert_eq!(Pressio::compressor_id("s\0z").unwrap_err().error_code, 1);
}

#[test]
fn unknown_compressor_reports_library_error() {
    let lib = library();
    let e = lib
        .compressor_from(0, &state(3, "failed to locate does-not-exist"))
        .unwrap_err();
    assert_ne!(e.error_code, 0);
    assert!(!e.message.is_empty());
    assert_eq!(e.message, "failed to locate does-not-exist");
    let c = lib.compressor_from(0x3000, &state(0, "")).expect("expected compressor");
    assert_eq!(c.handle(), 0x3000);
}

#[test]
fn compress_hands_the_output_back_or_reports() {
    let lib = library();
    let c = lib.compressor_from(0x3000, &state(0, "")).unwrap();
    let out = PressioData::new_empty(0x5000, Dtype::Byte, &[]);
    let back = c.compress_result(0, out, &state(0, "")).expect("compression failed");
    assert_eq!(back.dtype(), Dtype::Byte);
    assert_eq!(back.handle(), 0x5000);
    let e = c.decompress_result(-1, back, &state(-1, "bad input")).unwrap_err();
    assert_eq!(e.error_code, -1);
    assert_eq!(e.message, "bad input");
    assert!(c.set_options_result(0, &state(0, "")).is_ok());
    assert_eq!(c.set_options_result(4, &state(4, "invalid")).unwrap_err().error_code, 4);
}

#[test]
fn produced_dictionaries_are_owned_snapshots() {
    let lib = library();
    let c = lib.compressor_from(0x3000, &state(0, "")).unwrap();
    let o = c.options_result(0x4000, &state(0, "")).unwrap();
    assert_eq!(o.handle(), 0x4000);
    assert_eq!(o.pending_len(), 0);
    let e = c.options_result(0, &state(9, "no metrics")).unwrap_err();
    assert_eq!(e.error_code, 9);
    assert_eq!(c.into_raw(), 0x3000);
}

#[test]
fn listing_text_is_decoded() {
    assert_eq!(PressioOptions::listing_from(b"size:ratio <double> = 4").unwrap(), "size:ratio <double> = 4");
    assert_eq!(PressioOptions::listing_from(&[0xc3]).unwrap_err().error_code, 2);
}
