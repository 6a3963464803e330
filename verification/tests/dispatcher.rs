use after_effects::arb::{request_from_parts, ArbParamsExtra, ArbRequest, ArbResponse};
use after_effects::host::ByteStore;
use after_effects::value::{ArbCompare, Weight};
use after_effects::{Error, IntValue};

fn dispatch(
    store: &mut ByteStore,
    request: ArbRequest,
) -> Result<ArbResponse, Error> {
    ArbParamsExtra::new(7, 0, request).dispatch::<IntValue>(store)
}

fn new_handle_of(r: Result<ArbResponse, Error>) -> usize {
    match r.expect("dispatch failed") {
        ArbResponse::NewHandle { handle } => handle,
        other => panic!("expected a new handle, got {:?}", kind_name(&other)),
    }
}

fn kind_name(r: &ArbResponse) -> &'static str {
    match r {
        ArbResponse::NewHandle { .. } => "NewHandle",
        ArbResponse::Disposed => "Disposed",
        ArbResponse::Size { .. } => "Size",
        ArbResponse::Flat { .. } => "Flat",
        ArbResponse::Printed { .. } => "Printed",
        ArbResponse::Compared { .. } => "Compared",
    }
}

#[test]
fn new_default_deserializes_to_zero() {
    let mut store = ByteStore::with_limit(16);
    let h = new_handle_of(dispatch(&mut store, ArbRequest::NewFunc));
    let bytes = store.read(h);
    assert_eq!(bytes, vec![0, 0, 0, 0]);
    let v = after_effects::int_value::decode_i32(&bytes).unwrap();
    assert_eq!(v, 0);
}

#[test]
fn unflatten_four_bytes_deserializes_to_five() {
    let mut store = ByteStore::with_limit(16);
    let h = new_handle_of(dispatch(
        &mut store,
        ArbRequest::UnflattenFunc { bytes: vec![0x00, 0x00, 0x00, 0x05] },
    ));
    let bytes = store.read(h);
    let v = after_effects::int_value::decode_i32(&bytes).unwrap();
    assert_eq!(v, 5);
}

#[test]
fn print_buffer_too_small_is_silent_noop() {
    let mut store = ByteStore::with_limit(16);
    let h = new_handle_of(dispatch(
        &mut store,
        ArbRequest::UnflattenFunc { bytes: vec![0xff, 0xff, 0xff, 0xff] },
    ));
    // The text is "-1": two bytes plus the terminator need three.
    let before = store.read(h);
    let r = dispatch(
        &mut store,
        ArbRequest::PrintFunc { handle: h, buf_size: 2, flags: 0 },
    );
    match r.expect("print must report success") {
        ArbResponse::Printed { text } => assert!(text.is_none()),
        other => panic!("unexpected response {:?}", kind_name(&other)),
    }
    assert_eq!(store.read(h), before);
}

#[test]
fn print_with_room_renders_text() {
    let mut store = ByteStore::with_limit(16);
    let h = new_handle_of(dispatch(
        &mut store,
        ArbRequest::UnflattenFunc { bytes: vec![0xff, 0xff, 0xff, 0xff] },
    ));
    let r = dispatch(
        &mut store,
        ArbRequest::PrintFunc { handle: h, buf_size: 3, flags: 0 },
    );
    match r.unwrap() {
        ArbResponse::Printed { text } => assert_eq!(text.unwrap(), b"-1".to_vec()),
        other => panic!("unexpected response {:?}", kind_name(&other)),
    }
}

#[test]
fn print_with_flags_is_noop() {
    let mut store = ByteStore::with_limit(16);
    let h = new_handle_of(dispatch(&mut store, ArbRequest::NewFunc));
    let r = dispatch(
        &mut store,
        ArbRequest::PrintFunc { handle: h, buf_size: 64, flags: 1 },
    );
    match r.unwrap() {
        ArbResponse::Printed { text } => assert!(text.is_none()),
        other => panic!("unexpected response {:?}", kind_name(&other)),
    }
}

#[test]
fn borrowed_requests_preserve_source_handle() {
    let mut store = ByteStore::with_limit(64);
    let h = new_handle_of(dispatch(
        &mut store,
        ArbRequest::UnflattenFunc { bytes: vec![0x00, 0x00, 0x01, 0x02] },
    ));
    let original = store.read(h);
    let g = new_handle_of(dispatch(&mut store, ArbRequest::CopyFunc { src: h }));
    assert_ne!(g, h);
    assert_eq!(store.read(h), original);
    dispatch(&mut store, ArbRequest::FlatSizeFunc { handle: h }).unwrap();
    assert_eq!(store.read(h), original);
    dispatch(&mut store, ArbRequest::FlattenFunc { handle: h, buf_size: 4 }).unwrap();
    assert_eq!(store.read(h), original);
    dispatch(
        &mut store,
        ArbRequest::InterpFunc {
            left: h,
            right: g,
            weight: Weight::from_millionths(250_000),
        },
    )
    .unwrap();
    assert_eq!(store.read(h), original);
    dispatch(&mut store, ArbRequest::CompareFunc { a: h, b: g }).unwrap();
    assert_eq!(store.read(h), original);
    dispatch(&mut store, ArbRequest::PrintSizeFunc { handle: h }).unwrap();
    assert_eq!(store.read(h), original);
    dispatch(&mut store, ArbRequest::PrintFunc { handle: h, buf_size: 64, flags: 0 }).unwrap();
    assert_eq!(store.read(h), original);
    assert_eq!(store.read(g), original);
}

#[test]
fn dispose_then_use_is_rejected() {
    let mut store = ByteStore::with_limit(16);
    let h = new_handle_of(dispatch(&mut store, ArbRequest::NewFunc));
    let r = dispatch(&mut store, ArbRequest::DisposeFunc { handle: h });
    assert!(matches!(r, Ok(ArbResponse::Disposed)));
    assert!(!store.is_live(h));
    let again = dispatch(&mut store, ArbRequest::DisposeFunc { handle: h });
    assert_eq!(again.unwrap_err(), Error::InternalStructDamaged);
    let size = dispatch(&mut store, ArbRequest::FlatSizeFunc { handle: h });
    assert_eq!(size.unwrap_err(), Error::InternalStructDamaged);
    let copy = dispatch(&mut store, ArbRequest::CopyFunc { src: h });
    assert_eq!(copy.unwrap_err(), Error::InternalStructDamaged);
}

#[test]
fn copy_is_independent_of_source() {
    let mut store = ByteStore::with_limit(16);
    let h = new_handle_of(dispatch(
        &mut store,
        ArbRequest::UnflattenFunc { bytes: vec![0x01, 0x02, 0x03, 0x04] },
    ));
    let g = new_handle_of(dispatch(&mut store, ArbRequest::CopyFunc { src: h }));
    assert_eq!(store.read(g), vec![0x01, 0x02, 0x03, 0x04]);
    store.write(g, vec![0x09, 0x09, 0x09, 0x09]);
    assert_eq!(store.read(h), vec![0x01, 0x02, 0x03, 0x04]);
    assert_eq!(store.read(g), vec![0x09, 0x09, 0x09, 0x09]);
}

#[test]
fn flatten_refuses_undersized_buffer() {
    let mut store = ByteStore::with_limit(16);
    let h = new_handle_of(dispatch(&mut store, ArbRequest::NewFunc));
    let before = store.read(h);
    let r = dispatch(&mut store, ArbRequest::FlattenFunc { handle: h, buf_size: 3 });
    assert_eq!(r.unwrap_err(), Error::Generic);
    assert_eq!(store.read(h), before);
    let ok = dispatch(&mut store, ArbRequest::FlattenFunc { handle: h, buf_size: 4 });
    match ok.unwrap() {
        ArbResponse::Flat { bytes } => assert_eq!(bytes, before),
        other => panic!("unexpected response {:?}", kind_name(&other)),
    }
}

#[test]
fn flat_size_reports_byte_length() {
    let mut store = ByteStore::with_limit(16);
    let h = new_handle_of(dispatch(
        &mut store,
        ArbRequest::UnflattenFunc { bytes: vec![1, 2, 3, 4, 5, 6, 7] },
    ));
    match dispatch(&mut store, ArbRequest::FlatSizeFunc { handle: h }).unwrap() {
        ArbResponse::Size { size } => assert_eq!(size, 7),
        other => panic!("unexpected response {:?}", kind_name(&other)),
    }
}

#[test]
fn interpolate_boundaries_return_operands() {
    let mut store = ByteStore::with_limit(16);
    let left = new_handle_of(dispatch(
        &mut store,
        ArbRequest::UnflattenFunc { bytes: vec![0x00, 0x00, 0x00, 0x0a] },
    ));
    let right = new_handle_of(dispatch(
        &mut store,
        ArbRequest::UnflattenFunc { bytes: vec![0x00, 0x00, 0x00, 0x14] },
    ));
    let at_zero = new_handle_of(dispatch(
        &mut store,
        ArbRequest::InterpFunc { left, right, weight: Weight::zero() },
    ));
    assert_eq!(store.read(at_zero), vec![0x00, 0x00, 0x00, 0x0a]);
    let at_one = new_handle_of(dispatch(
        &mut store,
        ArbRequest::InterpFunc { left, right, weight: Weight::one() },
    ));
    assert_eq!(store.read(at_one), vec![0x00, 0x00, 0x00, 0x14]);
    let midway = new_handle_of(dispatch(
        &mut store,
        ArbRequest::InterpFunc { left, right, weight: Weight::from_millionths(500_000) },
    ));
    assert_eq!(store.read(midway), vec![0x00, 0x00, 0x00, 0x0f]);
}

#[test]
fn compare_reports_total_order() {
    let mut store = ByteStore::with_limit(16);
    let small = new_handle_of(dispatch(
        &mut store,
        ArbRequest::UnflattenFunc { bytes: vec![0xff, 0xff, 0xff, 0xfe] },
    ));
    let large = new_handle_of(dispatch(
        &mut store,
        ArbRequest::UnflattenFunc { bytes: vec![0x00, 0x00, 0x00, 0x03] },
    ));
    match dispatch(&mut store, ArbRequest::CompareFunc { a: small, b: large }).unwrap() {
        ArbResponse::Compared { order } => assert_eq!(order, ArbCompare::Less),
        other => panic!("unexpected response {:?}", kind_name(&other)),
    }
    match dispatch(&mut store, ArbRequest::CompareFunc { a: large, b: small }).unwrap() {
        ArbResponse::Compared { order } => assert_eq!(order, ArbCompare::More),
        other => panic!("unexpected response {:?}", kind_name(&other)),
    }
    match dispatch(&mut store, ArbRequest::CompareFunc { a: small, b: small }).unwrap() {
        ArbResponse::Compared { order } => assert_eq!(order, ArbCompare::Equal),
        other => panic!("unexpected response {:?}", kind_name(&other)),
    }
}

#[test]
fn print_size_counts_terminator() {
    let mut store = ByteStore::with_limit(16);
    let h = new_handle_of(dispatch(
        &mut store,
        ArbRequest::UnflattenFunc { bytes: vec![0xff, 0xff, 0xfe, 0xd4] },
    ));
    // The value is -300: four characters of text plus the terminator.
    match dispatch(&mut store, ArbRequest::PrintSizeFunc { handle: h }).unwrap() {
        ArbResponse::Size { size } => assert_eq!(size, 5),
        other => panic!("unexpected response {:?}", kind_name(&other)),
    }
}

#[test]
fn scan_inverts_print_through_the_dispatcher() {
    let mut store = ByteStore::with_limit(32);
    for value_bytes in [
        vec![0x00u8, 0x00, 0x00, 0x00],
        vec![0x00, 0x00, 0x30, 0x39],
        vec![0xff, 0xff, 0xff, 0x85],
        vec![0x7f, 0xff, 0xff, 0xff],
        vec![0x80, 0x00, 0x00, 0x00],
    ] {
        let h = new_handle_of(dispatch(
            &mut store,
            ArbRequest::UnflattenFunc { bytes: value_bytes.clone() },
        ));
        let text = match dispatch(
            &mut store,
            ArbRequest::PrintFunc { handle: h, buf_size: 64, flags: 0 },
        )
        .unwrap()
        {
            ArbResponse::Printed { text } => text.unwrap(),
            other => panic!("unexpected response {:?}", kind_name(&other)),
        };
        let back = new_handle_of(dispatch(&mut store, ArbRequest::ScanFunc { text }));
        assert_eq!(store.read(back), value_bytes);
    }
}

#[test]
fn scan_rejects_malformed_text() {
    let mut store = ByteStore::with_limit(16);
    for text in [
        b"".to_vec(),
        b"-".to_vec(),
        b"007".to_vec(),
        b"-0".to_vec(),
        b"12a".to_vec(),
        b"2147483648".to_vec(),
        b"-2147483649".to_vec(),
        b"99999999999".to_vec(),
    ] {
        let r = dispatch(&mut store, ArbRequest::ScanFunc { text });
        assert_eq!(r.unwrap_err(), Error::Serialization);
    }
}

#[test]
fn serialization_errors_on_malformed_flat_data() {
    let mut store = ByteStore::with_limit(16);
    let bad = new_handle_of(dispatch(
        &mut store,
        ArbRequest::UnflattenFunc { bytes: vec![1, 2, 3] },
    ));
    let good = new_handle_of(dispatch(&mut store, ArbRequest::NewFunc));
    let r = dispatch(&mut store, ArbRequest::CompareFunc { a: bad, b: good });
    assert_eq!(r.unwrap_err(), Error::Serialization);
    let r = dispatch(&mut store, ArbRequest::PrintSizeFunc { handle: bad });
    assert_eq!(r.unwrap_err(), Error::Serialization);
    let r = dispatch(
        &mut store,
        ArbRequest::InterpFunc { left: bad, right: good, weight: Weight::zero() },
    );
    assert_eq!(r.unwrap_err(), Error::Serialization);
}

#[test]
fn out_of_memory_when_store_is_full() {
    let mut store = ByteStore::with_limit(0);
    let r = dispatch(&mut store, ArbRequest::NewFunc);
    assert_eq!(r.unwrap_err(), Error::OutOfMemory);
    let r = dispatch(&mut store, ArbRequest::UnflattenFunc { bytes: vec![0, 0, 0, 1] });
    assert_eq!(r.unwrap_err(), Error::OutOfMemory);
    let r = dispatch(&mut store, ArbRequest::ScanFunc { text: b"4".to_vec() });
    assert_eq!(r.unwrap_err(), Error::OutOfMemory);
}

#[test]
fn unknown_handles_report_generic_error() {
    let mut store = ByteStore::with_limit(16);
    let r = dispatch(&mut store, ArbRequest::FlatSizeFunc { handle: 42 });
    assert_eq!(r.unwrap_err(), Error::Generic);
}

#[test]
fn raw_selectors_decode_to_requests() {
    let r = request_from_parts(0, 0, 0, 0, 0, Weight::zero(), None).unwrap();
    assert!(matches!(r, ArbRequest::NewFunc));
    let r = request_from_parts(4, 9, 0, 12, 0, Weight::zero(), None).unwrap();
    assert!(matches!(r, ArbRequest::FlattenFunc { handle: 9, buf_size: 12 }));
    let r = request_from_parts(5, 0, 0, 0, 0, Weight::zero(), Some(vec![1, 2]));
    assert!(matches!(r, Ok(ArbRequest::UnflattenFunc { .. })));
    let r = request_from_parts(5, 0, 0, 0, 0, Weight::zero(), None);
    assert_eq!(r.unwrap_err(), Error::InvalidIndex);
    let r = request_from_parts(10, 0, 0, 0, 0, Weight::zero(), None);
    assert_eq!(r.unwrap_err(), Error::InvalidIndex);
    let r = request_from_parts(11, 0, 0, 0, 0, Weight::zero(), None);
    assert_eq!(r.unwrap_err(), Error::UnsupportedOperation);
    let r = request_from_parts(u32::MAX, 0, 0, 0, 0, Weight::zero(), None);
    assert_eq!(r.unwrap_err(), Error::UnsupportedOperation);
}

#[test]
fn which_function_reports_protocol_numbers() {
    let extra = ArbParamsExtra::new(3, 99, ArbRequest::NewFunc);
    assert_eq!(extra.id(), 3);
    assert_eq!(extra.refcon(), 99);
    assert_eq!(extra.which_function(), 0);
    assert_eq!(
        ArbParamsExtra::new(0, 0, ArbRequest::DisposeFunc { handle: 0 }).which_function(),
        1
    );
    assert_eq!(
        ArbParamsExtra::new(0, 0, ArbRequest::CopyFunc { src: 0 }).which_function(),
        2
    );
    assert_eq!(
        ArbParamsExtra::new(0, 0, ArbRequest::FlatSizeFunc { handle: 0 }).which_function(),
        3
    );
    assert_eq!(
        ArbParamsExtra::new(0, 0, ArbRequest::FlattenFunc { handle: 0, buf_size: 0 })
            .which_function(),
        4
    );
    assert_eq!(
        ArbParamsExtra::new(0, 0, ArbRequest::UnflattenFunc { bytes: vec![] }).which_function(),
        5
    );
    assert_eq!(
        ArbParamsExtra::new(
            0,
            0,
            ArbRequest::InterpFunc { left: 0, right: 0, weight: Weight::zero() }
        )
        .which_function(),
        6
    );
    assert_eq!(
        ArbParamsExtra::new(0, 0, ArbRequest::CompareFunc { a: 0, b: 0 }).which_function(),
        7
    );
    assert_eq!(
        ArbParamsExtra::new(0, 0, ArbRequest::PrintSizeFunc { handle: 0 }).which_function(),
        8
    );
    assert_eq!(
        ArbParamsExtra::new(0, 0, ArbRequest::PrintFunc { handle: 0, buf_size: 0, flags: 0 })
            .which_function(),
        9
    );
    assert_eq!(
        ArbParamsExtra::new(0, 0, ArbRequest::ScanFunc { text: vec![] }).which_function(),
        10
    );
}
