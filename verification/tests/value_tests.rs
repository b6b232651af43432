use quickjs_runtime::eserror::EsError;
use quickjs_runtime::esruntime::EsRuntime;
use quickjs_runtime::esruntimebuilder::EsRuntimeBuilder;
use quickjs_runtime::esvalue::{eval_outcome, EsValueConvertible, EsValueFacade, JsArg, WorkerToken};
use quickjs_runtime::promises::PromiseState;
use quickjs_runtime::quickjs_utils::{
    is_exception, is_null, is_null_or_undefined, is_undefined, new_null, new_undefined,
};
use quickjs_runtime::quickjsruntime::{
    JsValue, JsValueUnion, OwnedValueRef, TAG_BIG_INT, TAG_BOOL, TAG_EXCEPTION, TAG_FLOAT64,
    TAG_INT, TAG_MODULE, TAG_NULL, TAG_OBJECT, TAG_STRING, TAG_UNDEFINED,
};

fn token() -> WorkerToken {
    let mut rt: EsRuntime<u8> = EsRuntimeBuilder::new().build();
    rt.submit(0).unwrap();
    rt.begin_job().unwrap().0
}

fn value_of(arg: JsArg) -> JsValue {
    match arg {
        JsArg::Value(v) => v.value,
        JsArg::NewString(s) => panic!("a string to allocate: {}", s),
    }
}

#[test]
fn tags_are_those_of_the_engine() {
    assert_eq!(TAG_BIG_INT, -10);
    assert_eq!(TAG_STRING, -7);
    assert_eq!(TAG_MODULE, -3);
    assert_eq!(TAG_OBJECT, -1);
    assert_eq!(TAG_INT, 0);
    assert_eq!(TAG_BOOL, 1);
    assert_eq!(TAG_NULL, 2);
    assert_eq!(TAG_UNDEFINED, 3);
    assert_eq!(TAG_EXCEPTION, 6);
    assert_eq!(TAG_FLOAT64, 7);
}

#[test]
fn undefined_and_null() {
    let u = new_undefined();
    assert_eq!(u.value, JsValue { u: JsValueUnion::Int32(0), tag: TAG_UNDEFINED });
    assert!(is_undefined(&u));
    assert!(!is_null(&u));
    assert!(is_null_or_undefined(&u));
    let n = new_null();
    assert_eq!(n.value, JsValue { u: JsValueUnion::Int32(0), tag: TAG_NULL });
    assert!(is_null(&n));
    assert!(!is_undefined(&n));
    assert!(is_null_or_undefined(&n));
}

#[test]
fn other_values_are_neither_null_nor_undefined() {
    let i = OwnedValueRef::new(JsValue { u: JsValueUnion::Int32(2), tag: TAG_INT });
    assert!(!is_null(&i));
    assert!(!is_undefined(&i));
    assert!(!is_null_or_undefined(&i));
    let o = OwnedValueRef::new(JsValue { u: JsValueUnion::Ptr(3), tag: TAG_OBJECT });
    assert!(!is_null_or_undefined(&o));
}

#[test]
fn null_test_goes_by_the_tag_alone() {
    let odd = OwnedValueRef::new(JsValue { u: JsValueUnion::Int32(77), tag: TAG_NULL });
    assert!(is_null(&odd));
    let odd = OwnedValueRef::new(JsValue { u: JsValueUnion::Ptr(9), tag: TAG_UNDEFINED });
    assert!(is_undefined(&odd));
}

#[test]
fn well_formed_values() {
    assert!(JsValue { u: JsValueUnion::Int32(1), tag: TAG_INT }.is_well_formed());
    assert!(JsValue { u: JsValueUnion::Int32(1), tag: TAG_EXCEPTION }.is_well_formed());
    assert!(JsValue { u: JsValueUnion::Float64(0), tag: TAG_FLOAT64 }.is_well_formed());
    assert!(JsValue { u: JsValueUnion::Ptr(8), tag: TAG_OBJECT }.is_well_formed());
    assert!(JsValue { u: JsValueUnion::Ptr(8), tag: TAG_BIG_INT }.is_well_formed());
    assert!(!JsValue { u: JsValueUnion::Ptr(8), tag: TAG_INT }.is_well_formed());
    assert!(!JsValue { u: JsValueUnion::Int32(8), tag: TAG_OBJECT }.is_well_formed());
    assert!(!JsValue { u: JsValueUnion::Int32(8), tag: TAG_FLOAT64 }.is_well_formed());
    assert!(!JsValue { u: JsValueUnion::Float64(8), tag: TAG_INT }.is_well_formed());
    assert!(JsValue { u: JsValueUnion::Ptr(8), tag: TAG_STRING }.is_heap_ref());
    assert!(!JsValue { u: JsValueUnion::Int32(8), tag: TAG_INT }.is_heap_ref());
}

#[test]
fn number_432_in_432_out() {
    let t = token();
    let facade = 432i32.to_es_value_facade();
    let js = value_of(facade.to_js_value(&t, 1).unwrap());
    assert_eq!(js, JsValue { u: JsValueUnion::Int32(432), tag: TAG_INT });
    let back = EsValueFacade::from_js_value(&OwnedValueRef::new(js), 1, None).unwrap();
    assert_eq!(back.get_i32(), Some(432));
    assert_eq!(back.copy().get_i32(), Some(432));
}

#[test]
fn primitives_round_trip() {
    let t = token();
    for i in [0i32, 1, -1, 432, i32::MAX, i32::MIN] {
        let js = value_of(EsValueFacade::I32(i).to_js_value(&t, 5).unwrap());
        let back = EsValueFacade::from_js_value(&OwnedValueRef::new(js), 9, None).unwrap();
        assert_eq!(back.get_i32(), Some(i));
    }
    for b in [true, false] {
        let js = value_of(EsValueFacade::Boolean(b).to_js_value(&t, 5).unwrap());
        assert_eq!(js.tag, TAG_BOOL);
        let back = EsValueFacade::from_js_value(&OwnedValueRef::new(js), 9, None).unwrap();
        assert_eq!(back.get_boolean(), Some(b));
    }
    for f in [0.0f64, -0.0, 1.5, 432.0, f64::MAX, f64::NAN, f64::INFINITY] {
        let js = value_of(EsValueFacade::F64(f.to_bits()).to_js_value(&t, 5).unwrap());
        assert_eq!(js, JsValue { u: JsValueUnion::Float64(f.to_bits()), tag: TAG_FLOAT64 });
        let back = EsValueFacade::from_js_value(&OwnedValueRef::new(js), 9, None).unwrap();
        assert!(matches!(back, EsValueFacade::F64(bits) if bits == f.to_bits()));
    }
    let js = value_of(EsValueFacade::Null.to_js_value(&t, 5).unwrap());
    assert_eq!(js, new_null().value);
    assert!(matches!(
        EsValueFacade::from_js_value(&OwnedValueRef::new(js), 9, None),
        Some(EsValueFacade::Null)
    ));
    let js = value_of(EsValueFacade::Undefined.to_js_value(&t, 5).unwrap());
    assert_eq!(js, new_undefined().value);
    assert!(matches!(
        EsValueFacade::from_js_value(&OwnedValueRef::new(js), 9, None),
        Some(EsValueFacade::Undefined)
    ));
}

#[test]
fn string_round_trips_through_the_engine() {
    let t = token();
    let facade = "Hello world".to_string().to_es_value_facade();
    let text = match facade.to_js_value(&t, 1).unwrap() {
        JsArg::NewString(s) => s,
        JsArg::Value(_) => panic!("a string is allocated by the engine"),
    };
    assert_eq!(text, "Hello world");
    let allocated = OwnedValueRef::new(JsValue { u: JsValueUnion::Ptr(0x4000), tag: TAG_STRING });
    let back = EsValueFacade::from_js_value(&allocated, 1, Some(text)).unwrap();
    assert!(back.is_string());
    assert!(back.is_primitive());
    assert_eq!(back.get_str(), Some("Hello world"));
    assert_eq!(back.copy().get_str(), Some("Hello world"));
}

#[test]
fn string_without_text_stays_a_handle() {
    let s = OwnedValueRef::new(JsValue { u: JsValueUnion::Ptr(0x4000), tag: TAG_STRING });
    let f = EsValueFacade::from_js_value(&s, 1, None).unwrap();
    assert!(!f.is_primitive());
    assert_eq!(f.get_str(), None);
}

#[test]
fn bool_reads_any_nonzero_payload_as_true() {
    let v = OwnedValueRef::new(JsValue { u: JsValueUnion::Int32(7), tag: TAG_BOOL });
    assert_eq!(EsValueFacade::from_js_value(&v, 1, None).unwrap().get_boolean(), Some(true));
    let v = OwnedValueRef::new(JsValue { u: JsValueUnion::Int32(0), tag: TAG_BOOL });
    assert_eq!(EsValueFacade::from_js_value(&v, 1, None).unwrap().get_boolean(), Some(false));
}

#[test]
fn values_that_are_no_script_values_have_no_facade() {
    let exception = OwnedValueRef::new(JsValue { u: JsValueUnion::Int32(0), tag: TAG_EXCEPTION });
    assert!(EsValueFacade::from_js_value(&exception, 1, None).is_none());
    let odd = OwnedValueRef::new(JsValue { u: JsValueUnion::Ptr(1), tag: TAG_INT });
    assert!(EsValueFacade::from_js_value(&odd, 1, None).is_none());
    let odd = OwnedValueRef::new(JsValue { u: JsValueUnion::Float64(1), tag: TAG_INT });
    assert!(EsValueFacade::from_js_value(&odd, 1, None).is_none());
    let odd = OwnedValueRef::new(JsValue { u: JsValueUnion::Int32(1), tag: TAG_OBJECT });
    assert!(EsValueFacade::from_js_value(&odd, 1, None).is_none());
    let odd = OwnedValueRef::new(JsValue { u: JsValueUnion::Int32(1), tag: TAG_FLOAT64 });
    assert!(EsValueFacade::from_js_value(&odd, 1, None).is_none());
}

#[test]
fn handle_comes_back_in_its_own_realm() {
    let t = token();
    let object = JsValue { u: JsValueUnion::Ptr(0xbeef), tag: TAG_OBJECT };
    let f = EsValueFacade::from_js_value(&OwnedValueRef::new(object), 7, None).unwrap();
    assert!(!f.is_primitive());
    match &f {
        EsValueFacade::Handle(h) => assert_eq!(h.realm(), 7),
        _ => panic!("an object becomes a handle"),
    }
    assert_eq!(value_of(f.to_js_value(&t, 7).unwrap()), object);
    assert_eq!(value_of(f.copy().to_js_value(&t, 7).unwrap()), object);
}

#[test]
fn handle_of_another_realm_is_refused() {
    let t = token();
    let object = JsValue { u: JsValueUnion::Ptr(0xbeef), tag: TAG_OBJECT };
    let f = EsValueFacade::from_js_value(&OwnedValueRef::new(object), 7, None).unwrap();
    assert!(matches!(f.to_js_value(&t, 8), Err(EsError::RealmMismatch)));
    assert!(matches!(f.to_js_value(&t, 0), Err(EsError::RealmMismatch)));
}

#[test]
fn accessors_answer_by_kind() {
    let i = EsValueFacade::I32(4);
    assert!(i.is_i32());
    assert!(!i.is_boolean());
    assert!(!i.is_string());
    assert_eq!(i.get_boolean(), None);
    assert_eq!(i.get_str(), None);
    let b = EsValueFacade::Boolean(true);
    assert!(b.is_boolean());
    assert_eq!(b.get_i32(), None);
    let s = EsValueFacade::Str("x".to_string());
    assert!(s.is_string());
    assert_eq!(s.get_i32(), None);
}

#[test]
fn convertibles() {
    assert_eq!(5i32.to_es_value_facade().get_i32(), Some(5));
    assert_eq!(true.to_es_value_facade().get_boolean(), Some(true));
    assert_eq!("sdf".to_string().to_es_value_facade().get_str(), Some("sdf"));
}

#[test]
fn promise_settles_once() {
    let mut p = PromiseState::new();
    assert!(!p.is_settled());
    assert!(matches!(p.await_result(), Err(EsError::Timeout)));
    assert!(p.settle(Ok(EsValueFacade::I32(1))));
    assert!(p.is_settled());
    assert!(!p.settle(Err(EsValueFacade::I32(2))));
    assert!(!p.settle(Ok(EsValueFacade::I32(3))));
    match p.await_result() {
        Ok(Ok(v)) => assert_eq!(v.get_i32(), Some(1)),
        _ => panic!("the promise was fulfilled with 1"),
    }
}

#[test]
fn rejected_promise_gives_its_value_on_the_error_side() {
    let mut p = PromiseState::new();
    assert!(p.settle(Err(EsValueFacade::Str("boom".to_string()))));
    match p.await_result() {
        Ok(Err(v)) => assert_eq!(v.get_str(), Some("boom")),
        _ => panic!("the promise was rejected"),
    }
    assert!(!p.settle(Ok(EsValueFacade::Null)));
    assert!(matches!(p.await_result(), Ok(Err(_))));
}

#[test]
fn exception_mark_goes_by_the_tag_alone() {
    let thrown = OwnedValueRef::new(JsValue { u: JsValueUnion::Int32(0), tag: TAG_EXCEPTION });
    assert!(is_exception(&thrown));
    assert!(!is_exception(&new_null()));
    assert!(!is_exception(&new_undefined()));
    let object = OwnedValueRef::new(JsValue { u: JsValueUnion::Ptr(6), tag: TAG_OBJECT });
    assert!(!is_exception(&object));
}

#[test]
fn evaluation_gives_its_value_on_the_side_it_ended() {
    match eval_outcome(false, Some(EsValueFacade::I32(3))) {
        Ok(v) => assert_eq!(v.get_i32(), Some(3)),
        Err(_) => panic!("the script returned"),
    }
    match eval_outcome(true, Some(EsValueFacade::Str("boom".to_string()))) {
        Err(v) => assert_eq!(v.get_str(), Some("boom")),
        Ok(_) => panic!("the script threw"),
    }
    assert!(matches!(eval_outcome(false, None), Ok(EsValueFacade::Undefined)));
    assert!(matches!(eval_outcome(true, None), Err(EsValueFacade::Undefined)));
}
