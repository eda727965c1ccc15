use avm1_boolean::activation::Activation;
use avm1_boolean::boolean::{
    call_native, constructor, create_class, populate_this, proto_decls, to_string, value_of,
};
use avm1_boolean::object::{Attribute, ObjectHeap};
use avm1_boolean::property_decl::{DeclContext, SystemClass};
use avm1_boolean::value::{NativeMethod, NativeObject, Object, Value};

struct Realm {
    activation: Activation,
    object_proto: Object,
    class: SystemClass,
}

fn realm(swf_version: u8) -> Realm {
    let mut heap = ObjectHeap::new();
    let object_proto = heap.new_object(None);
    let fn_proto = heap.new_object(Some(object_proto));
    let mut context = DeclContext { heap, fn_proto };
    let class = create_class(&mut context, object_proto);
    Realm { activation: Activation::new(context.heap, swf_version), object_proto, class }
}

fn new_boolean(realm: &mut Realm, args: &[Value]) -> Object {
    let this = realm.activation.heap.new_object(Some(realm.class.proto));
    realm.activation.set_native_constructor_flag();
    match constructor(&mut realm.activation, this, args) {
        Value::Object(o) => o,
        other => panic!("constructor returned {:?}", other),
    }
}

fn call_boolean(realm: &mut Realm, args: &[Value]) -> Value {
    let this = realm.object_proto;
    constructor(&mut realm.activation, this, args)
}

fn proto_method(realm: &Realm, name: &str) -> NativeMethod {
    match realm.activation.heap.get_own(realm.class.proto, name) {
        Some(Value::Object(f)) => match realm.activation.heap.native(f) {
            NativeObject::Function(m) => m,
            other => panic!("{} is not a function: {:?}", name, other),
        },
        other => panic!("{} is missing: {:?}", name, other),
    }
}

fn value_of_object(realm: &mut Realm, this: Object) -> Value {
    value_of(&mut realm.activation, this, &[])
}

fn string(s: &str) -> Value {
    Value::String(s.to_string())
}

#[test]
fn new_boolean_without_argument_is_false() {
    let mut r = realm(8);
    let b = new_boolean(&mut r, &[]);
    assert!(matches!(value_of_object(&mut r, b), Value::Bool(false)));
}

#[test]
fn new_boolean_coerces_its_argument() {
    let mut r = realm(8);
    let t = new_boolean(&mut r, &[Value::Bool(true)]);
    assert!(matches!(value_of_object(&mut r, t), Value::Bool(true)));
    let z = new_boolean(&mut r, &[Value::Number(0)]);
    assert!(matches!(value_of_object(&mut r, z), Value::Bool(false)));
    let s = new_boolean(&mut r, &[string("x"), Value::Bool(false)]);
    assert!(matches!(value_of_object(&mut r, s), Value::Bool(true)));
}

#[test]
fn new_boolean_returns_this_and_keeps_its_prototype() {
    let mut r = realm(8);
    let this = r.activation.heap.new_object(Some(r.class.proto));
    r.activation.set_native_constructor_flag();
    let result = constructor(&mut r.activation, this, &[Value::Number(3)]);
    assert!(matches!(result, Value::Object(o) if o == this));
    assert_eq!(r.activation.heap.proto(this), Some(r.class.proto));
    assert_eq!(r.activation.heap.native(this), NativeObject::Bool(true));
    assert!(!r.activation.constructor_flag);
}

#[test]
fn boolean_called_without_argument_is_undefined() {
    let mut r = realm(8);
    assert!(matches!(call_boolean(&mut r, &[]), Value::Undefined));
}

#[test]
fn boolean_called_returns_a_primitive() {
    let mut r = realm(8);
    assert!(matches!(call_boolean(&mut r, &[Value::Number(1)]), Value::Bool(true)));
    assert!(matches!(call_boolean(&mut r, &[string("")]), Value::Bool(false)));
    assert!(matches!(call_boolean(&mut r, &[Value::Null]), Value::Bool(false)));
    let some_object = Value::Object(r.object_proto);
    assert!(matches!(call_boolean(&mut r, &[some_object]), Value::Bool(true)));
}

#[test]
fn boolean_called_leaves_this_untouched() {
    let mut r = realm(8);
    let plain = r.activation.heap.new_object(Some(r.object_proto));
    let result = constructor(&mut r.activation, plain, &[Value::Bool(true)]);
    assert!(matches!(result, Value::Bool(true)));
    assert_eq!(r.activation.heap.native(plain), NativeObject::Empty);
}

#[test]
fn to_string_through_the_prototype() {
    let mut r = realm(8);
    let method = proto_method(&r, "toString");
    assert_eq!(method, NativeMethod::BooleanToString);
    let t = new_boolean(&mut r, &[Value::Bool(true)]);
    let f = new_boolean(&mut r, &[]);
    let plain = r.activation.heap.new_object(Some(r.object_proto));
    assert!(matches!(call_native(method, &mut r.activation, t, &[]), Value::String(s) if s == "true"));
    assert!(matches!(call_native(method, &mut r.activation, f, &[]), Value::String(s) if s == "false"));
    assert!(matches!(call_native(method, &mut r.activation, plain, &[]), Value::Undefined));
}

#[test]
fn value_of_through_the_prototype() {
    let mut r = realm(8);
    let method = proto_method(&r, "valueOf");
    assert_eq!(method, NativeMethod::BooleanValueOf);
    let t = new_boolean(&mut r, &[Value::Number(-4)]);
    let plain = r.activation.heap.new_object(None);
    assert!(matches!(call_native(method, &mut r.activation, t, &[]), Value::Bool(true)));
    assert!(matches!(call_native(method, &mut r.activation, plain, &[]), Value::Undefined));
}

#[test]
fn readers_ignore_other_payloads() {
    let mut r = realm(8);
    let ctor = r.class.constructor;
    assert!(matches!(to_string(&mut r.activation, ctor, &[]), Value::Undefined));
    assert!(matches!(value_of(&mut r.activation, ctor, &[]), Value::Undefined));
}

#[test]
fn prototype_methods_are_hidden_and_undeletable() {
    let mut r = realm(8);
    let proto = r.class.proto;
    let keys = r.activation.heap.get_keys(proto);
    assert!(!keys.iter().any(|k| k == "toString" || k == "valueOf"));
    assert!(keys.is_empty());
    assert!(!r.activation.heap.delete(proto, "toString"));
    assert!(!r.activation.heap.delete(proto, "valueOf"));
    assert!(r.activation.heap.get_own(proto, "toString").is_some());
    assert!(r.activation.heap.get_own(proto, "valueOf").is_some());
}

#[test]
fn ordinary_properties_enumerate_and_delete() {
    let mut r = realm(8);
    let proto = r.class.proto;
    r.activation.heap.define_value(proto, "extra", Value::Number(5), Attribute::empty());
    let keys = r.activation.heap.get_keys(proto);
    assert_eq!(keys, vec!["extra".to_string()]);
    assert!(r.activation.heap.delete(proto, "extra"));
    assert!(r.activation.heap.get_own(proto, "extra").is_none());
    assert!(!r.activation.heap.delete(proto, "extra"));
}

#[test]
fn define_value_replaces_an_existing_property() {
    let mut heap = ObjectHeap::new();
    let o = heap.new_object(None);
    heap.define_value(o, "a", Value::Number(1), Attribute::empty());
    heap.define_value(o, "b", Value::Number(2), Attribute::empty());
    heap.define_value(o, "a", Value::Number(3), Attribute::dont_enum_dont_delete());
    assert!(matches!(heap.get_own(o, "a"), Some(Value::Number(3))));
    assert_eq!(heap.get_keys(o), vec!["b".to_string()]);
    assert_eq!(heap.properties.len(), 2);
}

#[test]
fn class_constructor_and_prototype_are_linked() {
    let r = realm(8);
    let heap = &r.activation.heap;
    assert_eq!(heap.native(r.class.constructor), NativeObject::Function(NativeMethod::BooleanConstructor));
    assert!(matches!(heap.get_own(r.class.constructor, "prototype"), Some(Value::Object(p)) if p == r.class.proto));
    assert_eq!(heap.proto(r.class.proto), Some(r.object_proto));
    assert_eq!(heap.native(r.class.proto), NativeObject::Empty);
}

#[test]
fn proto_decls_lists_the_two_methods() {
    let decls = proto_decls();
    assert_eq!(decls.len(), 2);
    assert_eq!(decls[0].name, "toString");
    assert_eq!(decls[1].name, "valueOf");
    assert!(decls.iter().all(|d| d.attributes == Attribute::dont_enum_dont_delete()));
}

#[test]
fn populate_this_last_write_wins() {
    let mut r = realm(8);
    let o = r.activation.heap.new_object(Some(r.class.proto));
    populate_this(&mut r.activation, o, true);
    populate_this(&mut r.activation, o, false);
    assert!(matches!(value_of_object(&mut r, o), Value::Bool(false)));
    populate_this(&mut r.activation, o, true);
    assert!(matches!(value_of_object(&mut r, o), Value::Bool(true)));
}

#[test]
fn populate_this_overwrites_another_payload() {
    let mut r = realm(8);
    let ctor = r.class.constructor;
    populate_this(&mut r.activation, ctor, true);
    assert_eq!(r.activation.heap.native(ctor), NativeObject::Bool(true));
}

#[test]
fn strings_coerce_by_emptiness_from_version_seven() {
    for v in [7u8, 8, 10] {
        let mut r = realm(v);
        assert!(matches!(call_boolean(&mut r, &[string("0")]), Value::Bool(true)));
        assert!(matches!(call_boolean(&mut r, &[string("abc")]), Value::Bool(true)));
        assert!(matches!(call_boolean(&mut r, &[string("")]), Value::Bool(false)));
    }
}

#[test]
fn strings_coerce_as_numbers_before_version_seven() {
    let mut r = realm(6);
    let cases: [(&str, bool); 12] = [
        ("0", false),
        ("1", true),
        ("abc", false),
        ("", false),
        ("1.5", true),
        ("0.0", false),
        ("-0.0", false),
        ("+2", true),
        ("-", false),
        ("1.", false),
        (".5", false),
        ("007", true),
    ];
    for (text, expected) in cases {
        match call_boolean(&mut r, &[string(text)]) {
            Value::Bool(b) => assert_eq!(b, expected, "{:?}", text),
            other => panic!("{:?} gave {:?}", text, other),
        }
    }
}

#[test]
fn other_values_coerce() {
    let mut r = realm(8);
    assert!(matches!(call_boolean(&mut r, &[Value::Undefined]), Value::Bool(false)));
    assert!(matches!(call_boolean(&mut r, &[Value::Number(-1)]), Value::Bool(true)));
    assert!(matches!(call_boolean(&mut r, &[Value::Bool(false)]), Value::Bool(false)));
}

#[test]
fn constructor_signal_is_consumed_once() {
    let mut r = realm(8);
    r.activation.set_native_constructor_flag();
    assert!(r.activation.consume_native_constructor_flag());
    assert!(!r.activation.consume_native_constructor_flag());
}
