//! The `Boolean` class: a constructor that boxes a boolean into an object
//! or, called as a plain function, coerces its argument; and the prototype
//! methods `toString` and `valueOf`, which read the boxed boolean back.

use vstd::prelude::*;
use crate::activation::Activation;
use crate::object::{lemma_enumerable_names_from_props, Attribute, ObjectHeap};
use crate::property_decl::{
    is_native_function, unchanged_below_except, DeclContext, DeclKind, Declaration, SystemClass,
};
use crate::value::{bool_of, NativeMethod, NativeObject, Object, Value};

verus! {

/// The native payload slots after boxing `value` into `o`.
pub open spec fn populated(natives: Seq<NativeObject>, o: Object, value: bool) -> Seq<
    NativeObject,
> {
    natives.update(o.id as int, NativeObject::Bool(value))
}

/// The boolean that a payload boxes, if it boxes one.
pub open spec fn boxed_bool(n: NativeObject) -> Option<bool> {
    match n {
        NativeObject::Bool(b) => Some(b),
        _ => None,
    }
}

/// The coerced first argument, if one was passed.
pub open spec fn first_arg_bool(args: Seq<Value>, swf_version: u8) -> Option<bool> {
    if args.len() > 0 {
        Some(bool_of(args[0], swf_version))
    } else {
        None
    }
}

/// What `Boolean(...)` returns when called as a plain function: the coerced
/// argument, or `undefined` when none was passed.
pub open spec fn called_result(arg: Option<bool>) -> Value {
    match arg {
        Some(b) => Value::Bool(b),
        None => Value::Undefined,
    }
}

/// The canonical text of a boolean.
pub open spec fn bool_text(b: bool) -> Seq<char> {
    if b {
        "true"@
    } else {
        "false"@
    }
}

/// `r` is what `valueOf` answers for a receiver whose payload is `n`.
pub open spec fn value_of_result(n: NativeObject, r: Value) -> bool {
    r == match boxed_bool(n) {
        Some(b) => Value::Bool(b),
        None => Value::Undefined,
    }
}

/// `r` is what `toString` answers for a receiver whose payload is `n`.
pub open spec fn to_string_result(n: NativeObject, r: Value) -> bool {
    match boxed_bool(n) {
        Some(b) => r matches Value::String(s) && s@ == bool_text(b),
        None => r == Value::Undefined,
    }
}

/// `after` and `r` are what the constructor leaves and returns when run
/// from `before` on `this` with `args`: through `new` it boxes the coerced
/// argument (`false` when there is none) into `this` and returns `this`;
/// called as a function it changes no object and returns `called_result`.
/// Either way the constructor signal is cleared.
pub open spec fn constructed(
    before: Activation,
    after: Activation,
    this: Object,
    args: Seq<Value>,
    r: Value,
) -> bool {
    let arg = first_arg_bool(args, before.swf_version);
    &&& !after.constructor_flag
    &&& after.swf_version == before.swf_version
    &&& after.heap.protos@ == before.heap.protos@
    &&& after.heap.properties@ == before.heap.properties@
    &&& if before.constructor_flag {
        &&& r == Value::Object(this)
        &&& after.heap.natives@ == populated(
            before.heap.natives@,
            this,
            match arg {
                Some(b) => b,
                None => false,
            },
        )
    } else {
        &&& r == called_result(arg)
        &&& after.heap.natives@ == before.heap.natives@
    }
}

/// The attributes of every method on the prototype: hidden from enumeration
/// and resisting deletion.
pub open spec fn is_method_attributes(a: Attribute) -> bool {
    a.dont_enum && a.dont_delete && !a.read_only
}

/// `o` has the own property `name`, with the method attributes, holding a
/// function object that runs `m`.
pub open spec fn has_method(heap: ObjectHeap, o: Object, name: Seq<char>, m: NativeMethod) -> bool {
    &&& heap.own(o, name) matches Some(p)
    &&& is_method_attributes(p.attributes)
    &&& p.value matches Value::Object(f)
    &&& is_native_function(heap, f, m)
}

/// `proto` is a finished `Boolean` prototype: its own properties are
/// exactly `toString` and `valueOf`, each a method.
pub open spec fn is_boolean_proto(heap: ObjectHeap, proto: Object) -> bool {
    &&& has_method(heap, proto, "toString"@, NativeMethod::BooleanToString)
    &&& has_method(heap, proto, "valueOf"@, NativeMethod::BooleanValueOf)
    &&& forall|name: Seq<char>|
        name != "toString"@ && name != "valueOf"@ ==> #[trigger] heap.own(proto, name) is None
}

/// Boxing twice into one object leaves the second value, as if the first
/// had never happened.
pub proof fn lemma_populate_last_write_wins(
    natives: Seq<NativeObject>,
    o: Object,
    first: bool,
    second: bool,
)
    requires
        o.id < natives.len(),
    ensures
        populated(populated(natives, o, first), o, second) == populated(natives, o, second),
        boxed_bool(populated(populated(natives, o, first), o, second)[o.id as int]) == Some(second),
{
    assert(populated(populated(natives, o, first), o, second) =~= populated(natives, o, second));
}

/// Neither `toString` nor `valueOf` shows when the own properties of a
/// `Boolean` prototype are enumerated, and deleting either leaves it in place.
pub proof fn lemma_boolean_proto_methods_hidden(heap: ObjectHeap, proto: Object)
    requires
        heap.wf(),
        is_boolean_proto(heap, proto),
    ensures
        forall|j: int|
            0 <= j < heap.keys_of(proto).len() ==> (#[trigger] heap.keys_of(proto)[j])@
                != "toString"@ && heap.keys_of(proto)[j]@ != "valueOf"@,
        !heap.deletable(proto, "toString"@),
        !heap.deletable(proto, "valueOf"@),
{
    assert forall|j: int| 0 <= j < heap.keys_of(proto).len() implies (#[trigger] heap.keys_of(
        proto,
    )[j])@ != "toString"@ && heap.keys_of(proto)[j]@ != "valueOf"@ by {
        lemma_enumerable_names_from_props(heap.properties@, proto, j);
        let i = choose|i: int|
            0 <= i < heap.properties@.len() && (#[trigger] heap.properties@[i]).owner == proto
                && !heap.properties@[i].attributes.dont_enum && heap.properties@[i].name
                == heap.keys_of(proto)[j];
        let name = heap.properties@[i].name@;
        assert(heap.is_prop(i, proto, name));
        heap.lemma_own_index_unique(i, proto, name);
    }
}

/// `new Boolean(...)` followed by `valueOf` on the new object gives the
/// coerced first argument, or `false` when none was passed.
pub proof fn lemma_new_then_value_of(
    before: Activation,
    after: Activation,
    this: Object,
    args: Seq<Value>,
    r: Value,
    v: Value,
)
    requires
        before.heap.wf(),
        before.heap.contains(this),
        before.constructor_flag,
        constructed(before, after, this, args, r),
        value_of_result(after.heap.native_of(this), v),
    ensures
        r == Value::Object(this),
        v == Value::Bool(
            match first_arg_bool(args, before.swf_version) {
                Some(b) => b,
                None => false,
            },
        ),
{
}

/// The declarations of the prototype's methods.
pub fn proto_decls() -> (r: Vec<Declaration>)
    ensures
        r@.len() == 2,
        r@[0].name@ == "toString"@,
        r@[0].kind == DeclKind::Method(NativeMethod::BooleanToString),
        is_method_attributes(r@[0].attributes),
        r@[1].name@ == "valueOf"@,
        r@[1].kind == DeclKind::Method(NativeMethod::BooleanValueOf),
        is_method_attributes(r@[1].attributes),
{
    let mut decls: Vec<Declaration> = Vec::new();
    decls.push(
        Declaration {
            name: "toString",
            kind: DeclKind::Method(NativeMethod::BooleanToString),
            attributes: Attribute::dont_enum_dont_delete(),
        },
    );
    decls.push(
        Declaration {
            name: "valueOf",
            kind: DeclKind::Method(NativeMethod::BooleanValueOf),
            attributes: Attribute::dont_enum_dont_delete(),
        },
    );
    decls
}

/// Builds the `Boolean` class on `super_proto`: a constructor running
/// [`constructor`], and a new prototype whose only own properties are the
/// hidden, undeletable methods `toString` and `valueOf`.
pub fn create_class(context: &mut DeclContext, super_proto: Object) -> (r: SystemClass)
    requires
        old(context).wf(),
        old(context).heap.contains(super_proto),
    ensures
        final(context).wf(),
        final(context).fn_proto == old(context).fn_proto,
        final(context).heap.contains(r.proto),
        final(context).heap.contains(r.constructor),
        !old(context).heap.contains(r.proto),
        !old(context).heap.contains(r.constructor),
        final(context).heap.proto_of(r.proto) == Some(super_proto),
        final(context).heap.native_of(r.proto) == NativeObject::Empty,
        is_native_function(final(context).heap, r.constructor, NativeMethod::BooleanConstructor),
        is_boolean_proto(final(context).heap, r.proto),
        unchanged_below_except(old(context).heap, final(context).heap, old(context).heap.len(), r.proto),
{
    let class = context.builtin_class(NativeMethod::BooleanConstructor, super_proto);
    let decls = proto_decls();
    let ghost mid = context.heap;
    proof {
        reveal_strlit("toString");
        reveal_strlit("valueOf");
        assert("toString"@[0] != "valueOf"@[0]);
        assert(decls@[0].name@ != decls@[1].name@);
    }
    let table = decls.as_slice();
    assert(table@ == decls@);
    context.define_properties_on(class.proto, table);
    proof {
        let h = context.heap;
        assert(crate::property_decl::declared_on(h, class.proto, decls@[0]));
        assert(crate::property_decl::declared_on(h, class.proto, decls@[1]));
        assert forall|name: Seq<char>|
            name != "toString"@ && name != "valueOf"@ implies #[trigger] h.own(class.proto, name) is None by {
            assert(mid.own(class.proto, name) is None);
            assert(forall|k: int| 0 <= k < decls@.len() ==> (#[trigger] decls@[k]).name@ != name);
        }
        assert(h.natives@[class.constructor.id as int] == mid.natives@[class.constructor.id as int]);
        assert(h.natives@[class.proto.id as int] == mid.natives@[class.proto.id as int]);
        assert(h.protos@[class.proto.id as int] == mid.protos@[class.proto.id as int]);
    }
    class
}

/// Boxes `value` into `this`, replacing whatever payload it had.
pub fn populate_this(activation: &mut Activation, this: Object, value: bool)
    requires
        old(activation).heap.wf(),
        old(activation).heap.contains(this),
    ensures
        final(activation).heap.wf(),
        final(activation).heap.natives@ == populated(old(activation).heap.natives@, this, value),
        final(activation).heap.protos@ == old(activation).heap.protos@,
        final(activation).heap.properties@ == old(activation).heap.properties@,
        final(activation).constructor_flag == old(activation).constructor_flag,
        final(activation).swf_version == old(activation).swf_version,
{
    activation.heap.set_native(this, NativeObject::Bool(value));
}

/// The `Boolean` constructor and function. Through `new` it boxes the
/// coerced first argument, or `false` when there is none, into `this` and
/// returns `this`; called as a plain function it returns the coerced
/// argument, or `undefined` when there is none.
pub fn constructor(activation: &mut Activation, this: Object, args: &[Value]) -> (r: Value)
    requires
        old(activation).heap.wf(),
        old(activation).heap.contains(this),
    ensures
        final(activation).heap.wf(),
        constructed(*old(activation), *final(activation), this, args@, r),
{
    let is_constructor = activation.consume_native_constructor_flag();
    let value: Option<bool> = if args.len() > 0 {
        Some(args[0].as_bool(activation.swf_version()))
    } else {
        None
    };
    if is_constructor {
        let boxed = match value {
            Some(b) => b,
            None => false,
        };
        populate_this(activation, this, boxed);
        Value::Object(this)
    } else {
        match value {
            Some(b) => Value::Bool(b),
            None => Value::Undefined,
        }
    }
}

/// `Boolean.prototype.toString`: `"true"` or `"false"` for a receiver that
/// boxes a boolean, `undefined` for any other.
pub fn to_string(activation: &mut Activation, this: Object, _args: &[Value]) -> (r: Value)
    requires
        old(activation).heap.wf(),
        old(activation).heap.contains(this),
    ensures
        *final(activation) == *old(activation),
        to_string_result(old(activation).heap.native_of(this), r),
{
    match activation.heap.native(this) {
        NativeObject::Bool(true) => Value::String("true".to_owned()),
        NativeObject::Bool(false) => Value::String("false".to_owned()),
        _ => Value::Undefined,
    }
}

/// `Boolean.prototype.valueOf`: the boxed boolean of a receiver that boxes
/// one, `undefined` for any other.
pub fn value_of(activation: &mut Activation, this: Object, _args: &[Value]) -> (r: Value)
    requires
        old(activation).heap.wf(),
        old(activation).heap.contains(this),
    ensures
        *final(activation) == *old(activation),
        value_of_result(old(activation).heap.native_of(this), r),
{
    match activation.heap.native(this) {
        NativeObject::Bool(b) => Value::Bool(b),
        _ => Value::Undefined,
    }
}

/// Runs the native function `method` on the receiver `this` with `args`.
pub fn call_native(method: NativeMethod, activation: &mut Activation, this: Object, args: &[Value]) -> (r: Value)
    requires
        old(activation).heap.wf(),
        old(activation).heap.contains(this),
    ensures
        final(activation).heap.wf(),
        method == NativeMethod::BooleanConstructor ==> constructed(
            *old(activation),
            *final(activation),
            this,
            args@,
            r,
        ),
        method == NativeMethod::BooleanToString ==> *final(activation) == *old(activation)
            && to_string_result(old(activation).heap.native_of(this), r),
        method == NativeMethod::BooleanValueOf ==> *final(activation) == *old(activation)
            && value_of_result(old(activation).heap.native_of(this), r),
{
    match method {
        NativeMethod::BooleanConstructor => constructor(activation, this, args),
        NativeMethod::BooleanToString => to_string(activation, this, args),
        NativeMethod::BooleanValueOf => value_of(activation, this, args),
    }
}

} // verus!
