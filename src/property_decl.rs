//! Builtin classes, and the tables of properties declared on their
//! prototypes.

use vstd::prelude::*;
use crate::object::{Attribute, ObjectHeap};
use crate::value::{NativeMethod, NativeObject, Object, Value};

verus! {

/// What a declared property holds.
#[derive(Clone, Copy, Debug, PartialEq, Eq, Structural)]
pub enum DeclKind {
    /// A function implemented by the runtime.
    Method(NativeMethod),
}

/// One entry of a property table.
#[derive(Clone, Copy, Debug)]
pub struct Declaration {
    pub name: &'static str,
    pub kind: DeclKind,
    pub attributes: Attribute,
}

/// A builtin class: its constructor function and its prototype.
#[derive(Clone, Copy, Debug, PartialEq, Eq, Structural)]
pub struct SystemClass {
    pub constructor: Object,
    pub proto: Object,
}

/// What builtin classes are built with: the object store and the prototype
/// of every function object.
#[derive(Debug)]
pub struct DeclContext {
    pub heap: ObjectHeap,
    pub fn_proto: Object,
}

/// No two entries of `decls` share a name.
pub open spec fn distinct_names(decls: Seq<Declaration>) -> bool {
    forall|a: int, b: int|
        0 <= a < decls.len() && 0 <= b < decls.len() && a != b ==> (#[trigger] decls[a]).name@
            != (#[trigger] decls[b]).name@
}

/// `f` is a function object of `heap` that runs `m`.
pub open spec fn is_native_function(heap: ObjectHeap, f: Object, m: NativeMethod) -> bool {
    heap.contains(f) && heap.native_of(f) == NativeObject::Function(m)
}

/// `o` has the property that `d` declares.
pub open spec fn declared_on(heap: ObjectHeap, o: Object, d: Declaration) -> bool {
    heap.own(o, d.name@) matches Some(p) && p.attributes == d.attributes && match d.kind {
        DeclKind::Method(m) => p.value matches Value::Object(f) && is_native_function(heap, f, m),
    }
}

/// The stores agree on every object below `n` but `o`: its payload, its
/// prototype and its own properties.
pub open spec fn unchanged_below_except(a: ObjectHeap, b: ObjectHeap, n: nat, o: Object) -> bool {
    &&& forall|i: int| 0 <= i < n ==> #[trigger] b.natives@[i] == a.natives@[i]
    &&& forall|i: int| 0 <= i < n ==> #[trigger] b.protos@[i] == a.protos@[i]
    &&& forall|x: Object, name: Seq<char>|
        x.id < n && x != o ==> #[trigger] b.own(x, name) == a.own(x, name)
}

impl DeclContext {
    pub open spec fn wf(&self) -> bool {
        self.heap.wf() && self.heap.contains(self.fn_proto)
    }

    /// Builds a class whose constructor runs `constructor` and whose new,
    /// empty prototype inherits from `super_proto`. The constructor object
    /// carries the prototype as its hidden, undeletable `prototype`.
    pub fn builtin_class(&mut self, constructor: NativeMethod, super_proto: Object) -> (r:
        SystemClass)
        requires
            old(self).wf(),
            old(self).heap.contains(super_proto),
        ensures
            final(self).wf(),
            final(self).fn_proto == old(self).fn_proto,
            final(self).heap.len() == old(self).heap.len() + 2,
            r.proto.id == old(self).heap.len(),
            r.constructor.id == old(self).heap.len() + 1,
            final(self).heap.proto_of(r.proto) == Some(super_proto),
            final(self).heap.native_of(r.proto) == NativeObject::Empty,
            forall|name: Seq<char>| #[trigger] final(self).heap.own(r.proto, name) is None,
            is_native_function(final(self).heap, r.constructor, constructor),
            final(self).heap.proto_of(r.constructor) == Some(old(self).fn_proto),
            final(self).heap.own_value(r.constructor, "prototype"@) == Some(
                Value::Object(r.proto),
            ),
            unchanged_below_except(old(self).heap, final(self).heap, old(self).heap.len(), r.proto),
    {
        let proto = self.heap.new_object(Some(super_proto));
        let ctor = self.heap.new_object(Some(self.fn_proto));
        self.heap.set_native(ctor, NativeObject::Function(constructor));
        let ghost mid = self.heap;
        self.heap.define_value(
            ctor,
            "prototype",
            Value::Object(proto),
            Attribute::dont_enum_dont_delete(),
        );
        proof {
            let h = self.heap;
            assert(!mid.has_own(ctor, "prototype"@));
            let i = h.properties@.len() - 1;
            assert(h.is_prop(i, ctor, "prototype"@));
            h.lemma_own_index_unique(i, ctor, "prototype"@);
            assert forall|name: Seq<char>| #[trigger] h.own(proto, name) is None by {
                if h.has_own(proto, name) {
                    let j = h.own_index(proto, name);
                    assert(h.is_prop(j, proto, name));
                    if j < i {
                        assert(h.properties@[j] == h.properties@.drop_last()[j]);
                    }
                }
            }
            let h0 = old(self).heap;
            assert forall|x: Object, name: Seq<char>|
                x.id < h0.len() && x != proto implies #[trigger] h.own(x, name) == h0.own(
                x,
                name,
            ) by {
                assert forall|k: int| #[trigger] h0.is_prop(k, x, name) implies h.is_prop(
                    k,
                    x,
                    name,
                ) && h.properties@[k] == h0.properties@[k] by {
                    assert(h.properties@.drop_last()[k] == h.properties@[k]);
                }
                assert forall|k: int| #[trigger] h.is_prop(k, x, name) implies h0.is_prop(
                    k,
                    x,
                    name,
                ) by {
                    assert(h.properties@.drop_last()[k] == h.properties@[k]);
                }
                h0.lemma_own_preserved(&h, x, name);
            }
        }
        SystemClass { constructor: ctor, proto }
    }

    /// Defines on `o` each property that `decls` declares, with its flags;
    /// a method becomes a new function object that runs it.
    pub fn define_properties_on(&mut self, o: Object, decls: &[Declaration])
        requires
            old(self).wf(),
            old(self).heap.contains(o),
            distinct_names(decls@),
        ensures
            final(self).wf(),
            final(self).fn_proto == old(self).fn_proto,
            final(self).heap.len() == old(self).heap.len() + decls@.len(),
            forall|k: int| 0 <= k < decls@.len() ==> declared_on(final(self).heap, o, #[trigger] decls@[k]),
            forall|name: Seq<char>|
                (forall|k: int| 0 <= k < decls@.len() ==> (#[trigger] decls@[k]).name@ != name)
                    ==> #[trigger] final(self).heap.own(o, name) == old(self).heap.own(o, name),
            unchanged_below_except(old(self).heap, final(self).heap, old(self).heap.len(), o),
    {
        let mut i: usize = 0;
        while i < decls.len()
            invariant
                self.wf(),
                self.heap.contains(o),
                distinct_names(decls@),
                self.fn_proto == old(self).fn_proto,
                i <= decls@.len(),
                self.heap.len() == old(self).heap.len() + i,
                    forall|k: int| 0 <= k < i ==> declared_on(self.heap, o, #[trigger] decls@[k]),
                forall|name: Seq<char>|
                    (forall|k: int| 0 <= k < i ==> (#[trigger] decls@[k]).name@ != name)
                        ==> #[trigger] self.heap.own(o, name) == old(self).heap.own(o, name),
                unchanged_below_except(old(self).heap, self.heap, old(self).heap.len(), o),
            decreases decls@.len() - i,
        {
            let d = decls[i];
            let ghost h0 = self.heap;
            match d.kind {
                DeclKind::Method(m) => {
                    let f = self.heap.new_object(Some(self.fn_proto));
                    self.heap.set_native(f, NativeObject::Function(m));
                    let ghost h1 = self.heap;
                    proof {
                        assert forall|x: Object, n: Seq<char>| #[trigger] h1.own(x, n) == h0.own(x, n) by {
                            h0.lemma_own_preserved(&h1, x, n);
                        }
                    }
                    self.heap.define_value(o, d.name, Value::Object(f), d.attributes);
                    proof {
                        let h2 = self.heap;
                        assert(is_native_function(h2, f, m));
                        assert forall|k: int| 0 <= k < i + 1 implies declared_on(h2, o, #[trigger] decls@[k]) by {
                            if k < i {
                                assert(decls@[k].name@ != d.name@);
                                assert(h2.own(o, decls@[k].name@) == h0.own(o, decls@[k].name@));
                                assert(declared_on(h0, o, decls@[k]));
                            }
                        }
                        assert forall|name: Seq<char>|
                            (forall|k: int| 0 <= k < i + 1 ==> (#[trigger] decls@[k]).name@ != name)
                                implies #[trigger] h2.own(o, name) == old(self).heap.own(o, name) by {
                            assert(decls@[i as int].name@ != name);
                            assert(h2.own(o, name) == h0.own(o, name));
                            assert(forall|k: int| 0 <= k < i ==> (#[trigger] decls@[k]).name@ != name);
                        }
                        assert forall|x: Object, n: Seq<char>|
                            x.id < old(self).heap.len() && x != o implies #[trigger] h2.own(x, n)
                            == old(self).heap.own(x, n) by {
                            assert(h2.own(x, n) == h0.own(x, n));
                        }
                    }
                },
            }
            i = i + 1;
        }
    }
}

} // verus!
