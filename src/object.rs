//! Object storage: for each object a prototype link, a native payload slot,
//! and its own properties with their attribute flags.

use vstd::prelude::*;
use crate::value::{str_equal, NativeObject, Object, Value};

verus! {

/// The attribute flags of a property.
#[derive(Clone, Copy, Debug, PartialEq, Eq, Structural)]
pub struct Attribute {
    /// Hidden from enumeration.
    pub dont_enum: bool,
    /// Resists deletion.
    pub dont_delete: bool,
    /// Resists assignment.
    pub read_only: bool,
}

impl Attribute {
    /// No flag set.
    pub fn empty() -> (r: Attribute)
        ensures
            !r.dont_enum && !r.dont_delete && !r.read_only,
    {
        Attribute { dont_enum: false, dont_delete: false, read_only: false }
    }

    /// Hidden from enumeration and resisting deletion.
    pub fn dont_enum_dont_delete() -> (r: Attribute)
        ensures
            r.dont_enum && r.dont_delete && !r.read_only,
    {
        Attribute { dont_enum: true, dont_delete: true, read_only: false }
    }
}

/// An own property of an object.
#[derive(Debug)]
pub struct Property {
    pub owner: Object,
    pub name: String,
    pub value: Value,
    pub attributes: Attribute,
}

/// The store of every object of a realm. An object is the index of its slot
/// in `natives` and `protos`; `properties` holds the own properties of all
/// objects, in the order in which they were defined.
#[derive(Debug)]
pub struct ObjectHeap {
    pub natives: Vec<NativeObject>,
    pub protos: Vec<Option<Object>>,
    pub properties: Vec<Property>,
}

/// The own property names of `o` in `props` that enumeration shows, in order.
pub open spec fn enumerable_names(props: Seq<Property>, o: Object) -> Seq<String>
    decreases props.len(),
{
    if props.len() == 0 {
        Seq::empty()
    } else {
        let rest = enumerable_names(props.drop_last(), o);
        let p = props.last();
        if p.owner == o && !p.attributes.dont_enum {
            rest.push(p.name)
        } else {
            rest
        }
    }
}

/// Every name that enumeration shows belongs to an own property of `o` in
/// `props` that is not hidden.
pub proof fn lemma_enumerable_names_from_props(props: Seq<Property>, o: Object, j: int)
    requires
        0 <= j < enumerable_names(props, o).len(),
    ensures
        exists|i: int|
            0 <= i < props.len() && (#[trigger] props[i]).owner == o && !props[i].attributes.dont_enum
                && props[i].name == enumerable_names(props, o)[j],
    decreases props.len(),
{
    let rest = enumerable_names(props.drop_last(), o);
    if j < rest.len() {
        lemma_enumerable_names_from_props(props.drop_last(), o, j);
        let i = choose|i: int|
            0 <= i < props.drop_last().len() && (#[trigger] props.drop_last()[i]).owner == o
                && !props.drop_last()[i].attributes.dont_enum && props.drop_last()[i].name
                == rest[j];
        assert(props[i] == props.drop_last()[i]);
    } else {
        assert(props[props.len() - 1] == props.last());
    }
}

impl ObjectHeap {
    /// Number of objects.
    pub open spec fn len(&self) -> nat {
        self.natives@.len()
    }

    pub open spec fn contains(&self, o: Object) -> bool {
        o.id < self.len()
    }

    pub open spec fn native_of(&self, o: Object) -> NativeObject {
        self.natives@[o.id as int]
    }

    pub open spec fn proto_of(&self, o: Object) -> Option<Object> {
        self.protos@[o.id as int]
    }

    /// Property `i` is the own property `name` of `o`.
    pub open spec fn is_prop(&self, i: int, o: Object, name: Seq<char>) -> bool {
        0 <= i < self.properties@.len() && self.properties@[i].owner == o
            && self.properties@[i].name@ == name
    }

    pub open spec fn has_own(&self, o: Object, name: Seq<char>) -> bool {
        exists|i: int| self.is_prop(i, o, name)
    }

    /// The index of the own property `name` of `o`, where it has one.
    pub open spec fn own_index(&self, o: Object, name: Seq<char>) -> int {
        choose|i: int| self.is_prop(i, o, name)
    }

    /// The own property `name` of `o`, where it has one.
    pub open spec fn own(&self, o: Object, name: Seq<char>) -> Option<Property> {
        if self.has_own(o, name) {
            Some(self.properties@[self.own_index(o, name)])
        } else {
            None
        }
    }

    /// The value of the own property `name` of `o`, where it has one.
    pub open spec fn own_value(&self, o: Object, name: Seq<char>) -> Option<Value> {
        match self.own(o, name) {
            Some(p) => Some(p.value),
            None => None,
        }
    }

    /// `o` has an own property `name` that deletion removes.
    pub open spec fn deletable(&self, o: Object, name: Seq<char>) -> bool {
        self.own(o, name) matches Some(p) && !p.attributes.dont_delete
    }

    /// The own enumerable property names of `o`, in order of definition.
    pub open spec fn keys_of(&self, o: Object) -> Seq<String> {
        enumerable_names(self.properties@, o)
    }

    /// Every link points at a stored object, and no object has two own
    /// properties of one name.
    pub open spec fn wf(&self) -> bool {
        &&& self.protos@.len() == self.natives@.len()
        &&& forall|i: int|
            0 <= i < self.protos@.len() && (#[trigger] self.protos@[i]) is Some ==> self.protos@[
                i
            ]->0.id < self.len()
        &&& forall|i: int|
            0 <= i < self.properties@.len() ==> (#[trigger] self.properties@[i]).owner.id
                < self.len()
        &&& forall|i: int, j: int|
            0 <= i < self.properties@.len() && 0 <= j < self.properties@.len() && i != j
                && (#[trigger] self.properties@[i]).owner == (#[trigger] self.properties@[j]).owner
                ==> self.properties@[i].name@ != self.properties@[j].name@
    }

    /// In a well-formed store, a property that is the own property `name`
    /// of `o` is the one that `own_index` designates.
    pub proof fn lemma_own_index_unique(&self, i: int, o: Object, name: Seq<char>)
        requires
            self.wf(),
            self.is_prop(i, o, name),
        ensures
            self.own_index(o, name) == i,
            self.own(o, name) == Some(self.properties@[i]),
    {
        let j = self.own_index(o, name);
        assert(self.is_prop(j, o, name));
        if j != i {
            assert(self.properties@[i].owner == self.properties@[j].owner);
        }
    }

    /// Two well-formed stores in which the own property `name` of `o` stands
    /// at the same places, and equal there, agree on it.
    pub proof fn lemma_own_preserved(&self, other: &ObjectHeap, o: Object, name: Seq<char>)
        requires
            self.wf(),
            other.wf(),
            forall|i: int|
                #[trigger] self.is_prop(i, o, name) ==> other.is_prop(i, o, name)
                    && other.properties@[i] == self.properties@[i],
            forall|i: int| #[trigger] other.is_prop(i, o, name) ==> self.is_prop(i, o, name),
        ensures
            other.own(o, name) == self.own(o, name),
    {
        if self.has_own(o, name) {
            let i = self.own_index(o, name);
            assert(self.is_prop(i, o, name));
            self.lemma_own_index_unique(i, o, name);
            other.lemma_own_index_unique(i, o, name);
        } else if other.has_own(o, name) {
            let i = other.own_index(o, name);
            assert(other.is_prop(i, o, name));
        }
    }

    /// A store that holds no object.
    pub fn new() -> (r: ObjectHeap)
        ensures
            r.wf(),
            r.len() == 0,
            r.properties@.len() == 0,
    {
        ObjectHeap { natives: Vec::new(), protos: Vec::new(), properties: Vec::new() }
    }

    /// Stores a new object with no native payload, no own property, and the
    /// prototype `proto`.
    pub fn new_object(&mut self, proto: Option<Object>) -> (r: Object)
        requires
            old(self).wf(),
            proto matches Some(p) ==> old(self).contains(p),
        ensures
            final(self).wf(),
            r.id == old(self).len(),
            final(self).natives@ == old(self).natives@.push(NativeObject::Empty),
            final(self).protos@ == old(self).protos@.push(proto),
            final(self).properties@ == old(self).properties@,
    {
        let id = self.natives.len();
        self.natives.push(NativeObject::Empty);
        self.protos.push(proto);
        Object { id }
    }

    /// The native payload of `o`.
    pub fn native(&self, o: Object) -> (r: NativeObject)
        requires
            self.wf(),
            self.contains(o),
        ensures
            r == self.native_of(o),
    {
        self.natives[o.id]
    }

    /// Overwrites the native payload of `o` with `n`, whatever it held.
    pub fn set_native(&mut self, o: Object, n: NativeObject)
        requires
            old(self).wf(),
            old(self).contains(o),
        ensures
            final(self).wf(),
            final(self).natives@ == old(self).natives@.update(o.id as int, n),
            final(self).protos@ == old(self).protos@,
            final(self).properties@ == old(self).properties@,
    {
        self.natives.set(o.id, n);
    }

    /// The prototype of `o`.
    pub fn proto(&self, o: Object) -> (r: Option<Object>)
        requires
            self.wf(),
            self.contains(o),
        ensures
            r == self.proto_of(o),
    {
        self.protos[o.id]
    }

    /// The index of the own property `name` of `o`, if it has one.
    pub fn find_own(&self, o: Object, name: &str) -> (r: Option<usize>)
        requires
            self.wf(),
        ensures
            r matches Some(i) ==> self.is_prop(i as int, o, name@) && i == self.own_index(
                o,
                name@,
            ),
            r is None <==> !self.has_own(o, name@),
    {
        let mut i: usize = 0;
        while i < self.properties.len()
            invariant
                self.wf(),
                i <= self.properties@.len(),
                forall|k: int| 0 <= k < i ==> !self.is_prop(k, o, name@),
            decreases self.properties@.len() - i,
        {
            let p = &self.properties[i];
            if p.owner == o && str_equal(p.name.as_str(), name) {
                assert(self.is_prop(i as int, o, name@));
                assert(i == self.own_index(o, name@));
                return Some(i);
            }
            i = i + 1;
        }
        None
    }

    /// The value of the own property `name` of `o`, if it has one.
    pub fn get_own(&self, o: Object, name: &str) -> (r: Option<Value>)
        requires
            self.wf(),
        ensures
            r == self.own_value(o, name@),
    {
        match self.find_own(o, name) {
            Some(i) => Some(self.properties[i].value.duplicate()),
            None => None,
        }
    }

    /// Gives `o` the own property `name` with `value` and `attributes`,
    /// replacing the value and flags of the one it has, if any.
    pub fn define_value(&mut self, o: Object, name: &str, value: Value, attributes: Attribute)
        requires
            old(self).wf(),
            old(self).contains(o),
        ensures
            final(self).wf(),
            final(self).natives@ == old(self).natives@,
            final(self).protos@ == old(self).protos@,
            old(self).has_own(o, name@) ==> final(self).properties@ == old(
                self,
            ).properties@.update(
                old(self).own_index(o, name@),
                Property {
                    owner: o,
                    name: old(self).properties@[old(self).own_index(o, name@)].name,
                    value,
                    attributes,
                },
            ),
            !old(self).has_own(o, name@) ==> {
                &&& final(self).properties@.len() == old(self).properties@.len() + 1
                &&& final(self).properties@.drop_last() == old(self).properties@
                &&& final(self).properties@.last().owner == o
                &&& final(self).properties@.last().name@ == name@
                &&& final(self).properties@.last().value == value
                &&& final(self).properties@.last().attributes == attributes
            },
            final(self).own(o, name@) matches Some(p) && p.value == value && p.attributes
                == attributes,
            forall|x: Object, n: Seq<char>|
                !(x == o && n == name@) ==> #[trigger] final(self).own(x, n) == old(self).own(x, n),
    {
        match self.find_own(o, name) {
            Some(i) => {
                let kept = self.properties[i].name.clone();
                self.properties.set(i, Property { owner: o, name: kept, value, attributes });
                proof {
                    let ps = self.properties@;
                    assert forall|a: int, b: int|
                        0 <= a < ps.len() && 0 <= b < ps.len() && a != b && (#[trigger] ps[a]).owner
                            == (#[trigger] ps[b]).owner implies ps[a].name@ != ps[b].name@ by {
                        assert(old(self).properties@[a].owner == ps[a].owner);
                        assert(old(self).properties@[b].owner == ps[b].owner);
                    }
                    self.lemma_own_index_unique(i as int, o, name@);
                    assert forall|x: Object, n: Seq<char>|
                        !(x == o && n == name@) implies #[trigger] self.own(x, n) == old(
                        self,
                    ).own(x, n) by {
                        old(self).lemma_own_preserved(self, x, n);
                    }
                }
            },
            None => {
                let named = name.to_owned();
                self.properties.push(Property { owner: o, name: named, value, attributes });
                proof {
                    let ps = self.properties@;
                    assert(ps.drop_last() =~= old(self).properties@);
                    assert forall|a: int, b: int|
                        0 <= a < ps.len() && 0 <= b < ps.len() && a != b && (#[trigger] ps[a]).owner
                            == (#[trigger] ps[b]).owner implies ps[a].name@ != ps[b].name@ by {
                        if a == ps.len() - 1 {
                            assert(!old(self).is_prop(b, o, name@));
                        } else if b == ps.len() - 1 {
                            assert(!old(self).is_prop(a, o, name@));
                        } else {
                            assert(old(self).properties@[a] == ps[a]);
                            assert(old(self).properties@[b] == ps[b]);
                        }
                    }
                    self.lemma_own_index_unique(ps.len() - 1, o, name@);
                    assert forall|x: Object, n: Seq<char>|
                        !(x == o && n == name@) implies #[trigger] self.own(x, n) == old(
                        self,
                    ).own(x, n) by {
                        assert forall|k: int| #[trigger] old(self).is_prop(k, x, n) implies self.is_prop(
                            k,
                            x,
                            n,
                        ) && ps[k] == old(self).properties@[k] by {
                            assert(ps.drop_last()[k] == ps[k]);
                        }
                        assert forall|k: int| #[trigger] self.is_prop(k, x, n) implies old(
                            self,
                        ).is_prop(k, x, n) by {
                            assert(ps.drop_last()[k] == ps[k]);
                        }
                        old(self).lemma_own_preserved(self, x, n);
                    }
                }
            },
        }
    }

    /// Removes the own property `name` of `o`, unless it is missing or
    /// resists deletion. Returns whether it was removed.
    pub fn delete(&mut self, o: Object, name: &str) -> (r: bool)
        requires
            old(self).wf(),
        ensures
            final(self).wf(),
            final(self).natives@ == old(self).natives@,
            final(self).protos@ == old(self).protos@,
            r == old(self).deletable(o, name@),
            r ==> final(self).properties@ == old(self).properties@.remove(
                old(self).own_index(o, name@),
            ),
            !r ==> final(self).properties@ == old(self).properties@,
    {
        match self.find_own(o, name) {
            Some(i) => {
                if self.properties[i].attributes.dont_delete {
                    false
                } else {
                    let ghost before = self.properties@;
                    let _removed = self.properties.remove(i);
                    proof {
                        let ps = self.properties@;
                        assert forall|a: int| 0 <= a < ps.len() implies #[trigger] ps[a] == before[if a
                            < i {
                            a
                        } else {
                            a + 1
                        }] by {}
                        assert forall|a: int, b: int|
                            0 <= a < ps.len() && 0 <= b < ps.len() && a != b && (#[trigger] ps[
                                a
                            ]).owner == (#[trigger] ps[b]).owner implies ps[a].name@
                            != ps[b].name@ by {
                            let a0 = if a < i { a } else { a + 1 };
                            let b0 = if b < i { b } else { b + 1 };
                            assert(ps[a] == before[a0]);
                            assert(ps[b] == before[b0]);
                        }
                        assert forall|a: int| 0 <= a < ps.len() implies (#[trigger] ps[a]).owner.id
                            < self.len() by {
                            let a0 = if a < i { a } else { a + 1 };
                            assert(ps[a] == before[a0]);
                        }
                    }
                    true
                }
            },
            None => false,
        }
    }

    /// The own enumerable property names of `o`, in order of definition.
    pub fn get_keys(&self, o: Object) -> (r: Vec<String>)
        requires
            self.wf(),
        ensures
            r@ == self.keys_of(o),
    {
        let mut keys: Vec<String> = Vec::new();
        let mut i: usize = 0;
        while i < self.properties.len()
            invariant
                i <= self.properties@.len(),
                keys@ == enumerable_names(self.properties@.subrange(0, i as int), o),
            decreases self.properties@.len() - i,
        {
            let p = &self.properties[i];
            proof {
                let next = self.properties@.subrange(0, i + 1);
                assert(next.drop_last() =~= self.properties@.subrange(0, i as int));
            }
            if p.owner == o && !p.attributes.dont_enum {
                keys.push(p.name.clone());
            }
            i = i + 1;
        }
        assert(self.properties@.subrange(0, self.properties@.len() as int) =~= self.properties@);
        keys
    }
}

} // verus!
