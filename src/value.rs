use vstd::prelude::*;
use crate::error::{BunyError, BunyErrorKind, ValueCastError};
use crate::host::{HostTable, HostValue, value_at, array_items, has_room, extends, MAX_HANDLES, NO_HANDLE};

verus! {

/// The string behind `h`, if `h` refers to one.
pub open spec fn text_at(host: Seq<HostValue>, h: int) -> Option<String> {
    match value_at(host, h) {
        Some(HostValue::Text(s)) => Some(s),
        _ => None,
    }
}

/// The integer behind `h`, if `h` refers to one.
pub open spec fn int_at(host: Seq<HostValue>, h: int) -> Option<i64> {
    match value_at(host, h) {
        Some(HostValue::Int(n)) => Some(n),
        _ => None,
    }
}

/// The elements of the array behind `h`; empty where `h` refers to no array.
pub open spec fn items_at(host: Seq<HostValue>, h: int) -> Seq<i32> {
    match value_at(host, h) {
        Some(v) => array_items(v),
        None => Seq::empty(),
    }
}

/// The handle stored under the first entry named `key`, or `NO_HANDLE`.
pub open spec fn lookup(entries: Seq<(String, i32)>, key: Seq<char>) -> i32
    decreases entries.len(),
{
    if entries.len() == 0 {
        NO_HANDLE
    } else if entries[0].0@ == key {
        entries[0].1
    } else {
        lookup(entries.drop_first(), key)
    }
}

/// The handle of field `key` of the object behind `obj`; `NO_HANDLE` where
/// `obj` refers to no object or the object has no such field.
pub open spec fn field_at(host: Seq<HostValue>, obj: int, key: Seq<char>) -> i32 {
    match value_at(host, obj) {
        Some(HostValue::Object(entries)) => lookup(entries@, key),
        _ => NO_HANDLE,
    }
}

/// The error of a downcast to the kind that `why` names.
pub open spec fn cast_error(why: ValueCastError) -> BunyError {
    BunyError { reason: BunyErrorKind::ValueCast(why) }
}

/// A reference to a value owned by the host.
#[derive(PartialEq, Eq, Structural, Clone, Copy, Debug)]
pub struct ValueRef(pub i32);

/// A reference to a value known to be an object.
#[derive(PartialEq, Eq, Structural, Clone, Copy, Debug)]
pub struct ObjectRef(pub ValueRef);

/// A reference to a value known to be an array.
#[derive(PartialEq, Eq, Structural, Clone, Copy, Debug)]
pub struct ArrayRef(pub ValueRef);

impl Default for ValueRef {
    fn default() -> (r: ValueRef)
        ensures
            r.0 == NO_HANDLE,
    {
        ValueRef(NO_HANDLE)
    }
}

impl Default for ObjectRef {
    fn default() -> (r: ObjectRef)
        ensures
            r.0.0 == NO_HANDLE,
    {
        ObjectRef(ValueRef(NO_HANDLE))
    }
}

impl ValueRef {
    /// Wraps a handle, without looking at what it refers to.
    pub fn new(rid: i32) -> (r: ValueRef)
        ensures
            r.0 == rid,
    {
        ValueRef(rid)
    }

    /// Gives up the wrapper and yields the raw handle, to hand it to the host.
    pub fn into_raw(self) -> (r: i32)
        ensures
            r == self.0,
    {
        self.0
    }

    pub fn as_string(&self, host: &HostTable) -> (r: Result<String, BunyError>)
        ensures
            match text_at(host@, self.0 as int) {
                Some(s) => r == Ok::<String, BunyError>(s),
                None => r == Err::<String, BunyError>(cast_error(ValueCastError::NotString)),
            },
    {
        match host.get(self.0) {
            Some(HostValue::Text(s)) => Ok(s.clone()),
            _ => Err(BunyError::cast(ValueCastError::NotString)),
        }
    }

    pub fn as_int(&self, host: &HostTable) -> (r: Result<i64, BunyError>)
        ensures
            match int_at(host@, self.0 as int) {
                Some(n) => r == Ok::<i64, BunyError>(n),
                None => r == Err::<i64, BunyError>(cast_error(ValueCastError::NotInt)),
            },
    {
        match host.get(self.0) {
            Some(HostValue::Int(n)) => Ok(*n),
            _ => Err(BunyError::cast(ValueCastError::NotInt)),
        }
    }

    /// The `f64` bit pattern of a float value.
    pub fn as_float(&self, host: &HostTable) -> (r: Result<u64, BunyError>)
        ensures
            match value_at(host@, self.0 as int) {
                Some(HostValue::Float(bits)) => r == Ok::<u64, BunyError>(bits),
                _ => r == Err::<u64, BunyError>(cast_error(ValueCastError::NotFloat)),
            },
    {
        match host.get(self.0) {
            Some(HostValue::Float(bits)) => Ok(*bits),
            _ => Err(BunyError::cast(ValueCastError::NotFloat)),
        }
    }

    pub fn as_bool(&self, host: &HostTable) -> (r: Result<bool, BunyError>)
        ensures
            match value_at(host@, self.0 as int) {
                Some(HostValue::Bool(b)) => r == Ok::<bool, BunyError>(b),
                _ => r == Err::<bool, BunyError>(cast_error(ValueCastError::NotBool)),
            },
    {
        match host.get(self.0) {
            Some(HostValue::Bool(b)) => Ok(*b),
            _ => Err(BunyError::cast(ValueCastError::NotBool)),
        }
    }

    pub fn as_array(&self, host: &HostTable) -> (r: Result<ArrayRef, BunyError>)
        ensures
            match value_at(host@, self.0 as int) {
                Some(HostValue::Array(_)) => r == Ok::<ArrayRef, BunyError>(ArrayRef(*self)),
                _ => r == Err::<ArrayRef, BunyError>(cast_error(ValueCastError::NotArray)),
            },
    {
        match host.get(self.0) {
            Some(HostValue::Array(_)) => Ok(ArrayRef(*self)),
            _ => Err(BunyError::cast(ValueCastError::NotArray)),
        }
    }

    pub fn as_object(&self, host: &HostTable) -> (r: Result<ObjectRef, BunyError>)
        ensures
            match value_at(host@, self.0 as int) {
                Some(HostValue::Object(_)) => r == Ok::<ObjectRef, BunyError>(ObjectRef(*self)),
                _ => r == Err::<ObjectRef, BunyError>(cast_error(ValueCastError::NotObject)),
            },
    {
        match host.get(self.0) {
            Some(HostValue::Object(_)) => Ok(ObjectRef(*self)),
            _ => Err(BunyError::cast(ValueCastError::NotObject)),
        }
    }

    /// The reference itself, where it refers to an HTML node.
    pub fn as_node(&self, host: &HostTable) -> (r: Result<ValueRef, BunyError>)
        ensures
            match value_at(host@, self.0 as int) {
                Some(HostValue::Node) => r == Ok::<ValueRef, BunyError>(*self),
                _ => r == Err::<ValueRef, BunyError>(cast_error(ValueCastError::NotNode)),
            },
    {
        match host.get(self.0) {
            Some(HostValue::Node) => Ok(*self),
            _ => Err(BunyError::cast(ValueCastError::NotNode)),
        }
    }

    /// The handle refers to the null value, or to nothing at all.
    pub fn is_none(&self, host: &HostTable) -> (r: bool)
        ensures
            r == (value_at(host@, self.0 as int) is None || value_at(host@, self.0 as int) == Some(HostValue::Null)),
    {
        match host.get(self.0) {
            None => true,
            Some(HostValue::Null) => true,
            _ => false,
        }
    }
}

impl ObjectRef {
    /// The value of field `key`. A missing field gives a reference whose
    /// downcasts all fail.
    pub fn get(&self, host: &HostTable, key: &str) -> (r: ValueRef)
        ensures
            r.0 == field_at(host@, self.0.0 as int, key@),
    {
        let found = host.get(self.0.0);
        match found {
            Some(HostValue::Object(entries)) => {
                let wanted: String = key.to_owned();
                let mut i: usize = 0;
                assert(entries@.subrange(0, entries@.len() as int) =~= entries@);
                while i < entries.len()
                    invariant
                        i <= entries@.len(),
                        wanted@ == key@,
                        field_at(host@, self.0.0 as int, key@) == lookup(entries@, key@),
                        lookup(entries@, key@) == lookup(entries@.subrange(i as int, entries@.len() as int), key@),
                    decreases entries.len() - i,
                {
                    let ghost rest = entries@.subrange(i as int, entries@.len() as int);
                    assert(rest.drop_first() =~= entries@.subrange(i + 1, entries@.len() as int));
                    assert(rest[0] == entries@[i as int]);
                    let same: bool = entries[i].0.eq(&wanted);
                    if same {
                        return ValueRef(entries[i].1);
                    }
                    i = i + 1;
                }
                ValueRef(NO_HANDLE)
            },
            _ => ValueRef(NO_HANDLE),
        }
    }
}

impl ArrayRef {
    /// Asks the host for a new, empty array.
    pub fn new(host: &mut HostTable) -> (r: ArrayRef)
        ensures
            has_room(old(host)@, 1) ==> {
                &&& r.0.0 == old(host)@.len()
                &&& final(host)@.len() == old(host)@.len() + 1
                &&& extends(old(host)@, final(host)@)
                &&& final(host)@[r.0.0 as int] is Array
                &&& array_items(final(host)@[r.0.0 as int]) == Seq::<i32>::empty()
            },
            !has_room(old(host)@, 1) ==> r.0.0 == NO_HANDLE && final(host)@ == old(host)@,
    {
        let ghost before = host@;
        let h = host.store(HostValue::Array(Vec::new()));
        proof {
            if before.len() < MAX_HANDLES {
                assert(host@.subrange(0, before.len() as int) =~= before);
            }
        }
        ArrayRef(ValueRef(h))
    }

    /// Appends `value` at the end of the array on the host side.
    pub fn insert(&self, host: &mut HostTable, value: ValueRef)
        ensures
            final(host)@.len() == old(host)@.len(),
            forall|j: int| 0 <= j < old(host)@.len() && j != self.0.0 ==> final(host)@[j] == old(host)@[j],
            is_array_at_ref(old(host)@, *self) ==> is_array_at_ref(final(host)@, *self)
                && array_items(final(host)@[self.0.0 as int]) == array_items(old(host)@[self.0.0 as int]).push(value.0),
            !is_array_at_ref(old(host)@, *self) ==> final(host)@ == old(host)@,
    {
        host.push_item(self.0.0, value.0);
    }

    /// The element references, in order, as the host holds them now.
    pub fn elements(&self, host: &HostTable) -> (r: Vec<ValueRef>)
        ensures
            r@.len() == items_at(host@, self.0.0 as int).len(),
            forall|i: int| 0 <= i < r@.len() ==> r@[i].0 == items_at(host@, self.0.0 as int)[i],
    {
        let mut out: Vec<ValueRef> = Vec::new();
        match host.get(self.0.0) {
            Some(HostValue::Array(items)) => {
                let mut i: usize = 0;
                while i < items.len()
                    invariant
                        i <= items@.len(),
                        items@ == items_at(host@, self.0.0 as int),
                        out@.len() == i,
                        forall|j: int| 0 <= j < i ==> out@[j].0 == items@[j],
                    decreases items.len() - i,
                {
                    out.push(ValueRef(items[i]));
                    i = i + 1;
                }
            },
            _ => {},
        }
        out
    }

    /// Gives up the wrapper and yields the raw handle, to hand it to the host.
    pub fn into_raw(self) -> (r: i32)
        ensures
            r == self.0.0,
    {
        self.0.0
    }
}

/// The array reference refers to an array.
pub open spec fn is_array_at_ref(host: Seq<HostValue>, a: ArrayRef) -> bool {
    crate::host::is_array_at(host, a.0.0 as int)
}

} // verus!
