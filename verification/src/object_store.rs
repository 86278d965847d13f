//! The objects that the deny list is read from.
use vstd::prelude::*;
use crate::move_types::ObjectID;

verus! {

/// A name of a dynamic field.
pub trait FieldName: View + Sized {
    /// Whether two names are the same.
    fn same(&self, other: &Self) -> (same: bool)
        ensures
            same <==> self@ == other@,
    ;
}

/// The dynamic fields with names of one type and values of one type, of any number of objects.
///
/// A field that does not exist, or whose contents are not a value of the type, is not here.
#[derive(Clone, Debug)]
pub struct FieldTable<K, V> {
    entries: Vec<(ObjectID, K, V)>,
}

/// The fields that a list of entries leaves behind, the later ones in place of the earlier.
spec fn fields_of<K: View, V>(entries: Seq<(ObjectID, K, V)>) -> Map<(Seq<u8>, K::V), V>
    decreases entries.len(),
{
    if entries.len() == 0 {
        Map::empty()
    } else {
        let entry = entries.last();
        fields_of(entries.drop_last()).insert((entry.0@, entry.1@), entry.2)
    }
}

impl<K: View, V> View for FieldTable<K, V> {
    type V = Map<(Seq<u8>, K::V), V>;

    closed spec fn view(&self) -> Map<(Seq<u8>, K::V), V> {
        fields_of(self.entries@)
    }
}

impl<K: FieldName, V> FieldTable<K, V> {
    /// No fields.
    pub fn new() -> (table: Self)
        ensures
            table@ == Map::<(Seq<u8>, K::V), V>::empty(),
    {
        FieldTable { entries: Vec::new() }
    }

    /// Puts a field of the object `parent` in the table.
    pub fn insert(&mut self, parent: ObjectID, name: K, value: V)
        ensures
            final(self)@ == old(self)@.insert((parent@, name@), value),
    {
        self.entries.push((parent, name, value));
        assert(self.entries@.drop_last() =~= old(self).entries@);
    }

    /// The field `name` of the object `parent`.
    pub fn get(&self, parent: &ObjectID, name: &K) -> (value: Option<&V>)
        ensures
            match value {
                Some(v) => self@.contains_key((parent@, name@)) && self@[(parent@, name@)] == *v,
                None => !self@.contains_key((parent@, name@)),
            },
    {
        let mut i: usize = self.entries.len();
        assert(self.entries@.take(i as int) =~= self.entries@);
        while i > 0
            invariant
                i <= self.entries@.len(),
                fields_of(self.entries@.take(i as int)).contains_key((parent@, name@))
                    == self@.contains_key((parent@, name@)),
                self@.contains_key((parent@, name@)) ==> fields_of(
                    self.entries@.take(i as int),
                )[(parent@, name@)] == self@[(parent@, name@)],
            decreases i,
        {
            let ghost upto = self.entries@.take(i as int);
            i -= 1;
            assert(upto.drop_last() =~= self.entries@.take(i as int));
            assert(upto.last() == self.entries@[i as int]);
            let entry = &self.entries[i];
            if crate::move_types::same_bytes(entry.0.bytes.as_slice(), parent.bytes.as_slice())
                && entry.1.same(name) {
                return Some(&entry.2);
            }
        }
        assert(self.entries@.take(0) =~= Seq::empty());
        None
    }
}

/// A name of a dynamic field that holds an object, in the form in which it is stored.
#[derive(Clone, Debug, PartialEq, Eq)]
pub struct DOFWrapper<N> {
    pub name: N,
}

impl<N: View> View for DOFWrapper<N> {
    type V = N::V;

    open spec fn view(&self) -> N::V {
        self.name@
    }
}

impl<N: FieldName> FieldName for DOFWrapper<N> {
    fn same(&self, other: &Self) -> (same: bool) {
        self.name.same(&other.name)
    }
}

/// What is found is the field of that object under that name, and nothing is found only where
/// there is no such field.
pub proof fn law_fields_are_found_by_object_and_name<K: FieldName, V>(
    table: FieldTable<K, V>,
    parent: ObjectID,
    name: K,
    value: Option<&V>,
)
    requires
        call_ensures(FieldTable::<K, V>::get, (&table, &parent, &name), value),
    ensures
        value is Some <==> table@.contains_key((parent.bytes@, name@)),
        value matches Some(v) ==> table@[(parent.bytes@, name@)] == *v,
{
}

/// A wrapped name is the same name.
pub proof fn law_wrapping_keeps_the_name<N: FieldName>(
    a: DOFWrapper<N>,
    b: DOFWrapper<N>,
    same: bool,
)
    requires
        call_ensures(<DOFWrapper<N> as FieldName>::same, (&a, &b), same),
    ensures
        same <==> a.name@ == b.name@,
{
}

} // verus!
