//! Identifiers of the Move world, as far as the deny list speaks of them.
use vstd::prelude::*;

verus! {

/// The number of an epoch.
pub type EpochId = u64;

/// The identifier of an object.
#[derive(Clone, Copy, Debug, PartialEq, Eq)]
pub struct ObjectID {
    pub bytes: [u8; 32],
}

/// The address of an account.
#[derive(Clone, Copy, Debug, PartialEq, Eq)]
pub struct SuiAddress {
    pub bytes: [u8; 32],
}

/// The identifier that an object carries.
#[derive(Clone, Copy, Debug, PartialEq, Eq)]
pub struct UID {
    pub id: ObjectID,
}

impl View for ObjectID {
    type V = Seq<u8>;

    open spec fn view(&self) -> Seq<u8> {
        self.bytes@
    }
}

impl View for SuiAddress {
    type V = Seq<u8>;

    open spec fn view(&self) -> Seq<u8> {
        self.bytes@
    }
}

impl UID {
    /// The identifier itself.
    pub fn object_id(&self) -> (id: &ObjectID)
        ensures
            *id == self.id,
    {
        &self.id
    }
}

/// Whether two byte strings are the same.
pub(crate) fn same_bytes(a: &[u8], b: &[u8]) -> (same: bool)
    ensures
        same <==> a@ == b@,
{
    if a.len() != b.len() {
        return false;
    }
    let mut i: usize = 0;
    while i < a.len()
        invariant
            i <= a@.len(),
            a@.len() == b@.len(),
            forall|j: int| 0 <= j < i ==> a@[j] == b@[j],
        decreases a@.len() - i,
    {
        if a[i] != b[i] {
            return false;
        }
        i += 1;
    }
    assert(a@ =~= b@);
    true
}

/// A type of Move.
#[derive(Debug, PartialEq, Eq)]
pub enum TypeTag {
    Bool,
    U8,
    U64,
    U128,
    Address,
    Signer,
    Vector(Box<TypeTag>),
    Struct(Box<StructTag>),
    U16,
    U32,
    U256,
}

/// A struct type of Move: the address and the module that declare it, its name, and what it is
/// instantiated with.
#[derive(Debug, PartialEq, Eq)]
pub struct StructTag {
    pub address: [u8; 32],
    pub module: String,
    pub name: String,
    pub type_params: Vec<TypeTag>,
}

/// The address of the framework package, `0x2`.
pub open spec fn framework_address() -> Seq<u8> {
    Seq::new(32, |i: int| if i == 31 { 2u8 } else { 0u8 })
}

/// Whether a type is the struct `name`, without parameters, of the module `module` of the
/// framework.
pub open spec fn is_framework_struct(tag: TypeTag, module: Seq<char>, name: Seq<char>) -> bool {
    tag matches TypeTag::Struct(s) && {
        &&& s.address@ == framework_address()
        &&& s.module@ == module
        &&& s.name@ == name
        &&& s.type_params@.len() == 0
    }
}

/// A Rust type that stands for a type of Move.
pub trait MoveTypeTagTrait {
    /// The type of Move.
    fn get_type_tag() -> TypeTag;
}

/// The struct `name`, without parameters, of the module `module` of the framework.
pub(crate) fn framework_struct(module: &str, name: &str) -> (tag: TypeTag)
    ensures
        is_framework_struct(tag, module@, name@),
{
    let address: [u8; 32] = [
        0, 0, 0, 0, 0, 0, 0, 0, 0, 0, 0, 0, 0, 0, 0, 0, 0, 0, 0, 0, 0, 0, 0, 0, 0, 0, 0, 0, 0, 0, 0,
        2,
    ];
    assert(address@ =~= framework_address());
    TypeTag::Struct(
        Box::new(
            StructTag {
                address,
                module: module.to_owned(),
                name: name.to_owned(),
                type_params: Vec::new(),
            },
        ),
    )
}

/// Identifiers and addresses are told apart by their thirty-two bytes, all of them.
pub proof fn law_identifiers_are_their_bytes(
    id1: ObjectID,
    id2: ObjectID,
    address1: SuiAddress,
    address2: SuiAddress,
)
    ensures
        id1@ == id2@ <==> forall|i: int| 0 <= i < 32 ==> id1.bytes[i] == id2.bytes[i],
        address1@ == address2@ <==> forall|i: int|
            0 <= i < 32 ==> address1.bytes[i] == address2.bytes[i],
{
    if forall|i: int| 0 <= i < 32 ==> id1.bytes[i] == id2.bytes[i] {
        assert(id1@ =~= id2@);
    }
    if id1@ == id2@ {
        assert forall|i: int| 0 <= i < 32 implies id1.bytes[i] == id2.bytes[i] by {
            assert(id1@[i] == id2@[i]);
        }
    }
    if forall|i: int| 0 <= i < 32 ==> address1.bytes[i] == address2.bytes[i] {
        assert(address1@ =~= address2@);
    }
    if address1@ == address2@ {
        assert forall|i: int| 0 <= i < 32 implies address1.bytes[i] == address2.bytes[i] by {
            assert(address1@[i] == address2@[i]);
        }
    }
}

/// What an object carries is its identifier, to the last byte.
pub proof fn law_objects_carry_their_identifier(uid: UID, id: ObjectID)
    requires
        call_ensures(UID::object_id, (&uid,), &id),
    ensures
        id.bytes@ == uid.id.bytes@,
{
}

} // verus!
