use vstd::prelude::*;

verus! {

/// `uuid::Uuid`, carried as an opaque identifier.
#[verifier::external_type_specification]
#[verifier::external_body]
pub struct ExUuid(uuid::Uuid);

/// Relies on the derived `Clone` of `uuid::Uuid`, a `Copy` type: the clone is
/// the same identifier.
pub assume_specification[ <uuid::Uuid as Clone>::clone ](u: &uuid::Uuid) -> (r: uuid::Uuid)
    ensures
        r == *u,
;

/// An identity record: a unique identifier, a handle, a full name and the
/// name the person prefers to be shown.
#[derive(Clone, Debug, PartialEq, Eq)]
pub struct User {
    id: uuid::Uuid,
    pub handle: String,
    pub full_name: String,
    pub preferred_name: String,
}

impl User {
    /// The identifier, which is fixed once the record exists.
    pub closed spec fn spec_id(&self) -> uuid::Uuid {
        self.id
    }

    pub closed spec fn spec_handle(&self) -> Seq<char> {
        self.handle@
    }

    pub closed spec fn spec_full_name(&self) -> Seq<char> {
        self.full_name@
    }

    pub closed spec fn spec_preferred_name(&self) -> Seq<char> {
        self.preferred_name@
    }

    pub fn new(id: uuid::Uuid, handle: String, full_name: String, preferred_name: String) -> (r:
        User)
        ensures
            r.spec_id() == id,
            r.spec_handle() == handle@,
            r.spec_full_name() == full_name@,
            r.spec_preferred_name() == preferred_name@,
    {
        User { id, handle, full_name, preferred_name }
    }

    pub fn id(&self) -> (r: uuid::Uuid)
        ensures
            r == self.spec_id(),
    {
        self.id
    }
}

} // verus!
