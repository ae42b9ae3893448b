//! The stored item shape. The table is wide-column: every entity kind is
//! stored as one item drawn from a closed set of attributes. Absent
//! attributes are `None`; the primary key pair `PK`/`SK` is always present.
use vstd::prelude::*;

verus! {

/// The spec view of a stored item: every attribute as a plain value.
pub ghost struct ItemV {
    pub pk: Seq<char>,
    pub sk: Seq<char>,
    pub gsi1pk: Option<Seq<char>>,
    pub gsi1sk: Option<Seq<char>>,
    pub gsi2pk: Option<Seq<char>>,
    pub gsi2sk: Option<Seq<char>>,
    pub first_name: Option<Seq<char>>,
    pub last_name: Option<Seq<char>>,
    pub user_roles: Option<Seq<char>>,
    pub active: Option<bool>,
    pub hash: Option<Seq<char>>,
}

/// One stored item: the composite primary key, the two secondary-index
/// key pairs, and the scalar attributes the entity kinds use.
pub struct Item {
    pub pk: String,
    pub sk: String,
    pub gsi1pk: Option<String>,
    pub gsi1sk: Option<String>,
    pub gsi2pk: Option<String>,
    pub gsi2sk: Option<String>,
    pub first_name: Option<String>,
    pub last_name: Option<String>,
    pub user_roles: Option<String>,
    pub active: Option<bool>,
    pub hash: Option<String>,
}

/// The view of an optional string attribute.
pub open spec fn opt_view(o: Option<String>) -> Option<Seq<char>> {
    match o {
        Option::Some(s) => Option::Some(s@),
        Option::None => Option::None,
    }
}

impl View for Item {
    type V = ItemV;

    open spec fn view(&self) -> ItemV {
        ItemV {
            pk: self.pk@,
            sk: self.sk@,
            gsi1pk: opt_view(self.gsi1pk),
            gsi1sk: opt_view(self.gsi1sk),
            gsi2pk: opt_view(self.gsi2pk),
            gsi2sk: opt_view(self.gsi2sk),
            first_name: opt_view(self.first_name),
            last_name: opt_view(self.last_name),
            user_roles: opt_view(self.user_roles),
            active: self.active,
            hash: opt_view(self.hash),
        }
    }
}

fn clone_opt_string(o: &Option<String>) -> (r: Option<String>)
    ensures
        opt_view(r) == opt_view(*o),
{
    match o {
        Option::Some(s) => Option::Some(s.clone()),
        Option::None => Option::None,
    }
}

impl Clone for Item {
    /// Cloning keeps every attribute's value.
    fn clone(&self) -> (r: Self)
        ensures
            r@ == self@,
    {
        Item {
            pk: self.pk.clone(),
            sk: self.sk.clone(),
            gsi1pk: clone_opt_string(&self.gsi1pk),
            gsi1sk: clone_opt_string(&self.gsi1sk),
            gsi2pk: clone_opt_string(&self.gsi2pk),
            gsi2sk: clone_opt_string(&self.gsi2sk),
            first_name: clone_opt_string(&self.first_name),
            last_name: clone_opt_string(&self.last_name),
            user_roles: clone_opt_string(&self.user_roles),
            active: self.active,
            hash: clone_opt_string(&self.hash),
        }
    }
}

} // verus!
