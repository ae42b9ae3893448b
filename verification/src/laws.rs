//! Laws of the layer: properties relating several operations, proved over
//! the spec-level operations that every executable operation is pinned to.
use vstd::prelude::*;

use crate::codec::{
    lemma_alias_round_trip, lemma_org_round_trip, lemma_team_round_trip, lemma_user_round_trip,
    spec_decode_org, spec_encode_alias, spec_encode_org, spec_encode_org_member,
    spec_encode_team, spec_encode_user,
};
use crate::entities::{OrgV, TeamV, UserV};
use crate::item::ItemV;
use crate::keys::{
    email_key, memberorg_key, org_key, orgname_key, team_key, user_key,
};
use crate::ops::{
    spec_add_org_member, spec_create_org, spec_create_team, spec_create_user, spec_delete_org,
    spec_get_org_by_id, spec_get_org_by_name, spec_get_team_by_id, spec_get_teams,
    spec_get_user_by_id, spec_get_user_by_email, spec_remove_org_member,
    spec_add_team_member, spec_remove_team_member,
};
use crate::table::{
    lemma_delete_absent, lemma_delete_idempotent, lemma_delete_items_subset, lemma_get_delete,
    lemma_get_none_iff, lemma_get_put, lemma_query_gsi1_none, spec_delete, spec_get, spec_put,
    spec_query_gsi1, stored_in,
};
use crate::Error;

verus! {

/// No item carries the given key pair.
pub open spec fn key_absent(t: Seq<ItemV>, pk: Seq<char>, sk: Seq<char>) -> bool {
    forall|j: int| 0 <= j < t.len() ==> !(#[trigger] t[j].pk == pk && t[j].sk == sk)
}

proof fn lemma_user_email_keys_distinct(a: Seq<char>, b: Seq<char>)
    ensures
        user_key(a) != email_key(b),
{
    reveal_strlit("USER#");
    reveal_strlit("EMAIL#");
    assert(user_key(a)[0] == 'U');
    assert(email_key(b)[0] == 'E');
}

proof fn lemma_org_user_keys_distinct(a: Seq<char>, b: Seq<char>)
    ensures
        org_key(a) != user_key(b),
{
    reveal_strlit("ORG#");
    reveal_strlit("USER#");
    assert(org_key(a)[0] == 'O');
    assert(user_key(b)[0] == 'U');
}

/// After `create_user`, reading the user back by id returns an entity
/// equal to the input on every stored field, and reading by email
/// resolves through the alias pair to the same user.
pub proof fn lemma_create_user_then_get(t: Seq<ItemV>, u: UserV)
    ensures
        spec_get_user_by_id(spec_create_user(t, u), u.id) == Result::<UserV, Error>::Ok(u),
        spec_get_user_by_email(spec_create_user(t, u), u.email) == Result::<UserV, Error>::Ok(u),
{
    let ui = spec_encode_user(u);
    let ai = spec_encode_alias(u.email, u.id);
    let t1 = spec_put(t, ui);
    let t2 = spec_put(t1, ai);
    lemma_user_email_keys_distinct(u.id, u.email);
    lemma_get_put(t1, ai, user_key(u.id), user_key(u.id));
    lemma_get_put(t, ui, user_key(u.id), user_key(u.id));
    lemma_user_round_trip(u);
    lemma_get_put(t1, ai, email_key(u.email), email_key(u.email));
    lemma_alias_round_trip(u.email, u.id);
}

/// Reading a user by an id that no stored item carries returns
/// `NotFound`.
pub proof fn lemma_get_user_by_id_absent(t: Seq<ItemV>, id: Seq<char>)
    requires
        key_absent(t, user_key(id), user_key(id)),
    ensures
        spec_get_user_by_id(t, id) == Result::<UserV, Error>::Err(Error::NotFound),
{
    lemma_get_none_iff(t, user_key(id), user_key(id));
}

/// After `add_org_member`, the adjacency item is present under the
/// creation-path key pair, so a membership-presence check succeeds.
pub proof fn lemma_add_org_member_present(t: Seq<ItemV>, org_id: Seq<char>, user_id: Seq<char>)
    ensures
        spec_get(spec_add_org_member(t, org_id, user_id), org_key(org_id), user_key(user_id))
            == Option::Some(spec_encode_org_member(org_id, user_id)),
{
    lemma_get_put(t, spec_encode_org_member(org_id, user_id), org_key(org_id), user_key(user_id));
}

/// Removing a membership that was never added is a no-op: the table is
/// unchanged.
pub proof fn lemma_remove_org_member_noop(t: Seq<ItemV>, org_id: Seq<char>, user_id: Seq<char>)
    requires
        key_absent(t, memberorg_key(org_id), user_key(user_id)),
    ensures
        spec_remove_org_member(t, org_id, user_id) == t,
{
    lemma_get_none_iff(t, memberorg_key(org_id), user_key(user_id));
    lemma_delete_absent(t, memberorg_key(org_id), user_key(user_id));
}

/// Removal is a fixed point: removing twice is the same as removing
/// once.
pub proof fn lemma_remove_org_member_idempotent(
    t: Seq<ItemV>,
    org_id: Seq<char>,
    user_id: Seq<char>,
)
    ensures
        spec_remove_org_member(spec_remove_org_member(t, org_id, user_id), org_id, user_id)
            == spec_remove_org_member(t, org_id, user_id),
{
    lemma_delete_idempotent(t, memberorg_key(org_id), user_key(user_id));
}

/// The three outcomes of `get_org_by_name`: zero matches are `NotFound`,
/// several matches are `Conflict`, and a single match is returned as
/// decoded.
pub proof fn lemma_get_org_by_name_cases(t: Seq<ItemV>, name: Seq<char>)
    ensures
        spec_query_gsi1(t, orgname_key(name)).len() == 0 ==> spec_get_org_by_name(t, name)
            == Result::<OrgV, Error>::Err(Error::NotFound),
        spec_query_gsi1(t, orgname_key(name)).len() > 1 ==> spec_get_org_by_name(t, name)
            == Result::<OrgV, Error>::Err(Error::Conflict),
{
}

/// The success path of `get_org_by_name`: when the name query matches
/// exactly one item and that item decodes as an org, that org is
/// returned.
pub proof fn lemma_get_org_by_name_unique(t: Seq<ItemV>, name: Seq<char>, o: OrgV)
    requires
        spec_query_gsi1(t, orgname_key(name)).len() == 1,
        spec_decode_org(spec_query_gsi1(t, orgname_key(name))[0]) == Option::Some(o),
    ensures
        spec_get_org_by_name(t, name) == Result::<OrgV, Error>::Ok(o),
{
}

/// After `create_org` into a table with no item under the org's name
/// key, `get_org_by_name` returns exactly that org.
pub proof fn lemma_create_org_then_get_by_name(t: Seq<ItemV>, o: OrgV)
    requires
        forall|j: int| 0 <= j < t.len() ==> #[trigger] t[j].gsi1pk != Option::Some(
            orgname_key(o.name),
        ),
    ensures
        spec_get_org_by_name(spec_create_org(t, o), o.name) == Result::<OrgV, Error>::Ok(o),
{
    let oi = spec_encode_org(o);
    let q = orgname_key(o.name);
    let d = spec_delete(t, oi.pk, oi.sk);
    lemma_delete_items_subset(t, oi.pk, oi.sk);
    assert forall|j: int| 0 <= j < d.len() implies #[trigger] d[j].gsi1pk != Option::Some(q) by {
        assert(stored_in(d[j], t));
        let m = choose|m: int| 0 <= m < t.len() && t[m] == d[j];
        assert(t[m].gsi1pk != Option::Some(q));
    }
    lemma_query_gsi1_none(d, q);
    let created = d.push(oi);
    assert(created.drop_last() =~= d);
    assert(created.last() == oi);
    assert(spec_query_gsi1(created, q) == Seq::<ItemV>::empty().push(oi));
    assert(spec_query_gsi1(created, q).len() == 1);
    assert(spec_query_gsi1(created, q)[0] == oi);
    lemma_org_round_trip(o);
}

/// After `create_org`, reading the org back by id returns it.
pub proof fn lemma_create_org_then_get_by_id(t: Seq<ItemV>, o: OrgV)
    ensures
        spec_get_org_by_id(spec_create_org(t, o), o.id) == Result::<OrgV, Error>::Ok(o),
{
    lemma_get_put(t, spec_encode_org(o), org_key(o.id), org_key(o.id));
    lemma_org_round_trip(o);
}

/// After `delete_org`, reading the org by id returns `NotFound`.
pub proof fn lemma_delete_org_then_get_by_id(t: Seq<ItemV>, id: Seq<char>)
    ensures
        spec_get_org_by_id(spec_delete_org(t, id), id) == Result::<OrgV, Error>::Err(
            Error::NotFound,
        ),
{
    lemma_get_delete(t, org_key(id), org_key(id), org_key(id), org_key(id));
}

/// `delete_org` does not cascade: a membership adjacency item under the
/// org survives the delete of the root org item.
pub proof fn lemma_delete_org_no_cascade(t: Seq<ItemV>, org_id: Seq<char>, user_id: Seq<char>)
    ensures
        spec_get(spec_delete_org(t, org_id), org_key(org_id), user_key(user_id)) == spec_get(
            t,
            org_key(org_id),
            user_key(user_id),
        ),
{
    lemma_org_user_keys_distinct(org_id, user_id);
    lemma_get_delete(t, org_key(org_id), org_key(org_id), org_key(org_id), user_key(user_id));
}

/// Team membership removal addresses the same key pair the creation
/// path writes: after adding and then removing a team membership, the
/// adjacency item is gone.
pub proof fn lemma_add_then_remove_team_member(
    t: Seq<ItemV>,
    team_id: Seq<char>,
    user_id: Seq<char>,
)
    ensures
        spec_get(
            spec_remove_team_member(spec_add_team_member(t, team_id, user_id), team_id, user_id),
            team_key(team_id),
            user_key(user_id),
        ) is None,
{
    lemma_get_delete(
        spec_add_team_member(t, team_id, user_id),
        team_key(team_id),
        user_key(user_id),
        team_key(team_id),
        user_key(user_id),
    );
}

/// After `create_team`, reading the team back by id returns it.
pub proof fn lemma_create_team_then_get_by_id(t: Seq<ItemV>, tv: TeamV)
    ensures
        spec_get_team_by_id(spec_create_team(t, tv), tv.id) == Result::<TeamV, Error>::Ok(tv),
{
    lemma_get_put(t, spec_encode_team(tv), team_key(tv.id), team_key(tv.id));
    lemma_team_round_trip(tv);
}

/// `get_teams` on the empty table returns the empty collection, not an
/// error.
pub proof fn lemma_get_teams_empty()
    ensures
        spec_get_teams(Seq::<ItemV>::empty()) == Result::<Seq<TeamV>, Error>::Ok(
            Seq::<TeamV>::empty(),
        ),
{
}

} // verus!
