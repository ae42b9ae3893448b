//! The access operations: the CRUD and relationship operations that
//! compose the key scheme and the codec into table requests and interpret
//! the responses. Each executable operation's result and state change are
//! pinned to a spec-level counterpart over the table state.
//!
//! `create_user` performs two independent point writes (the user item and
//! its email-alias pair); the pair is not written atomically, and against
//! a fallible backend a failure between the writes leaves the first one's
//! effect in place. That inconsistency window is documented behavior of
//! the layer, not something it detects or rolls back.
use vstd::prelude::*;

use crate::codec::{
    decode_alias, decode_org, decode_team, decode_user, encode_alias, encode_org,
    encode_org_member, encode_team, encode_team_member, encode_user, spec_decode_alias,
    spec_decode_org, spec_decode_team, spec_decode_user, spec_encode_alias, spec_encode_org,
    spec_encode_org_member, spec_encode_team, spec_encode_team_member, spec_encode_user,
};
use crate::entities::{Org, OrgV, Team, TeamV, User, UserV};
use crate::item::{Item, ItemV};
use crate::keys::{
    email_key, email_pk, memberorg_key, memberorg_pk, org_key, org_pk, orgname_key, orgname_pk,
    team_key, team_pk, team_type_pk, team_type_tag, user_key, user_pk,
};
use crate::table::{
    spec_delete, spec_get, spec_put, spec_query_gsi1, spec_query_gsi2, Table,
};
use crate::Error;

verus! {

/// The spec-level shadow of a user-returning result.
pub open spec fn user_res_view(r: Result<User, Error>) -> Result<UserV, Error> {
    match r {
        Result::Ok(u) => Result::Ok(u@),
        Result::Err(e) => Result::Err(e),
    }
}

/// The spec-level shadow of an org-returning result.
pub open spec fn org_res_view(r: Result<Org, Error>) -> Result<OrgV, Error> {
    match r {
        Result::Ok(o) => Result::Ok(o@),
        Result::Err(e) => Result::Err(e),
    }
}

/// The spec-level shadow of a team-returning result.
pub open spec fn team_res_view(r: Result<Team, Error>) -> Result<TeamV, Error> {
    match r {
        Result::Ok(t) => Result::Ok(t@),
        Result::Err(e) => Result::Err(e),
    }
}

/// The spec-level shadow of a team-collection result.
pub open spec fn teams_res_view(r: Result<Vec<Team>, Error>) -> Result<Seq<TeamV>, Error> {
    match r {
        Result::Ok(v) => Result::Ok(v@.map_values(|t: Team| t@)),
        Result::Err(e) => Result::Err(e),
    }
}

/// The table after `create_user`: the user item, then its email-alias
/// pair, written as two separate puts.
pub open spec fn spec_create_user(t: Seq<ItemV>, u: UserV) -> Seq<ItemV> {
    spec_put(spec_put(t, spec_encode_user(u)), spec_encode_alias(u.email, u.id))
}

/// The result of `get_user_by_id` on a given table state.
pub open spec fn spec_get_user_by_id(t: Seq<ItemV>, id: Seq<char>) -> Result<UserV, Error> {
    match spec_get(t, user_key(id), user_key(id)) {
        Option::None => Result::Err(Error::NotFound),
        Option::Some(iv) => match spec_decode_user(iv) {
            Option::Some(u) => Result::Ok(u),
            Option::None => Result::Err(Error::DecodeFailure),
        },
    }
}

/// The result of `get_user_by_email`: resolve the alias item, then read
/// the referenced user by id.
pub open spec fn spec_get_user_by_email(t: Seq<ItemV>, email: Seq<char>) -> Result<UserV, Error> {
    match spec_get(t, email_key(email), email_key(email)) {
        Option::None => Result::Err(Error::NotFound),
        Option::Some(iv) => match spec_decode_alias(iv) {
            Option::Some(a) => spec_get_user_by_id(t, a.user_id),
            Option::None => Result::Err(Error::DecodeFailure),
        },
    }
}

/// The table after `create_org`.
pub open spec fn spec_create_org(t: Seq<ItemV>, o: OrgV) -> Seq<ItemV> {
    spec_put(t, spec_encode_org(o))
}

/// The result of `get_org_by_id` on a given table state.
pub open spec fn spec_get_org_by_id(t: Seq<ItemV>, id: Seq<char>) -> Result<OrgV, Error> {
    match spec_get(t, org_key(id), org_key(id)) {
        Option::None => Result::Err(Error::NotFound),
        Option::Some(iv) => match spec_decode_org(iv) {
            Option::Some(o) => Result::Ok(o),
            Option::None => Result::Err(Error::DecodeFailure),
        },
    }
}

/// The result of `get_org_by_name`: an index query that must match
/// exactly one item. Zero matches are a legitimate absence; more than one
/// is an upstream invariant violation surfaced as a conflict.
pub open spec fn spec_get_org_by_name(t: Seq<ItemV>, name: Seq<char>) -> Result<OrgV, Error> {
    let ms = spec_query_gsi1(t, orgname_key(name));
    if ms.len() == 0 {
        Result::Err(Error::NotFound)
    } else if ms.len() > 1 {
        Result::Err(Error::Conflict)
    } else {
        match spec_decode_org(ms[0]) {
            Option::Some(o) => Result::Ok(o),
            Option::None => Result::Err(Error::DecodeFailure),
        }
    }
}

/// The table after `add_org_member`: the adjacency item is upserted, so
/// adding an existing membership overwrites identically.
pub open spec fn spec_add_org_member(t: Seq<ItemV>, org_id: Seq<char>, user_id: Seq<char>) -> Seq<
    ItemV,
> {
    spec_put(t, spec_encode_org_member(org_id, user_id))
}

/// The table after `remove_org_member`: an absence-tolerant delete. The
/// removal path keys by the `MEMBERORG#` prefix, as designed.
pub open spec fn spec_remove_org_member(
    t: Seq<ItemV>,
    org_id: Seq<char>,
    user_id: Seq<char>,
) -> Seq<ItemV> {
    spec_delete(t, memberorg_key(org_id), user_key(user_id))
}

/// The table after `delete_org`: only the root item goes; membership
/// items are deliberately not cascaded.
pub open spec fn spec_delete_org(t: Seq<ItemV>, id: Seq<char>) -> Seq<ItemV> {
    spec_delete(t, org_key(id), org_key(id))
}

/// The table after `create_team`.
pub open spec fn spec_create_team(t: Seq<ItemV>, tv: TeamV) -> Seq<ItemV> {
    spec_put(t, spec_encode_team(tv))
}

/// The result of `get_team_by_id` on a given table state.
pub open spec fn spec_get_team_by_id(t: Seq<ItemV>, id: Seq<char>) -> Result<TeamV, Error> {
    match spec_get(t, team_key(id), team_key(id)) {
        Option::None => Result::Err(Error::NotFound),
        Option::Some(iv) => match spec_decode_team(iv) {
            Option::Some(tv) => Result::Ok(tv),
            Option::None => Result::Err(Error::DecodeFailure),
        },
    }
}

/// The table after `add_team_member`.
pub open spec fn spec_add_team_member(
    t: Seq<ItemV>,
    team_id: Seq<char>,
    user_id: Seq<char>,
) -> Seq<ItemV> {
    spec_put(t, spec_encode_team_member(team_id, user_id))
}

/// The table after `remove_team_member`: the removal path keys by the
/// same `TEAM#` prefix the creation path uses.
pub open spec fn spec_remove_team_member(
    t: Seq<ItemV>,
    team_id: Seq<char>,
    user_id: Seq<char>,
) -> Seq<ItemV> {
    spec_delete(t, team_key(team_id), user_key(user_id))
}

/// The table after `delete_team`.
pub open spec fn spec_delete_team(t: Seq<ItemV>, id: Seq<char>) -> Seq<ItemV> {
    spec_delete(t, team_key(id), team_key(id))
}

/// The decode of a queried item collection as teams; one malformed item
/// fails the whole read.
pub open spec fn spec_decode_teams(ms: Seq<ItemV>) -> Option<Seq<TeamV>>
    decreases ms.len(),
{
    if ms.len() == 0 {
        Option::Some(Seq::empty())
    } else {
        match (spec_decode_teams(ms.drop_last()), spec_decode_team(ms.last())) {
            (Option::Some(pre), Option::Some(tv)) => Option::Some(pre.push(tv)),
            _ => Option::None,
        }
    }
}

/// The result of `get_teams`: every item tagged `TYPE#TEAM`, decoded. An
/// empty table gives an empty collection, not an error.
pub open spec fn spec_get_teams(t: Seq<ItemV>) -> Result<Seq<TeamV>, Error> {
    match spec_decode_teams(spec_query_gsi2(t, team_type_tag())) {
        Option::Some(ts) => Result::Ok(ts),
        Option::None => Result::Err(Error::DecodeFailure),
    }
}

fn decode_teams_to(items: &Vec<Item>, n: usize) -> (r: Option<Vec<Team>>)
    requires
        n <= items.len(),
    ensures
        match (r, spec_decode_teams(items@.map_values(|i: Item| i@).take(n as int))) {
            (Option::Some(v), Option::Some(g)) => v@.map_values(|t: Team| t@) == g,
            (Option::None, Option::None) => true,
            _ => false,
        },
    decreases n,
{
    let ghost views = items@.map_values(|i: Item| i@);
    if n == 0 {
        let v: Vec<Team> = Vec::new();
        proof {
            assert(views.take(0) =~= Seq::<ItemV>::empty());
            assert(v@.map_values(|t: Team| t@) =~= Seq::<TeamV>::empty());
        }
        Option::Some(v)
    } else {
        proof {
            assert(views.take(n as int).drop_last() =~= views.take(n - 1));
            assert(views.take(n as int).last() == views[n - 1]);
        }
        match decode_teams_to(items, n - 1) {
            Option::None => Option::None,
            Option::Some(mut pre) => {
                let ghost prev = pre@.map_values(|t: Team| t@);
                match decode_team(&items[n - 1]) {
                    Result::Err(_) => Option::None,
                    Result::Ok(tv) => {
                        pre.push(tv);
                        proof {
                            assert(pre@.map_values(|t: Team| t@) =~= prev.push(tv@));
                        }
                        Option::Some(pre)
                    },
                }
            },
        }
    }
}

impl Table {
    /// Writes the user item and its paired email-alias item as two
    /// independent point writes.
    pub fn create_user(&mut self, user: &User) -> (r: Result<(), Error>)
        ensures
            r is Ok,
            final(self).contents() == spec_create_user(old(self).contents(), user@),
    {
        self.put(encode_user(user));
        self.put(encode_alias(user.email.as_str(), user.id.as_str()));
        Result::Ok(())
    }

    /// Point read of a user by id; absence is `NotFound`.
    pub fn get_user_by_id(&self, id: &str) -> (r: Result<User, Error>)
        ensures
            user_res_view(r) == spec_get_user_by_id(self.contents(), id@),
    {
        let pk = user_pk(id);
        match self.get(pk.as_str(), pk.as_str()) {
            Option::None => Result::Err(Error::NotFound),
            Option::Some(item) => decode_user(item),
        }
    }

    /// Two sequential point reads: the alias item by email, then the
    /// referenced user by id.
    pub fn get_user_by_email(&self, email: &str) -> (r: Result<User, Error>)
        ensures
            user_res_view(r) == spec_get_user_by_email(self.contents(), email@),
    {
        let pk = email_pk(email);
        match self.get(pk.as_str(), pk.as_str()) {
            Option::None => Result::Err(Error::NotFound),
            Option::Some(item) => match decode_alias(item) {
                Result::Err(e) => Result::Err(e),
                Result::Ok(alias) => self.get_user_by_id(alias.user_id.as_str()),
            },
        }
    }

    /// Single point write of the org item.
    pub fn create_org(&mut self, org: &Org) -> (r: Result<(), Error>)
        ensures
            r is Ok,
            final(self).contents() == spec_create_org(old(self).contents(), org@),
    {
        self.put(encode_org(org));
        Result::Ok(())
    }

    /// Point read of an org by id; absence is `NotFound`.
    pub fn get_org_by_id(&self, id: &str) -> (r: Result<Org, Error>)
        ensures
            org_res_view(r) == spec_get_org_by_id(self.contents(), id@),
    {
        let pk = org_pk(id);
        match self.get(pk.as_str(), pk.as_str()) {
            Option::None => Result::Err(Error::NotFound),
            Option::Some(item) => decode_org(item),
        }
    }

    /// GSI1 query by org name; exactly one match is the success path,
    /// zero is `NotFound`, more than one is `Conflict`.
    pub fn get_org_by_name(&self, name: &str) -> (r: Result<Org, Error>)
        ensures
            org_res_view(r) == spec_get_org_by_name(self.contents(), name@),
    {
        let q = orgname_pk(name);
        let ms = self.query_gsi1(q.as_str());
        if ms.len() == 0 {
            Result::Err(Error::NotFound)
        } else if ms.len() > 1 {
            Result::Err(Error::Conflict)
        } else {
            decode_org(&ms[0])
        }
    }

    /// Upserts the org-membership adjacency item; adding an existing
    /// membership overwrites identically.
    pub fn add_org_member(&mut self, org: &Org, user: &User) -> (r: Result<(), Error>)
        ensures
            r is Ok,
            final(self).contents() == spec_add_org_member(
                old(self).contents(),
                org@.id,
                user@.id,
            ),
    {
        self.put(encode_org_member(org.id.as_str(), user.id.as_str()));
        Result::Ok(())
    }

    /// Deletes the org-membership adjacency item under the removal-path
    /// key; removing an absent membership is a no-op success.
    pub fn remove_org_member(&mut self, org: &Org, user: &User) -> (r: Result<(), Error>)
        ensures
            r is Ok,
            final(self).contents() == spec_remove_org_member(
                old(self).contents(),
                org@.id,
                user@.id,
            ),
    {
        let pk = memberorg_pk(org.id.as_str());
        let sk = user_pk(user.id.as_str());
        self.delete(pk.as_str(), sk.as_str());
        Result::Ok(())
    }

    /// Deletes only the root org item; memberships are not cascaded.
    pub fn delete_org(&mut self, id: &str) -> (r: Result<(), Error>)
        ensures
            r is Ok,
            final(self).contents() == spec_delete_org(old(self).contents(), id@),
    {
        let pk = org_pk(id);
        self.delete(pk.as_str(), pk.as_str());
        Result::Ok(())
    }

    /// Single point write of the team item, tagged for the GSI2 listing.
    pub fn create_team(&mut self, team: &Team) -> (r: Result<(), Error>)
        ensures
            r is Ok,
            final(self).contents() == spec_create_team(old(self).contents(), team@),
    {
        self.put(encode_team(team));
        Result::Ok(())
    }

    /// GSI2 scan for the `TYPE#TEAM` tag; an empty table gives an empty
    /// collection, never an error.
    pub fn get_teams(&self) -> (r: Result<Vec<Team>, Error>)
        ensures
            teams_res_view(r) == spec_get_teams(self.contents()),
    {
        let tag = team_type_pk();
        let items = self.query_gsi2(tag.as_str());
        let n = items.len();
        proof {
            assert(items@.map_values(|i: Item| i@).take(n as int) =~= items@.map_values(
                |i: Item| i@,
            ));
        }
        match decode_teams_to(&items, n) {
            Option::Some(v) => Result::Ok(v),
            Option::None => Result::Err(Error::DecodeFailure),
        }
    }

    /// Point read of a team by id; absence is `NotFound`.
    pub fn get_team_by_id(&self, id: &str) -> (r: Result<Team, Error>)
        ensures
            team_res_view(r) == spec_get_team_by_id(self.contents(), id@),
    {
        let pk = team_pk(id);
        match self.get(pk.as_str(), pk.as_str()) {
            Option::None => Result::Err(Error::NotFound),
            Option::Some(item) => decode_team(item),
        }
    }

    /// Upserts the team-membership adjacency item.
    pub fn add_team_member(&mut self, team: &Team, user: &User) -> (r: Result<(), Error>)
        ensures
            r is Ok,
            final(self).contents() == spec_add_team_member(
                old(self).contents(),
                team@.id,
                user@.id,
            ),
    {
        self.put(encode_team_member(team.id.as_str(), user.id.as_str()));
        Result::Ok(())
    }

    /// Deletes the team-membership adjacency item; removing an absent
    /// membership is a no-op success.
    pub fn remove_team_member(&mut self, team: &Team, user: &User) -> (r: Result<(), Error>)
        ensures
            r is Ok,
            final(self).contents() == spec_remove_team_member(
                old(self).contents(),
                team@.id,
                user@.id,
            ),
    {
        let pk = team_pk(team.id.as_str());
        let sk = user_pk(user.id.as_str());
        self.delete(pk.as_str(), sk.as_str());
        Result::Ok(())
    }

    /// Deletes only the root team item; memberships are not cascaded.
    pub fn delete_team(&mut self, id: &str) -> (r: Result<(), Error>)
        ensures
            r is Ok,
            final(self).contents() == spec_delete_team(old(self).contents(), id@),
    {
        let pk = team_pk(id);
        self.delete(pk.as_str(), pk.as_str());
        Result::Ok(())
    }
}

} // verus!
