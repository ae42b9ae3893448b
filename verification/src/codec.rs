//! The entity codec: bidirectional conversion between domain entities and
//! the stored item shape, one pair per entity kind. Encoding is total;
//! decoding is total under the precondition that the item was produced by
//! a prior encode of the same kind, and any other item is rejected as a
//! decode failure rather than interpreted.
use vstd::prelude::*;

use crate::entities::{EmailAlias, EmailAliasV, Org, OrgV, Roles, Team, TeamV, User, UserV};
use crate::item::{Item, ItemV};
use crate::keys::{
    email_key, email_pk, org_key, org_pk, orgname_key, orgname_pk, superuser_pk, superuser_tag,
    team_key, team_pk, team_type_pk, team_type_tag, teamname_key, teamname_pk, user_key, user_pk,
};
use crate::roles::{encode_roles, parse_roles, spec_encode_roles, spec_parse_roles};
use crate::roles::lemma_roles_round_trip;
use crate::Error;

verus! {

/// Whether `p` is a prefix of `s`.
pub open spec fn has_prefix(s: Seq<char>, p: Seq<char>) -> bool {
    s.len() >= p.len() && s.subrange(0, p.len() as int) == p
}

/// The remainder of `s` after a prefix of the length of `p`.
pub open spec fn strip_key(s: Seq<char>, p: Seq<char>) -> Seq<char> {
    s.subrange(p.len() as int, s.len() as int)
}

proof fn lemma_prefix_round(p: Seq<char>, rest: Seq<char>)
    ensures
        has_prefix(p + rest, p),
        strip_key(p + rest, p) == rest,
{
    assert((p + rest).subrange(0, p.len() as int) =~= p);
    assert((p + rest).subrange(p.len() as int, (p + rest).len() as int) =~= rest);
}

fn strip_prefix(s: &str, p: &str) -> (r: Option<String>)
    ensures
        match r {
            Option::Some(t) => has_prefix(s@, p@) && t@ == strip_key(s@, p@),
            Option::None => !has_prefix(s@, p@),
        },
{
    let n = p.unicode_len();
    let m = s.unicode_len();
    if m < n {
        Option::None
    } else {
        let head = s.substring_char(0, n);
        if head.to_owned() == p.to_owned() {
            Option::Some(s.substring_char(n, m).to_owned())
        } else {
            Option::None
        }
    }
}

// --- users ---

/// The stored form of a user: keyed `USER#<id>`, indexed in GSI1 by
/// `EMAIL#<email>`, tagged in GSI2 when the roles contain the superuser
/// role, with the scalar fields denormalized alongside.
pub open spec fn spec_encode_user(u: UserV) -> ItemV {
    ItemV {
        pk: user_key(u.id),
        sk: user_key(u.id),
        gsi1pk: Option::Some(email_key(u.email)),
        gsi1sk: Option::Some(email_key(u.email)),
        gsi2pk: if Roles::spec_has_superuser(u.roles) {
            Option::Some(superuser_tag())
        } else {
            Option::None
        },
        gsi2sk: if Roles::spec_has_superuser(u.roles) {
            Option::Some(superuser_tag())
        } else {
            Option::None
        },
        first_name: Option::Some(u.first_name),
        last_name: Option::Some(u.last_name),
        user_roles: Option::Some(spec_encode_roles(u.roles)),
        active: Option::Some(u.active),
        hash: Option::Some(u.hash),
    }
}

/// The user an item denotes, if it has the expected shape.
pub open spec fn spec_decode_user(iv: ItemV) -> Option<UserV> {
    match (iv.gsi1pk, iv.first_name, iv.last_name, iv.user_roles, iv.active, iv.hash) {
        (
            Option::Some(g),
            Option::Some(first_name),
            Option::Some(last_name),
            Option::Some(roles_attr),
            Option::Some(active),
            Option::Some(hash),
        ) => {
            if has_prefix(iv.pk, "USER#"@) && iv.sk == iv.pk && has_prefix(g, "EMAIL#"@) {
                match spec_parse_roles(roles_attr) {
                    Option::Some(rs) => Option::Some(
                        UserV {
                            id: strip_key(iv.pk, "USER#"@),
                            email: strip_key(g, "EMAIL#"@),
                            first_name,
                            last_name,
                            roles: rs,
                            active,
                            hash,
                        },
                    ),
                    Option::None => Option::None,
                }
            } else {
                Option::None
            }
        },
        _ => Option::None,
    }
}

/// Builds the stored item of a user.
pub fn encode_user(u: &User) -> (r: Item)
    ensures
        r@ == spec_encode_user(u@),
{
    let pk = user_pk(u.id.as_str());
    let email = email_pk(u.email.as_str());
    let superuser = u.roles.has_superuser();
    Item {
        pk: pk.clone(),
        sk: pk,
        gsi1pk: Option::Some(email.clone()),
        gsi1sk: Option::Some(email),
        gsi2pk: if superuser {
            Option::Some(superuser_pk())
        } else {
            Option::None
        },
        gsi2sk: if superuser {
            Option::Some(superuser_pk())
        } else {
            Option::None
        },
        first_name: Option::Some(u.first_name.clone()),
        last_name: Option::Some(u.last_name.clone()),
        user_roles: Option::Some(encode_roles(&u.roles)),
        active: Option::Some(u.active),
        hash: Option::Some(u.hash.clone()),
    }
}

/// Reads a user back out of a stored item.
pub fn decode_user(item: &Item) -> (r: Result<User, Error>)
    ensures
        match (r, spec_decode_user(item@)) {
            (Result::Ok(u), Option::Some(uv)) => u@ == uv,
            (Result::Err(e), Option::None) => e == Error::DecodeFailure,
            _ => false,
        },
{
    let id = match strip_prefix(item.pk.as_str(), "USER#") {
        Option::Some(s) => s,
        Option::None => {
            return Result::Err(Error::DecodeFailure);
        },
    };
    if !(item.sk == item.pk) {
        return Result::Err(Error::DecodeFailure);
    }
    let email = match &item.gsi1pk {
        Option::Some(g) => match strip_prefix(g.as_str(), "EMAIL#") {
            Option::Some(s) => s,
            Option::None => {
                return Result::Err(Error::DecodeFailure);
            },
        },
        Option::None => {
            return Result::Err(Error::DecodeFailure);
        },
    };
    let first_name = match &item.first_name {
        Option::Some(s) => s.clone(),
        Option::None => {
            return Result::Err(Error::DecodeFailure);
        },
    };
    let last_name = match &item.last_name {
        Option::Some(s) => s.clone(),
        Option::None => {
            return Result::Err(Error::DecodeFailure);
        },
    };
    let roles = match &item.user_roles {
        Option::Some(s) => match parse_roles(s.as_str()) {
            Option::Some(rs) => rs,
            Option::None => {
                return Result::Err(Error::DecodeFailure);
            },
        },
        Option::None => {
            return Result::Err(Error::DecodeFailure);
        },
    };
    let active = match item.active {
        Option::Some(b) => b,
        Option::None => {
            return Result::Err(Error::DecodeFailure);
        },
    };
    let hash = match &item.hash {
        Option::Some(s) => s.clone(),
        Option::None => {
            return Result::Err(Error::DecodeFailure);
        },
    };
    Result::Ok(User { id, email, first_name, last_name, roles, active, hash })
}

/// Round trip of the user codec: decoding the encoding of any user gives
/// back exactly that user, on every field the codec stores.
pub proof fn lemma_user_round_trip(u: UserV)
    ensures
        spec_decode_user(spec_encode_user(u)) == Option::Some(u),
{
    lemma_prefix_round("USER#"@, u.id);
    lemma_prefix_round("EMAIL#"@, u.email);
    lemma_roles_round_trip(u.roles);
}

// --- email aliases ---

/// The stored form of an email alias: keyed `EMAIL#<email>`, pointing back
/// at `USER#<id>` through GSI1.
pub open spec fn spec_encode_alias(email: Seq<char>, user_id: Seq<char>) -> ItemV {
    ItemV {
        pk: email_key(email),
        sk: email_key(email),
        gsi1pk: Option::Some(user_key(user_id)),
        gsi1sk: Option::Some(user_key(user_id)),
        gsi2pk: Option::None,
        gsi2sk: Option::None,
        first_name: Option::None,
        last_name: Option::None,
        user_roles: Option::None,
        active: Option::None,
        hash: Option::None,
    }
}

/// The email alias an item denotes, if it has the expected shape.
pub open spec fn spec_decode_alias(iv: ItemV) -> Option<EmailAliasV> {
    match iv.gsi1pk {
        Option::Some(g) => {
            if has_prefix(iv.pk, "EMAIL#"@) && iv.sk == iv.pk && has_prefix(g, "USER#"@) {
                Option::Some(
                    EmailAliasV {
                        email: strip_key(iv.pk, "EMAIL#"@),
                        user_id: strip_key(g, "USER#"@),
                    },
                )
            } else {
                Option::None
            }
        },
        Option::None => Option::None,
    }
}

/// Builds the stored item of an email alias.
pub fn encode_alias(email: &str, user_id: &str) -> (r: Item)
    ensures
        r@ == spec_encode_alias(email@, user_id@),
{
    let pk = email_pk(email);
    let target = user_pk(user_id);
    Item {
        pk: pk.clone(),
        sk: pk,
        gsi1pk: Option::Some(target.clone()),
        gsi1sk: Option::Some(target),
        gsi2pk: Option::None,
        gsi2sk: Option::None,
        first_name: Option::None,
        last_name: Option::None,
        user_roles: Option::None,
        active: Option::None,
        hash: Option::None,
    }
}

/// Reads an email alias back out of a stored item.
pub fn decode_alias(item: &Item) -> (r: Result<EmailAlias, Error>)
    ensures
        match (r, spec_decode_alias(item@)) {
            (Result::Ok(a), Option::Some(av)) => a@ == av,
            (Result::Err(e), Option::None) => e == Error::DecodeFailure,
            _ => false,
        },
{
    let email = match strip_prefix(item.pk.as_str(), "EMAIL#") {
        Option::Some(s) => s,
        Option::None => {
            return Result::Err(Error::DecodeFailure);
        },
    };
    if !(item.sk == item.pk) {
        return Result::Err(Error::DecodeFailure);
    }
    let user_id = match &item.gsi1pk {
        Option::Some(g) => match strip_prefix(g.as_str(), "USER#") {
            Option::Some(s) => s,
            Option::None => {
                return Result::Err(Error::DecodeFailure);
            },
        },
        Option::None => {
            return Result::Err(Error::DecodeFailure);
        },
    };
    Result::Ok(EmailAlias { email, user_id })
}

/// Round trip of the alias codec.
pub proof fn lemma_alias_round_trip(email: Seq<char>, user_id: Seq<char>)
    ensures
        spec_decode_alias(spec_encode_alias(email, user_id)) == Option::Some(
            EmailAliasV { email, user_id },
        ),
{
    lemma_prefix_round("EMAIL#"@, email);
    lemma_prefix_round("USER#"@, user_id);
}

// --- organizations ---

/// The stored form of an organization: keyed `ORG#<id>`, indexed in GSI1
/// by `ORGNAME#<name>`.
pub open spec fn spec_encode_org(o: OrgV) -> ItemV {
    ItemV {
        pk: org_key(o.id),
        sk: org_key(o.id),
        gsi1pk: Option::Some(orgname_key(o.name)),
        gsi1sk: Option::Some(orgname_key(o.name)),
        gsi2pk: Option::None,
        gsi2sk: Option::None,
        first_name: Option::None,
        last_name: Option::None,
        user_roles: Option::None,
        active: Option::Some(o.active),
        hash: Option::None,
    }
}

/// The organization an item denotes, if it has the expected shape.
pub open spec fn spec_decode_org(iv: ItemV) -> Option<OrgV> {
    match (iv.gsi1pk, iv.active) {
        (Option::Some(g), Option::Some(active)) => {
            if has_prefix(iv.pk, "ORG#"@) && iv.sk == iv.pk && has_prefix(g, "ORGNAME#"@) {
                Option::Some(
                    OrgV {
                        id: strip_key(iv.pk, "ORG#"@),
                        name: strip_key(g, "ORGNAME#"@),
                        active,
                    },
                )
            } else {
                Option::None
            }
        },
        _ => Option::None,
    }
}

/// Builds the stored item of an organization.
pub fn encode_org(o: &Org) -> (r: Item)
    ensures
        r@ == spec_encode_org(o@),
{
    let pk = org_pk(o.id.as_str());
    let name = orgname_pk(o.name.as_str());
    Item {
        pk: pk.clone(),
        sk: pk,
        gsi1pk: Option::Some(name.clone()),
        gsi1sk: Option::Some(name),
        gsi2pk: Option::None,
        gsi2sk: Option::None,
        first_name: Option::None,
        last_name: Option::None,
        user_roles: Option::None,
        active: Option::Some(o.active),
        hash: Option::None,
    }
}

/// Reads an organization back out of a stored item.
pub fn decode_org(item: &Item) -> (r: Result<Org, Error>)
    ensures
        match (r, spec_decode_org(item@)) {
            (Result::Ok(o), Option::Some(ov)) => o@ == ov,
            (Result::Err(e), Option::None) => e == Error::DecodeFailure,
            _ => false,
        },
{
    let id = match strip_prefix(item.pk.as_str(), "ORG#") {
        Option::Some(s) => s,
        Option::None => {
            return Result::Err(Error::DecodeFailure);
        },
    };
    if !(item.sk == item.pk) {
        return Result::Err(Error::DecodeFailure);
    }
    let name = match &item.gsi1pk {
        Option::Some(g) => match strip_prefix(g.as_str(), "ORGNAME#") {
            Option::Some(s) => s,
            Option::None => {
                return Result::Err(Error::DecodeFailure);
            },
        },
        Option::None => {
            return Result::Err(Error::DecodeFailure);
        },
    };
    let active = match item.active {
        Option::Some(b) => b,
        Option::None => {
            return Result::Err(Error::DecodeFailure);
        },
    };
    Result::Ok(Org { id, name, active })
}

/// Round trip of the organization codec.
pub proof fn lemma_org_round_trip(o: OrgV)
    ensures
        spec_decode_org(spec_encode_org(o)) == Option::Some(o),
{
    lemma_prefix_round("ORG#"@, o.id);
    lemma_prefix_round("ORGNAME#"@, o.name);
}

// --- teams ---

/// The stored form of a team: keyed `TEAM#<id>`, indexed in GSI1 by
/// `TEAMNAME#<name>`, and carrying the `TYPE#TEAM` tag in GSI2 so that
/// all teams can be listed.
pub open spec fn spec_encode_team(t: TeamV) -> ItemV {
    ItemV {
        pk: team_key(t.id),
        sk: team_key(t.id),
        gsi1pk: Option::Some(teamname_key(t.name)),
        gsi1sk: Option::Some(teamname_key(t.name)),
        gsi2pk: Option::Some(team_type_tag()),
        gsi2sk: Option::None,
        first_name: Option::None,
        last_name: Option::None,
        user_roles: Option::None,
        active: Option::Some(t.active),
        hash: Option::None,
    }
}

/// The team an item denotes, if it has the expected shape.
pub open spec fn spec_decode_team(iv: ItemV) -> Option<TeamV> {
    match (iv.gsi1pk, iv.active) {
        (Option::Some(g), Option::Some(active)) => {
            if has_prefix(iv.pk, "TEAM#"@) && iv.sk == iv.pk && has_prefix(g, "TEAMNAME#"@) {
                Option::Some(
                    TeamV {
                        id: strip_key(iv.pk, "TEAM#"@),
                        name: strip_key(g, "TEAMNAME#"@),
                        active,
                    },
                )
            } else {
                Option::None
            }
        },
        _ => Option::None,
    }
}

/// Builds the stored item of a team.
pub fn encode_team(t: &Team) -> (r: Item)
    ensures
        r@ == spec_encode_team(t@),
{
    let pk = team_pk(t.id.as_str());
    let name = teamname_pk(t.name.as_str());
    Item {
        pk: pk.clone(),
        sk: pk,
        gsi1pk: Option::Some(name.clone()),
        gsi1sk: Option::Some(name),
        gsi2pk: Option::Some(team_type_pk()),
        gsi2sk: Option::None,
        first_name: Option::None,
        last_name: Option::None,
        user_roles: Option::None,
        active: Option::Some(t.active),
        hash: Option::None,
    }
}

/// Reads a team back out of a stored item.
pub fn decode_team(item: &Item) -> (r: Result<Team, Error>)
    ensures
        match (r, spec_decode_team(item@)) {
            (Result::Ok(t), Option::Some(tv)) => t@ == tv,
            (Result::Err(e), Option::None) => e == Error::DecodeFailure,
            _ => false,
        },
{
    let id = match strip_prefix(item.pk.as_str(), "TEAM#") {
        Option::Some(s) => s,
        Option::None => {
            return Result::Err(Error::DecodeFailure);
        },
    };
    if !(item.sk == item.pk) {
        return Result::Err(Error::DecodeFailure);
    }
    let name = match &item.gsi1pk {
        Option::Some(g) => match strip_prefix(g.as_str(), "TEAMNAME#") {
            Option::Some(s) => s,
            Option::None => {
                return Result::Err(Error::DecodeFailure);
            },
        },
        Option::None => {
            return Result::Err(Error::DecodeFailure);
        },
    };
    let active = match item.active {
        Option::Some(b) => b,
        Option::None => {
            return Result::Err(Error::DecodeFailure);
        },
    };
    Result::Ok(Team { id, name, active })
}

/// Round trip of the team codec.
pub proof fn lemma_team_round_trip(t: TeamV)
    ensures
        spec_decode_team(spec_encode_team(t)) == Option::Some(t),
{
    lemma_prefix_round("TEAM#"@, t.id);
    lemma_prefix_round("TEAMNAME#"@, t.name);
}

// --- memberships ---

/// The stored form of an org membership: an adjacency item keyed by the
/// pair, with the reverse pointer in GSI1.
pub open spec fn spec_encode_org_member(org_id: Seq<char>, user_id: Seq<char>) -> ItemV {
    ItemV {
        pk: org_key(org_id),
        sk: user_key(user_id),
        gsi1pk: Option::Some(user_key(user_id)),
        gsi1sk: Option::Some(org_key(org_id)),
        gsi2pk: Option::None,
        gsi2sk: Option::None,
        first_name: Option::None,
        last_name: Option::None,
        user_roles: Option::None,
        active: Option::None,
        hash: Option::None,
    }
}

/// The org/user id pair an adjacency item denotes, if it has the expected
/// shape.
pub open spec fn spec_decode_org_member(iv: ItemV) -> Option<(Seq<char>, Seq<char>)> {
    if has_prefix(iv.pk, "ORG#"@) && has_prefix(iv.sk, "USER#"@) {
        Option::Some((strip_key(iv.pk, "ORG#"@), strip_key(iv.sk, "USER#"@)))
    } else {
        Option::None
    }
}

/// Builds the stored item of an org membership.
pub fn encode_org_member(org_id: &str, user_id: &str) -> (r: Item)
    ensures
        r@ == spec_encode_org_member(org_id@, user_id@),
{
    let pk = org_pk(org_id);
    let sk = user_pk(user_id);
    Item {
        pk: pk.clone(),
        sk: sk.clone(),
        gsi1pk: Option::Some(sk),
        gsi1sk: Option::Some(pk),
        gsi2pk: Option::None,
        gsi2sk: Option::None,
        first_name: Option::None,
        last_name: Option::None,
        user_roles: Option::None,
        active: Option::None,
        hash: Option::None,
    }
}

/// Round trip of the org-membership codec: the id pair is recoverable
/// from the adjacency item's keys.
pub proof fn lemma_org_member_round_trip(org_id: Seq<char>, user_id: Seq<char>)
    ensures
        spec_decode_org_member(spec_encode_org_member(org_id, user_id)) == Option::Some(
            (org_id, user_id),
        ),
{
    lemma_prefix_round("ORG#"@, org_id);
    lemma_prefix_round("USER#"@, user_id);
}

/// The stored form of a team membership: an adjacency item keyed by the
/// pair, with the reverse pointer in GSI1.
pub open spec fn spec_encode_team_member(team_id: Seq<char>, user_id: Seq<char>) -> ItemV {
    ItemV {
        pk: team_key(team_id),
        sk: user_key(user_id),
        gsi1pk: Option::Some(user_key(user_id)),
        gsi1sk: Option::Some(team_key(team_id)),
        gsi2pk: Option::None,
        gsi2sk: Option::None,
        first_name: Option::None,
        last_name: Option::None,
        user_roles: Option::None,
        active: Option::None,
        hash: Option::None,
    }
}

/// The team/user id pair an adjacency item denotes, if it has the
/// expected shape.
pub open spec fn spec_decode_team_member(iv: ItemV) -> Option<(Seq<char>, Seq<char>)> {
    if has_prefix(iv.pk, "TEAM#"@) && has_prefix(iv.sk, "USER#"@) {
        Option::Some((strip_key(iv.pk, "TEAM#"@), strip_key(iv.sk, "USER#"@)))
    } else {
        Option::None
    }
}

/// Builds the stored item of a team membership.
pub fn encode_team_member(team_id: &str, user_id: &str) -> (r: Item)
    ensures
        r@ == spec_encode_team_member(team_id@, user_id@),
{
    let pk = team_pk(team_id);
    let sk = user_pk(user_id);
    Item {
        pk: pk.clone(),
        sk: sk.clone(),
        gsi1pk: Option::Some(sk),
        gsi1sk: Option::Some(pk),
        gsi2pk: Option::None,
        gsi2sk: Option::None,
        first_name: Option::None,
        last_name: Option::None,
        user_roles: Option::None,
        active: Option::None,
        hash: Option::None,
    }
}

/// Round trip of the team-membership codec.
pub proof fn lemma_team_member_round_trip(team_id: Seq<char>, user_id: Seq<char>)
    ensures
        spec_decode_team_member(spec_encode_team_member(team_id, user_id)) == Option::Some(
            (team_id, user_id),
        ),
{
    lemma_prefix_round("TEAM#"@, team_id);
    lemma_prefix_round("USER#"@, user_id);
}

} // verus!
