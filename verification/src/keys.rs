//! The key scheme: pure derivation of the table's primary key strings
//! (`PK`/`SK`) and the secondary-index key strings (`GSI1`, `GSI2`) from an
//! entity's identifiers. Entity type is discriminated by key prefix, not by
//! a schema field. Identifiers are assumed upstream-validated not to contain
//! the `#` delimiter; derivation itself is pure and total.
use vstd::prelude::*;

verus! {

/// The primary key string of a user item: `USER#<id>`.
pub open spec fn user_key(id: Seq<char>) -> Seq<char> {
    "USER#"@ + id
}

/// The primary key string of an email-alias item: `EMAIL#<email>`.
pub open spec fn email_key(email: Seq<char>) -> Seq<char> {
    "EMAIL#"@ + email
}

/// The primary key string of an organization item: `ORG#<id>`.
pub open spec fn org_key(id: Seq<char>) -> Seq<char> {
    "ORG#"@ + id
}

/// The GSI1 key string under which an organization's name is indexed.
pub open spec fn orgname_key(name: Seq<char>) -> Seq<char> {
    "ORGNAME#"@ + name
}

/// The primary key string of a team item: `TEAM#<id>`.
pub open spec fn team_key(id: Seq<char>) -> Seq<char> {
    "TEAM#"@ + id
}

/// The GSI1 key string under which a team's name is indexed.
pub open spec fn teamname_key(name: Seq<char>) -> Seq<char> {
    "TEAMNAME#"@ + name
}

/// The key prefix the membership-removal path uses for organizations.
/// It differs from the `ORG#` prefix the creation path uses; the scheme
/// is kept exactly as designed rather than silently unified, since
/// changing it would change which stored items are deletable.
pub open spec fn memberorg_key(id: Seq<char>) -> Seq<char> {
    "MEMBERORG#"@ + id
}

/// The GSI2 type tag shared by all team items.
pub open spec fn team_type_tag() -> Seq<char> {
    "TYPE#TEAM"@
}

/// The GSI2 tag marking a user that holds the superuser role.
pub open spec fn superuser_tag() -> Seq<char> {
    "USERROLE#SUPERUSER"@
}

fn prefixed(prefix: &str, rest: &str) -> (r: String)
    ensures
        r@ == prefix@ + rest@,
{
    let mut s = prefix.to_owned();
    s.append(rest);
    s
}

/// Builds `USER#<id>`.
pub fn user_pk(id: &str) -> (r: String)
    ensures
        r@ == user_key(id@),
{
    prefixed("USER#", id)
}

/// Builds `EMAIL#<email>`.
pub fn email_pk(email: &str) -> (r: String)
    ensures
        r@ == email_key(email@),
{
    prefixed("EMAIL#", email)
}

/// Builds `ORG#<id>`.
pub fn org_pk(id: &str) -> (r: String)
    ensures
        r@ == org_key(id@),
{
    prefixed("ORG#", id)
}

/// Builds `ORGNAME#<name>`.
pub fn orgname_pk(name: &str) -> (r: String)
    ensures
        r@ == orgname_key(name@),
{
    prefixed("ORGNAME#", name)
}

/// Builds `TEAM#<id>`.
pub fn team_pk(id: &str) -> (r: String)
    ensures
        r@ == team_key(id@),
{
    prefixed("TEAM#", id)
}

/// Builds `TEAMNAME#<name>`.
pub fn teamname_pk(name: &str) -> (r: String)
    ensures
        r@ == teamname_key(name@),
{
    prefixed("TEAMNAME#", name)
}

/// Builds `MEMBERORG#<id>`, the removal-path key for org memberships.
pub fn memberorg_pk(id: &str) -> (r: String)
    ensures
        r@ == memberorg_key(id@),
{
    prefixed("MEMBERORG#", id)
}

/// Builds the `TYPE#TEAM` tag.
pub fn team_type_pk() -> (r: String)
    ensures
        r@ == team_type_tag(),
{
    "TYPE#TEAM".to_owned()
}

/// Builds the `USERROLE#SUPERUSER` tag.
pub fn superuser_pk() -> (r: String)
    ensures
        r@ == superuser_tag(),
{
    "USERROLE#SUPERUSER".to_owned()
}

} // verus!
