//! Round-trip and key-scheme tests for the codec layer.
use single_table_store::codec::{
    decode_alias, decode_org, decode_team, decode_user, encode_alias, encode_org,
    encode_org_member, encode_team, encode_team_member, encode_user,
};
use single_table_store::entities::{Org, Role, Roles, Team, User};
use single_table_store::keys::{
    email_pk, memberorg_pk, org_pk, orgname_pk, superuser_pk, team_pk, team_type_pk, teamname_pk,
    user_pk,
};
use single_table_store::roles::{encode_roles, parse_roles};
use single_table_store::Error;

fn sample_user() -> User {
    User {
        id: String::from("u1"),
        email: String::from("a@example.com"),
        first_name: String::from("Ada"),
        last_name: String::from("Lovelace"),
        roles: Roles(vec![Role::Superuser, Role::Standard]),
        active: true,
        hash: String::from("h@sh"),
    }
}

#[test]
fn key_scheme_exact_strings() {
    assert_eq!(user_pk("u1"), "USER#u1");
    assert_eq!(email_pk("a@example.com"), "EMAIL#a@example.com");
    assert_eq!(org_pk("o1"), "ORG#o1");
    assert_eq!(orgname_pk("Acme"), "ORGNAME#Acme");
    assert_eq!(team_pk("t1"), "TEAM#t1");
    assert_eq!(teamname_pk("Core"), "TEAMNAME#Core");
    assert_eq!(memberorg_pk("o1"), "MEMBERORG#o1");
    assert_eq!(team_type_pk(), "TYPE#TEAM");
    assert_eq!(superuser_pk(), "USERROLE#SUPERUSER");
}

#[test]
fn roles_encoding_exact() {
    assert_eq!(encode_roles(&Roles(vec![])), "");
    assert_eq!(encode_roles(&Roles(vec![Role::Superuser])), "SUPERUSER");
    assert_eq!(
        encode_roles(&Roles(vec![Role::Superuser, Role::Standard])),
        "SUPERUSER,STANDARD"
    );
}

#[test]
fn roles_round_trip() {
    for rs in [
        vec![],
        vec![Role::Standard],
        vec![Role::Superuser],
        vec![Role::Superuser, Role::Standard],
        vec![Role::Standard, Role::Standard, Role::Superuser],
    ] {
        let encoded = encode_roles(&Roles(rs.clone()));
        let parsed = parse_roles(&encoded).expect("round trip must parse");
        assert_eq!(parsed.0, rs);
    }
}

#[test]
fn roles_unknown_token_rejected() {
    assert!(parse_roles("WIZARD").is_none());
    assert!(parse_roles("SUPERUSER,WIZARD").is_none());
    assert!(parse_roles(",").is_none());
    assert!(parse_roles("SUPERUSER,").is_none());
}

#[test]
fn user_item_shape() {
    let item = encode_user(&sample_user());
    assert_eq!(item.pk, "USER#u1");
    assert_eq!(item.sk, "USER#u1");
    assert_eq!(item.gsi1pk.as_deref(), Some("EMAIL#a@example.com"));
    assert_eq!(item.gsi1sk.as_deref(), Some("EMAIL#a@example.com"));
    assert_eq!(item.gsi2pk.as_deref(), Some("USERROLE#SUPERUSER"));
    assert_eq!(item.gsi2sk.as_deref(), Some("USERROLE#SUPERUSER"));
    assert_eq!(item.first_name.as_deref(), Some("Ada"));
    assert_eq!(item.last_name.as_deref(), Some("Lovelace"));
    assert_eq!(item.user_roles.as_deref(), Some("SUPERUSER,STANDARD"));
    assert_eq!(item.active, Some(true));
    assert_eq!(item.hash.as_deref(), Some("h@sh"));
}

#[test]
fn user_without_superuser_has_no_gsi2_tag() {
    let mut u = sample_user();
    u.roles = Roles(vec![Role::Standard]);
    let item = encode_user(&u);
    assert!(item.gsi2pk.is_none());
    assert!(item.gsi2sk.is_none());
}

#[test]
fn user_round_trip() {
    let u = sample_user();
    let back = decode_user(&encode_user(&u)).expect("decode of encode");
    assert_eq!(back.id, u.id);
    assert_eq!(back.email, u.email);
    assert_eq!(back.first_name, u.first_name);
    assert_eq!(back.last_name, u.last_name);
    assert_eq!(back.roles.0, u.roles.0);
    assert_eq!(back.active, u.active);
    assert_eq!(back.hash, u.hash);
}

#[test]
fn user_decode_rejects_malformed() {
    let mut item = encode_user(&sample_user());
    item.user_roles = Some(String::from("WIZARD"));
    assert!(matches!(decode_user(&item), Err(Error::DecodeFailure)));

    let mut item = encode_user(&sample_user());
    item.active = None;
    assert!(matches!(decode_user(&item), Err(Error::DecodeFailure)));

    let foreign = encode_org(&Org {
        id: String::from("o1"),
        name: String::from("Acme"),
        active: true,
    });
    assert!(matches!(decode_user(&foreign), Err(Error::DecodeFailure)));
}

#[test]
fn alias_round_trip() {
    let item = encode_alias("a@example.com", "u1");
    assert_eq!(item.pk, "EMAIL#a@example.com");
    assert_eq!(item.sk, "EMAIL#a@example.com");
    assert_eq!(item.gsi1pk.as_deref(), Some("USER#u1"));
    assert_eq!(item.gsi1sk.as_deref(), Some("USER#u1"));
    let back = decode_alias(&item).expect("decode of encode");
    assert_eq!(back.email, "a@example.com");
    assert_eq!(back.user_id, "u1");
}

#[test]
fn org_round_trip() {
    let o = Org { id: String::from("o1"), name: String::from("Acme"), active: false };
    let item = encode_org(&o);
    assert_eq!(item.pk, "ORG#o1");
    assert_eq!(item.gsi1pk.as_deref(), Some("ORGNAME#Acme"));
    assert_eq!(item.active, Some(false));
    let back = decode_org(&item).expect("decode of encode");
    assert_eq!(back.id, o.id);
    assert_eq!(back.name, o.name);
    assert_eq!(back.active, o.active);
}

#[test]
fn team_round_trip() {
    let t = Team { id: String::from("t1"), name: String::from("Core"), active: true };
    let item = encode_team(&t);
    assert_eq!(item.pk, "TEAM#t1");
    assert_eq!(item.gsi1pk.as_deref(), Some("TEAMNAME#Core"));
    assert_eq!(item.gsi2pk.as_deref(), Some("TYPE#TEAM"));
    assert!(item.gsi2sk.is_none());
    let back = decode_team(&item).expect("decode of encode");
    assert_eq!(back.id, t.id);
    assert_eq!(back.name, t.name);
    assert_eq!(back.active, t.active);
}

#[test]
fn membership_item_shapes() {
    let om = encode_org_member("o1", "u1");
    assert_eq!(om.pk, "ORG#o1");
    assert_eq!(om.sk, "USER#u1");
    assert_eq!(om.gsi1pk.as_deref(), Some("USER#u1"));
    assert_eq!(om.gsi1sk.as_deref(), Some("ORG#o1"));

    let tm = encode_team_member("t1", "u1");
    assert_eq!(tm.pk, "TEAM#t1");
    assert_eq!(tm.sk, "USER#u1");
    assert_eq!(tm.gsi1pk.as_deref(), Some("USER#u1"));
    assert_eq!(tm.gsi1sk.as_deref(), Some("TEAM#t1"));
}
