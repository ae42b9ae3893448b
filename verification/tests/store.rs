//! Behavioral tests of the access operations, run against the verified
//! in-memory table model.
use single_table_store::entities::{Org, Role, Roles, Team, User};
use single_table_store::table::Table;
use single_table_store::Error;

fn sample_user() -> User {
    User {
        id: String::from("u1"),
        email: String::from("a@example.com"),
        first_name: String::from("Ada"),
        last_name: String::from("Lovelace"),
        roles: Roles(vec![Role::Superuser]),
        active: true,
        hash: String::from("h@sh"),
    }
}

fn org(id: &str, name: &str) -> Org {
    Org { id: String::from(id), name: String::from(name), active: true }
}

fn team(id: &str, name: &str) -> Team {
    Team { id: String::from(id), name: String::from(name), active: true }
}

#[test]
fn create_user_then_get_by_id_and_email() {
    let mut t = Table::new();
    let u = sample_user();
    t.create_user(&u).unwrap();

    let by_id = t.get_user_by_id("u1").expect("created user is readable");
    assert_eq!(by_id.id, u.id);
    assert_eq!(by_id.email, u.email);
    assert_eq!(by_id.first_name, u.first_name);
    assert_eq!(by_id.last_name, u.last_name);
    assert_eq!(by_id.roles.0, u.roles.0);
    assert_eq!(by_id.active, u.active);
    assert_eq!(by_id.hash, u.hash);

    let by_email = t.get_user_by_email("a@example.com").expect("alias resolves");
    assert_eq!(by_email.id, u.id);
    assert_eq!(by_email.email, u.email);
}

#[test]
fn get_user_never_created_is_not_found() {
    let t = Table::new();
    assert!(matches!(t.get_user_by_id("ghost"), Err(Error::NotFound)));
    assert!(matches!(t.get_user_by_email("ghost@example.com"), Err(Error::NotFound)));
}

#[test]
fn org_membership_add_then_check_then_remove() {
    let mut t = Table::new();
    let o = org("o1", "Acme");
    let u = sample_user();
    t.create_org(&o).unwrap();
    t.create_user(&u).unwrap();

    t.add_org_member(&o, &u).unwrap();
    assert!(t.get("ORG#o1", "USER#u1").is_some());

    // removing a never-added pair succeeds as a no-op
    let before = t.items.len();
    let other = sample_user();
    t.remove_org_member(&org("o2", "Other"), &other).unwrap();
    assert_eq!(t.items.len(), before);

    // the removal path keys by the MEMBERORG# prefix, so it does not
    // address the item the creation path wrote; that item survives
    t.remove_org_member(&o, &u).unwrap();
    assert!(t.get("ORG#o1", "USER#u1").is_some());
    assert!(t.get("MEMBERORG#o1", "USER#u1").is_none());
}

#[test]
fn team_membership_add_then_remove() {
    let mut t = Table::new();
    let tm = team("t1", "Core");
    let u = sample_user();
    t.create_team(&tm).unwrap();
    t.create_user(&u).unwrap();

    t.add_team_member(&tm, &u).unwrap();
    assert!(t.get("TEAM#t1", "USER#u1").is_some());

    t.remove_team_member(&tm, &u).unwrap();
    assert!(t.get("TEAM#t1", "USER#u1").is_none());
}

#[test]
fn org_by_name_zero_one_many() {
    let mut t = Table::new();
    assert!(matches!(t.get_org_by_name("Acme"), Err(Error::NotFound)));

    t.create_org(&org("o1", "Acme")).unwrap();
    let found = t.get_org_by_name("Acme").expect("single match");
    assert_eq!(found.id, "o1");
    assert_eq!(found.name, "Acme");

    // two stored orgs sharing a name violate the upstream uniqueness
    // expectation and must surface as a conflict
    t.create_org(&org("o2", "Acme")).unwrap();
    assert!(matches!(t.get_org_by_name("Acme"), Err(Error::Conflict)));
}

#[test]
fn teams_empty_then_listed() {
    let mut t = Table::new();
    let listed = t.get_teams().expect("empty table lists as empty");
    assert!(listed.is_empty());

    t.create_team(&team("t1", "Core")).unwrap();
    t.create_team(&team("t2", "Edge")).unwrap();
    let listed = t.get_teams().expect("teams list");
    assert_eq!(listed.len(), 2);
    assert_eq!(listed[0].id, "t1");
    assert_eq!(listed[1].id, "t2");

    assert!(matches!(t.get_team_by_id("t2"), Ok(found) if found.name == "Edge"));
    assert!(matches!(t.get_team_by_id("t9"), Err(Error::NotFound)));
}

#[test]
fn create_is_upsert() {
    let mut t = Table::new();
    t.create_org(&org("o1", "Acme")).unwrap();
    let mut renamed = org("o1", "Acme");
    renamed.active = false;
    t.create_org(&renamed).unwrap();
    let read = t.get_org_by_id("o1").unwrap();
    assert!(!read.active);
    assert_eq!(t.items.len(), 1);
}

#[test]
fn org_scenario_no_cascade() {
    let mut t = Table::new();
    let o = org("o1", "Acme");
    let u = sample_user();
    t.create_user(&u).unwrap();
    t.create_org(&o).unwrap();

    let by_id = t.get_org_by_id("o1").expect("created org is readable");
    assert_eq!(by_id.id, "o1");
    assert_eq!(by_id.name, "Acme");
    assert!(by_id.active);

    let by_name = t.get_org_by_name("Acme").expect("name resolves");
    assert_eq!(by_name.id, by_id.id);
    assert_eq!(by_name.name, by_id.name);
    assert_eq!(by_name.active, by_id.active);

    t.add_org_member(&o, &u).unwrap();

    t.delete_org("o1").unwrap();
    assert!(matches!(t.get_org_by_id("o1"), Err(Error::NotFound)));

    // the membership adjacency item written earlier remains retrievable:
    // deleting the root org does not cascade
    assert!(t.get("ORG#o1", "USER#u1").is_some());
}
