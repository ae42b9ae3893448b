//! The roles codec. A user's roles are stored denormalized as one
//! comma-delimited string attribute; decoding parses that string back into
//! the role sequence. Parsing an unknown token is a decode failure.
use vstd::prelude::*;

use crate::entities::{Role, Roles};

verus! {

/// The stored token of one role.
pub open spec fn spec_role_token(r: Role) -> Seq<char> {
    match r {
        Role::Superuser => "SUPERUSER"@,
        Role::Standard => "STANDARD"@,
    }
}

/// The role a stored token denotes, if any.
pub open spec fn spec_parse_token(s: Seq<char>) -> Option<Role> {
    if s == "SUPERUSER"@ {
        Option::Some(Role::Superuser)
    } else if s == "STANDARD"@ {
        Option::Some(Role::Standard)
    } else {
        Option::None
    }
}

/// The index of the first comma at or after `i`, or the length when there
/// is none.
pub open spec fn spec_find_comma(s: Seq<char>, i: int) -> int
    decreases s.len() - i,
{
    if i < 0 || i >= s.len() {
        s.len() as int
    } else if s[i] == ',' {
        i
    } else {
        spec_find_comma(s, i + 1)
    }
}

/// The encoding of a role sequence: its tokens joined with commas; the
/// empty sequence encodes as the empty string.
pub open spec fn spec_encode_roles(rs: Seq<Role>) -> Seq<char>
    decreases rs.len(),
{
    if rs.len() == 0 {
        Seq::empty()
    } else if rs.len() == 1 {
        spec_role_token(rs[0])
    } else {
        spec_role_token(rs[0]) + seq![','] + spec_encode_roles(rs.drop_first())
    }
}

/// The parse of a non-empty delimited string: split at the first comma,
/// parse the head token, recurse on the remainder. An empty or unknown
/// token fails the whole parse.
pub open spec fn spec_parse_tokens(s: Seq<char>) -> Option<Seq<Role>>
    decreases s.len(),
{
    let j = spec_find_comma(s, 0);
    if 0 <= j < s.len() {
        match spec_parse_token(s.subrange(0, j)) {
            Option::Some(r) => match spec_parse_tokens(s.subrange(j + 1, s.len() as int)) {
                Option::Some(rest) => Option::Some(seq![r] + rest),
                Option::None => Option::None,
            },
            Option::None => Option::None,
        }
    } else {
        match spec_parse_token(s) {
            Option::Some(r) => Option::Some(seq![r]),
            Option::None => Option::None,
        }
    }
}

/// The parse of a stored roles attribute: the empty string denotes the
/// empty role sequence.
pub open spec fn spec_parse_roles(s: Seq<char>) -> Option<Seq<Role>> {
    if s.len() == 0 {
        Option::Some(Seq::empty())
    } else {
        spec_parse_tokens(s)
    }
}

proof fn lemma_find_comma_bounds(s: Seq<char>, i: int)
    requires
        0 <= i <= s.len(),
    ensures
        i <= spec_find_comma(s, i) <= s.len(),
    decreases s.len() - i,
{
    if i < s.len() && s[i] != ',' {
        lemma_find_comma_bounds(s, i + 1);
    }
}

proof fn lemma_find_comma_from(s: Seq<char>, i: int, l: int)
    requires
        0 <= i <= l <= s.len(),
        forall|k: int| i <= k < l ==> s[k] != ',',
        l == s.len() || s[l] == ',',
    ensures
        spec_find_comma(s, i) == l,
    decreases l - i,
{
    if i < l {
        lemma_find_comma_from(s, i + 1, l);
    }
}

proof fn lemma_token_facts(r: Role)
    ensures
        spec_role_token(r).len() > 0,
        forall|i: int| 0 <= i < spec_role_token(r).len() ==> spec_role_token(r)[i] != ',',
        spec_parse_token(spec_role_token(r)) == Option::Some(r),
{
    reveal_strlit("SUPERUSER");
    reveal_strlit("STANDARD");
    assert("SUPERUSER"@.len() == 9);
    assert("STANDARD"@.len() == 8);
    assert(forall|i: int| 0 <= i < 9 ==> "SUPERUSER"@[i] != ',');
    assert(forall|i: int| 0 <= i < 8 ==> "STANDARD"@[i] != ',');
}

/// Round trip of the roles codec: parsing the encoding of any role
/// sequence gives back exactly that sequence.
pub proof fn lemma_roles_round_trip(rs: Seq<Role>)
    ensures
        spec_parse_roles(spec_encode_roles(rs)) == Option::Some(rs),
    decreases rs.len(),
{
    if rs.len() == 0 {
        assert(rs =~= Seq::<Role>::empty());
    } else if rs.len() == 1 {
        let e = spec_role_token(rs[0]);
        lemma_token_facts(rs[0]);
        lemma_find_comma_from(e, 0, e.len() as int);
        assert(seq![rs[0]] =~= rs);
    } else {
        let t = spec_role_token(rs[0]);
        let rest = rs.drop_first();
        let tail = spec_encode_roles(rest);
        let e = t + seq![','] + tail;
        let l = t.len() as int;
        lemma_token_facts(rs[0]);
        assert(forall|k: int| 0 <= k < l ==> e[k] == t[k] && e[k] != ',');
        assert(e[l] == ',');
        lemma_find_comma_from(e, 0, l);
        assert(e.subrange(0, l) =~= t);
        assert(e.subrange(l + 1, e.len() as int) =~= tail);
        lemma_roles_round_trip(rest);
        if tail.len() == 0 {
            // parsing the tail's encoding gives back `rest`, so the tail
            // cannot encode a sequence of different length
            assert(Option::Some(Seq::<Role>::empty()) == Option::Some(rest));
            assert(false);
        }
        assert(spec_parse_tokens(tail) == Option::Some(rest));
        assert(seq![rs[0]] + rest =~= rs);
    }
}

fn find_comma_from(s: &str, i: usize) -> (r: usize)
    requires
        i <= s@.len(),
    ensures
        r == spec_find_comma(s@, i as int),
    decreases s@.len() - i,
{
    let n = s.unicode_len();
    if i == n {
        i
    } else if s.get_char(i) == ',' {
        i
    } else {
        find_comma_from(s, i + 1)
    }
}

fn parse_token(s: &str) -> (r: Option<Role>)
    ensures
        r == spec_parse_token(s@),
{
    let o = s.to_owned();
    if o == "SUPERUSER".to_owned() {
        Option::Some(Role::Superuser)
    } else if o == "STANDARD".to_owned() {
        Option::Some(Role::Standard)
    } else {
        Option::None
    }
}

fn parse_tokens(s: &str) -> (r: Option<Vec<Role>>)
    ensures
        match (r, spec_parse_tokens(s@)) {
            (Option::Some(v), Option::Some(g)) => v@ == g,
            (Option::None, Option::None) => true,
            _ => false,
        },
    decreases s@.len(),
{
    let n = s.unicode_len();
    let j = find_comma_from(s, 0);
    proof {
        lemma_find_comma_bounds(s@, 0);
    }
    if j < n {
        let tok = s.substring_char(0, j);
        match parse_token(tok) {
            Option::None => Option::None,
            Option::Some(role) => {
                let rest = s.substring_char(j + 1, n);
                match parse_tokens(rest) {
                    Option::None => Option::None,
                    Option::Some(mut v) => {
                        v.insert(0, role);
                        proof {
                            assert(v@ =~= seq![role] + v@.subrange(1, v@.len() as int));
                        }
                        Option::Some(v)
                    },
                }
            },
        }
    } else {
        match parse_token(s) {
            Option::Some(role) => {
                let mut v: Vec<Role> = Vec::new();
                v.push(role);
                proof {
                    assert(v@ =~= seq![role]);
                }
                Option::Some(v)
            },
            Option::None => Option::None,
        }
    }
}

/// Parses a stored roles attribute; `None` means the attribute does not
/// denote a role sequence.
pub fn parse_roles(s: &str) -> (r: Option<Roles>)
    ensures
        match (r, spec_parse_roles(s@)) {
            (Option::Some(rs), Option::Some(g)) => rs@ == g,
            (Option::None, Option::None) => true,
            _ => false,
        },
{
    if s.unicode_len() == 0 {
        let v: Vec<Role> = Vec::new();
        proof {
            assert(v@ =~= Seq::<Role>::empty());
        }
        Option::Some(Roles(v))
    } else {
        match parse_tokens(s) {
            Option::Some(v) => Option::Some(Roles(v)),
            Option::None => Option::None,
        }
    }
}

fn role_token(r: &Role) -> (t: &'static str)
    ensures
        t@ == spec_role_token(*r),
{
    match r {
        Role::Superuser => "SUPERUSER",
        Role::Standard => "STANDARD",
    }
}

fn encode_from(roles: &Vec<Role>, i: usize) -> (r: String)
    requires
        i <= roles.len(),
    ensures
        r@ == spec_encode_roles(roles@.skip(i as int)),
    decreases roles.len() - i,
{
    proof {
        reveal_strlit(",");
        assert(","@ =~= seq![',']);
    }
    if i == roles.len() {
        proof {
            assert(roles@.skip(i as int) =~= Seq::<Role>::empty());
        }
        String::new()
    } else if i + 1 == roles.len() {
        proof {
            assert(roles@.skip(i as int).len() == 1);
            assert(roles@.skip(i as int)[0] == roles@[i as int]);
        }
        role_token(&roles[i]).to_owned()
    } else {
        let mut s = role_token(&roles[i]).to_owned();
        s.append(",");
        let rest = encode_from(roles, i + 1);
        s.append(rest.as_str());
        proof {
            assert(roles@.skip(i as int).len() >= 2);
            assert(roles@.skip(i as int)[0] == roles@[i as int]);
            assert(roles@.skip(i as int).drop_first() =~= roles@.skip(i as int + 1));
        }
        s
    }
}

/// Encodes a role sequence as the stored comma-delimited attribute.
pub fn encode_roles(roles: &Roles) -> (r: String)
    ensures
        r@ == spec_encode_roles(roles@),
{
    let r = encode_from(&roles.0, 0);
    proof {
        assert(roles.0@.skip(0) =~= roles.0@);
    }
    r
}

} // verus!
