//! The composite subject claim: a principal's identity packed into one
//! string as `id:username:roles-csv:permissions-csv`, and its decoding.

use vstd::prelude::*;

use crate::strutil::{
    csv_free, free_of, join_chars, join_with, lemma_join_free, lemma_split_join,
    lemma_splitn_prepend, split_all, split_chars, splitn_all, splitn_chars,
};

verus! {

/// The authenticated identity carried through a request after verification.
#[derive(Debug, Clone, PartialEq, Eq)]
pub struct Principal {
    pub id: String,
    pub username: String,
    pub roles: Vec<String>,
    pub permissions: Vec<String>,
}

/// The mathematical model of a `Principal`.
#[verifier::ext_equal]
pub ghost struct PrincipalView {
    pub id: Seq<char>,
    pub username: Seq<char>,
    pub roles: Seq<Seq<char>>,
    pub permissions: Seq<Seq<char>>,
}

impl View for Principal {
    type V = PrincipalView;

    open spec fn view(&self) -> PrincipalView {
        PrincipalView {
            id: self.id@,
            username: self.username@,
            roles: self.roles.deep_view(),
            permissions: self.permissions.deep_view(),
        }
    }
}

/// The subject encoding is loss-free only when no field contains a delimiter
/// that an earlier split consumes: `id` and `username` must not contain `:`,
/// roles must contain neither `:` nor `,`, and permissions must not contain
/// `,` (a `:` inside a permission survives, because the fourth part keeps
/// the remainder of the string).
pub open spec fn subject_safe(p: PrincipalView) -> bool {
    &&& free_of(p.id, ':')
    &&& free_of(p.username, ':')
    &&& csv_free(p.roles, ':')
    &&& csv_free(p.roles, ',')
    &&& csv_free(p.permissions, ',')
}

/// The packed subject string of a principal.
pub open spec fn subject_of(p: PrincipalView) -> Seq<char> {
    p.id + seq![':'] + p.username + seq![':'] + join_chars(p.roles, ',') + seq![':'] + join_chars(
        p.permissions,
        ',',
    )
}

/// Splitting a joined csv recovers the parts, except that an empty sequence
/// comes back as one empty-string element.
pub open spec fn csv_round(xs: Seq<Seq<char>>) -> Seq<Seq<char>> {
    if xs.len() == 0 {
        seq![Seq::<char>::empty()]
    } else {
        xs
    }
}

/// What decoding reconstructs from a well-formed principal's subject.
pub open spec fn reconstructed(p: PrincipalView) -> PrincipalView {
    PrincipalView {
        id: p.id,
        username: p.username,
        roles: csv_round(p.roles),
        permissions: csv_round(p.permissions),
    }
}

/// The decoding of a subject string: exactly four colon-delimited parts,
/// the last two split on commas.
pub open spec fn parse_subject(s: Seq<char>) -> Option<PrincipalView> {
    let parts = splitn_chars(s, ':', 4);
    if parts.len() != 4 {
        Option::None
    } else {
        Option::Some(
            PrincipalView {
                id: parts[0],
                username: parts[1],
                roles: split_chars(parts[2], ','),
                permissions: split_chars(parts[3], ','),
            },
        )
    }
}

proof fn lemma_csv_round(xs: Seq<Seq<char>>)
    requires
        csv_free(xs, ','),
    ensures
        split_chars(join_chars(xs, ','), ',') == csv_round(xs),
{
    if xs.len() == 0 {
        assert(join_chars(xs, ',') =~= Seq::<char>::empty());
        crate::strutil::lemma_split_free(Seq::<char>::empty(), ',');
        assert(split_chars(join_chars(xs, ','), ',') =~= seq![Seq::<char>::empty()]);
    } else {
        lemma_split_join(xs, ',');
    }
}

/// Decoding the subject of a well-formed principal reproduces its id,
/// username, and role/permission content, modulo the empty-csv quirk.
pub proof fn lemma_subject_round_trip(p: PrincipalView)
    requires
        subject_safe(p),
    ensures
        parse_subject(subject_of(p)) == Some(reconstructed(p)),
{
    let rc = join_chars(p.roles, ',');
    let pc = join_chars(p.permissions, ',');
    lemma_join_free(p.roles, ',', ':');
    let s = subject_of(p);
    let rest1 = p.username + seq![':'] + rc + seq![':'] + pc;
    let rest2 = rc + seq![':'] + pc;
    assert(s =~= p.id + seq![':'] + rest1);
    lemma_splitn_prepend(p.id, rest1, ':', 4);
    assert(rest1 =~= p.username + seq![':'] + rest2);
    lemma_splitn_prepend(p.username, rest2, ':', 3);
    lemma_splitn_prepend(rc, pc, ':', 2);
    assert(splitn_chars(pc, ':', 1nat) == seq![pc]);
    let parts = splitn_chars(s, ':', 4);
    assert(parts =~= seq![p.id] + (seq![p.username] + (seq![rc] + seq![pc])));
    assert(parts.len() == 4);
    assert(parts[0] == p.id);
    assert(parts[1] == p.username);
    assert(parts[2] == rc);
    assert(parts[3] == pc);
    lemma_csv_round(p.roles);
    lemma_csv_round(p.permissions);
    let q = PrincipalView {
        id: parts[0],
        username: parts[1],
        roles: split_chars(parts[2], ','),
        permissions: split_chars(parts[3], ','),
    };
    assert(parse_subject(s) == Some(q));
    assert(q =~= reconstructed(p));
}

/// Pack a principal into its subject string.
pub fn encode_subject(p: &Principal) -> (r: String)
    ensures
        r@ == subject_of(p@),
{
    proof {
        reveal_strlit(":");
        reveal_strlit(",");
        assert(":"@ =~= seq![':']);
        assert(","@ =~= seq![',']);
    }
    let roles_csv = join_with(&p.roles, ",");
    let perms_csv = join_with(&p.permissions, ",");
    let mut s = p.id.clone();
    s.append(":");
    s.append(p.username.as_str());
    s.append(":");
    s.append(roles_csv.as_str());
    s.append(":");
    s.append(perms_csv.as_str());
    proof {
        assert(s@ =~= subject_of(p@));
    }
    s
}

/// Unpack a subject string; `None` unless it has four colon-delimited parts.
pub fn decode_subject(s: &str) -> (r: Option<Principal>)
    ensures
        match r {
            Some(p) => parse_subject(s@) == Some(p@),
            None => parse_subject(s@) is None,
        },
{
    let parts = splitn_all(s, ':', 4);
    if parts.len() != 4 {
        proof {
            assert(splitn_chars(s@, ':', 4nat).len() != 4);
        }
        return None;
    }
    let roles = split_all(parts[2].as_str(), ',');
    let permissions = split_all(parts[3].as_str(), ',');
    let p = Principal {
        id: parts[0].clone(),
        username: parts[1].clone(),
        roles,
        permissions,
    };
    proof {
        let sparts = splitn_chars(s@, ':', 4nat);
        assert(parts.deep_view()[0] == parts[0]@);
        assert(parts.deep_view()[1] == parts[1]@);
        assert(parts.deep_view()[2] == parts[2]@);
        assert(parts.deep_view()[3] == parts[3]@);
        let q = PrincipalView {
            id: sparts[0],
            username: sparts[1],
            roles: split_chars(sparts[2], ','),
            permissions: split_chars(sparts[3], ','),
        };
        assert(parse_subject(s@) == Some(q));
        assert(p@ =~= q);
    }
    Some(p)
}

} // verus!
