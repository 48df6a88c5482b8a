//! The enumerated status domain: five variants, a canonical string form for
//! each, and case-insensitive parsing from user-supplied text.

use vstd::prelude::*;

verus! {

/// The closed status domain of a record. The canonical string form of each
/// variant is its identifier name; parsing is case-insensitive.
#[derive(Debug, Clone, Copy, PartialEq, Eq, Structural)]
pub enum Status {
    Active,
    Inactive,
    Pending,
    Closed,
    UnderReview,
}

/// The lowercase counterpart of an ASCII uppercase letter; any other
/// character is left unchanged.
pub open spec fn lower_char(c: char) -> char {
    if 'A' <= c && c <= 'Z' {
        ((c as u8) + 32) as char
    } else {
        c
    }
}

/// Whether `c` matches the character `l` up to ASCII case.
pub open spec fn char_matches(c: char, l: char) -> bool {
    lower_char(c) == l
}

/// Whether the text `s` matches the name `t` character by character, up to
/// ASCII case.
pub open spec fn matches_ci(s: Seq<char>, t: Seq<char>) -> bool
    decreases t.len(),
{
    if s.len() != t.len() {
        false
    } else if t.len() == 0 {
        true
    } else {
        char_matches(s[0], t[0]) && matches_ci(s.drop_first(), t.drop_first())
    }
}

/// The canonical (case-sensitive) name of a status variant.
pub open spec fn status_name(v: Status) -> Seq<char> {
    match v {
        Status::Active => seq!['A', 'c', 't', 'i', 'v', 'e'],
        Status::Inactive => seq!['I', 'n', 'a', 'c', 't', 'i', 'v', 'e'],
        Status::Pending => seq!['P', 'e', 'n', 'd', 'i', 'n', 'g'],
        Status::Closed => seq!['C', 'l', 'o', 's', 'e', 'd'],
        Status::UnderReview => seq!['U', 'n', 'd', 'e', 'r', 'R', 'e', 'v', 'i', 'e', 'w'],
    }
}

/// The all-lowercase form of a status variant's name.
pub open spec fn status_name_lower(v: Status) -> Seq<char> {
    match v {
        Status::Active => seq!['a', 'c', 't', 'i', 'v', 'e'],
        Status::Inactive => seq!['i', 'n', 'a', 'c', 't', 'i', 'v', 'e'],
        Status::Pending => seq!['p', 'e', 'n', 'd', 'i', 'n', 'g'],
        Status::Closed => seq!['c', 'l', 'o', 's', 'e', 'd'],
        Status::UnderReview => seq!['u', 'n', 'd', 'e', 'r', 'r', 'e', 'v', 'i', 'e', 'w'],
    }
}

/// What parsing returns on a given text: the unique variant whose lowercase
/// name the text matches case-insensitively, or nothing.
pub open spec fn parse_status(s: Seq<char>) -> Option<Status> {
    if matches_ci(s, status_name_lower(Status::Active)) {
        Some(Status::Active)
    } else if matches_ci(s, status_name_lower(Status::Inactive)) {
        Some(Status::Inactive)
    } else if matches_ci(s, status_name_lower(Status::Pending)) {
        Some(Status::Pending)
    } else if matches_ci(s, status_name_lower(Status::Closed)) {
        Some(Status::Closed)
    } else if matches_ci(s, status_name_lower(Status::UnderReview)) {
        Some(Status::UnderReview)
    } else {
        None
    }
}

/// Whether `c` matches the lowercase letter `l` up to ASCII case.
fn char_matches_exec(c: char, l: char) -> (r: bool)
    requires
        'a' <= l && l <= 'z',
    ensures
        r == char_matches(c, l),
{
    c == l || (c as u32) + 32 == (l as u32)
}

/// Skipping one more element of each sequence commutes with `drop_first` on
/// the skipped remainders.
proof fn lemma_skip_step(s: Seq<char>, i: int)
    requires
        0 <= i < s.len(),
    ensures
        s.skip(i).drop_first() =~= s.skip(i + 1),
        s.skip(i)[0] == s[i],
{
}

/// Whether the text `s` equals the name `t` up to ASCII case, where `t`
/// consists of lowercase ASCII letters only.
fn matches_name(s: &str, t: &str) -> (r: bool)
    requires
        forall|i: int| 0 <= i < t@.len() ==> 'a' <= #[trigger] t@[i] && t@[i] <= 'z',
    ensures
        r == matches_ci(s@, t@),
{
    let n = s.unicode_len();
    let m = t.unicode_len();
    if n != m {
        return false;
    }
    let mut i: usize = 0;
    proof {
        assert(s@.skip(0) =~= s@);
        assert(t@.skip(0) =~= t@);
    }
    while i < m
        invariant
            m == t@.len(),
            n == s@.len(),
            n == m,
            i <= m,
            forall|j: int| 0 <= j < t@.len() ==> 'a' <= #[trigger] t@[j] && t@[j] <= 'z',
            matches_ci(s@, t@) == matches_ci(s@.skip(i as int), t@.skip(i as int)),
        decreases m - i,
    {
        let sc = s.get_char(i);
        let tc = t.get_char(i);
        let ok = char_matches_exec(sc, tc);
        proof {
            lemma_skip_step(s@, i as int);
            lemma_skip_step(t@, i as int);
            assert(matches_ci(s@.skip(i as int), t@.skip(i as int)) == (char_matches(
                s@[i as int],
                t@[i as int],
            ) && matches_ci(s@.skip(i as int + 1), t@.skip(i as int + 1))));
        }
        if !ok {
            return false;
        }
        i += 1;
    }
    proof {
        assert(s@.skip(m as int).len() == 0);
        assert(t@.skip(m as int).len() == 0);
    }
    true
}

impl Status {
    /// The canonical string form of this status.
    pub fn to_str(&self) -> (r: &'static str)
        ensures
            r@ == status_name(*self),
    {
        proof {
            reveal_strlit("Active");
            reveal_strlit("Inactive");
            reveal_strlit("Pending");
            reveal_strlit("Closed");
            reveal_strlit("UnderReview");
            assert("Active"@ =~= status_name(Status::Active));
            assert("Inactive"@ =~= status_name(Status::Inactive));
            assert("Pending"@ =~= status_name(Status::Pending));
            assert("Closed"@ =~= status_name(Status::Closed));
            assert("UnderReview"@ =~= status_name(Status::UnderReview));
        }
        match self {
            Status::Active => "Active",
            Status::Inactive => "Inactive",
            Status::Pending => "Pending",
            Status::Closed => "Closed",
            Status::UnderReview => "UnderReview",
        }
    }

    /// The canonical string form of this status, as an owned string.
    pub fn to_text(&self) -> (r: String)
        ensures
            r@ == status_name(*self),
    {
        self.to_str().to_owned()
    }

    /// Parse a status from text, matching the five variant names
    /// case-insensitively; any other text is rejected.
    pub fn from_str(s: &str) -> (r: Result<Status, ()>)
        ensures
            r matches Ok(v) ==> parse_status(s@) == Some(v),
            r is Err <==> parse_status(s@) is None,
    {
        proof {
            reveal_strlit("active");
            reveal_strlit("inactive");
            reveal_strlit("pending");
            reveal_strlit("closed");
            reveal_strlit("underreview");
            assert("active"@ =~= status_name_lower(Status::Active));
            assert("inactive"@ =~= status_name_lower(Status::Inactive));
            assert("pending"@ =~= status_name_lower(Status::Pending));
            assert("closed"@ =~= status_name_lower(Status::Closed));
            assert("underreview"@ =~= status_name_lower(Status::UnderReview));
        }
        if matches_name(s, "active") {
            Ok(Status::Active)
        } else if matches_name(s, "inactive") {
            Ok(Status::Inactive)
        } else if matches_name(s, "pending") {
            Ok(Status::Pending)
        } else if matches_name(s, "closed") {
            Ok(Status::Closed)
        } else if matches_name(s, "underreview") {
            Ok(Status::UnderReview)
        } else {
            Err(())
        }
    }
}

/// Law: parsing the canonical string form of any status variant yields that
/// same variant back.
pub proof fn lemma_status_round_trip(v: Status)
    ensures
        parse_status(status_name(v)) == Some(v),
{
    reveal_with_fuel(matches_ci, 12);
    match v {
        Status::Active => {
            assert(parse_status(status_name(Status::Active)) == Some(Status::Active));
        },
        Status::Inactive => {
            assert(parse_status(status_name(Status::Inactive)) == Some(Status::Inactive));
        },
        Status::Pending => {
            assert(parse_status(status_name(Status::Pending)) == Some(Status::Pending));
        },
        Status::Closed => {
            assert(parse_status(status_name(Status::Closed)) == Some(Status::Closed));
        },
        Status::UnderReview => {
            assert(parse_status(status_name(Status::UnderReview)) == Some(Status::UnderReview));
        },
    }
}

/// Lowering case twice is the same as lowering it once.
proof fn lemma_lower_char_idempotent(c: char)
    ensures
        lower_char(lower_char(c)) == lower_char(c),
{
    if 'A' <= c && c <= 'Z' {
        assert(lower_char(c) == ((c as u8) + 32) as char);
    }
}

/// Matching up to case is unchanged by lowering the case of the text first.
proof fn lemma_matches_ci_lower(s: Seq<char>, t: Seq<char>)
    ensures
        matches_ci(s.map_values(|c: char| lower_char(c)), t) == matches_ci(s, t),
    decreases t.len(),
{
    let sl = s.map_values(|c: char| lower_char(c));
    assert(sl.len() == s.len());
    if s.len() == t.len() && t.len() > 0 {
        assert(sl[0] == lower_char(s[0]));
        lemma_lower_char_idempotent(s[0]);
        assert(char_matches(sl[0], t[0]) == char_matches(s[0], t[0]));
        assert(sl.drop_first() =~= s.drop_first().map_values(|c: char| lower_char(c)));
        lemma_matches_ci_lower(s.drop_first(), t.drop_first());
    }
}

/// Law: parsing is case-insensitive — lowering the case of every character
/// of a text never changes what it parses to.
pub proof fn lemma_parse_case_insensitive(s: Seq<char>)
    ensures
        parse_status(s.map_values(|c: char| lower_char(c))) == parse_status(s),
{
    lemma_matches_ci_lower(s, status_name_lower(Status::Active));
    lemma_matches_ci_lower(s, status_name_lower(Status::Inactive));
    lemma_matches_ci_lower(s, status_name_lower(Status::Pending));
    lemma_matches_ci_lower(s, status_name_lower(Status::Closed));
    lemma_matches_ci_lower(s, status_name_lower(Status::UnderReview));
}

} // verus!
