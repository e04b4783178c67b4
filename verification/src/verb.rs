//! Resolution of a caller-supplied method string into one of the four HTTP
//! verbs the server understands.  The match is case-insensitive over ASCII,
//! and anything else is rejected.

use vstd::prelude::*;

use crate::error::GotifyError;

verus! {

/// The HTTP verbs the dispatch layer can send.
#[derive(Clone, Copy, Debug, PartialEq, Eq, Structural)]
pub enum Verb {
    Get,
    Post,
    Put,
    Delete,
}

/// The upper-case form of an ASCII lower-case letter; other characters are
/// returned unchanged.
pub open spec fn upper_char(l: char) -> char {
    match l {
        'a' => 'A',
        'b' => 'B',
        'c' => 'C',
        'd' => 'D',
        'e' => 'E',
        'f' => 'F',
        'g' => 'G',
        'h' => 'H',
        'i' => 'I',
        'j' => 'J',
        'k' => 'K',
        'l' => 'L',
        'm' => 'M',
        'n' => 'N',
        'o' => 'O',
        'p' => 'P',
        'q' => 'Q',
        'r' => 'R',
        's' => 'S',
        't' => 'T',
        'u' => 'U',
        'v' => 'V',
        'w' => 'W',
        'x' => 'X',
        'y' => 'Y',
        'z' => 'Z',
        _ => l,
    }
}

/// `c` equals the lower-case letter `l` up to ASCII case.
pub open spec fn ci_eq(c: char, l: char) -> bool {
    c == l || c == upper_char(l)
}

/// `s` spells the lower-case word `l`, up to ASCII case.
pub open spec fn ci_matches(s: Seq<char>, l: Seq<char>) -> bool {
    s.len() == l.len() && (forall|i: int| 0 <= i < l.len() ==> ci_eq(s[i], l[i]))
}

/// The verb a method string names, if any: "get", "post", "put" or "delete",
/// in any mixture of ASCII case.
pub open spec fn verb_of(s: Seq<char>) -> Option<Verb> {
    if ci_matches(s, seq!['g', 'e', 't']) {
        Some(Verb::Get)
    } else if ci_matches(s, seq!['p', 'u', 't']) {
        Some(Verb::Put)
    } else if ci_matches(s, seq!['p', 'o', 's', 't']) {
        Some(Verb::Post)
    } else if ci_matches(s, seq!['d', 'e', 'l', 'e', 't', 'e']) {
        Some(Verb::Delete)
    } else {
        None
    }
}

/// The executable twin of [`upper_char`].
fn to_upper(l: char) -> (u: char)
    ensures
        u == upper_char(l),
{
    match l {
        'a' => 'A',
        'b' => 'B',
        'c' => 'C',
        'd' => 'D',
        'e' => 'E',
        'f' => 'F',
        'g' => 'G',
        'h' => 'H',
        'i' => 'I',
        'j' => 'J',
        'k' => 'K',
        'l' => 'L',
        'm' => 'M',
        'n' => 'N',
        'o' => 'O',
        'p' => 'P',
        'q' => 'Q',
        'r' => 'R',
        's' => 'S',
        't' => 'T',
        'u' => 'U',
        'v' => 'V',
        'w' => 'W',
        'x' => 'X',
        'y' => 'Y',
        'z' => 'Z',
        _ => l,
    }
}

/// The executable twin of [`ci_eq`].
fn ci_char(c: char, l: char) -> (r: bool)
    ensures
        r == ci_eq(c, l),
{
    c == l || c == to_upper(l)
}

/// Maps a method string to its verb, rejecting anything that is not
/// "get", "post", "put" or "delete" up to ASCII case.
pub fn parse_verb(method: &str) -> (r: Result<Verb, GotifyError>)
    ensures
        verb_of(method@) matches Some(v) ==> r == Ok::<Verb, GotifyError>(v),
        verb_of(method@) is None ==> r == Err::<Verb, GotifyError>(GotifyError::InvalidVerb),
{
    let n = method.unicode_len();
    if n == 3 {
        let c0 = method.get_char(0);
        let c1 = method.get_char(1);
        let c2 = method.get_char(2);
        if ci_char(c0, 'g') && ci_char(c1, 'e') && ci_char(c2, 't') {
            proof {
                assert forall|i: int| 0 <= i < 3 implies ci_eq(
                    method@[i],
                    seq!['g', 'e', 't'][i],
                ) by {
                    if i == 0 {
                    } else if i == 1 {
                    } else {
                    }
                }
                assert(ci_matches(method@, seq!['g', 'e', 't']));
            }
            Ok(Verb::Get)
        } else if ci_char(c0, 'p') && ci_char(c1, 'u') && ci_char(c2, 't') {
            proof {
                assert forall|i: int| 0 <= i < 3 implies ci_eq(
                    method@[i],
                    seq!['p', 'u', 't'][i],
                ) by {
                    if i == 0 {
                    } else if i == 1 {
                    } else {
                    }
                }
                assert(ci_matches(method@, seq!['p', 'u', 't']));
                assert(!ci_matches(method@, seq!['g', 'e', 't']));
            }
            Ok(Verb::Put)
        } else {
            proof {
                assert(!ci_matches(method@, seq!['g', 'e', 't']));
                assert(!ci_matches(method@, seq!['p', 'u', 't']));
                assert(verb_of(method@) is None);
            }
            Err(GotifyError::InvalidVerb)
        }
    } else if n == 4 {
        let c0 = method.get_char(0);
        let c1 = method.get_char(1);
        let c2 = method.get_char(2);
        let c3 = method.get_char(3);
        if ci_char(c0, 'p') && ci_char(c1, 'o') && ci_char(c2, 's') && ci_char(c3, 't') {
            proof {
                assert forall|i: int| 0 <= i < 4 implies ci_eq(
                    method@[i],
                    seq!['p', 'o', 's', 't'][i],
                ) by {
                    if i == 0 {
                    } else if i == 1 {
                    } else if i == 2 {
                    } else {
                    }
                }
                assert(ci_matches(method@, seq!['p', 'o', 's', 't']));
            }
            Ok(Verb::Post)
        } else {
            proof {
                assert(!ci_matches(method@, seq!['p', 'o', 's', 't']));
                assert(verb_of(method@) is None);
            }
            Err(GotifyError::InvalidVerb)
        }
    } else if n == 6 {
        let c0 = method.get_char(0);
        let c1 = method.get_char(1);
        let c2 = method.get_char(2);
        let c3 = method.get_char(3);
        let c4 = method.get_char(4);
        let c5 = method.get_char(5);
        if ci_char(c0, 'd') && ci_char(c1, 'e') && ci_char(c2, 'l') && ci_char(c3, 'e')
            && ci_char(c4, 't') && ci_char(c5, 'e') {
            proof {
                assert forall|i: int| 0 <= i < 6 implies ci_eq(
                    method@[i],
                    seq!['d', 'e', 'l', 'e', 't', 'e'][i],
                ) by {
                    if i == 0 {
                    } else if i == 1 {
                    } else if i == 2 {
                    } else if i == 3 {
                    } else if i == 4 {
                    } else {
                    }
                }
                assert(ci_matches(method@, seq!['d', 'e', 'l', 'e', 't', 'e']));
            }
            Ok(Verb::Delete)
        } else {
            proof {
                assert(!ci_matches(method@, seq!['d', 'e', 'l', 'e', 't', 'e']));
                assert(verb_of(method@) is None);
            }
            Err(GotifyError::InvalidVerb)
        }
    } else {
        proof {
            assert(verb_of(method@) is None);
        }
        Err(GotifyError::InvalidVerb)
    }
}

/// "get" names the GET verb.
pub proof fn lemma_verb_get()
    ensures
        verb_of("get"@) == Some(Verb::Get),
{
    reveal_strlit("get");
    assert("get"@ =~= seq!['g', 'e', 't']);
    assert forall|i: int| 0 <= i < 3 implies ci_eq("get"@[i], seq!['g', 'e', 't'][i]) by {
        if i == 0 {
        } else if i == 1 {
        } else {
        }
    }
    assert(ci_matches("get"@, seq!['g', 'e', 't']));
}

/// "put" names the PUT verb.
pub proof fn lemma_verb_put()
    ensures
        verb_of("put"@) == Some(Verb::Put),
{
    reveal_strlit("put");
    assert("put"@ =~= seq!['p', 'u', 't']);
    assert(!ci_eq("put"@[0], 'g'));
    assert(!ci_matches("put"@, seq!['g', 'e', 't']));
    assert forall|i: int| 0 <= i < 3 implies ci_eq("put"@[i], seq!['p', 'u', 't'][i]) by {
        if i == 0 {
        } else if i == 1 {
        } else {
        }
    }
    assert(ci_matches("put"@, seq!['p', 'u', 't']));
}

/// "post" names the POST verb.
pub proof fn lemma_verb_post()
    ensures
        verb_of("post"@) == Some(Verb::Post),
{
    reveal_strlit("post");
    assert("post"@ =~= seq!['p', 'o', 's', 't']);
    assert forall|i: int| 0 <= i < 4 implies ci_eq("post"@[i], seq!['p', 'o', 's', 't'][i]) by {
        if i == 0 {
        } else if i == 1 {
        } else if i == 2 {
        } else {
        }
    }
    assert(ci_matches("post"@, seq!['p', 'o', 's', 't']));
}

/// "delete" names the DELETE verb.
pub proof fn lemma_verb_delete()
    ensures
        verb_of("delete"@) == Some(Verb::Delete),
{
    reveal_strlit("delete");
    assert("delete"@ =~= seq!['d', 'e', 'l', 'e', 't', 'e']);
    assert forall|i: int| 0 <= i < 6 implies ci_eq(
        "delete"@[i],
        seq!['d', 'e', 'l', 'e', 't', 'e'][i],
    ) by {
        if i == 0 {
        } else if i == 1 {
        } else if i == 2 {
        } else if i == 3 {
        } else if i == 4 {
        } else {
        }
    }
    assert(ci_matches("delete"@, seq!['d', 'e', 'l', 'e', 't', 'e']));
}

} // verus!
