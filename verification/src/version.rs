//! Extraction of a dotted version string from a branch name.
//!
//! A branch name such as `rel_3_2_1` carries its version as an
//! underscore-separated token: an underscore, one or two decimal digits,
//! an underscore, one or two digits, an underscore, and one or two
//! digits. The first such token in the name, with each digit group taken
//! as long as possible, yields the version `X.Y.Z`.

use vstd::prelude::*;

verus! {

/// Whether `c` is a decimal digit.
pub open spec fn is_digit(c: char) -> bool {
    ('0' as u32) <= (c as u32) && (c as u32) <= ('9' as u32)
}

/// Whether the version token with digit-group lengths `a`, `b`, `c`
/// (each 1 or 2) starts at position `i` of `s`: an underscore, `a`
/// digits, an underscore, `b` digits, an underscore, `c` digits.
pub open spec fn token_at(s: Seq<char>, i: int, a: int, b: int, c: int) -> bool {
    &&& 0 <= i
    &&& (a == 1 || a == 2)
    &&& (b == 1 || b == 2)
    &&& (c == 1 || c == 2)
    &&& i + 3 + a + b + c <= s.len()
    &&& s[i] == '_'
    &&& (forall|k: int| i + 1 <= k < i + 1 + a ==> is_digit(#[trigger] s[k]))
    &&& s[i + 1 + a] == '_'
    &&& (forall|k: int| i + 2 + a <= k < i + 2 + a + b ==> is_digit(#[trigger] s[k]))
    &&& s[i + 2 + a + b] == '_'
    &&& (forall|k: int| i + 3 + a + b <= k < i + 3 + a + b + c ==> is_digit(#[trigger] s[k]))
}

/// Whether a version token with some group lengths starts at position `i`.
pub open spec fn match_at(s: Seq<char>, i: int) -> bool {
    exists|a: int, b: int, c: int| token_at(s, i, a, b, c)
}

/// Whether `s` holds a version token anywhere.
pub open spec fn has_version_token(s: Seq<char>) -> bool {
    exists|i: int| match_at(s, i)
}

/// Whether `i` is the earliest position of `s` at which a token starts.
pub open spec fn is_first_match(s: Seq<char>, i: int) -> bool {
    &&& match_at(s, i)
    &&& forall|j: int| 0 <= j < i ==> !match_at(s, j)
}

/// The length of the first digit group at `i`, taken as long as possible.
pub open spec fn first_len(s: Seq<char>, i: int) -> int {
    if exists|b: int, c: int| token_at(s, i, 2, b, c) {
        2
    } else {
        1
    }
}

/// The length of the second digit group, given the first group's length.
pub open spec fn second_len(s: Seq<char>, i: int, a: int) -> int {
    if exists|c: int| token_at(s, i, a, 2, c) {
        2
    } else {
        1
    }
}

/// The length of the third digit group, given the first two lengths.
pub open spec fn third_len(s: Seq<char>, i: int, a: int, b: int) -> int {
    if token_at(s, i, a, b, 2) {
        2
    } else {
        1
    }
}

/// The version string read off the token at position `i`: the three digit
/// groups joined with dots.
pub open spec fn version_at(s: Seq<char>, i: int) -> Seq<char> {
    let a = first_len(s, i);
    let b = second_len(s, i, a);
    let c = third_len(s, i, a, b);
    s.subrange(i + 1, i + 1 + a) + seq!['.'] + s.subrange(i + 2 + a, i + 2 + a + b) + seq!['.']
        + s.subrange(i + 3 + a + b, i + 3 + a + b + c)
}

/// Whether `c` is a decimal digit.
fn digit(c: char) -> (r: bool)
    ensures
        r == is_digit(c),
{
    let v = c as u32;
    ('0' as u32) <= v && v <= ('9' as u32)
}

/// Whether the token with group lengths `a`, `b`, `c` starts at `i`.
fn check_token(s: &str, n: usize, i: usize, a: usize, b: usize, c: usize) -> (r: bool)
    requires
        n == s@.len(),
        i < n,
        1 <= a <= 2,
        1 <= b <= 2,
        1 <= c <= 2,
    ensures
        r == token_at(s@, i as int, a as int, b as int, c as int),
{
    if n - i < 3 + a + b + c {
        return false;
    }
    if s.get_char(i) != '_' {
        return false;
    }
    if !digit(s.get_char(i + 1)) {
        return false;
    }
    if a == 2 && !digit(s.get_char(i + 2)) {
        return false;
    }
    if s.get_char(i + 1 + a) != '_' {
        return false;
    }
    if !digit(s.get_char(i + 2 + a)) {
        return false;
    }
    if b == 2 && !digit(s.get_char(i + 3 + a)) {
        return false;
    }
    if s.get_char(i + 2 + a + b) != '_' {
        return false;
    }
    if !digit(s.get_char(i + 3 + a + b)) {
        return false;
    }
    if c == 2 && !digit(s.get_char(i + 4 + a + b)) {
        return false;
    }
    true
}

/// The version string carried by the first version token of `name`, or
/// `None` when `name` holds no such token.
pub fn extract_version(name: &str) -> (r: Option<String>)
    ensures
        r is Some <==> has_version_token(name@),
        r is Some ==> exists|i: int|
            #[trigger] is_first_match(name@, i) && r->0@ == version_at(name@, i),
{
    let n = name.unicode_len();
    let mut i: usize = 0;
    while i < n
        invariant
            n == name@.len(),
            i <= n,
            forall|j: int| 0 <= j < i ==> !match_at(name@, j),
        decreases n - i,
    {
        let t222 = check_token(name, n, i, 2, 2, 2);
        let t221 = check_token(name, n, i, 2, 2, 1);
        let t212 = check_token(name, n, i, 2, 1, 2);
        let t211 = check_token(name, n, i, 2, 1, 1);
        let t122 = check_token(name, n, i, 1, 2, 2);
        let t121 = check_token(name, n, i, 1, 2, 1);
        let t112 = check_token(name, n, i, 1, 1, 2);
        let t111 = check_token(name, n, i, 1, 1, 1);
        let matched = t222 || t221 || t212 || t211 || t122 || t121 || t112 || t111;
        if matched {
            let a: usize = if t222 || t221 || t212 || t211 {
                2
            } else {
                1
            };
            proof {
                assert(a == first_len(name@, i as int));
            }
            let b: usize = if (a == 2 && (t222 || t221)) || (a == 1 && (t122 || t121)) {
                2
            } else {
                1
            };
            proof {
                assert(b == second_len(name@, i as int, a as int));
            }
            let c: usize = if check_token(name, n, i, a, b, 2) {
                2
            } else {
                1
            };
            proof {
                assert(c == third_len(name@, i as int, a as int, b as int));
                assert(token_at(name@, i as int, a as int, b as int, c as int));
            }
            let x = name.substring_char(i + 1, i + 1 + a);
            let y = name.substring_char(i + 2 + a, i + 2 + a + b);
            let z = name.substring_char(i + 3 + a + b, i + 3 + a + b + c);
            let mut out = String::from_str(x);
            out.append(".");
            out.append(y);
            out.append(".");
            out.append(z);
            proof {
                reveal_strlit(".");
                assert("."@ =~= seq!['.']);
                assert(out@ =~= version_at(name@, i as int));
                assert(is_first_match(name@, i as int));
            }
            return Some(out);
        }
        proof {
            assert(!match_at(name@, i as int)) by {
                if match_at(name@, i as int) {
                    let (a, b, c) = choose|a: int, b: int, c: int|
                        token_at(name@, i as int, a, b, c);
                    assert(false);
                }
            }
        }
        i += 1;
    }
    proof {
        assert(!has_version_token(name@)) by {
            if has_version_token(name@) {
                let j = choose|j: int| match_at(name@, j);
                let (a, b, c) = choose|a: int, b: int, c: int| token_at(name@, j, a, b, c);
                assert(0 <= j < n);
                assert(false);
            }
        }
    }
    None
}

} // verus!
