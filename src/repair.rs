//! Recovery of the JSON object in a model's answer that may be wrapped in
//! prose or cut off before its closing braces.
use vstd::prelude::*;
use vstd::string::StrSliceExecFns;
use crate::json::{object_entries, parse_object, parsed_object, JsonObject};
use crate::stream::{StreamError, StreamFault};
use crate::text::char_vec;

verus! {

/// How many times `c` occurs in `s`.
pub open spec fn occurrences(s: Seq<char>, c: char) -> nat
    decreases s.len(),
{
    if s.len() == 0 {
        0
    } else {
        occurrences(s.drop_last(), c) + if s.last() == c {
            1nat
        } else {
            0nat
        }
    }
}

/// The part of `s` from its first `{` to its last `}`, both included, when
/// the first `{` comes before the last `}`; otherwise all of `s`.
pub open spec fn json_candidate(s: Seq<char>) -> Seq<char> {
    match (s.index_of_first('{'), s.index_of_last('}')) {
        (Some(open), Some(close)) => if open < close {
            s.subrange(open, close + 1)
        } else {
            s
        },
        _ => s,
    }
}

/// `n` closing braces.
pub open spec fn closing_braces(n: nat) -> Seq<char> {
    Seq::new(n, |i: int| '}')
}

/// The candidate with a `}` appended for each `{` that it leaves open.
pub open spec fn repaired(s: Seq<char>) -> Seq<char> {
    let candidate = json_candidate(s);
    let opens = occurrences(candidate, '{');
    let closes = occurrences(candidate, '}');
    if opens > closes {
        candidate + closing_braces((opens - closes) as nat)
    } else {
        candidate
    }
}

proof fn lemma_no_occurrences(s: Seq<char>, c: char)
    requires
        !s.contains(c),
    ensures
        occurrences(s, c) == 0,
    decreases s.len(),
{
    if s.len() > 0 {
        assert(!s.drop_last().contains(c)) by {
            if s.drop_last().contains(c) {
                let i = choose|i: int| 0 <= i < s.drop_last().len() && s.drop_last()[i] == c;
                assert(s[i] == c);
            }
        }
        lemma_no_occurrences(s.drop_last(), c);
    }
}

/// A text without `{` is left as it is, so its repair holds no `{` either.
proof fn lemma_repair_without_open_brace(s: Seq<char>)
    requires
        !s.contains('{'),
    ensures
        repaired(s) == s,
{
    s.index_of_first_ensures('{');
    lemma_no_occurrences(s, '{');
}

/// The position of the first `c` in `v`.
fn first_position(v: &Vec<char>, c: char) -> (r: Option<usize>)
    ensures
        r matches Some(i) ==> v@.index_of_first(c) == Some(i as int),
        r is None ==> v@.index_of_first(c) is None,
{
    proof {
        v@.index_of_first_ensures(c);
    }
    let mut i: usize = 0;
    while i < v.len()
        invariant
            i <= v@.len(),
            forall|j: int| 0 <= j < i ==> v@[j] != c,
        decreases v@.len() - i,
    {
        if v[i] == c {
            proof {
                v@.index_of_first_ensures(c);
            }
            return Some(i);
        }
        i = i + 1;
    }
    None
}

/// The position of the last `c` in `v`.
fn last_position(v: &Vec<char>, c: char) -> (r: Option<usize>)
    ensures
        r matches Some(i) ==> v@.index_of_last(c) == Some(i as int),
        r is None ==> v@.index_of_last(c) is None,
{
    proof {
        v@.index_of_last_ensures(c);
    }
    let mut i: usize = v.len();
    while i > 0
        invariant
            i <= v@.len(),
            forall|j: int| i <= j < v@.len() ==> v@[j] != c,
        decreases i,
    {
        if v[i - 1] == c {
            proof {
                v@.index_of_last_ensures(c);
            }
            return Some(i - 1);
        }
        i = i - 1;
    }
    None
}

/// How many times `c` occurs in `v[from..to]`.
fn count_between(v: &Vec<char>, from: usize, to: usize, c: char) -> (r: usize)
    requires
        from <= to <= v@.len(),
    ensures
        r == occurrences(v@.subrange(from as int, to as int), c),
{
    let mut n: usize = 0;
    let mut k: usize = from;
    assert(v@.subrange(from as int, from as int).len() == 0);
    while k < to
        invariant
            from <= k <= to <= v@.len(),
            n <= k - from,
            n == occurrences(v@.subrange(from as int, k as int), c),
        decreases to - k,
    {
        assert(v@.subrange(from as int, k + 1).drop_last() =~= v@.subrange(from as int, k as int));
        if v[k] == c {
            n = n + 1;
        }
        k = k + 1;
    }
    n
}

/// Extracts the JSON object from a model's answer and parses it.
///
/// The candidate is the text from the first `{` to the last `}` (or the
/// whole text when there is no such pair); a `}` is appended for each `{` it
/// leaves unclosed. Nothing is ever removed. A candidate that still does not
/// parse as a JSON object is reported together with the candidate.
pub fn repair_and_parse(text: &str) -> (r: Result<JsonObject, StreamError>)
    ensures
        r is Ok <==> parsed_object(repaired(text@)) is Some,
        r matches Ok(obj) ==> parsed_object(repaired(text@)) == Some(object_entries(obj)),
        r matches Err(e) ==> e.fault() == StreamFault::Unparseable(json_candidate(text@)),
        !text@.contains('{') ==> r is Err,
{
    let chars = char_vec(text);
    let n = chars.len();
    proof {
        chars@.index_of_first_ensures('{');
        chars@.index_of_last_ensures('}');
    }
    let (from, to) = match (first_position(&chars, '{'), last_position(&chars, '}')) {
        (Some(open), Some(close)) => if open < close {
            (open, close + 1)
        } else {
            (0, n)
        },
        _ => (0, n),
    };
    assert(text@.subrange(0, text@.len() as int) =~= text@);
    let candidate = text.substring_char(from, to);
    assert(candidate@ == json_candidate(text@));
    let opens = count_between(&chars, from, to, '{');
    let closes = count_between(&chars, from, to, '}');
    let mut fixed = candidate.to_owned();
    if opens > closes {
        let missing = opens - closes;
        let mut k: usize = 0;
        proof {
            reveal_strlit("}");
            assert(candidate@ + closing_braces(0) =~= candidate@);
        }
        while k < missing
            invariant
                k <= missing,
                fixed@ == candidate@ + closing_braces(k as nat),
                "}"@ == seq!['}'],
            decreases missing - k,
        {
            assert(closing_braces(k as nat).push('}') =~= closing_braces((k + 1) as nat));
            assert(candidate@ + closing_braces((k + 1) as nat) =~= candidate@ + closing_braces(
                k as nat,
            ) + seq!['}']);
            fixed.append("}");
            k = k + 1;
        }
    }
    assert(fixed@ == repaired(text@));
    proof {
        if !text@.contains('{') {
            lemma_repair_without_open_brace(text@);
        }
    }
    match parse_object(fixed.as_str()) {
        Ok(obj) => Ok(obj),
        Err(e) => Err(
            StreamError::UnparseableFinalText { text: candidate.to_owned(), diagnostic: e.to_string() },
        ),
    }
}

} // verus!
