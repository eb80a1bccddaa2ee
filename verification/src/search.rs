//! The process-table search filter: a sample stays visible when the
//! lowercased query occurs in its lowercased name or in its decimal pid.

use vstd::prelude::*;
use vstd::string::StringExecFns;
use crate::metrics::ProcessInfo;

verus! {

broadcast use vstd::seq::Seq::lemma_filter_push;

/// What str::to_lowercase returns: a function of the characters alone,
/// known only to the platform's Unicode tables.
pub uninterp spec fn lower_of(s: Seq<char>) -> Seq<char>;

/// Relies on str::to_lowercase: the result depends on the characters
/// alone; an empty string stays empty.
#[verifier::external_body]
fn lowercase(s: &str) -> (r: String)
    ensures
        r@ == lower_of(s@),
        s@.len() == 0 ==> r@.len() == 0,
{
    s.to_lowercase()
}

/// `needle` occurs contiguously inside `hay`; every string contains the
/// empty one.
pub open spec fn has_substring(hay: Seq<char>, needle: Seq<char>) -> bool {
    exists|i: int|
        0 <= i && i + needle.len() <= hay.len() && #[trigger] hay.subrange(i, i + needle.len())
            == needle
}

/// Relies on str::contains with a string pattern: substring containment
/// (a byte-level match in valid UTF-8 always falls on character
/// boundaries, so it coincides with character-level containment).
#[verifier::external_body]
fn contains_str(hay: &str, needle: &str) -> (r: bool)
    ensures
        r == has_substring(hay@, needle@),
{
    hay.contains(needle)
}

/// The character of one decimal digit.
pub open spec fn digit_char(d: nat) -> char {
    if d == 0 {
        '0'
    } else if d == 1 {
        '1'
    } else if d == 2 {
        '2'
    } else if d == 3 {
        '3'
    } else if d == 4 {
        '4'
    } else if d == 5 {
        '5'
    } else if d == 6 {
        '6'
    } else if d == 7 {
        '7'
    } else if d == 8 {
        '8'
    } else {
        '9'
    }
}

/// The decimal digits of `n`, most significant first, no leading zeros.
pub open spec fn dec_digits(n: nat) -> Seq<char>
    decreases n,
{
    if n < 10 {
        seq![digit_char(n)]
    } else {
        dec_digits(n / 10).push(digit_char(n % 10))
    }
}

fn digit_str(d: u32) -> (r: &'static str)
    requires
        d < 10,
    ensures
        r@ == seq![digit_char(d as nat)],
{
    proof {
        reveal_strlit("0");
        reveal_strlit("1");
        reveal_strlit("2");
        reveal_strlit("3");
        reveal_strlit("4");
        reveal_strlit("5");
        reveal_strlit("6");
        reveal_strlit("7");
        reveal_strlit("8");
        reveal_strlit("9");
    }
    let r: &'static str = if d == 0 {
        "0"
    } else if d == 1 {
        "1"
    } else if d == 2 {
        "2"
    } else if d == 3 {
        "3"
    } else if d == 4 {
        "4"
    } else if d == 5 {
        "5"
    } else if d == 6 {
        "6"
    } else if d == 7 {
        "7"
    } else if d == 8 {
        "8"
    } else {
        "9"
    };
    proof {
        assert(r@ =~= seq![digit_char(d as nat)]);
    }
    r
}

/// Decimal rendering of a pid: exactly its digits, most significant
/// first.
pub fn u32_to_decimal(n: u32) -> (r: String)
    ensures
        r@ == dec_digits(n as nat),
    decreases n,
{
    if n < 10 {
        String::from_str(digit_str(n))
    } else {
        let prefix = u32_to_decimal(n / 10);
        let r = prefix.concat(digit_str(n % 10));
        proof {
            assert(r@ =~= dec_digits((n / 10) as nat).push(digit_char((n % 10) as nat)));
        }
        r
    }
}

/// A sample matches a lowercased query when the query occurs in the
/// lowercased name or in the decimal pid.
pub open spec fn matches_filter(p: ProcessInfo, needle_lower: Seq<char>) -> bool {
    has_substring(lower_of(p.name@), needle_lower) || has_substring(
        dec_digits(p.pid as nat),
        needle_lower,
    )
}

/// The search predicate for one lowercased query.
pub open spec fn matching(needle_lower: Seq<char>) -> spec_fn(ProcessInfo) -> bool {
    |p: ProcessInfo| matches_filter(p, needle_lower)
}

/// Whether one sample matches the lowercased query.
pub fn process_matches(p: &ProcessInfo, needle_lower: &String) -> (r: bool)
    ensures
        r == matches_filter(*p, needle_lower@),
{
    let name_lower = lowercase(p.name.as_str());
    if contains_str(name_lower.as_str(), needle_lower.as_str()) {
        return true;
    }
    let pid_text = u32_to_decimal(p.pid);
    contains_str(pid_text.as_str(), needle_lower.as_str())
}

/// The samples visible under a search query, in their original order: all
/// of them for an empty query, else exactly those matching its lowercased
/// form.
pub fn filter_processes(list: &Vec<ProcessInfo>, filter: &String) -> (r: Vec<ProcessInfo>)
    ensures
        filter@.len() == 0 ==> r@ == list@,
        filter@.len() > 0 ==> r@ == list@.filter(matching(lower_of(filter@))),
{
    let empty: bool = filter.as_str().is_empty();
    let needle = lowercase(filter.as_str());
    let mut out: Vec<ProcessInfo> = Vec::new();
    let mut k: usize = 0;
    while k < list.len()
        invariant
            k <= list@.len(),
            empty == (filter@.len() == 0),
            needle@ == lower_of(filter@),
            empty ==> out@ == list@.subrange(0, k as int),
            !empty ==> out@ == list@.subrange(0, k as int).filter(matching(lower_of(filter@))),
        decreases list@.len() - k,
    {
        let p = &list[k];
        if empty {
            out.push(p.clone());
        } else if process_matches(p, &needle) {
            out.push(p.clone());
        }
        k = k + 1;
        proof {
            assert(list@.subrange(0, k as int) =~= list@.subrange(0, k as int - 1).push(
                list@[k as int - 1],
            ));
        }
    }
    proof {
        assert(list@.subrange(0, list@.len() as int) =~= list@);
    }
    out
}

} // verus!
