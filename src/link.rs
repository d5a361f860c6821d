use vstd::prelude::*;
use crate::text::{chars_of, is_space, occurs_at, occurs_at_exec, space_char};

verus! {

pub open spec fn http_scheme() -> Seq<char> {
    seq!['h', 't', 't', 'p', ':', '/', '/']
}

pub open spec fn https_scheme() -> Seq<char> {
    seq!['h', 't', 't', 'p', 's', ':', '/', '/']
}

fn http_scheme_exec() -> (r: Vec<char>)
    ensures
        r@ == http_scheme(),
{
    let r = vec!['h', 't', 't', 'p', ':', '/', '/'];
    assert(r@ =~= http_scheme());
    r
}

fn https_scheme_exec() -> (r: Vec<char>)
    ensures
        r@ == https_scheme(),
{
    let r = vec!['h', 't', 't', 'p', 's', ':', '/', '/'];
    assert(r@ =~= https_scheme());
    r
}

/// Length of the `http://` or `https://` scheme that starts at `i`, or 0 if none does.
pub open spec fn scheme_len(s: Seq<char>, i: int) -> int {
    if occurs_at(s, i, https_scheme()) {
        8
    } else if occurs_at(s, i, http_scheme()) {
        7
    } else {
        0
    }
}

/// A link starts at `i`: a scheme followed by at least one non-whitespace character.
pub open spec fn url_starts_at(s: Seq<char>, i: int) -> bool {
    let n = scheme_len(s, i);
    n > 0 && i + n < s.len() && !is_space(s[i + n])
}

/// No link starts before `i`, and one starts at `i`.
pub open spec fn first_url_at(s: Seq<char>, i: int) -> bool {
    url_starts_at(s, i) && forall|k: int| 0 <= k < i ==> !url_starts_at(s, k)
}

/// `j` ends the run of non-whitespace characters that begins at `i`.
pub open spec fn run_end(s: Seq<char>, i: int, j: int) -> bool {
    &&& 0 <= i <= j <= s.len()
    &&& forall|k: int| i <= k < j ==> !is_space(s[k])
    &&& (j == s.len() || is_space(s[j]))
}

/// `u` is the link extracted from `s`: the first link, up to the next whitespace.
pub open spec fn extracted_as(s: Seq<char>, u: Seq<char>) -> bool {
    exists|i: int, j: int| first_url_at(s, i) && run_end(s, i, j) && u == s.subrange(i, j)
}

/// `s` holds no link.
pub open spec fn has_no_url(s: Seq<char>) -> bool {
    forall|i: int| 0 <= i < s.len() ==> !url_starts_at(s, i)
}

/// The first `http`/`https` link in `text`, taken up to the next whitespace.
/// Absence of a link is a normal outcome.
pub fn extract(text: &str) -> (r: Option<String>)
    ensures
        r is None <==> has_no_url(text@),
        r matches Some(u) ==> extracted_as(text@, u@),
{
    let s = chars_of(text);
    let https = https_scheme_exec();
    let http = http_scheme_exec();
    let n = s.len();
    let mut i: usize = 0;
    while i < n
        invariant
            n == s@.len(),
            s@ == text@,
            https@ == https_scheme(),
            http@ == http_scheme(),
            i <= n,
            forall|k: int| 0 <= k < i ==> !url_starts_at(s@, k),
        decreases n - i,
    {
        let sl: usize = if occurs_at_exec(&s, i, &https) {
            8
        } else if occurs_at_exec(&s, i, &http) {
            7
        } else {
            0
        };
        assert(sl as int == scheme_len(s@, i as int));
        if sl > 0 && sl < n - i && !space_char(s[i + sl]) {
            let mut j: usize = i + sl;
            while j < n && !space_char(s[j])
                invariant
                    n == s@.len(),
                    i + sl <= j <= n,
                    forall|k: int| i <= k < i + sl ==> !is_space(#[trigger] s@[k]),
                    forall|k: int| i + sl <= k < j ==> !is_space(s@[k]),
                decreases n - j,
            {
                j = j + 1;
            }
            proof {
                assert forall|k: int| i <= k < i + sl implies !is_space(#[trigger] s@[k]) by {
                    if occurs_at(s@, i as int, https_scheme()) {
                        assert(s@[k] == s@.subrange(i as int, i + 8)[k - i]);
                    } else {
                        assert(s@[k] == s@.subrange(i as int, i + 7)[k - i]);
                    }
                }
                assert(first_url_at(s@, i as int));
                assert(run_end(s@, i as int, j as int));
            }
            let u = text.substring_char(i, j).to_string();
            return Some(u);
        }
        i = i + 1;
    }
    None
}

} // verus!
