use vstd::prelude::*;
use crate::link::scheme_len;
use crate::text::{chars_of, contains, is_word, occurs_at, occurs_at_exec, occurs_in_range, word_char};

verus! {

/// A source platform, told apart by the host of a link.
#[derive(Clone, Copy, Debug, PartialEq, Eq, Structural)]
pub enum Platform {
    X,
    Threads,
    Unknown,
}

pub open spec fn x_host() -> Seq<char> {
    seq!['x', '.', 'c', 'o', 'm']
}

pub open spec fn threads_net_host() -> Seq<char> {
    seq!['t', 'h', 'r', 'e', 'a', 'd', 's', '.', 'n', 'e', 't']
}

pub open spec fn threads_com_host() -> Seq<char> {
    seq!['t', 'h', 'r', 'e', 'a', 'd', 's', '.', 'c', 'o', 'm']
}

/// The path segment that precedes a post id.
pub open spec fn posts_marker() -> Seq<char> {
    seq!['/', 'p', 'o', 's', 't', 's', '/']
}

/// The platform that a host names, by substring.
pub open spec fn platform_of_host(h: Seq<char>) -> Platform {
    if contains(h, x_host()) {
        Platform::X
    } else if contains(h, threads_net_host()) || contains(h, threads_com_host()) {
        Platform::Threads
    } else {
        Platform::Unknown
    }
}

/// Where the host of `u` begins: after its scheme, if it has one.
pub open spec fn host_start(u: Seq<char>) -> int {
    scheme_len(u, 0)
}

pub open spec fn ends_host(c: char) -> bool {
    c == '/' || c == '?' || c == '#'
}

/// `e` ends the host that begins at `a`: the first `/`, `?` or `#`, or the end.
pub open spec fn host_end(u: Seq<char>, a: int, e: int) -> bool {
    &&& 0 <= a <= e <= u.len()
    &&& forall|k: int| a <= k < e ==> !ends_host(u[k])
    &&& (e == u.len() || ends_host(u[e]))
}

/// `h` is the host of `u`.
pub open spec fn host_of(u: Seq<char>, h: Seq<char>) -> bool {
    exists|e: int| host_end(u, host_start(u), e) && h == u.subrange(host_start(u), e)
}

/// A post id follows position `k`: the marker starts there, and a word character follows it.
pub open spec fn id_marker_at(u: Seq<char>, k: int) -> bool {
    occurs_at(u, k, posts_marker()) && k + 7 < u.len() && is_word(u[k + 7])
}

/// `j` ends the run of word characters that begins at `i`.
pub open spec fn word_end(u: Seq<char>, i: int, j: int) -> bool {
    &&& 0 <= i <= j <= u.len()
    &&& forall|k: int| i <= k < j ==> is_word(u[k])
    &&& (j == u.len() || !is_word(u[j]))
}

/// `id` is the post id in `u` at or after `from`: the word run that follows
/// the first marker that a word character follows.
pub open spec fn post_id_in(u: Seq<char>, from: int, id: Seq<char>) -> bool {
    exists|k: int, j: int|
        from <= k && #[trigger] id_span(u, k, j) && (forall|m: int|
            from <= m < k ==> !id_marker_at(u, m)) && id == u.subrange(k + 7, j)
}

/// A marker at `k`, and the word run after it ending at `j`.
pub open spec fn id_span(u: Seq<char>, k: int, j: int) -> bool {
    id_marker_at(u, k) && word_end(u, k + 7, j)
}

pub open spec fn no_post_id_in(u: Seq<char>, from: int) -> bool {
    forall|k: int| from <= k < u.len() ==> !id_marker_at(u, k)
}

fn marker_exec() -> (r: Vec<char>)
    ensures
        r@ == posts_marker(),
{
    let r = vec!['/', 'p', 'o', 's', 't', 's', '/'];
    assert(r@ =~= posts_marker());
    r
}

fn host_needles() -> (r: (Vec<char>, Vec<char>, Vec<char>))
    ensures
        r.0@ == x_host(),
        r.1@ == threads_net_host(),
        r.2@ == threads_com_host(),
{
    let x = vec!['x', '.', 'c', 'o', 'm'];
    let n = vec!['t', 'h', 'r', 'e', 'a', 'd', 's', '.', 'n', 'e', 't'];
    let c = vec!['t', 'h', 'r', 'e', 'a', 'd', 's', '.', 'c', 'o', 'm'];
    assert(x@ =~= x_host());
    assert(n@ =~= threads_net_host());
    assert(c@ =~= threads_com_host());
    (x, n, c)
}

/// The platform that the host of a link names.
fn platform_of(u: &Vec<char>, a: usize, e: usize) -> (r: Platform)
    requires
        a <= e <= u@.len(),
    ensures
        r == platform_of_host(u@.subrange(a as int, e as int)),
{
    let (x, tn, tc) = host_needles();
    if occurs_in_range(u, a, e, &x) {
        Platform::X
    } else if occurs_in_range(u, a, e, &tn) || occurs_in_range(u, a, e, &tc) {
        Platform::Threads
    } else {
        Platform::Unknown
    }
}

/// The post id at or after `from`, if any.
fn post_id_from(url: &str, u: &Vec<char>, from: usize) -> (r: Option<String>)
    requires
        u@ == url@,
        from <= u@.len(),
    ensures
        r is None <==> no_post_id_in(u@, from as int),
        r matches Some(id) ==> post_id_in(u@, from as int, id@),
{
    let marker = marker_exec();
    let n = u.len();
    let mut k: usize = from;
    while k < n
        invariant
            n == u@.len(),
            u@ == url@,
            marker@ == posts_marker(),
            from <= k <= n,
            forall|m: int| from <= m < k ==> !id_marker_at(u@, m),
        decreases n - k,
    {
        if occurs_at_exec(u, k, &marker) && 7 < n - k && word_char(u[k + 7]) {
            let mut j: usize = k + 8;
            while j < n && word_char(u[j])
                invariant
                    n == u@.len(),
                    k + 8 <= j <= n,
                    is_word(u@[k + 7]),
                    forall|m: int| k + 8 <= m < j ==> is_word(u@[m]),
                decreases n - j,
            {
                j = j + 1;
            }
            assert(word_end(u@, k + 7, j as int));
            assert(id_span(u@, k as int, j as int));
            let id = url.substring_char(k + 7, j).to_string();
            return Some(id);
        }
        k = k + 1;
    }
    None
}

/// `r` is what resolving `u` gives, where its host ends at `e`.
pub open spec fn resolved_as(u: Seq<char>, e: int, r: (Platform, Option<String>)) -> bool {
    &&& r.0 == platform_of_host(u.subrange(host_start(u), e))
    &&& r.0 == Platform::Unknown ==> r.1 is None
    &&& r.0 != Platform::Unknown ==> (r.1 is None <==> no_post_id_in(u, e))
    &&& r.0 != Platform::Unknown ==> (r.1 matches Some(id) ==> post_id_in(u, e, id@))
}

/// What `resolve` gives for `u`.
pub open spec fn resolve_post(u: Seq<char>, r: (Platform, Option<String>)) -> bool {
    exists|e: int| #[trigger] host_end(u, host_start(u), e) && resolved_as(u, e, r)
}

/// The host of a link has one end only.
pub proof fn lemma_host_end_unique(u: Seq<char>, a: int, e1: int, e2: int)
    requires
        host_end(u, a, e1),
        host_end(u, a, e2),
    ensures
        e1 == e2,
{
    if e1 < e2 {
        assert(ends_host(u[e1]));
    } else if e2 < e1 {
        assert(ends_host(u[e2]));
    }
}

/// Whatever the rest of a link, its platform follows its host: a host holding
/// `x.com` gives X; otherwise one holding `threads.net` or `threads.com` gives
/// Threads; any other host gives Unknown, with no post id.
pub proof fn law_platform_by_host(u: Seq<char>, h: Seq<char>, r: (Platform, Option<String>))
    requires
        host_of(u, h),
        resolve_post(u, r),
    ensures
        contains(h, x_host()) ==> r.0 == Platform::X,
        !contains(h, x_host()) && (contains(h, threads_net_host()) || contains(
            h,
            threads_com_host(),
        )) ==> r.0 == Platform::Threads,
        !contains(h, x_host()) && !contains(h, threads_net_host()) && !contains(
            h,
            threads_com_host(),
        ) ==> r.0 == Platform::Unknown && r.1 is None,
{
    let e1 = choose|e: int| host_end(u, host_start(u), e) && h == u.subrange(host_start(u), e);
    let e2 = choose|e: int| #[trigger] host_end(u, host_start(u), e) && resolved_as(u, e, r);
    lemma_host_end_unique(u, host_start(u), e1, e2);
}

/// Classifies a link by its host and takes the post id out of its path.
/// A host holding `x.com` gives `X`; one holding `threads.net` or `threads.com`
/// gives `Threads`; any other gives `Unknown`, which never carries an id.
pub fn resolve(url: &str) -> (r: (Platform, Option<String>))
    ensures
        resolve_post(url@, r),
{
    let u = chars_of(url);
    let n = u.len();
    let https = vec!['h', 't', 't', 'p', 's', ':', '/', '/'];
    let http = vec!['h', 't', 't', 'p', ':', '/', '/'];
    assert(https@ =~= crate::link::https_scheme());
    assert(http@ =~= crate::link::http_scheme());
    let a: usize = if occurs_at_exec(&u, 0, &https) {
        8
    } else if occurs_at_exec(&u, 0, &http) {
        7
    } else {
        0
    };
    assert(a as int == host_start(url@));
    let mut e: usize = a;
    while e < n && !(u[e] == '/' || u[e] == '?' || u[e] == '#')
        invariant
            n == u@.len(),
            a <= e <= n,
            forall|k: int| a <= k < e ==> !ends_host(u@[k]),
        decreases n - e,
    {
        e = e + 1;
    }
    assert(host_end(url@, host_start(url@), e as int));
    let p = platform_of(&u, a, e);
    let r = if p == Platform::Unknown {
        (p, None)
    } else {
        (p, post_id_from(url, &u, e))
    };
    assert(resolved_as(url@, e as int, r));
    r
}

} // verus!
