use vstd::prelude::*;
use vstd::slice::slice_subrange;
use vstd::string::StringSliceAdditionalSpecFns;

verus! {

/// ASCII `/`.
pub const SLASH: u8 = 47;
/// ASCII `?`.
pub const QUESTION: u8 = 63;
/// ASCII `&`.
pub const AMPERSAND: u8 = 38;
/// ASCII `=`.
pub const EQUALS: u8 = 61;
/// ASCII `a`.
pub const LOWER_A: u8 = 97;
/// ASCII `e`.
pub const LOWER_E: u8 = 101;
/// ASCII `k`.
pub const LOWER_K: u8 = 107;
/// ASCII `n`.
pub const LOWER_N: u8 = 110;
/// ASCII `o`.
pub const LOWER_O: u8 = 111;
/// ASCII `s`.
pub const LOWER_S: u8 = 115;
/// ASCII `t`.
pub const LOWER_T: u8 = 116;

/// The path on which the bridge page submits the captured fragment: `/token`.
pub open spec fn token_path() -> Seq<u8> {
    seq![SLASH, LOWER_T, LOWER_O, LOWER_K, LOWER_E, LOWER_N]
}

/// The name of the query parameter that carries the state token: `state`.
pub open spec fn state_key() -> Seq<u8> {
    seq![LOWER_S, LOWER_T, LOWER_A, LOWER_T, LOWER_E]
}

/// True when the path of the request target (the part before the first `?`)
/// is exactly `/token`.
pub open spec fn is_token_target(target: Seq<u8>) -> bool {
    &&& target.len() >= 6
    &&& target.subrange(0, 6) == token_path()
    &&& (target.len() == 6 || target[6] == QUESTION)
}

/// The query string of a target whose path is `/token`: what follows the `?`.
pub open spec fn token_query(target: Seq<u8>) -> Seq<u8> {
    if target.len() > 7 {
        target.subrange(7, target.len() as int)
    } else {
        Seq::empty()
    }
}

/// The end of the query parameter that starts at `from`: the index of the
/// next `&`, or the end of the query.
pub open spec fn segment_end(query: Seq<u8>, from: int) -> int
    decreases query.len() - from,
{
    if from >= query.len() {
        query.len() as int
    } else if query[from] == AMPERSAND {
        from
    } else {
        segment_end(query, from + 1)
    }
}

/// The value of the first parameter named `key` among the parameters of
/// `query` from index `from` on, if there is one. A parameter is a
/// `&`-separated segment; it is named `key` when it starts with `key=`.
pub open spec fn param_from(query: Seq<u8>, from: int, key: Seq<u8>) -> Option<Seq<u8>>
    decreases query.len() - from,
{
    if from < 0 || from > query.len() {
        None
    } else {
        let end = segment_end(query, from);
        if end - from > key.len() && query.subrange(from, from + key.len()) == key
            && query[from + key.len()] == EQUALS {
            Some(query.subrange(from + key.len() + 1, end))
        } else if from <= end < query.len() {
            param_from(query, end + 1, key)
        } else {
            None
        }
    }
}

/// The value of the first `state` parameter of a query string.
pub open spec fn state_param(query: Seq<u8>) -> Option<Seq<u8>> {
    param_from(query, 0, state_key())
}

/// How the listener answers one request.
#[derive(Clone, Copy, Debug, PartialEq, Eq, Structural)]
pub enum RequestKind {
    /// Any request but a token submission: it gets the bridge page.
    Bridge,
    /// A token submission whose state is missing or differs from the session's.
    StateMismatch,
    /// A token submission that carries exactly the session's state.
    Token,
}

/// The kind of a request with the given method, target and session state.
pub open spec fn kind_of(is_post: bool, target: Seq<u8>, state: Seq<u8>) -> RequestKind {
    if is_post && is_token_target(target) {
        if state_param(token_query(target)) == Some(state) {
            RequestKind::Token
        } else {
            RequestKind::StateMismatch
        }
    } else {
        RequestKind::Bridge
    }
}

/// The index at which the parameter that starts at `from` ends.
fn find_segment_end(query: &[u8], from: usize) -> (r: usize)
    requires
        from <= query@.len(),
    ensures
        r as int == segment_end(query@, from as int),
        from <= r <= query@.len(),
{
    let mut i: usize = from;
    while i < query.len() && query[i] != AMPERSAND
        invariant
            from <= i <= query@.len(),
            segment_end(query@, from as int) == segment_end(query@, i as int),
        decreases query@.len() - i,
    {
        i = i + 1;
    }
    i
}

/// Whether `bytes[start..end]` equals `expected`.
fn range_equals(bytes: &[u8], start: usize, end: usize, expected: &[u8]) -> (r: bool)
    requires
        start <= end <= bytes@.len(),
    ensures
        r == (bytes@.subrange(start as int, end as int) == expected@),
{
    if end - start != expected.len() {
        return false;
    }
    let mut k: usize = 0;
    while k < expected.len()
        invariant
            end - start == expected@.len(),
            start <= end <= bytes@.len(),
            0 <= k <= expected@.len(),
            forall|j: int| 0 <= j < k ==> bytes@[start + j] == expected@[j],
        decreases expected@.len() - k,
    {
        if bytes[start + k] != expected[k] {
            assert(bytes@.subrange(start as int, end as int)[k as int] != expected@[k as int]);
            return false;
        }
        k = k + 1;
    }
    assert(bytes@.subrange(start as int, end as int) =~= expected@);
    true
}

/// Whether the parameter starting at `from` begins with `state=`.
fn starts_with_state_key(query: &[u8], from: usize, end: usize) -> (r: bool)
    requires
        from <= end <= query@.len(),
    ensures
        r == (end - from > state_key().len() && query@.subrange(from as int, from + 5)
            == state_key() && query@[from + 5] == EQUALS),
{
    if end - from <= 5 {
        return false;
    }
    let r = query[from] == LOWER_S && query[from + 1] == LOWER_T && query[from + 2] == LOWER_A
        && query[from + 3] == LOWER_T && query[from + 4] == LOWER_E && query[from + 5] == EQUALS;
    assert(r ==> query@.subrange(from as int, from + 5) =~= state_key());
    assert(query@.subrange(from as int, from + 5) == state_key() ==> (
        query@.subrange(from as int, from + 5)[0] == LOWER_S
        && query@.subrange(from as int, from + 5)[1] == LOWER_T
        && query@.subrange(from as int, from + 5)[2] == LOWER_A
        && query@.subrange(from as int, from + 5)[3] == LOWER_T
        && query@.subrange(from as int, from + 5)[4] == LOWER_E));
    r
}

/// Whether the first `state` parameter of `query` holds exactly `state`.
fn state_param_matches(query: &[u8], state: &[u8]) -> (r: bool)
    ensures
        r == (state_param(query@) == Some(state@)),
{
    let mut from: usize = 0;
    while from <= query.len()
        invariant
            from <= query@.len() + 1,
            state_param(query@) == param_from(query@, from as int, state_key()),
        decreases query@.len() + 1 - from,
    {
        let end = find_segment_end(query, from);
        if starts_with_state_key(query, from, end) {
            return range_equals(query, from + 6, end, state);
        }
        if end < query.len() {
            from = end + 1;
        } else {
            return false;
        }
    }
    false
}

/// Whether the path of `target` is exactly `/token`.
fn is_token_path(target: &[u8]) -> (r: bool)
    ensures
        r == is_token_target(target@),
{
    if target.len() < 6 {
        return false;
    }
    let r = target[0] == SLASH && target[1] == LOWER_T && target[2] == LOWER_O
        && target[3] == LOWER_K && target[4] == LOWER_E && target[5] == LOWER_N
        && (target.len() == 6 || target[6] == QUESTION);
    assert(r ==> target@.subrange(0, 6) =~= token_path());
    assert(target@.subrange(0, 6) == token_path() ==> (target@.subrange(0, 6)[0] == SLASH
        && target@.subrange(0, 6)[1] == LOWER_T && target@.subrange(0, 6)[2] == LOWER_O
        && target@.subrange(0, 6)[3] == LOWER_K && target@.subrange(0, 6)[4] == LOWER_E
        && target@.subrange(0, 6)[5] == LOWER_N));
    r
}

/// Decides how the listener answers a request, from its method (`is_post`),
/// its request target as received (path and query), and the session's state.
///
/// A `POST` whose path is exactly `/token` is a token submission; it is
/// accepted only when its first `state` query parameter equals `state`
/// byte for byte. Every other request gets the bridge page.
pub fn classify(is_post: bool, target: &str, state: &str) -> (r: RequestKind)
    ensures
        r == kind_of(is_post, target.spec_bytes(), state.spec_bytes()),
{
    let t = target.as_bytes();
    if !is_post || !is_token_path(t) {
        return RequestKind::Bridge;
    }
    let query: &[u8] = if t.len() > 7 {
        slice_subrange(t, 7, t.len())
    } else {
        slice_subrange(t, 0, 0)
    };
    assert(query@ =~= token_query(t@));
    if state_param_matches(query, state.as_bytes()) {
        RequestKind::Token
    } else {
        RequestKind::StateMismatch
    }
}

/// The target the bridge page submits to for the state `state`:
/// `/token?state=<state>`.
pub open spec fn submission_target(state: Seq<u8>) -> Seq<u8> {
    token_path() + seq![QUESTION] + state_key() + seq![EQUALS] + state
}

proof fn segment_end_without_ampersand(query: Seq<u8>, from: int)
    requires
        0 <= from <= query.len(),
        forall|i: int| from <= i < query.len() ==> query[i] != AMPERSAND,
    ensures
        segment_end(query, from) == query.len(),
    decreases query.len() - from,
{
    if from < query.len() {
        segment_end_without_ampersand(query, from + 1);
    }
}

/// A submission to `/token?state=<s>`, for a state `s` without `&`, is
/// accepted for the state `s` and refused for every other state: the check
/// is exact equality, so neither a prefix nor an extension of `s` passes.
pub proof fn submission_matches_only_its_state(s: Seq<u8>, other: Seq<u8>)
    requires
        forall|i: int| 0 <= i < s.len() ==> s[i] != AMPERSAND,
        other != s,
    ensures
        kind_of(true, submission_target(s), s) == RequestKind::Token,
        kind_of(true, submission_target(s), other) == RequestKind::StateMismatch,
{
    let t = submission_target(s);
    assert(t.subrange(0, 6) =~= token_path());
    assert(t[6] == QUESTION);
    assert(is_token_target(t));
    let q = token_query(t);
    assert(q =~= state_key() + seq![EQUALS] + s);
    segment_end_without_ampersand(q, 0);
    assert(q.subrange(0, 5) =~= state_key());
    assert(q.subrange(6, q.len() as int) =~= s);
    assert(state_param(q) == Some(s));
}

} // verus!
