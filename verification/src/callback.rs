//! Parsing and validation of the local redirect callback.
//!
//! The listener's I/O (accepting a connection, reading the request,
//! writing the response page) lives outside the crate; the raw request
//! bytes are handed to [`handle_callback_request`], which recognizes the
//! expected request path, extracts the `code`, `state` and `error` query
//! parameters (form-urlencoded), compares the state byte-for-byte with
//! the expected value, and decides the outcome.

use vstd::prelude::*;
use vstd::slice::slice_subrange;
use vstd::slice::slice_to_vec;
use vstd::string::StringSliceAdditionalSpecFns;
use crate::encoding::bytes_eq;
use crate::encoding::pct_decode;
use crate::encoding::percent_decode;

verus! {

// ---------------------------------------------------------------------
// Finding a byte
// ---------------------------------------------------------------------

/// The position of the first occurrence of a byte, if any.
pub open spec fn find_byte(s: Seq<u8>, b: u8) -> Option<int>
    decreases s.len(),
{
    if s.len() == 0 {
        None
    } else if s[0] == b {
        Some(0int)
    } else {
        match find_byte(s.skip(1), b) {
            Some(i) => Some(i + 1),
            None => None,
        }
    }
}

/// `find_byte` yields the first occurrence: the byte stands there, and
/// nowhere earlier; `None` means the byte does not occur at all.
pub proof fn lemma_find_byte(s: Seq<u8>, b: u8)
    ensures
        match find_byte(s, b) {
            Some(i) => 0 <= i < s.len() && s[i] == b && (forall|j: int| 0 <= j < i ==> s[j] != b),
            None => forall|j: int| 0 <= j < s.len() ==> s[j] != b,
        },
    decreases s.len(),
{
    if s.len() == 0 {
    } else if s[0] == b {
    } else {
        lemma_find_byte(s.skip(1), b);
        match find_byte(s.skip(1), b) {
            Some(i) => {
                assert(s.skip(1)[i] == s[i + 1]);
                assert forall|j: int| 0 <= j < i + 1 implies s[j] != b by {
                    if j >= 1 {
                        assert(s.skip(1)[j - 1] == s[j]);
                    }
                }
            }
            None => {
                assert forall|j: int| 0 <= j < s.len() implies s[j] != b by {
                    if j >= 1 {
                        assert(s.skip(1)[j - 1] == s[j]);
                    }
                }
            }
        }
    }
}

/// Executable search for the first occurrence of a byte.
pub fn find_byte_at(s: &[u8], b: u8) -> (r: Option<usize>)
    ensures
        match r {
            Some(i) => find_byte(s@, b) == Some(i as int),
            None => find_byte(s@, b) is None,
        },
{
    let mut i: usize = 0;
    while i < s.len()
        invariant
            i <= s@.len(),
            forall|j: int| 0 <= j < i ==> s@[j] != b,
        decreases s@.len() - i,
    {
        if s[i] == b {
            proof {
                lemma_find_byte(s@, b);
            }
            return Some(i);
        }
        i = i + 1;
    }
    proof {
        lemma_find_byte(s@, b);
    }
    None
}

// ---------------------------------------------------------------------
// The request grammar
// ---------------------------------------------------------------------

/// The request path the listener recognizes.
pub open spec fn callback_path() -> Seq<u8> {
    "/callback".spec_bytes()
}

/// The first line of the request: everything before the first CR or LF.
pub open spec fn first_line(s: Seq<u8>) -> Seq<u8> {
    let cr = find_byte(s, 13);
    let lf = find_byte(s, 10);
    match cr {
        Some(i) => match lf {
            Some(j) => if i <= j {
                s.take(i)
            } else {
                s.take(j)
            },
            None => s.take(i),
        },
        None => match lf {
            Some(j) => s.take(j),
            None => s,
        },
    }
}

/// The request target of a GET request line: the token after `GET ` and
/// before the next space (or the rest of the line if none follows).
pub open spec fn request_target(line: Seq<u8>) -> Option<Seq<u8>> {
    if line.len() >= 4 && line.subrange(0, 4) == "GET ".spec_bytes() {
        let rest = line.skip(4);
        match find_byte(rest, 32) {
            Some(i) => Some(rest.take(i)),
            None => Some(rest),
        }
    } else {
        None
    }
}

/// The query string of a target whose path is exactly the callback path:
/// what follows the first `?`, or empty if there is no query.
pub open spec fn target_query(target: Seq<u8>) -> Option<Seq<u8>> {
    match find_byte(target, 63) {
        Some(i) => if target.take(i) == callback_path() {
            Some(target.skip(i + 1))
        } else {
            None
        },
        None => if target == callback_path() {
            Some(Seq::empty())
        } else {
            None
        },
    }
}

/// One query pair, split at the first `=` and form-urlencoded-decoded on
/// both sides; a segment without `=` is a key with an empty value.
pub open spec fn decode_pair(p: Seq<u8>) -> (Seq<u8>, Seq<u8>) {
    match find_byte(p, 61) {
        Some(i) => (pct_decode(p.take(i)), pct_decode(p.skip(i + 1))),
        None => (pct_decode(p), Seq::<u8>::empty()),
    }
}

/// The decoded pairs of a query string, split on `&`, in order.
pub open spec fn query_pairs(q: Seq<u8>) -> Seq<(Seq<u8>, Seq<u8>)>
    decreases q.len(),
{
    match find_byte(q, 38) {
        Some(i) => if 0 <= i < q.len() {
            seq![decode_pair(q.take(i))] + query_pairs(q.skip(i + 1))
        } else {
            seq![decode_pair(q)]
        },
        None => seq![decode_pair(q)],
    }
}

/// The value of a query parameter; when a key repeats, the last
/// occurrence wins.
pub open spec fn lookup_param(pairs: Seq<(Seq<u8>, Seq<u8>)>, key: Seq<u8>) -> Option<Seq<u8>>
    decreases pairs.len(),
{
    if pairs.len() == 0 {
        None
    } else if pairs.last().0 == key {
        Some(pairs.last().1)
    } else {
        lookup_param(pairs.drop_last(), key)
    }
}

/// The query string of a request, when its first line is a GET for the
/// callback path.
pub open spec fn callback_query(req: Seq<u8>) -> Option<Seq<u8>> {
    match request_target(first_line(req)) {
        Some(target) => target_query(target),
        None => None,
    }
}

/// The decoded value of one query parameter of a callback request.
pub open spec fn callback_param(req: Seq<u8>, key: Seq<u8>) -> Option<Seq<u8>> {
    match callback_query(req) {
        Some(q) => lookup_param(query_pairs(q), key),
        None => None,
    }
}

// ---------------------------------------------------------------------
// The outcome decision
// ---------------------------------------------------------------------

/// The outcome of one inbound request, at the specification level.
pub enum SpecOutcome {
    /// A well-formed callback whose state matched: the authorization code.
    Accepted(Seq<u8>),
    /// A callback carrying a code whose state did not match byte-for-byte.
    StateMismatch,
    /// The provider reported that the user denied consent.
    Denied,
    /// The provider reported another error.
    ProviderFailure(Seq<u8>),
    /// Not a recognizable callback; the listener keeps waiting.
    NotACallback,
}

/// What a request must yield: a present code and state are judged by the
/// byte-for-byte state comparison; otherwise a present `error` parameter
/// is classified; anything else is ignored.
pub open spec fn outcome_spec(req: Seq<u8>, expected_state: Seq<u8>) -> SpecOutcome {
    match callback_query(req) {
        None => SpecOutcome::NotACallback,
        Some(q) => {
            let code = lookup_param(query_pairs(q), "code".spec_bytes());
            let st = lookup_param(query_pairs(q), "state".spec_bytes());
            let err = lookup_param(query_pairs(q), "error".spec_bytes());
            if code is Some && st is Some {
                if st.unwrap() == expected_state {
                    SpecOutcome::Accepted(code.unwrap())
                } else {
                    SpecOutcome::StateMismatch
                }
            } else if err is Some {
                if err.unwrap() == "access_denied".spec_bytes() {
                    SpecOutcome::Denied
                } else {
                    SpecOutcome::ProviderFailure(err.unwrap())
                }
            } else {
                SpecOutcome::NotACallback
            }
        },
    }
}

/// The outcome of one inbound request on the listener.
#[derive(Debug, Clone, PartialEq, Eq)]
pub enum CallbackOutcome {
    /// A well-formed callback whose state matched: the authorization code.
    Accepted { code: Vec<u8> },
    /// A callback carrying a code whose state did not match byte-for-byte.
    StateMismatch,
    /// The provider reported that the user denied consent.
    Denied,
    /// The provider reported another error.
    ProviderFailure { message: Vec<u8> },
    /// Not a recognizable callback; the listener keeps waiting.
    NotACallback,
}

impl View for CallbackOutcome {
    type V = SpecOutcome;

    open spec fn view(&self) -> SpecOutcome {
        match self {
            CallbackOutcome::Accepted { code } => SpecOutcome::Accepted(code@),
            CallbackOutcome::StateMismatch => SpecOutcome::StateMismatch,
            CallbackOutcome::Denied => SpecOutcome::Denied,
            CallbackOutcome::ProviderFailure { message } => SpecOutcome::ProviderFailure(
                message@,
            ),
            CallbackOutcome::NotACallback => SpecOutcome::NotACallback,
        }
    }
}

// ---------------------------------------------------------------------
// Executable parsing
// ---------------------------------------------------------------------

/// Cuts the request down to its first line.
fn exec_first_line<'a>(req: &'a [u8]) -> (r: &'a [u8])
    ensures
        r@ == first_line(req@),
{
    let cr = find_byte_at(req, 13);
    let lf = find_byte_at(req, 10);
    proof {
        lemma_find_byte(req@, 13);
        lemma_find_byte(req@, 10);
    }
    match cr {
        Some(i) => match lf {
            Some(j) => if i <= j {
                slice_subrange(req, 0, i)
            } else {
                slice_subrange(req, 0, j)
            },
            None => slice_subrange(req, 0, i),
        },
        None => match lf {
            Some(j) => slice_subrange(req, 0, j),
            None => req,
        },
    }
}

/// Extracts the request target of a GET request line.
fn exec_request_target<'a>(line: &'a [u8]) -> (r: Option<&'a [u8]>)
    ensures
        match r {
            Some(t) => request_target(line@) == Some(t@),
            None => request_target(line@) is None,
        },
{
    if line.len() < 4 {
        return None;
    }
    let head = slice_subrange(line, 0, 4);
    if !bytes_eq(head, "GET ".as_bytes()) {
        proof {
            assert(line@.subrange(0, 4) == head@);
        }
        return None;
    }
    let rest = slice_subrange(line, 4, line.len());
    proof {
        assert(rest@ =~= line@.skip(4));
        lemma_find_byte(rest@, 32);
    }
    match find_byte_at(rest, 32) {
        Some(i) => Some(slice_subrange(rest, 0, i)),
        None => Some(rest),
    }
}

/// Splits a target into the callback path and its query string.
fn exec_target_query<'a>(target: &'a [u8]) -> (r: Option<&'a [u8]>)
    ensures
        match r {
            Some(q) => target_query(target@) == Some(q@),
            None => target_query(target@) is None,
        },
{
    proof {
        lemma_find_byte(target@, 63);
    }
    match find_byte_at(target, 63) {
        Some(i) => {
            proof {
                lemma_find_byte(target@, 63);
                assert((i as int) < target@.len());
            }
            let n = target.len();
            let path = slice_subrange(target, 0, i);
            if bytes_eq(path, "/callback".as_bytes()) {
                let q = slice_subrange(target, i + 1, n);
                proof {
                    assert(q@ =~= target@.skip(i + 1));
                }
                Some(q)
            } else {
                None
            }
        },
        None => {
            if bytes_eq(target, "/callback".as_bytes()) {
                let q = slice_subrange(target, target.len(), target.len());
                proof {
                    assert(q@ =~= Seq::<u8>::empty());
                }
                Some(q)
            } else {
                None
            }
        },
    }
}

/// Decodes one `key=value` segment.
fn exec_decode_pair(p: &[u8]) -> (r: (Vec<u8>, Vec<u8>))
    ensures
        (r.0@, r.1@) == decode_pair(p@),
{
    proof {
        lemma_find_byte(p@, 61);
    }
    match find_byte_at(p, 61) {
        Some(i) => {
            proof {
                lemma_find_byte(p@, 61);
                assert((i as int) < p@.len());
            }
            let n = p.len();
            let k = percent_decode(slice_subrange(p, 0, i));
            let v = percent_decode(slice_subrange(p, i + 1, n));
            proof {
                assert(p@.subrange(i + 1, p@.len() as int) =~= p@.skip(i + 1));
            }
            (k, v)
        },
        None => {
            let k = percent_decode(p);
            (k, Vec::new())
        },
    }
}

/// The views of a vector of decoded pairs.
pub open spec fn pairs_view(s: Seq<(Vec<u8>, Vec<u8>)>) -> Seq<(Seq<u8>, Seq<u8>)> {
    s.map_values(|p: (Vec<u8>, Vec<u8>)| (p.0@, p.1@))
}

/// Splits a query string on `&` and decodes every pair, in order.
fn exec_query_pairs(q: &[u8]) -> (r: Vec<(Vec<u8>, Vec<u8>)>)
    ensures
        pairs_view(r@) == query_pairs(q@),
{
    let mut out: Vec<(Vec<u8>, Vec<u8>)> = Vec::new();
    let mut i: usize = 0;
    proof {
        assert(q@.skip(0) =~= q@);
        assert(pairs_view(out@) =~= Seq::<(Seq<u8>, Seq<u8>)>::empty());
    }
    loop
        invariant
            i <= q@.len(),
            query_pairs(q@) == pairs_view(out@) + query_pairs(q@.skip(i as int)),
        decreases q@.len() - i,
    {
        let ghost prev = out@;
        let ghost rest_s = q@.skip(i as int);
        let rest = slice_subrange(q, i, q.len());
        proof {
            assert(rest@ =~= rest_s);
            lemma_find_byte(rest@, 38);
        }
        match find_byte_at(rest, 38) {
            Some(rel) => {
                let seg = slice_subrange(rest, 0, rel);
                let pair = exec_decode_pair(seg);
                out.push(pair);
                proof {
                    assert(rest_s.take(rel as int) == seg@);
                    assert(rest_s.skip(rel as int + 1) =~= q@.skip(
                        i as int + rel as int + 1,
                    ));
                    assert(pairs_view(out@) =~= pairs_view(prev) + seq![
                        (pair.0@, pair.1@),
                    ]);
                    assert(query_pairs(rest_s) == seq![decode_pair(seg@)] + query_pairs(
                        q@.skip(i as int + rel as int + 1),
                    ));
                }
                i = i + rel + 1;
            },
            None => {
                let pair = exec_decode_pair(rest);
                out.push(pair);
                proof {
                    assert(query_pairs(rest_s) == seq![decode_pair(rest_s)]);
                    assert(pairs_view(out@) =~= pairs_view(prev) + seq![
                        (pair.0@, pair.1@),
                    ]);
                    assert(pairs_view(out@) =~= query_pairs(q@));
                }
                return out;
            },
        }
    }
}

/// Looks a key up among decoded pairs; the last occurrence wins.
fn exec_lookup(pairs: &Vec<(Vec<u8>, Vec<u8>)>, key: &[u8]) -> (r: Option<Vec<u8>>)
    ensures
        match r {
            Some(v) => lookup_param(pairs_view(pairs@), key@) == Some(v@),
            None => lookup_param(pairs_view(pairs@), key@) is None,
        },
{
    let mut j: usize = pairs.len();
    proof {
        assert(pairs_view(pairs@).take(j as int) =~= pairs_view(pairs@));
    }
    while j > 0
        invariant
            j <= pairs@.len(),
            lookup_param(pairs_view(pairs@), key@) == lookup_param(
                pairs_view(pairs@).take(j as int),
                key@,
            ),
        decreases j,
    {
        let ghost upto = pairs_view(pairs@).take(j as int);
        if bytes_eq(pairs[j - 1].0.as_slice(), key) {
            let v = slice_to_vec(pairs[j - 1].1.as_slice());
            proof {
                assert(upto.last() == (pairs@[j - 1].0@, pairs@[j - 1].1@));
            }
            return Some(v);
        }
        proof {
            assert(upto.last() == (pairs@[j - 1].0@, pairs@[j - 1].1@));
            assert(upto.drop_last() =~= pairs_view(pairs@).take(j as int - 1));
        }
        j = j - 1;
    }
    proof {
        assert(pairs_view(pairs@).take(0) =~= Seq::<(Seq<u8>, Seq<u8>)>::empty());
    }
    None
}

/// Parses one inbound request and decides its outcome against the
/// expected state value. The state comparison is byte-for-byte.
pub fn handle_callback_request(req: &[u8], expected_state: &str) -> (r: CallbackOutcome)
    ensures
        r@ == outcome_spec(req@, expected_state.spec_bytes()),
{
    let line = exec_first_line(req);
    let target = match exec_request_target(line) {
        Some(t) => t,
        None => {
            return CallbackOutcome::NotACallback;
        },
    };
    let query = match exec_target_query(target) {
        Some(q) => q,
        None => {
            return CallbackOutcome::NotACallback;
        },
    };
    let pairs = exec_query_pairs(query);
    let code = exec_lookup(&pairs, "code".as_bytes());
    let st = exec_lookup(&pairs, "state".as_bytes());
    let err = exec_lookup(&pairs, "error".as_bytes());
    match (code, st) {
        (Some(code_v), Some(st_v)) => {
            if bytes_eq(st_v.as_slice(), expected_state.as_bytes()) {
                CallbackOutcome::Accepted { code: code_v }
            } else {
                CallbackOutcome::StateMismatch
            }
        },
        _ => match err {
            Some(err_v) => {
                if bytes_eq(err_v.as_slice(), "access_denied".as_bytes()) {
                    CallbackOutcome::Denied
                } else {
                    CallbackOutcome::ProviderFailure { message: err_v }
                }
            },
            None => CallbackOutcome::NotACallback,
        },
    }
}

// ---------------------------------------------------------------------
// Laws
// ---------------------------------------------------------------------

/// Law: a callback that carries a code but whose state parameter differs
/// from the expected value, in any byte, yields `StateMismatch` — the
/// attached code is never accepted.
pub proof fn lemma_state_mismatch_rejected(req: Seq<u8>, expected: Seq<u8>, got: Seq<u8>)
    requires
        callback_param(req, "code".spec_bytes()) is Some,
        callback_param(req, "state".spec_bytes()) == Some(got),
        got != expected,
    ensures
        outcome_spec(req, expected) == SpecOutcome::StateMismatch,
{
}

/// Law: a callback that carries `error=access_denied` and no code yields
/// `Denied` — it is classified as the user's refusal, not as any other
/// failure.
pub proof fn lemma_access_denied_classified(req: Seq<u8>, expected: Seq<u8>)
    requires
        callback_param(req, "code".spec_bytes()) is None,
        callback_param(req, "error".spec_bytes()) == Some("access_denied".spec_bytes()),
    ensures
        outcome_spec(req, expected) == SpecOutcome::Denied,
{
}

} // verus!
