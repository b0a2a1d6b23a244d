//! The cross-origin policy: resolving the configured allow-list and
//! deciding the `Access-Control-Allow-Origin` value for a request.

use vstd::prelude::*;
use crate::text::{split_commas, split_commas_of, trim_of, trimmed};

verus! {

/// The pieces, in order, that remain after trimming each piece and
/// discarding the ones that trim to nothing. Duplicates are kept.
pub open spec fn cleaned(pieces: Seq<Seq<char>>) -> Seq<Seq<char>>
    decreases pieces.len(),
{
    if pieces.len() == 0 {
        Seq::empty()
    } else {
        let front = cleaned(pieces.drop_last());
        let t = trimmed(pieces.last());
        if t.len() > 0 {
            front.push(t)
        } else {
            front
        }
    }
}

/// The effective allow-list for a configuration value: the cleaned,
/// comma-separated pieces of the string, or the single-element wildcard
/// list when the value is absent or cleans to nothing.
pub open spec fn allow_list_of(config: Option<Seq<char>>) -> Seq<Seq<char>> {
    match config {
        Option::None => seq!["*"@],
        Option::Some(s) => {
            let c = cleaned(split_commas(s));
            if c.len() == 0 {
                seq!["*"@]
            } else {
                c
            }
        },
    }
}

/// Resolves the configured comma-separated allow-list: splits on commas,
/// trims each piece, drops empty pieces, and falls back to the wildcard
/// list `["*"]` when the configuration is absent or yields nothing.
#[verifier::loop_isolation(false)]
pub fn resolve_allow_list(config: Option<&str>) -> (r: Vec<String>)
    ensures
        r.deep_view() == allow_list_of(config.deep_view()),
{
    match config {
        Option::None => {
            let mut r: Vec<String> = Vec::new();
            r.push("*".to_owned());
            proof {
                assert(r.deep_view() =~= seq!["*"@]);
            }
            r
        },
        Option::Some(s) => {
            let pieces = split_commas_of(s);
            let mut out: Vec<String> = Vec::new();
            let mut k: usize = 0;
            proof {
                assert(out.deep_view() =~= cleaned(pieces.deep_view().take(0)));
            }
            while k < pieces.len()
                invariant
                    0 <= k <= pieces.len(),
                    out.deep_view() == cleaned(pieces.deep_view().take(k as int)),
                decreases pieces.len() - k,
            {
                let ghost before = out.deep_view();
                let t = trim_of(pieces[k].as_str());
                if !t.is_empty() {
                    out.push(t.to_owned());
                }
                proof {
                    let dv = pieces.deep_view();
                    assert(dv.take(k as int + 1).drop_last() =~= dv.take(k as int));
                    assert(dv.take(k as int + 1).last() == dv[k as int]);
                    if trimmed(dv[k as int]).len() > 0 {
                        assert(out.deep_view() =~= before.push(trimmed(dv[k as int])));
                    }
                }
                k += 1;
            }
            proof {
                assert(pieces.deep_view().take(pieces.len() as int) =~= pieces.deep_view());
            }
            if out.is_empty() {
                out.push("*".to_owned());
                proof {
                    assert(out.deep_view() =~= seq!["*"@]);
                }
            }
            out
        },
    }
}

/// Whether `x` occurs in `list`.
pub open spec fn seq_has(list: Seq<Seq<char>>, x: Seq<char>) -> bool {
    exists|i: int| 0 <= i < list.len() && list[i] == x
}

/// The `Access-Control-Allow-Origin` value for a request: `"*"` when the
/// request carries no `Origin` header; the origin itself when it is
/// literally a member of the allow-list; `"null"` otherwise.
pub open spec fn chosen_origin(origin: Option<Seq<char>>, list: Seq<Seq<char>>) -> Seq<char> {
    match origin {
        Option::None => "*"@,
        Option::Some(o) => if seq_has(list, o) {
            o
        } else {
            "null"@
        },
    }
}

/// Decides the emitted origin for a request. Membership is an exact,
/// case-sensitive string comparison; a configured `"*"` entry matches only
/// the literal origin string `"*"`.
#[verifier::loop_isolation(false)]
pub fn decide_origin(origin: Option<&str>, list: &Vec<String>) -> (r: String)
    ensures
        r@ == chosen_origin(origin.deep_view(), list.deep_view()),
{
    match origin {
        Option::None => "*".to_owned(),
        Option::Some(o) => {
            let n = list.len();
            let mut i: usize = 0;
            while i < n
                invariant
                    0 <= i <= n,
                    forall|k: int| 0 <= k < i ==> list.deep_view()[k] != o@,
                decreases n - i,
            {
                if crate::text::str_eq(list[i].as_str(), o) {
                    proof {
                        assert(list.deep_view()[i as int] == o@);
                    }
                    return o.to_owned();
                }
                i += 1;
            }
            proof {
                assert(!seq_has(list.deep_view(), o@));
            }
            "null".to_owned()
        },
    }
}

/// The resolved allow-list is never empty, whatever the configuration says.
pub proof fn lemma_allow_list_nonempty(config: Option<Seq<char>>)
    ensures
        allow_list_of(config).len() > 0,
{
}

/// The resolved allow-list is exactly the default wildcard list `["*"]`
/// if and only if the configuration is absent or none of its pieces
/// survives trimming — provided the configuration does not itself clean to
/// the single entry `"*"`, which yields the same list by membership.
pub proof fn lemma_allow_list_wildcard_iff(config: Option<Seq<char>>)
    requires
        config matches Option::Some(s) ==> cleaned(split_commas(s)) != seq!["*"@],
    ensures
        allow_list_of(config) == seq!["*"@] <==> (config is None || cleaned(
            split_commas(config->0),
        ).len() == 0),
{
}

/// A request whose `Origin` header is present but not a member of the
/// allow-list is always answered with the literal origin `"null"`.
pub proof fn lemma_unlisted_origin_rejected(origin: Seq<char>, list: Seq<Seq<char>>)
    requires
        !seq_has(list, origin),
    ensures
        chosen_origin(Some(origin), list) == "null"@,
{
}

/// A request without an `Origin` header is always answered with `"*"`,
/// whatever the allow-list holds.
pub proof fn lemma_absent_origin_wildcard(list: Seq<Seq<char>>)
    ensures
        chosen_origin(None, list) == "*"@,
{
}

} // verus!
