//! Parsing of the `text/uri-list` clipboard payload into file paths.
//!
//! The payload is a newline-separated list of URIs, each line optionally
//! ending in a carriage return. Only `file://` URIs name local paths; each
//! one is percent-decoded and must be valid UTF-8, and every other line —
//! including ones whose decoding fails — is dropped.

use vstd::prelude::*;

use crate::policy::strs_view;

verus! {

/// What percent-decoding a URI path segment and reading it as UTF-8
/// yields: a function of the bytes alone.
pub uninterp spec fn uri_decoded(bytes: Seq<u8>) -> Option<Seq<char>>;

/// Relies on percent_encoding::percent_decode and PercentDecode::decode_utf8:
/// each `%xx` escape becomes its byte (a lone or malformed `%` stays
/// itself), and the decoded bytes are read as UTF-8, which fails exactly
/// when they are not well-formed. The result depends on the input bytes
/// alone.
#[verifier::external_body]
fn decode_uri_segment(bytes: &Vec<u8>) -> (r: Option<String>)
    ensures
        match r {
            Some(s) => uri_decoded(bytes@) == Some(s@),
            None => uri_decoded(bytes@) is None,
        },
{
    percent_encoding::percent_decode(bytes.as_slice()).decode_utf8().ok().map(
        |c| c.into_owned(),
    )
}

/// Index of the first line feed, or the length when there is none.
pub open spec fn find_newline(s: Seq<u8>) -> int
    decreases s.len(),
{
    if s.len() == 0 {
        0
    } else if s[0] == 10 {
        0
    } else {
        1 + find_newline(s.skip(1))
    }
}

/// `find_newline` points at the first line feed: everything before it is
/// none, and it is one exactly when it lies within the input.
pub proof fn lemma_find_newline(s: Seq<u8>)
    ensures
        0 <= find_newline(s) <= s.len(),
        find_newline(s) < s.len() ==> s[find_newline(s)] == 10,
        forall|j: int| 0 <= j < find_newline(s) ==> s[j] != 10,
    decreases s.len(),
{
    if s.len() > 0 && s[0] != 10 {
        lemma_find_newline(s.skip(1));
        assert forall|j: int| 0 <= j < find_newline(s) implies s[j] != 10 by {
            if j > 0 {
                assert(s.skip(1)[j - 1] != 10);
            }
        }
    }
}

/// A line with its trailing carriage return, if any, removed.
pub open spec fn strip_cr(line: Seq<u8>) -> Seq<u8> {
    if line.len() > 0 && line.last() == 13 {
        line.drop_last()
    } else {
        line
    }
}

/// The `file://` scheme prefix.
pub open spec fn file_scheme() -> Seq<u8> {
    seq![102u8, 105u8, 108u8, 101u8, 58u8, 47u8, 47u8]
}

/// Whether a line names a local file.
pub open spec fn is_file_uri(line: Seq<u8>) -> bool {
    line.len() >= 7 && line.subrange(0, 7) == file_scheme()
}

/// The paths one line contributes: the decoded remainder of a `file://`
/// line whose decoding succeeds, and nothing otherwise.
pub open spec fn line_paths(line: Seq<u8>) -> Seq<Seq<char>> {
    let l = strip_cr(line);
    if is_file_uri(l) {
        match uri_decoded(l.skip(7)) {
            Some(p) => seq![p],
            None => Seq::empty(),
        }
    } else {
        Seq::empty()
    }
}

/// The file paths of a whole `text/uri-list` payload, line by line.
pub open spec fn spec_uri_paths(s: Seq<u8>) -> Seq<Seq<char>>
    decreases s.len(),
    via spec_uri_paths_decreases
{
    if s.len() == 0 {
        Seq::empty()
    } else {
        let k = find_newline(s);
        let line = s.subrange(0, k);
        if k < s.len() {
            line_paths(line) + spec_uri_paths(s.skip(k + 1))
        } else {
            line_paths(line)
        }
    }
}

#[via_fn]
proof fn spec_uri_paths_decreases(s: Seq<u8>) {
    lemma_find_newline(s);
}

/// A copy of the bytes in `[a, b)`.
fn subvec(v: &Vec<u8>, a: usize, b: usize) -> (r: Vec<u8>)
    requires
        a <= b <= v@.len(),
    ensures
        r@ == v@.subrange(a as int, b as int),
{
    let mut r: Vec<u8> = Vec::new();
    let mut i: usize = a;
    while i < b
        invariant
            a <= i <= b <= v@.len(),
            r@ =~= v@.subrange(a as int, i as int),
        decreases b - i,
    {
        r.push(v[i]);
        proof {
            assert(r@ =~= v@.subrange(a as int, i as int + 1));
        }
        i = i + 1;
    }
    r
}

/// Extracts the local file paths named by a `text/uri-list` payload, in
/// order: each `file://` line, percent-decoded and read as UTF-8;
/// non-file lines and lines whose decoding fails contribute nothing.
pub fn paths_from_uri_list(uri_list: &Vec<u8>) -> (r: Vec<String>)
    ensures
        strs_view(r@) == spec_uri_paths(uri_list@),
{
    let ghost full = uri_list@;
    let n = uri_list.len();
    let mut r: Vec<String> = Vec::new();
    let mut i: usize = 0;
    proof {
        assert(full.skip(0) =~= full);
        assert(strs_view(r@) =~= Seq::<Seq<char>>::empty());
        assert(Seq::<Seq<char>>::empty() + spec_uri_paths(full) =~= spec_uri_paths(full));
    }
    while i < n
        invariant
            full == uri_list@,
            n == full.len(),
            0 <= i <= n,
            spec_uri_paths(full) == strs_view(r@) + spec_uri_paths(full.skip(i as int)),
        decreases n - i,
    {
        let ghost rest = full.skip(i as int);
        // Find the end of the current line.
        let mut j = i;
        while j < n && uri_list[j] != 10
            invariant
                full == uri_list@,
                n == full.len(),
                i <= j <= n,
                forall|k: int| i <= k < j ==> full[k] != 10,
            decreases n - j,
        {
            j = j + 1;
        }
        proof {
            assert forall|k: int| 0 <= k < j - i implies rest[k] != 10 by {
                assert(rest[k] == full[i + k]);
            }
            if j < n {
                assert(rest[j - i] == full[j as int]);
            }
            lemma_find_newline(rest);
            if find_newline(rest) < j - i {
                assert(rest[find_newline(rest)] != 10);
            }
            assert(find_newline(rest) == j - i);
            assert(rest.subrange(0, j - i) =~= full.subrange(i as int, j as int));
        }
        // Strip a trailing carriage return.
        let line_end = if j > i && uri_list[j - 1] == 13 {
            j - 1
        } else {
            j
        };
        proof {
            assert(strip_cr(full.subrange(i as int, j as int)) =~= full.subrange(
                i as int,
                line_end as int,
            ));
        }
        let ghost stripped = full.subrange(i as int, line_end as int);
        // A file URI keeps its decoded remainder.
        if line_end - i >= 7 && uri_list[i] == 102 && uri_list[i + 1] == 105 && uri_list[i + 2]
            == 108 && uri_list[i + 3] == 101 && uri_list[i + 4] == 58 && uri_list[i + 5] == 47
            && uri_list[i + 6] == 47 {
            proof {
                assert(stripped.subrange(0, 7) =~= file_scheme());
                assert(is_file_uri(stripped));
            }
            let seg = subvec(uri_list, i + 7, line_end);
            proof {
                assert(seg@ =~= stripped.skip(7));
            }
            match decode_uri_segment(&seg) {
                Some(p) => {
                    let ghost r0 = r@;
                    r.push(p);
                    proof {
                        assert(strs_view(r@) =~= strs_view(r0) + line_paths(
                            full.subrange(i as int, j as int),
                        ));
                    }
                },
                None => {
                    proof {
                        assert(line_paths(full.subrange(i as int, j as int)) =~= Seq::<
                            Seq<char>,
                        >::empty());
                    }
                },
            }
        } else {
            proof {
                if stripped.len() >= 7 {
                    if stripped.subrange(0, 7) == file_scheme() {
                        assert(stripped[0] == full[i as int]);
                        assert(stripped[1] == full[i as int + 1]);
                        assert(stripped[2] == full[i as int + 2]);
                        assert(stripped[3] == full[i as int + 3]);
                        assert(stripped[4] == full[i as int + 4]);
                        assert(stripped[5] == full[i as int + 5]);
                        assert(stripped[6] == full[i as int + 6]);
                        assert(false);
                    }
                }
                assert(!is_file_uri(stripped));
                assert(line_paths(full.subrange(i as int, j as int)) =~= Seq::<Seq<char>>::empty());
            }
        }
        // Move past the line feed, or finish on the last line.
        proof {
            if j < n {
                assert(rest.skip(j - i + 1) =~= full.skip(j as int + 1));
            }
        }
        if j < n {
            i = j + 1;
        } else {
            i = n;
            proof {
                assert(spec_uri_paths(full.skip(n as int)) =~= Seq::<Seq<char>>::empty());
            }
        }
        proof {
            assert(spec_uri_paths(full) == strs_view(r@) + spec_uri_paths(full.skip(i as int)));
        }
    }
    proof {
        assert(spec_uri_paths(full.skip(n as int)) =~= Seq::<Seq<char>>::empty());
        assert(strs_view(r@) + Seq::<Seq<char>>::empty() =~= strs_view(r@));
    }
    r
}

} // verus!
