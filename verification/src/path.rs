//! Path normalization: stripping the platform verbatim prefix, unifying
//! separators, and extracting a display name.
use vstd::prelude::*;

use crate::text::push_char;

verus! {

/// Whether `s` starts with the platform verbatim prefix `\\?\`.
pub open spec fn has_verbatim_prefix(s: Seq<char>) -> bool {
    s.len() >= 4 && s[0] == '\\' && s[1] == '\\' && s[2] == '?' && s[3] == '\\'
}

pub open spec fn spec_strip_verbatim(s: Seq<char>) -> Seq<char> {
    if has_verbatim_prefix(s) {
        s.skip(4)
    } else {
        s
    }
}

pub open spec fn spec_unify_separators(s: Seq<char>) -> Seq<char> {
    s.map_values(
        |c: char|
            if c == '\\' {
                '/'
            } else {
                c
            },
    )
}

/// The display form of a path: verbatim prefix stripped, separators unified.
pub open spec fn spec_clean_path(s: Seq<char>) -> Seq<char> {
    spec_unify_separators(spec_strip_verbatim(s))
}

/// A path in display form: no verbatim prefix and no backslash separator.
pub open spec fn is_clean_path(s: Seq<char>) -> bool {
    forall|i: int| 0 <= i < s.len() ==> #[trigger] s[i] != '\\'
}

/// Cleaning always yields a clean path.
pub proof fn lemma_clean_path_is_clean(s: Seq<char>)
    ensures
        is_clean_path(spec_clean_path(s)),
{
    assert forall|i: int| 0 <= i < spec_clean_path(s).len() implies #[trigger] spec_clean_path(s)[i]
        != '\\' by {
        assert(spec_clean_path(s)[i] == if spec_strip_verbatim(s)[i] == '\\' {
            '/'
        } else {
            spec_strip_verbatim(s)[i]
        });
    }
}

/// Strips the verbatim prefix, if any, and turns every backslash into a
/// forward slash, for display and session bookkeeping.
pub fn to_cleaned_path(raw_abs_path: &str) -> (r: String)
    ensures
        r@ == spec_clean_path(raw_abs_path@),
        is_clean_path(r@),
{
    let n = raw_abs_path.unicode_len();
    let mut start: usize = 0;
    if n >= 4 && raw_abs_path.get_char(0) == '\\' && raw_abs_path.get_char(1) == '\\'
        && raw_abs_path.get_char(2) == '?' && raw_abs_path.get_char(3) == '\\' {
        start = 4;
    }
    let ghost base = spec_strip_verbatim(raw_abs_path@);
    proof {
        if start == 0 {
            assert(base =~= raw_abs_path@);
        }
    }
    let mut out = String::new();
    let mut i: usize = start;
    while i < n
        invariant
            start <= i <= n,
            n == raw_abs_path@.len(),
            base == spec_strip_verbatim(raw_abs_path@),
            base.len() == n - start,
            forall|j: int| 0 <= j < base.len() ==> base[j] == raw_abs_path@[j + start],
            out@.len() == i - start,
            forall|j: int|
                0 <= j < out@.len() ==> out@[j] == (if base[j] == '\\' {
                    '/'
                } else {
                    base[j]
                }),
        decreases n - i,
    {
        let c = raw_abs_path.get_char(i);
        if c == '\\' {
            push_char(&mut out, '/');
        } else {
            push_char(&mut out, c);
        }
        i = i + 1;
    }
    proof {
        assert(out@ =~= spec_unify_separators(base));
        lemma_clean_path_is_clean(raw_abs_path@);
    }
    out
}

/// The last `/`-separated segment of a path; empty when the path is empty
/// or ends with a separator.
pub open spec fn spec_last_segment(s: Seq<char>) -> Seq<char>
    decreases s.len(),
{
    if s.len() == 0 {
        s
    } else if s.last() == '/' {
        Seq::<char>::empty()
    } else {
        spec_last_segment(s.drop_last()).push(s.last())
    }
}

/// The display name of a path: its last segment, or a fixed placeholder
/// when the path has no final segment.
pub open spec fn spec_file_name(s: Seq<char>) -> Seq<char> {
    if spec_last_segment(s).len() == 0 {
        "Unknown file name"@
    } else {
        spec_last_segment(s)
    }
}

proof fn lemma_last_segment_suffix(s: Seq<char>, cut: int)
    requires
        0 <= cut <= s.len(),
        forall|j: int| cut <= j < s.len() ==> #[trigger] s[j] != '/',
        cut > 0 ==> s[cut - 1] == '/',
    ensures
        spec_last_segment(s) =~= s.skip(cut),
    decreases s.len(),
{
    if cut == s.len() {
        if s.len() > 0 {
            assert(s.last() == '/');
        }
    } else {
        assert(s.last() != '/');
        let head = s.drop_last();
        assert(forall|j: int| cut <= j < head.len() ==> #[trigger] head[j] != '/');
        lemma_last_segment_suffix(head, cut);
        assert(spec_last_segment(s) =~= head.skip(cut).push(s.last()));
    }
}

/// Extracts the display name: everything after the last slash, or the
/// placeholder when nothing follows it.
pub fn get_file_name(path: &str) -> (r: String)
    ensures
        r@ == spec_file_name(path@),
{
    let n = path.unicode_len();
    let mut cut: usize = n;
    while cut > 0 && path.get_char(cut - 1) != '/'
        invariant
            0 <= cut <= n,
            n == path@.len(),
            forall|j: int| cut <= j < n ==> #[trigger] path@[j] != '/',
        decreases cut,
    {
        cut = cut - 1;
    }
    proof {
        lemma_last_segment_suffix(path@, cut as int);
    }
    if cut == n {
        String::from_str("Unknown file name")
    } else {
        let seg = path.substring_char(cut, n);
        proof {
            assert(path@.subrange(cut as int, n as int) =~= path@.skip(cut as int));
        }
        String::from_str(seg)
    }
}

} // verus!
