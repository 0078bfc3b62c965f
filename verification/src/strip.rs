//! Trimming build-path prefixes: a rendered location keeps only what follows
//! the last occurrence of the source-root marker, and is empty without one.

use vstd::prelude::*;

verus! {

/// The source-root marker that separates a build-path prefix from the part of
/// a file path worth showing.
pub open spec fn marker() -> Seq<char> {
    "src/"@
}

/// Whether the marker occupies positions `i .. i + marker().len()` of `s`.
pub open spec fn marker_at(s: Seq<char>, i: int) -> bool {
    &&& 0 <= i
    &&& i + marker().len() <= s.len()
    &&& s.subrange(i, i + marker().len() as int) == marker()
}

/// Whether `i` is the last occurrence of the marker in `s`.
pub open spec fn last_marker_at(s: Seq<char>, i: int) -> bool {
    &&& marker_at(s, i)
    &&& forall|j: int| i < j ==> !marker_at(s, j)
}

/// What trimming leaves of `s`: the suffix after the last occurrence of the
/// marker, or nothing when the marker never occurs.
pub open spec fn strip_src_spec(s: Seq<char>) -> Seq<char> {
    if exists|i: int| last_marker_at(s, i) {
        let i = choose|i: int| last_marker_at(s, i);
        s.subrange(i + marker().len() as int, s.len() as int)
    } else {
        Seq::empty()
    }
}

/// At most one position is the last occurrence of the marker.
pub proof fn lemma_last_marker_unique(s: Seq<char>, i: int, j: int)
    requires
        last_marker_at(s, i),
        last_marker_at(s, j),
    ensures
        i == j,
{
    if i < j {
        assert(!marker_at(s, j));
    } else if j < i {
        assert(!marker_at(s, i));
    }
}

/// When `i` is the marker's one occurrence in `s`, the trimmed result is
/// exactly the suffix of `s` that follows the marker.
pub proof fn lemma_strip_unique_marker(s: Seq<char>, i: int)
    requires
        marker_at(s, i),
        forall|j: int| marker_at(s, j) ==> j == i,
    ensures
        strip_src_spec(s) == s.subrange(i + marker().len() as int, s.len() as int),
{
    assert(last_marker_at(s, i));
    let c = choose|k: int| last_marker_at(s, k);
    lemma_last_marker_unique(s, c, i);
}

/// When the marker never occurs in `s`, the trimmed result is empty.
pub proof fn lemma_strip_no_marker(s: Seq<char>)
    requires
        forall|j: int| !marker_at(s, j),
    ensures
        strip_src_spec(s) == Seq::<char>::empty(),
{
    assert(forall|i: int| !last_marker_at(s, i));
}

/// Keeps only what follows the last occurrence of the source-root marker in
/// `input`, or nothing when the marker is absent.
pub fn strip_src(input: &str) -> (r: &str)
    ensures
        r@ == strip_src_spec(input@),
{
    proof {
        reveal_strlit("src/");
        reveal_strlit("");
    }
    let n: usize = input.unicode_len();
    if n < 4 {
        proof {
            lemma_strip_no_marker(input@);
        }
        return "";
    }
    let mut i: usize = n - 4;
    loop
        invariant
            n == input@.len(),
            4 <= n,
            0 <= i <= n - 4,
            forall|j: int| i < j ==> !marker_at(input@, j),
        decreases i,
    {
        if input.get_char(i) == 's' && input.get_char(i + 1) == 'r' && input.get_char(i + 2) == 'c'
            && input.get_char(i + 3) == '/' {
            proof {
                reveal_strlit("src/");
                let s = input@;
                assert(s.subrange(i as int, i + 4) =~= marker());
                assert(last_marker_at(s, i as int));
                let c = choose|k: int| last_marker_at(s, k);
                lemma_last_marker_unique(s, c, i as int);
            }
            return input.substring_char(i + 4, n);
        }
        proof {
            reveal_strlit("src/");
            let s = input@;
            if marker_at(s, i as int) {
                assert(s.subrange(i as int, i + 4)[0] == s[i as int]);
                assert(s.subrange(i as int, i + 4)[1] == s[i + 1]);
                assert(s.subrange(i as int, i + 4)[2] == s[i + 2]);
                assert(s.subrange(i as int, i + 4)[3] == s[i + 3]);
                assert(marker()[0] == 's' && marker()[1] == 'r' && marker()[2] == 'c' && marker()[3]
                    == '/');
                assert(false);
            }
        }
        if i == 0 {
            proof {
                reveal_strlit("");
                assert(""@ =~= Seq::<char>::empty());
                assert(forall|j: int| !marker_at(input@, j));
                lemma_strip_no_marker(input@);
            }
            return "";
        }
        i = i - 1;
    }
}

} // verus!
