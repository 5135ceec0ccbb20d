//! Byte-string utilities: equality, slicing, splitting at a separator byte,
//! whitespace trimming, and line splitting.

use vstd::prelude::*;

verus! {

/// The line-feed byte, which ends a line of text.
pub const NL: u8 = 10;

/// Splitting a byte string at every occurrence of `sep`. Splitting is total:
/// the empty string has one empty piece, and a leading, trailing or doubled
/// separator yields an empty piece.
pub open spec fn split_on(s: Seq<u8>, sep: u8) -> Seq<Seq<u8>>
    decreases s.len(),
{
    if s.len() == 0 {
        seq![Seq::<u8>::empty()]
    } else if s.last() == sep {
        split_on(s.drop_last(), sep).push(Seq::<u8>::empty())
    } else {
        let prev = split_on(s.drop_last(), sep);
        prev.update(prev.len() - 1, prev.last().push(s.last()))
    }
}

pub proof fn lemma_split_on_nonempty(s: Seq<u8>, sep: u8)
    ensures
        split_on(s, sep).len() >= 1,
    decreases s.len(),
{
    if s.len() > 0 {
        lemma_split_on_nonempty(s.drop_last(), sep);
    }
}

/// Whether `b` is an ASCII whitespace byte: space, tab, line feed or
/// carriage return.
pub open spec fn is_space(b: u8) -> bool {
    b == 32 || b == 9 || b == 10 || b == 13
}

/// `s` without its leading whitespace bytes.
pub open spec fn trim_front(s: Seq<u8>) -> Seq<u8>
    decreases s.len(),
{
    if s.len() > 0 && is_space(s.first()) {
        trim_front(s.drop_first())
    } else {
        s
    }
}

/// `s` without its trailing whitespace bytes.
pub open spec fn trim_back(s: Seq<u8>) -> Seq<u8>
    decreases s.len(),
{
    if s.len() > 0 && is_space(s.last()) {
        trim_back(s.drop_last())
    } else {
        s
    }
}

/// `s` without leading and trailing whitespace.
pub open spec fn trimmed(s: Seq<u8>) -> Seq<u8> {
    trim_back(trim_front(s))
}

/// The lines of a byte string: pieces separated by line feeds, where a final
/// line feed only terminates the last line rather than opening an empty one,
/// and the empty string has no lines.
pub open spec fn lines_of(s: Seq<u8>) -> Seq<Seq<u8>> {
    if s.len() == 0 {
        Seq::<Seq<u8>>::empty()
    } else if s.last() == NL {
        split_on(s.drop_last(), NL)
    } else {
        split_on(s, NL)
    }
}

/// Byte-for-byte equality of two byte strings.
pub fn bytes_eq(a: &Vec<u8>, b: &Vec<u8>) -> (r: bool)
    ensures
        r == (a@ == b@),
{
    if a.len() != b.len() {
        return false;
    }
    let mut i: usize = 0;
    while i < a.len()
        invariant
            i <= a@.len(),
            a@.len() == b@.len(),
            forall|j: int| 0 <= j < i ==> a@[j] == b@[j],
        decreases a@.len() - i,
    {
        if a[i] != b[i] {
            return false;
        }
        i += 1;
    }
    proof {
        assert(a@ =~= b@);
    }
    true
}

/// A copy of the bytes of `s` from `from` (inclusive) to `to` (exclusive).
pub fn subvec(s: &Vec<u8>, from: usize, to: usize) -> (r: Vec<u8>)
    requires
        from <= to <= s@.len(),
    ensures
        r@ == s@.subrange(from as int, to as int),
{
    let mut r: Vec<u8> = Vec::new();
    let mut i: usize = from;
    while i < to
        invariant
            from <= i <= to <= s@.len(),
            r@ =~= s@.subrange(from as int, i as int),
        decreases to - i,
    {
        r.push(s[i]);
        i += 1;
    }
    proof {
        assert(r@ =~= s@.subrange(from as int, to as int));
    }
    r
}

/// Splits `s` at every occurrence of `sep`.
pub fn split_on_byte(s: &Vec<u8>, sep: u8) -> (r: Vec<Vec<u8>>)
    ensures
        r.deep_view() == split_on(s@, sep),
{
    let mut done: Vec<Vec<u8>> = Vec::new();
    let mut current: Vec<u8> = Vec::new();
    let mut i: usize = 0;
    while i < s.len()
        invariant
            i <= s@.len(),
            done.deep_view().push(current@) == split_on(s@.subrange(0, i as int), sep),
        decreases s@.len() - i,
    {
        let ghost pre = s@.subrange(0, i as int);
        let ghost post = s@.subrange(0, i as int + 1);
        proof {
            assert(post.drop_last() =~= pre);
            assert(post.last() == s@[i as int]);
        }
        let c = s[i];
        if c == sep {
            done.push(current);
            current = Vec::new();
            proof {
                assert(done.deep_view() =~~= split_on(pre, sep));
                assert(done.deep_view().push(current@) =~~= split_on(post, sep));
            }
        } else {
            let ghost prev = split_on(pre, sep);
            proof {
                lemma_split_on_nonempty(pre, sep);
                assert(prev.last() == current@);
            }
            current.push(c);
            proof {
                assert(done.deep_view().push(current@) =~~= prev.update(
                    prev.len() - 1,
                    prev.last().push(c),
                ));
                assert(split_on(post, sep) == prev.update(prev.len() - 1, prev.last().push(c)));
            }
        }
        i += 1;
    }
    done.push(current);
    proof {
        assert(s@.subrange(0, s@.len() as int) =~= s@);
        assert(done.deep_view() =~~= split_on(s@, sep));
    }
    done
}

/// `s` with leading and trailing ASCII whitespace removed.
pub fn trim_bytes(s: &Vec<u8>) -> (r: Vec<u8>)
    ensures
        r@ == trimmed(s@),
{
    let n = s.len();
    proof {
        assert(s@.subrange(0, n as int) =~= s@);
    }
    let mut start: usize = 0;
    while start < n && is_space_byte(s[start])
        invariant
            start <= n == s@.len(),
            trim_front(s@) == trim_front(s@.subrange(start as int, n as int)),
        decreases n - start,
    {
        proof {
            let sub = s@.subrange(start as int, n as int);
            assert(sub.drop_first() =~= s@.subrange(start as int + 1, n as int));
        }
        start += 1;
    }
    let ghost t = s@.subrange(start as int, n as int);
    proof {
        assert(trim_front(s@) == t);
    }
    let mut end: usize = n;
    while end > start && is_space_byte(s[end - 1])
        invariant
            start <= end <= n == s@.len(),
            trim_back(t) == trim_back(s@.subrange(start as int, end as int)),
        decreases end,
    {
        proof {
            let sub = s@.subrange(start as int, end as int);
            assert(sub.drop_last() =~= s@.subrange(start as int, end as int - 1));
        }
        end -= 1;
    }
    proof {
        assert(trim_back(t) == s@.subrange(start as int, end as int));
    }
    subvec(s, start, end)
}

/// Whether `b` is an ASCII whitespace byte.
pub fn is_space_byte(b: u8) -> (r: bool)
    ensures
        r == is_space(b),
{
    b == 32 || b == 9 || b == 10 || b == 13
}

/// The lines of `s`, split at line feeds, a trailing line feed terminating
/// the last line.
pub fn split_lines(s: &Vec<u8>) -> (r: Vec<Vec<u8>>)
    ensures
        r.deep_view() == lines_of(s@),
{
    let n = s.len();
    if n == 0 {
        let r: Vec<Vec<u8>> = Vec::new();
        proof {
            assert(r.deep_view() =~= lines_of(s@));
        }
        r
    } else if s[n - 1] == NL {
        let body = subvec(s, 0, n - 1);
        proof {
            assert(body@ =~= s@.drop_last());
        }
        split_on_byte(&body, NL)
    } else {
        let body = subvec(s, 0, n);
        proof {
            assert(body@ =~= s@);
        }
        split_on_byte(&body, NL)
    }
}

} // verus!
