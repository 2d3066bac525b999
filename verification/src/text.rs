use vstd::prelude::*;

verus! {

/// The characters of `s`, in order.
pub fn chars_of(s: &str) -> (v: Vec<char>)
    ensures
        v@ == s@,
{
    broadcast use vstd::string::axiom_spec_iter;

    let mut v: Vec<char> = Vec::new();
    for c in iter: s.chars()
        invariant
            iter.seq() == s@,
            v@ == s@.take(iter.index() as int),
    {
        v.push(c);
    }
    v
}


/// The last piece of `s` when it is split at every `sep`: the text after the
/// last `sep`, or the whole of `s` when it holds none.
pub open spec fn last_piece(s: Seq<char>, sep: char) -> Seq<char>
    decreases s.len(),
{
    if s.len() == 0 {
        s
    } else if s.last() == sep {
        Seq::empty()
    } else {
        last_piece(s.drop_last(), sep).push(s.last())
    }
}

/// The last piece of `name` when it is split at every `'.'`: the text after
/// the last dot, or the whole of `name` when it holds no dot.
pub open spec fn extension(name: Seq<char>) -> Seq<char> {
    last_piece(name, '.')
}

/// The last piece is the part of `s` after position `k`, where `k` is the
/// last `sep` (or -1 when there is none).
proof fn lemma_last_piece_after(s: Seq<char>, sep: char, k: int)
    requires
        -1 <= k < s.len(),
        k >= 0 ==> s[k] == sep,
        forall|j: int| k < j < s.len() ==> s[j] != sep,
    ensures
        last_piece(s, sep) == s.subrange(k + 1, s.len() as int),
    decreases s.len(),
{
    if s.len() == 0 {
        assert(s.subrange(0, 0) =~= s);
    } else if k == s.len() - 1 {
        assert(s.subrange(k + 1, s.len() as int) =~= Seq::<char>::empty());
    } else {
        let shorter = s.drop_last();
        assert forall|j: int| k < j < shorter.len() implies shorter[j] != sep by {
            assert(shorter[j] == s[j]);
        }
        lemma_last_piece_after(shorter, sep, k);
        assert(s.subrange(k + 1, s.len() as int) =~= shorter.subrange(
            k + 1,
            shorter.len() as int,
        ).push(s.last()));
    }
}

/// Where the last piece of `chars` split at `sep` begins: just after the
/// last `sep`, or at 0 when there is none.
fn last_piece_start(chars: &Vec<char>, sep: char) -> (i: usize)
    ensures
        i <= chars.len(),
        last_piece(chars@, sep) == chars@.subrange(i as int, chars.len() as int),
{
    let mut i: usize = chars.len();
    while i > 0 && chars[i - 1] != sep
        invariant
            i <= chars.len(),
            forall|j: int| i <= j < chars.len() ==> chars@[j] != sep,
        decreases i,
    {
        i = i - 1;
    }
    proof {
        lemma_last_piece_after(chars@, sep, i - 1);
    }
    i
}

/// Whether the characters of `a` from `start` on are exactly `b`.
fn tail_equals(a: &Vec<char>, start: usize, b: &Vec<char>) -> (r: bool)
    requires
        start <= a.len(),
    ensures
        r == (a@.subrange(start as int, a.len() as int) == b@),
{
    if a.len() - start != b.len() {
        assert(a@.subrange(start as int, a.len() as int).len() != b@.len());
        return false;
    }
    let mut i: usize = 0;
    while i < b.len()
        invariant
            start <= a.len(),
            a.len() - start == b.len(),
            i <= b.len(),
            forall|j: int| 0 <= j < i ==> a@[start + j] == b@[j],
        decreases b.len() - i,
    {
        if a[start + i] != b[i] {
            assert(a@.subrange(start as int, a.len() as int)[i as int] != b@[i as int]);
            return false;
        }
        i = i + 1;
    }
    assert(a@.subrange(start as int, a.len() as int) =~= b@);
    true
}

/// Whether the last piece of `name` split at `'.'` is `ext`.
pub fn has_extension(name: &str, ext: &str) -> (r: bool)
    ensures
        r == (extension(name@) == ext@),
{
    let chars = chars_of(name);
    let wanted = chars_of(ext);
    let start = last_piece_start(&chars, '.');
    tail_equals(&chars, start, &wanted)
}

/// `a` followed by `b`.
pub fn concat2(a: &str, b: &str) -> (r: String)
    ensures
        r@ == a@ + b@,
{
    let mut r = String::from_str(a);
    r.append(b);
    r
}

/// `a`, `b` and `c`, one after the other.
pub fn concat3(a: &str, b: &str, c: &str) -> (r: String)
    ensures
        r@ == a@ + b@ + c@,
{
    let mut r = String::from_str(a);
    r.append(b);
    r.append(c);
    r
}

/// The last piece of a text split at `sep` is what follows its last `sep`.
pub proof fn last_piece_follows_last_separator(a: Seq<char>, b: Seq<char>, sep: char)
    requires
        forall|i: int| 0 <= i < b.len() ==> b[i] != sep,
    ensures
        last_piece(a.push(sep) + b, sep) == b,
{
    let s = a.push(sep) + b;
    let k = a.len() as int;
    assert forall|j: int| k < j < s.len() implies s[j] != sep by {
        assert(s[j] == b[j - k - 1]);
    }
    lemma_last_piece_after(s, sep, k);
    assert(s.subrange(k + 1, s.len() as int) =~= b);
}

/// A text without `sep` is its own last piece.
pub proof fn last_piece_of_text_without_separator(s: Seq<char>, sep: char)
    requires
        forall|i: int| 0 <= i < s.len() ==> s[i] != sep,
    ensures
        last_piece(s, sep) == s,
{
    lemma_last_piece_after(s, sep, -1);
    assert(s.subrange(0, s.len() as int) =~= s);
}

} // verus!
