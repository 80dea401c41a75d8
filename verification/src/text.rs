//! Small verified operations on text that the message flows rely on.
use vstd::prelude::*;
use vstd::string::*;

verus! {

/// The two-character separator `::` starts at position `i` of `s`.
pub open spec fn separator_at(s: Seq<char>, i: int) -> bool {
    0 <= i && i + 1 < s.len() && s[i] == ':' && s[i + 1] == ':'
}

/// `head` is the part of `s` before its first `::`, or all of `s` when it holds none.
pub open spec fn is_first_segment(s: Seq<char>, head: Seq<char>) -> bool {
    &&& head.len() <= s.len()
    &&& head == s.take(head.len() as int)
    &&& forall|i: int| 0 <= i < head.len() ==> !separator_at(s, i)
    &&& (head.len() == s.len() || separator_at(s, head.len() as int))
}

/// `s` begins with the characters `0x`.
pub open spec fn has_hex_prefix(s: Seq<char>) -> bool {
    s.len() >= 2 && s[0] == '0' && s[1] == 'x'
}

/// Returns the part of `s` before the first `::`, the first item that
/// `s.split("::")` would give.
pub fn first_segment(s: &str) -> (head: String)
    ensures
        is_first_segment(s@, head@),
{
    let n = s.unicode_len();
    let mut i: usize = 0;
    while i < n
        invariant
            n == s@.len(),
            i <= n,
            forall|j: int| 0 <= j < i ==> !separator_at(s@, j),
        decreases n - i,
    {
        if i + 1 < n && s.get_char(i) == ':' && s.get_char(i + 1) == ':' {
            let head = s.substring_char(0, i).to_owned();
            assert(head@ == s@.take(i as int));
            return head;
        }
        i = i + 1;
    }
    let head = s.to_owned();
    assert(head@ == s@.take(n as int));
    head
}

/// Whether `s` begins with `0x`.
pub fn starts_with_hex_prefix(s: &str) -> (b: bool)
    ensures
        b == has_hex_prefix(s@),
{
    let n = s.unicode_len();
    n >= 2 && s.get_char(0) == '0' && s.get_char(1) == 'x'
}

/// Whether two texts hold the same characters.
pub fn same_text(a: &str, b: &str) -> (r: bool)
    ensures
        r == (a@ == b@),
{
    let x = a.to_owned();
    let y = b.to_owned();
    x == y
}

/// The concatenation of three texts.
pub fn concat3(a: &str, b: &str, c: &str) -> (r: String)
    ensures
        r@ == a@ + b@ + c@,
{
    let mut r = a.to_owned();
    r.append(b);
    r.append(c);
    r
}

/// What comes before the first `::` is determined by the text alone.
pub proof fn lemma_first_segment_unique(s: Seq<char>, a: Seq<char>, b: Seq<char>)
    requires
        is_first_segment(s, a),
        is_first_segment(s, b),
    ensures
        a == b,
{
    if a.len() < b.len() {
        assert(!separator_at(s, a.len() as int));
    } else if b.len() < a.len() {
        assert(!separator_at(s, b.len() as int));
    }
}

/// The part before the first `::` holds no `::` itself, and when `s` holds
/// a `::`, `s` is that part, the separator, and what follows.
pub proof fn lemma_first_segment_split(s: Seq<char>, head: Seq<char>)
    requires
        is_first_segment(s, head),
    ensures
        forall|i: int| !#[trigger] separator_at(head, i),
        head.len() < s.len() ==> s == head + seq![':', ':'] + s.skip(head.len() as int + 2),
{
    assert forall|i: int| !#[trigger] separator_at(head, i) by {
        if separator_at(head, i) {
            assert(head[i] == s[i] && head[i + 1] == s[i + 1]);
            assert(separator_at(s, i));
        }
    }
    if head.len() < s.len() {
        assert(s =~= head + seq![':', ':'] + s.skip(head.len() as int + 2));
    }
}

} // verus!
