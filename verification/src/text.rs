//! Text helpers: the characters of a string, whitespace trimming and fenced blocks.
use vstd::prelude::*;

verus! {

/// The characters of a string, in order.
pub fn chars_of(s: &str) -> (r: Vec<char>)
    ensures
        r@ == s@,
{
    let mut r: Vec<char> = Vec::new();
    for c in it: s.chars()
        invariant
            r@ == it.seq().take(it.index()),
    {
        r.push(c);
    }
    r
}


/// Whether a character is white space in the sense of Unicode's White_Space property, which
/// is what `char::is_whitespace` and `str::trim` go by.
pub open spec fn is_ws(c: char) -> bool {
    let v = c as u32;
    ||| 0x09 <= v <= 0x0D
    ||| v == 0x20
    ||| v == 0x85
    ||| v == 0xA0
    ||| v == 0x1680
    ||| 0x2000 <= v <= 0x200A
    ||| v == 0x2028
    ||| v == 0x2029
    ||| v == 0x202F
    ||| v == 0x205F
    ||| v == 0x3000
}

/// Whether a character is white space.
pub fn is_whitespace(c: char) -> (r: bool)
    ensures
        r == is_ws(c),
{
    let v = c as u32;
    (0x09 <= v && v <= 0x0D) || v == 0x20 || v == 0x85 || v == 0xA0 || v == 0x1680 || (0x2000 <= v
        && v <= 0x200A) || v == 0x2028 || v == 0x2029 || v == 0x202F || v == 0x205F || v == 0x3000
}

/// The number of white space characters at the start.
pub open spec fn leading_ws(s: Seq<char>) -> nat
    decreases s.len(),
{
    if s.len() > 0 && is_ws(s[0]) {
        1 + leading_ws(s.drop_first())
    } else {
        0
    }
}

/// The number of white space characters at the end.
pub open spec fn trailing_ws(s: Seq<char>) -> nat
    decreases s.len(),
{
    if s.len() > 0 && is_ws(s.last()) {
        1 + trailing_ws(s.drop_last())
    } else {
        0
    }
}

/// The text without its leading and trailing white space.
pub open spec fn trim(s: Seq<char>) -> Seq<char> {
    let t = s.subrange(leading_ws(s) as int, s.len() as int);
    t.subrange(0, t.len() - trailing_ws(t))
}

proof fn lemma_leading_ws_bound(s: Seq<char>)
    ensures
        leading_ws(s) <= s.len(),
    decreases s.len(),
{
    if s.len() > 0 && is_ws(s[0]) {
        lemma_leading_ws_bound(s.drop_first());
    }
}

proof fn lemma_trailing_ws_bound(s: Seq<char>)
    ensures
        trailing_ws(s) <= s.len(),
    decreases s.len(),
{
    if s.len() > 0 && is_ws(s.last()) {
        lemma_trailing_ws_bound(s.drop_last());
    }
}

/// The bounds of the text without leading and trailing white space, within `s[from..to]`.
fn trim_bounds(s: &Vec<char>, from: usize, to: usize) -> (r: (usize, usize))
    requires
        from <= to <= s@.len(),
    ensures
        from <= r.0 <= r.1 <= to,
        s@.subrange(r.0 as int, r.1 as int) == trim(s@.subrange(from as int, to as int)),
{
    let ghost w = s@.subrange(from as int, to as int);
    let mut a: usize = from;
    while a < to && is_whitespace(s[a])
        invariant
            from <= a <= to <= s@.len(),
            w == s@.subrange(from as int, to as int),
            leading_ws(w) == (a - from) + leading_ws(s@.subrange(a as int, to as int)),
        decreases to - a,
    {
        let ghost u = s@.subrange(a as int, to as int);
        assert(u.drop_first() =~= s@.subrange(a + 1, to as int));
        a = a + 1;
    }
    let ghost ua = s@.subrange(a as int, to as int);
    assert(leading_ws(ua) == 0);
    let ghost t = w.subrange(leading_ws(w) as int, w.len() as int);
    assert(t =~= ua);
    let mut b: usize = to;
    while b > a && is_whitespace(s[b - 1])
        invariant
            a <= b <= to <= s@.len(),
            t == s@.subrange(a as int, to as int),
            trailing_ws(t) == (to - b) + trailing_ws(s@.subrange(a as int, b as int)),
        decreases b - a,
    {
        let ghost u = s@.subrange(a as int, b as int);
        assert(u.drop_last() =~= s@.subrange(a as int, b - 1));
        b = b - 1;
    }
    assert(trailing_ws(s@.subrange(a as int, b as int)) == 0);
    assert(t.subrange(0, t.len() - trailing_ws(t)) =~= s@.subrange(a as int, b as int));
    (a, b)
}

/// Whether a code fence (three backticks) starts at position `i`.
pub open spec fn fence_at(s: Seq<char>, i: int) -> bool {
    0 <= i && i + 3 <= s.len() && s[i] == '`' && s[i + 1] == '`' && s[i + 2] == '`'
}

/// The position of the first code fence that starts at `from` or later.
pub open spec fn first_fence(s: Seq<char>, from: int) -> Option<int>
    decreases s.len() - from,
{
    if from < 0 || from + 3 > s.len() {
        None
    } else if fence_at(s, from) {
        Some(from)
    } else {
        first_fence(s, from + 1)
    }
}

/// The position of the first code fence that starts at `from` or later.
fn find_fence(s: &Vec<char>, from: usize) -> (r: Option<usize>)
    requires
        from <= s@.len(),
    ensures
        match r {
            Some(i) => first_fence(s@, from as int) == Some(i as int) && i + 3 <= s@.len(),
            None => first_fence(s@, from as int) is None,
        },
{
    let mut i: usize = from;
    while s.len() - i >= 3
        invariant
            from <= i <= s@.len(),
            first_fence(s@, from as int) == first_fence(s@, i as int),
        decreases s@.len() - i,
    {
        if s[i] == '`' && s[i + 1] == '`' && s[i + 2] == '`' {
            return Some(i);
        }
        i = i + 1;
    }
    None
}

/// The text of the JSON document in a message: where the message holds a block fenced by
/// three backticks on each side, the trimmed content of the first such block; otherwise the
/// whole message.
pub open spec fn fenced_json(s: Seq<char>) -> Seq<char> {
    match first_fence(s, 0) {
        None => s,
        Some(start) => match first_fence(s, start + 3) {
            None => s,
            Some(end) => trim(s.subrange(start + 3, end)),
        },
    }
}

/// The text of the JSON document in a message.
pub fn fenced_json_text(message: &str) -> (r: String)
    ensures
        r@ == fenced_json(message@),
{
    let chars = chars_of(message);
    let n = chars.len();
    match find_fence(&chars, 0) {
        None => message.to_owned(),
        Some(start) => match find_fence(&chars, start + 3) {
            None => message.to_owned(),
            Some(end) => {
                proof {
                    lemma_first_fence_bounds(chars@, start as int + 3);
                }
                let (a, b) = trim_bounds(&chars, start + 3, end);
                message.substring_char(a, b).to_owned()
            },
        },
    }
}

proof fn lemma_first_fence_bounds(s: Seq<char>, from: int)
    ensures
        first_fence(s, from) matches Some(i) ==> from <= i && fence_at(s, i),
    decreases s.len() - from,
{
    if !(from < 0 || from + 3 > s.len()) && !fence_at(s, from) {
        lemma_first_fence_bounds(s, from + 1);
    }
}

} // verus!
