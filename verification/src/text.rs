//! Character and string helpers used by the FEN and UCI parsers.

use vstd::prelude::*;

verus! {

/// Unicode `White_Space`, the property that `char::is_whitespace` tests.
pub open spec fn is_ws(c: char) -> bool {
    let u = c as u32;
    (0x9 <= u <= 0xd) || u == 0x20 || u == 0x85 || u == 0xa0 || u == 0x1680 || (0x2000 <= u
        <= 0x200a) || u == 0x2028 || u == 0x2029 || u == 0x202f || u == 0x205f || u == 0x3000
}

/// Whether `c` is a whitespace character, in the sense of `char::is_whitespace`.
pub fn is_whitespace(c: char) -> (r: bool)
    ensures
        r == is_ws(c),
{
    let u = c as u32;
    (0x9 <= u && u <= 0xd) || u == 0x20 || u == 0x85 || u == 0xa0 || u == 0x1680 || (0x2000
        <= u && u <= 0x200a) || u == 0x2028 || u == 0x2029 || u == 0x202f || u == 0x205f || u
        == 0x3000
}

/// `String::push`: appends one character.
#[verifier::external_body]
pub fn push_char(s: &mut String, c: char)
    ensures
        final(s)@ == old(s)@.push(c),
{
    s.push(c);
}

/// The characters of `s`, in order.
pub fn chars_of(s: &str) -> (v: Vec<char>)
    ensures
        v@ == s@,
{
    let mut v: Vec<char> = Vec::new();
    for c in it: s.chars()
        invariant
            v@ == it.seq().subrange(0, it.index() as int),
            it.seq() == s@,
    {
        v.push(c);
    }
    v
}


/// The pieces of `cur + s` split on `sep`, `cur` being the start of the first
/// piece. Empty pieces are kept, as `str::split` with a `char` pattern does.
pub open spec fn split_from(cur: Seq<char>, s: Seq<char>, sep: char) -> Seq<Seq<char>>
    decreases s.len(),
{
    if s.len() == 0 {
        seq![cur]
    } else if s[0] == sep {
        seq![cur] + split_from(Seq::empty(), s.drop_first(), sep)
    } else {
        split_from(cur.push(s[0]), s.drop_first(), sep)
    }
}

/// `s` split on `sep`: always at least one piece.
pub open spec fn split_on(s: Seq<char>, sep: char) -> Seq<Seq<char>> {
    split_from(Seq::empty(), s, sep)
}

/// The whitespace-separated tokens of `cur + s`, `cur` being the start of the
/// first token; empty tokens are dropped, as `str::split_whitespace` does.
pub open spec fn tokens_from(cur: Seq<char>, s: Seq<char>) -> Seq<Seq<char>>
    decreases s.len(),
{
    if s.len() == 0 {
        if cur.len() > 0 {
            seq![cur]
        } else {
            Seq::empty()
        }
    } else if is_ws(s[0]) {
        (if cur.len() > 0 {
            seq![cur]
        } else {
            Seq::empty()
        }) + tokens_from(Seq::empty(), s.drop_first())
    } else {
        tokens_from(cur.push(s[0]), s.drop_first())
    }
}

/// The whitespace-separated tokens of `s` (`str::split_whitespace`).
pub open spec fn ws_tokens(s: Seq<char>) -> Seq<Seq<char>> {
    tokens_from(Seq::empty(), s)
}

/// Splitting `a`, a whitespace character `w`, then `c` gives the tokens
/// of `a` (continuing the token `cur` already begun), then those of `c`.
pub proof fn lemma_tokens_from_split(cur: Seq<char>, a: Seq<char>, w: char, c: Seq<char>)
    requires
        is_ws(w),
    ensures
        tokens_from(cur, a + seq![w] + c) == tokens_from(cur, a) + ws_tokens(c),
    decreases a.len(),
{
    let s = a + seq![w] + c;
    let start = if cur.len() > 0 {
        seq![cur]
    } else {
        Seq::<Seq<char>>::empty()
    };
    if a.len() == 0 {
        assert(s.drop_first() =~= c);
        assert(tokens_from(cur, a) =~= start);
    } else {
        let rest = a.drop_first();
        assert(s[0] == a[0]);
        assert(s.drop_first() =~= rest + seq![w] + c);
        if is_ws(a[0]) {
            lemma_tokens_from_split(Seq::empty(), rest, w, c);
            assert(start + (tokens_from(Seq::empty(), rest) + ws_tokens(c)) =~= (start
                + tokens_from(Seq::empty(), rest)) + ws_tokens(c));
        } else {
            lemma_tokens_from_split(cur.push(a[0]), rest, w, c);
        }
    }
}

/// The whitespace tokens of `a`, a whitespace character, then `c` are
/// those of `a` followed by those of `c`.
pub proof fn lemma_ws_tokens_split(a: Seq<char>, w: char, c: Seq<char>)
    requires
        is_ws(w),
    ensures
        ws_tokens(a + seq![w] + c) == ws_tokens(a) + ws_tokens(c),
{
    lemma_tokens_from_split(Seq::empty(), a, w, c);
}

/// `cur + a`, then `sep`, then `b`, split on `sep`: the piece `cur + a`,
/// then the pieces of `b`, where `a` holds no `sep`.
pub proof fn lemma_split_from_piece(cur: Seq<char>, a: Seq<char>, sep: char, b: Seq<char>)
    requires
        forall|i: int| 0 <= i < a.len() ==> a[i] != sep,
    ensures
        split_from(cur, a + seq![sep] + b, sep) == seq![cur + a] + split_from(Seq::empty(), b, sep),
    decreases a.len(),
{
    let s = a + seq![sep] + b;
    if a.len() == 0 {
        assert(s.drop_first() =~= b);
        assert(cur + a =~= cur);
    } else {
        assert(s[0] == a[0]);
        assert(s.drop_first() =~= a.drop_first() + seq![sep] + b);
        lemma_split_from_piece(cur.push(a[0]), a.drop_first(), sep, b);
        assert(cur.push(a[0]) + a.drop_first() =~= cur + a);
    }
}

/// Text holding no `sep`, split on `sep`, is one piece.
pub proof fn lemma_split_from_last(cur: Seq<char>, a: Seq<char>, sep: char)
    requires
        forall|i: int| 0 <= i < a.len() ==> a[i] != sep,
    ensures
        split_from(cur, a, sep) == seq![cur + a],
    decreases a.len(),
{
    if a.len() == 0 {
        assert(cur + a =~= cur);
    } else {
        lemma_split_from_last(cur.push(a[0]), a.drop_first(), sep);
        assert(cur.push(a[0]) + a.drop_first() =~= cur + a);
    }
}

/// `s` holds no whitespace character.
pub open spec fn no_ws(s: Seq<char>) -> bool {
    forall|i: int| 0 <= i < s.len() ==> !is_ws(#[trigger] s[i])
}

/// A token continued by text without whitespace is one token.
proof fn lemma_tokens_from_word(cur: Seq<char>, t: Seq<char>)
    requires
        no_ws(t),
        cur.len() + t.len() > 0,
    ensures
        tokens_from(cur, t) == seq![cur + t],
    decreases t.len(),
{
    if t.len() == 0 {
        assert(cur + t =~= cur);
    } else {
        assert(!is_ws(t[0]));
        assert(no_ws(t.drop_first())) by {
            assert forall|i: int| 0 <= i < t.drop_first().len() implies !is_ws(
                #[trigger] t.drop_first()[i],
            ) by {
                assert(t.drop_first()[i] == t[i + 1]);
            }
        }
        lemma_tokens_from_word(cur.push(t[0]), t.drop_first());
        assert(cur.push(t[0]) + t.drop_first() =~= cur + t);
    }
}

/// Non-empty text without whitespace is a single token.
pub proof fn lemma_ws_tokens_word(t: Seq<char>)
    requires
        no_ws(t),
        t.len() > 0,
    ensures
        ws_tokens(t) == seq![t],
{
    lemma_tokens_from_word(Seq::empty(), t);
    assert(Seq::<char>::empty() + t =~= t);
}

/// The character sequences held by a sequence of character vectors.
pub open spec fn views(v: Seq<Vec<char>>) -> Seq<Seq<char>> {
    v.map_values(|x: Vec<char>| x@)
}

/// `s` split on the character `sep`.
pub fn split_chars(s: &Vec<char>, sep: char) -> (r: Vec<Vec<char>>)
    ensures
        views(r@) == split_on(s@, sep),
{
    let mut done: Vec<Vec<char>> = Vec::new();
    let mut cur: Vec<char> = Vec::new();
    let n = s.len();
    let mut k: usize = 0;
    assert(s@.subrange(0, n as int) =~= s@);
    assert(views(done@) + split_on(s@, sep) =~= split_on(s@, sep));
    while k < n
        invariant
            n == s.len(),
            k <= n,
            split_on(s@, sep) == views(done@) + split_from(
                cur@,
                s@.subrange(k as int, n as int),
                sep,
            ),
        decreases n - k,
    {
        let c = s[k];
        let ghost rest = s@.subrange(k as int, n as int);
        assert(rest.drop_first() =~= s@.subrange(k + 1, n as int));
        if c == sep {
            let ghost old_done = views(done@);
            let ghost old_cur = cur@;
            done.push(cur);
            cur = Vec::new();
            assert(views(done@) =~= old_done.push(old_cur));
            assert(old_done + (seq![old_cur] + split_from(
                Seq::empty(),
                s@.subrange(k + 1, n as int),
                sep,
            )) =~= old_done.push(old_cur) + split_from(
                Seq::empty(),
                s@.subrange(k + 1, n as int),
                sep,
            ));
        } else {
            cur.push(c);
        }
        k += 1;
    }
    let ghost old_done = views(done@);
    let ghost old_cur = cur@;
    done.push(cur);
    assert(views(done@) =~= old_done.push(old_cur));
    assert(s@.subrange(n as int, n as int) =~= Seq::<char>::empty());
    done
}

/// The whitespace-separated tokens of `s`.
pub fn ws_split(s: &Vec<char>) -> (r: Vec<Vec<char>>)
    ensures
        views(r@) == ws_tokens(s@),
        forall|i: int| 0 <= i < r.len() ==> r@[i]@.len() > 0,
{
    let mut done: Vec<Vec<char>> = Vec::new();
    let mut cur: Vec<char> = Vec::new();
    let n = s.len();
    let mut k: usize = 0;
    assert(s@.subrange(0, n as int) =~= s@);
    assert(views(done@) + ws_tokens(s@) =~= ws_tokens(s@));
    while k < n
        invariant
            n == s.len(),
            k <= n,
            ws_tokens(s@) == views(done@) + tokens_from(
                cur@,
                s@.subrange(k as int, n as int),
            ),
            forall|i: int| 0 <= i < done.len() ==> done@[i]@.len() > 0,
        decreases n - k,
    {
        let c = s[k];
        let ghost rest = s@.subrange(k as int, n as int);
        assert(rest.drop_first() =~= s@.subrange(k + 1, n as int));
        if is_whitespace(c) {
            let ghost old_done = views(done@);
            let ghost old_cur = cur@;
            let ghost tail = tokens_from(Seq::empty(), s@.subrange(k + 1, n as int));
            if cur.len() > 0 {
                done.push(cur);
                cur = Vec::new();
                assert(views(done@) =~= old_done.push(old_cur));
                assert(tokens_from(old_cur, rest) == seq![old_cur] + tail);
                assert(old_done + (seq![old_cur] + tail) =~= old_done.push(old_cur) + tail);
            } else {
                assert(cur@ =~= Seq::<char>::empty());
                assert(tokens_from(old_cur, rest) == Seq::<Seq<char>>::empty() + tail);
                assert(Seq::<Seq<char>>::empty() + tail =~= tail);
            }
        } else {
            let ghost old_cur = cur@;
            cur.push(c);
            assert(tokens_from(old_cur, rest) == tokens_from(cur@, s@.subrange(k + 1, n as int)));
        }
        k += 1;
    }
    assert(s@.subrange(n as int, n as int) =~= Seq::<char>::empty());
    if cur.len() > 0 {
        let ghost old_done = views(done@);
        let ghost old_cur = cur@;
        done.push(cur);
        assert(views(done@) =~= old_done.push(old_cur));
    } else {
        assert(views(done@) + Seq::<Seq<char>>::empty() =~= views(done@));
    }
    done
}

/// Whether two character sequences are equal.
pub fn chars_equal(a: &Vec<char>, b: &Vec<char>) -> (r: bool)
    ensures
        r == (a@ == b@),
{
    if a.len() != b.len() {
        return false;
    }
    let mut i: usize = 0;
    while i < a.len()
        invariant
            a.len() == b.len(),
            i <= a.len(),
            forall|j: int| 0 <= j < i ==> a@[j] == b@[j],
        decreases a.len() - i,
    {
        if a[i] != b[i] {
            return false;
        }
        i += 1;
    }
    assert(a@ =~= b@);
    true
}

/// Whether `a` and `b` hold the same text.
pub fn texts_equal(a: &str, b: &str) -> (r: bool)
    ensures
        r == (a@ == b@),
{
    chars_equal(&chars_of(a), &chars_of(b))
}

/// Appends the characters of `v` to `s`.
pub fn push_chars(s: &mut String, v: &Vec<char>)
    ensures
        final(s)@ == old(s)@ + v@,
{
    let mut i: usize = 0;
    while i < v.len()
        invariant
            i <= v.len(),
            s@ == old(s)@ + v@.subrange(0, i as int),
        decreases v.len() - i,
    {
        push_char(s, v[i]);
        assert(v@.subrange(0, i + 1) =~= v@.subrange(0, i as int).push(v@[i as int]));
        i += 1;
    }
    assert(v@.subrange(0, v.len() as int) =~= v@);
}

/// Appends the characters of `t` to `s`.
pub fn push_str(s: &mut String, t: &str)
    ensures
        final(s)@ == old(s)@ + t@,
{
    let v = chars_of(t);
    push_chars(s, &v);
}

/// A string holding the characters of `t`.
pub fn string_of(t: &str) -> (r: String)
    ensures
        r@ == t@,
{
    let mut s = String::new();
    push_str(&mut s, t);
    assert(Seq::<char>::empty() + t@ =~= t@);
    s
}

/// The decimal digit for `d` (0..10).
pub open spec fn digit_char(d: int) -> char {
    ('0' as int + d) as char
}

/// Decimal representation of `n`, without leading zeros.
pub open spec fn decimal(n: nat) -> Seq<char>
    decreases n,
{
    if n < 10 {
        seq![digit_char(n as int)]
    } else {
        decimal(n / 10).push(digit_char((n % 10) as int))
    }
}

/// Appends the decimal representation of `n` to `s`.
pub fn push_decimal(s: &mut String, n: u64)
    ensures
        final(s)@ == old(s)@ + decimal(n as nat),
    decreases n,
{
    if n >= 10 {
        push_decimal(s, n / 10);
    }
    let d = (n % 10) as u32;
    let c = char_from_digit(d);
    push_char(s, c);
    assert(s@ =~= old(s)@ + decimal(n as nat));
}

/// Decimal representation of `n`, with a minus sign when negative.
pub open spec fn signed_decimal(n: int) -> Seq<char> {
    if n < 0 {
        seq!['-'] + decimal((-n) as nat)
    } else {
        decimal(n as nat)
    }
}

/// Appends the decimal representation of `n` to `s`, with a minus sign
/// when negative.
pub fn push_signed(s: &mut String, n: i64)
    ensures
        final(s)@ == old(s)@ + signed_decimal(n as int),
{
    if n < 0 {
        push_char(s, '-');
        let m: u64 = if n == i64::MIN {
            9223372036854775808u64
        } else {
            (-n) as u64
        };
        push_decimal(s, m);
        assert(s@ =~= old(s)@ + signed_decimal(n as int));
    } else {
        push_decimal(s, n as u64);
    }
}

/// A copy of `s`.
pub fn copy_string(s: &String) -> (r: String)
    ensures
        r == *s,
{
    s.clone()
}

/// A copy of `s`.
pub fn copy_opt_string(s: &Option<String>) -> (r: Option<String>)
    ensures
        r == *s,
{
    match s {
        Some(x) => Some(x.clone()),
        None => None,
    }
}

/// The character of decimal digit `d`.
pub fn char_from_digit(d: u32) -> (c: char)
    requires
        d < 10,
    ensures
        c == digit_char(d as int),
{
    if d == 0 {
        '0'
    } else if d == 1 {
        '1'
    } else if d == 2 {
        '2'
    } else if d == 3 {
        '3'
    } else if d == 4 {
        '4'
    } else if d == 5 {
        '5'
    } else if d == 6 {
        '6'
    } else if d == 7 {
        '7'
    } else if d == 8 {
        '8'
    } else {
        '9'
    }
}

} // verus!
