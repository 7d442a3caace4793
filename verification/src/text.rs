//! Text as sequences of characters: the handful of string operations that the
//! rest of the library is written with.

use vstd::prelude::*;

verus! {

/// `std::string::String::push`, which appends one character at the end.
pub assume_specification[ String::push ](s: &mut String, c: char)
    ensures
        final(s)@ == old(s)@.push(c),
;

// ---- What the operations mean ----------------------------------------------

/// `s` ends in `tail`.
pub open spec fn has_suffix(s: Seq<char>, tail: Seq<char>) -> bool {
    s.len() >= tail.len() && s.skip(s.len() - tail.len()) == tail
}

/// `s` without the run of `c` that it starts with.
pub open spec fn without_leading(s: Seq<char>, c: char) -> Seq<char>
    decreases s.len(),
{
    if s.len() > 0 && s[0] == c {
        without_leading(s.drop_first(), c)
    } else {
        s
    }
}

/// The pieces of `s` between the occurrences of `c`; one more than there are occurrences.
pub open spec fn pieces(s: Seq<char>, c: char) -> Seq<Seq<char>>
    decreases s.len(),
{
    if s.len() == 0 {
        seq![Seq::<char>::empty()]
    } else {
        let before = pieces(s.drop_last(), c);
        if s.last() == c {
            before.push(Seq::empty())
        } else {
            before.drop_last().push(before.last().push(s.last()))
        }
    }
}

/// `s` with every `from` turned into `to`.
pub open spec fn with_replaced(s: Seq<char>, from: char, to: char) -> Seq<char> {
    s.map_values(|x: char| if x == from { to } else { x })
}

/// The characters that Unicode gives the property White_Space.
pub open spec fn white_space(c: char) -> bool {
    let n = c as u32;
    ||| 0x09 <= n <= 0x0d
    ||| n == 0x20
    ||| n == 0x85
    ||| n == 0xa0
    ||| n == 0x1680
    ||| 0x2000 <= n <= 0x200a
    ||| n == 0x2028
    ||| n == 0x2029
    ||| n == 0x202f
    ||| n == 0x205f
    ||| n == 0x3000
}

/// `s` without the white space that it starts with.
pub open spec fn trimmed_start(s: Seq<char>) -> Seq<char>
    decreases s.len(),
{
    if s.len() > 0 && white_space(s[0]) {
        trimmed_start(s.drop_first())
    } else {
        s
    }
}

/// `s` without the white space that it ends with.
pub open spec fn trimmed_end(s: Seq<char>) -> Seq<char>
    decreases s.len(),
{
    if s.len() > 0 && white_space(s.last()) {
        trimmed_end(s.drop_last())
    } else {
        s
    }
}

/// `s` without the white space at either end.
pub open spec fn trimmed(s: Seq<char>) -> Seq<char> {
    trimmed_end(trimmed_start(s))
}

/// The digit that stands for `d`, below ten.
pub open spec fn digit(d: nat) -> char {
    if d == 0 {
        '0'
    } else if d == 1 {
        '1'
    } else if d == 2 {
        '2'
    } else if d == 3 {
        '3'
    } else if d == 4 {
        '4'
    } else if d == 5 {
        '5'
    } else if d == 6 {
        '6'
    } else if d == 7 {
        '7'
    } else if d == 8 {
        '8'
    } else {
        '9'
    }
}

/// `n` in decimal, without leading zeros.
pub open spec fn decimal(n: nat) -> Seq<char>
    decreases n,
{
    if n < 10 {
        seq![digit(n)]
    } else {
        decimal(n / 10).push(digit(n % 10))
    }
}

/// The texts in order, with `between` between each two of them.
pub open spec fn joined(parts: Seq<Seq<char>>, between: Seq<char>) -> Seq<char>
    decreases parts.len(),
{
    if parts.len() == 0 {
        Seq::empty()
    } else if parts.len() == 1 {
        parts[0]
    } else {
        joined(parts.drop_last(), between) + between + parts.last()
    }
}

/// What a list of strings holds.
pub open spec fn texts(list: Seq<String>) -> Seq<Seq<char>> {
    list.map_values(|s: String| s@)
}

// ---- The operations -----------------------------------------------------------

/// The characters of `s`, in order.
pub fn chars_of(s: &str) -> (out: Vec<char>)
    ensures
        out@ == s@,
{
    let mut out: Vec<char> = Vec::new();
    for c in it: s.chars()
        invariant
            it.seq() == s@,
            out@ == s@.take(it.index() as int),
    {
        proof {
            assert(s@.take(it.index() as int + 1) =~= s@.take(it.index() as int).push(c));
        }
        out.push(c);
    }
    proof {
        assert(s@.take(s@.len() as int) =~= s@);
    }
    out
}

/// Whether two texts are the same.
pub fn same_text(a: &str, b: &str) -> (same: bool)
    ensures
        same == (a@ == b@),
{
    let x = chars_of(a);
    let y = chars_of(b);
    if x.len() != y.len() {
        return false;
    }
    let mut i: usize = 0;
    while i < x.len()
        invariant
            x@ == a@,
            y@ == b@,
            x.len() == y.len(),
            i <= x.len(),
            forall|k: int| 0 <= k < i ==> x@[k] == y@[k],
        decreases x.len() - i,
    {
        if x[i] != y[i] {
            return false;
        }
        i += 1;
    }
    assert(a@ =~= b@);
    true
}

/// Whether `s` ends in `tail`.
pub fn ends_with(s: &str, tail: &str) -> (yes: bool)
    ensures
        yes == has_suffix(s@, tail@),
{
    let n = s.unicode_len();
    let m = tail.unicode_len();
    if n < m {
        return false;
    }
    let end = s.substring_char(n - m, n);
    assert(end@ =~= s@.skip(s@.len() - tail@.len()));
    same_text(end, tail)
}

/// `a` followed by `b`.
pub fn joined_pair(a: &str, b: &str) -> (out: String)
    ensures
        out@ == a@ + b@,
{
    let mut out = a.to_owned();
    out.append(b);
    out
}

/// A text is never cut into fewer than one piece.
pub proof fn lemma_pieces_nonempty(s: Seq<char>, c: char)
    ensures
        pieces(s, c).len() >= 1,
    decreases s.len(),
{
    if s.len() > 0 {
        lemma_pieces_nonempty(s.drop_last(), c);
    }
}

/// Cuts `s` at every `c`.
pub fn split(s: &str, c: char) -> (out: Vec<String>)
    ensures
        texts(out@) == pieces(s@, c),
        out@.len() >= 1,
{
    let chars = chars_of(s);
    let mut out: Vec<String> = Vec::new();
    let mut current = String::new();
    let mut i: usize = 0;
    proof {
        assert(texts(out@) =~= pieces(s@.take(0), c).drop_last());
        assert(current@ =~= pieces(s@.take(0), c).last());
    }
    while i < chars.len()
        invariant
            chars@ == s@,
            i <= chars.len(),
            pieces(s@.take(i as int), c).len() >= 1,
            texts(out@) == pieces(s@.take(i as int), c).drop_last(),
            current@ == pieces(s@.take(i as int), c).last(),
        decreases chars.len() - i,
    {
        let x = chars[i];
        let ghost cut = pieces(s@.take(i as int), c);
        proof {
            assert(s@.take(i + 1).drop_last() =~= s@.take(i as int));
            assert(s@.take(i + 1).last() == x);
        }
        if x == c {
            let ghost before = out@;
            out.push(current);
            proof {
                assert(texts(out@) =~= texts(before).push(current@));
                assert(texts(out@) =~= cut);
                assert(pieces(s@.take(i + 1), c) =~= cut.push(Seq::empty()));
                assert(pieces(s@.take(i + 1), c).drop_last() =~= cut);
            }
            current = String::new();
        } else {
            current.push(x);
            proof {
                assert(pieces(s@.take(i + 1), c).drop_last() =~= cut.drop_last());
            }
        }
        i += 1;
    }
    let ghost before = out@;
    out.push(current);
    proof {
        assert(s@.take(i as int) =~= s@);
        assert(texts(out@) =~= texts(before).push(current@));
        assert(texts(out@) =~= pieces(s@, c));
    }
    out
}

proof fn lemma_without_leading(s: Seq<char>, c: char, n: int)
    requires
        0 <= n <= s.len(),
        forall|k: int| 0 <= k < n ==> s[k] == c,
        n < s.len() ==> s[n] != c,
    ensures
        without_leading(s, c) == s.skip(n),
    decreases s.len(),
{
    if n > 0 {
        assert forall|k: int| 0 <= k < n - 1 implies s.drop_first()[k] == c by {
            assert(s[k + 1] == c);
        }
        lemma_without_leading(s.drop_first(), c, n - 1);
        assert(s.drop_first().skip(n - 1) =~= s.skip(n));
    } else {
        assert(s.skip(0) =~= s);
    }
}

/// `s` without the run of `c` that it starts with.
pub fn trim_start_matches(s: &str, c: char) -> (out: String)
    ensures
        out@ == without_leading(s@, c),
{
    let chars = chars_of(s);
    let mut n: usize = 0;
    while n < chars.len() && chars[n] == c
        invariant
            n <= chars.len(),
            forall|k: int| 0 <= k < n ==> chars@[k] == c,
        decreases chars.len() - n,
    {
        n += 1;
    }
    proof {
        lemma_without_leading(s@, c, n as int);
        assert(s@.subrange(n as int, s@.len() as int) =~= s@.skip(n as int));
    }
    s.substring_char(n, chars.len()).to_owned()
}

/// `s` with every `from` turned into `to`.
pub fn replace_char(s: &str, from: char, to: char) -> (out: String)
    ensures
        out@ == with_replaced(s@, from, to),
{
    let chars = chars_of(s);
    let mut out = String::new();
    let mut i: usize = 0;
    while i < chars.len()
        invariant
            chars@ == s@,
            i <= chars.len(),
            out@ == with_replaced(s@, from, to).take(i as int),
        decreases chars.len() - i,
    {
        proof {
            let whole = with_replaced(s@, from, to);
            assert(whole.take(i + 1) =~= whole.take(i as int).push(whole[i as int]));
        }
        let x = chars[i];
        if x == from {
            out.push(to);
        } else {
            out.push(x);
        }
        i += 1;
    }
    proof {
        let whole = with_replaced(s@, from, to);
        assert(whole.take(i as int) =~= whole);
    }
    out
}

/// Whether a character is white space.
pub fn is_white_space(c: char) -> (yes: bool)
    ensures
        yes == white_space(c),
{
    let n = c as u32;
    (0x09 <= n && n <= 0x0d) || n == 0x20 || n == 0x85 || n == 0xa0 || n == 0x1680 || (0x2000 <= n
        && n <= 0x200a) || n == 0x2028 || n == 0x2029 || n == 0x202f || n == 0x205f || n == 0x3000
}

proof fn lemma_trimmed_start(s: Seq<char>, n: int)
    requires
        0 <= n <= s.len(),
        forall|k: int| 0 <= k < n ==> white_space(#[trigger] s[k]),
        n < s.len() ==> !white_space(s[n]),
    ensures
        trimmed_start(s) == s.skip(n),
    decreases s.len(),
{
    if n > 0 {
        assert(white_space(s[0]));
        assert forall|k: int| 0 <= k < n - 1 implies white_space(#[trigger] s.drop_first()[k]) by {
            assert(white_space(s[k + 1]));
        }
        lemma_trimmed_start(s.drop_first(), n - 1);
        assert(s.drop_first().skip(n - 1) =~= s.skip(n));
    } else {
        assert(s.skip(0) =~= s);
    }
}

proof fn lemma_trimmed_end(s: Seq<char>, n: int)
    requires
        0 <= n <= s.len(),
        forall|k: int| n <= k < s.len() ==> white_space(#[trigger] s[k]),
        n > 0 ==> !white_space(s[n - 1]),
    ensures
        trimmed_end(s) == s.take(n),
    decreases s.len(),
{
    if n < s.len() {
        assert(white_space(s[s.len() - 1]));
        assert forall|k: int| n <= k < s.drop_last().len() implies white_space(
            #[trigger] s.drop_last()[k],
        ) by {
            assert(white_space(s[k]));
        }
        lemma_trimmed_end(s.drop_last(), n);
        assert(s.drop_last().take(n) =~= s.take(n));
    } else {
        assert(s.take(n) =~= s);
    }
}

/// `s` without the white space at either end.
pub fn trim(s: &str) -> (out: String)
    ensures
        out@ == trimmed(s@),
{
    let chars = chars_of(s);
    let len = chars.len();
    let mut a: usize = 0;
    while a < len && is_white_space(chars[a])
        invariant
            len == chars.len(),
            a <= len,
            forall|k: int| 0 <= k < a ==> white_space(#[trigger] chars@[k]),
        decreases len - a,
    {
        a += 1;
    }
    let mut b: usize = len;
    while b > a && is_white_space(chars[b - 1])
        invariant
            len == chars.len(),
            a <= b <= len,
            forall|k: int| b <= k < len ==> white_space(#[trigger] chars@[k]),
        decreases b,
    {
        b -= 1;
    }
    proof {
        lemma_trimmed_start(s@, a as int);
        let rest = s@.skip(a as int);
        assert forall|k: int| b - a <= k < rest.len() implies white_space(#[trigger] rest[k]) by {
            assert(white_space(chars@[k + a]));
        }
        lemma_trimmed_end(rest, b - a);
        assert(rest.take(b - a) =~= s@.subrange(a as int, b as int));
    }
    s.substring_char(a, b).to_owned()
}

/// The digit that stands for `d`.
fn digit_char(d: u64) -> (c: char)
    requires
        d < 10,
    ensures
        c == digit(d as nat),
{
    match d {
        0 => '0',
        1 => '1',
        2 => '2',
        3 => '3',
        4 => '4',
        5 => '5',
        6 => '6',
        7 => '7',
        8 => '8',
        _ => '9',
    }
}

/// `n` in decimal.
pub fn decimal_text(n: u64) -> (out: String)
    ensures
        out@ == decimal(n as nat),
    decreases n,
{
    if n < 10 {
        let mut out = String::new();
        out.push(digit_char(n));
        assert(out@ =~= decimal(n as nat));
        out
    } else {
        let mut out = decimal_text(n / 10);
        out.push(digit_char(n % 10));
        out
    }
}

/// The texts in order, with `between` between each two of them.
pub fn join(parts: &Vec<String>, between: &str) -> (out: String)
    ensures
        out@ == joined(texts(parts@), between@),
{
    let mut out = String::new();
    let mut i: usize = 0;
    while i < parts.len()
        invariant
            i <= parts.len(),
            out@ == joined(texts(parts@).take(i as int), between@),
        decreases parts.len() - i,
    {
        proof {
            let so_far = texts(parts@).take(i + 1);
            assert(so_far.drop_last() =~= texts(parts@).take(i as int));
            assert(so_far.last() == parts@[i as int]@);
        }
        if i > 0 {
            out.append(between);
        }
        out.append(parts[i].as_str());
        proof {
            assert(out@ =~= joined(texts(parts@).take(i + 1), between@));
        }
        i += 1;
    }
    proof {
        assert(texts(parts@).take(i as int) =~= texts(parts@));
    }
    out
}

// ---- Laws ------------------------------------------------------------------------------

/// Different numbers are written differently.
pub proof fn law_decimal_distinct(a: nat, b: nat)
    requires
        decimal(a) == decimal(b),
    ensures
        a == b,
    decreases a,
{
    lemma_decimal_len(a);
    lemma_decimal_len(b);
    if a < 10 && b < 10 {
        assert(decimal(a)[0] == digit(a));
        assert(decimal(b)[0] == digit(b));
    } else if a >= 10 && b >= 10 {
        let x = decimal(a / 10);
        let y = decimal(b / 10);
        assert(decimal(a).last() == digit(a % 10));
        assert(decimal(b).last() == digit(b % 10));
        assert(decimal(a).drop_last() =~= x);
        assert(decimal(b).drop_last() =~= y);
        law_decimal_distinct(a / 10, b / 10);
    } else if a < 10 {
        lemma_decimal_len(b / 10);
        assert(decimal(b).len() >= 2);
    } else {
        lemma_decimal_len(a / 10);
        assert(decimal(a).len() >= 2);
    }
}

proof fn lemma_decimal_len(n: nat)
    ensures
        decimal(n).len() >= 1,
    decreases n,
{
    if n >= 10 {
        lemma_decimal_len(n / 10);
    }
}

/// Joined again, the pieces of a text are the text; and no piece holds the
/// character that it was cut at.
pub proof fn law_pieces(s: Seq<char>, c: char)
    ensures
        joined(pieces(s, c), seq![c]) == s,
        forall|i: int| 0 <= i < pieces(s, c).len() ==> !(#[trigger] pieces(s, c)[i]).contains(c),
    decreases s.len(),
{
    lemma_pieces_nonempty(s, c);
    if s.len() == 0 {
        assert(pieces(s, c)[0].len() == 0);
        assert(joined(pieces(s, c), seq![c]) =~= s);
    } else {
        let before = pieces(s.drop_last(), c);
        law_pieces(s.drop_last(), c);
        lemma_pieces_nonempty(s.drop_last(), c);
        let all = pieces(s, c);
        if s.last() == c {
            assert(all.drop_last() =~= before);
            assert(joined(all, seq![c]) =~= s);
        } else {
            assert(all.drop_last() =~= before.drop_last());
            assert(all.last() =~= before.last().push(s.last()));
            assert(joined(all, seq![c]) =~= joined(before, seq![c]).push(s.last()));
            assert(joined(all, seq![c]) =~= s);
            assert forall|i: int| 0 <= i < all.len() implies !(#[trigger] all[i]).contains(c) by {
                if i == all.len() - 1 {
                    assert(!before[before.len() - 1].contains(c));
                    assert forall|k: int| 0 <= k < all[i].len() implies all[i][k] != c by {
                        if k < before.last().len() {
                            assert(all[i][k] == before.last()[k]);
                        }
                    }
                } else {
                    assert(all[i] == before[i]);
                }
            }
        }
    }
}

/// A text without the character is one piece.
pub proof fn lemma_pieces_plain(s: Seq<char>, c: char)
    requires
        !s.contains(c),
    ensures
        pieces(s, c) == seq![s],
    decreases s.len(),
{
    if s.len() == 0 {
        assert(s =~= Seq::<char>::empty());
        assert(pieces(s, c) =~= seq![s]);
    } else {
        let rest = s.drop_last();
        assert forall|k: int| 0 <= k < rest.len() implies rest[k] != c by {
            assert(s[k] == rest[k]);
        }
        assert(!rest.contains(c));
        lemma_pieces_plain(rest, c);
        assert(s[s.len() - 1] != c);
        assert(rest.push(s.last()) =~= s);
        assert(pieces(s, c) =~= seq![s]);
    }
}

/// A text ends in another exactly where it is something followed by the other.
pub proof fn law_suffix(s: Seq<char>, tail: Seq<char>)
    ensures
        has_suffix(s, tail) <==> exists|front: Seq<char>| s == #[trigger] front.add(tail),
{
    if has_suffix(s, tail) {
        let front = s.take(s.len() - tail.len());
        assert(s =~= front.add(tail));
    }
    if exists|front: Seq<char>| s == #[trigger] front.add(tail) {
        let front = choose|front: Seq<char>| s == #[trigger] front.add(tail);
        assert(s.skip(s.len() - tail.len()) =~= tail);
    }
}

/// A text is a run of the character followed by what is left, all of it, and that
/// does not start with the character. A text that does not start with it is kept.
pub proof fn law_without_leading(s: Seq<char>, c: char)
    ensures
        ({
            let left = without_leading(s, c);
            let n = s.len() - left.len();
            &&& 0 <= n
            &&& left == s.skip(n)
            &&& s == Seq::new(n as nat, |k: int| c) + left
            &&& left.len() > 0 ==> left[0] != c
        }),
        s.len() > 0 && s[0] != c ==> without_leading(s, c) == s,
    decreases s.len(),
{
    let left = without_leading(s, c);
    if s.len() > 0 && s[0] == c {
        law_without_leading(s.drop_first(), c);
        let n = s.len() - left.len();
        let rest = s.drop_first();
        assert(rest.skip(n - 1) =~= s.skip(n));
        assert forall|k: int| 0 <= k < n implies s[k] == c by {
            if k > 0 {
                assert(s[k] == rest[k - 1]);
                assert(rest[k - 1] == (Seq::new((n - 1) as nat, |k: int| c) + left)[k - 1]);
            }
        }
        assert(s =~= Seq::new(n as nat, |k: int| c) + left);
    } else {
        assert(s =~= Seq::new(0, |k: int| c) + left);
    }
}

/// No text joined is none, one text joined is itself, and each further one comes
/// after what is between.
pub proof fn law_joined(parts: Seq<Seq<char>>, between: Seq<char>, part: Seq<char>)
    ensures
        joined(Seq::empty(), between) == Seq::<char>::empty(),
        joined(seq![part], between) == part,
        parts.len() > 0 ==> joined(parts.push(part), between) == joined(parts, between) + between
            + part,
{
    assert(parts.push(part).drop_last() =~= parts);
}

pub proof fn lemma_pieces_after(s: Seq<char>, c: char, tail: Seq<char>)
    requires
        !tail.contains(c),
    ensures
        pieces(s.push(c) + tail, c) == pieces(s, c).push(tail),
    decreases tail.len(),
{
    let all = s.push(c) + tail;
    lemma_pieces_nonempty(s, c);
    if tail.len() == 0 {
        assert(all =~= s.push(c));
        assert(all.drop_last() =~= s);
        assert(tail =~= Seq::<char>::empty());
    } else {
        let rest = tail.drop_last();
        assert forall|k: int| 0 <= k < rest.len() implies rest[k] != c by {
            assert(tail[k] == rest[k]);
        }
        lemma_pieces_after(s, c, rest);
        assert(all.drop_last() =~= s.push(c) + rest);
        assert(tail[tail.len() - 1] != c);
        assert(all.last() == tail.last());
        let before = pieces(s, c).push(rest);
        assert(before.drop_last() =~= pieces(s, c));
        assert(rest.push(tail.last()) =~= tail);
    }
}

/// Cut again, joined parts are the parts, all of them and in order, where none of
/// them holds the character that they are joined with.
pub proof fn law_pieces_of_joined(parts: Seq<Seq<char>>, c: char)
    requires
        parts.len() > 0,
        forall|i: int| 0 <= i < parts.len() ==> !(#[trigger] parts[i]).contains(c),
    ensures
        pieces(joined(parts, seq![c]), c) == parts,
    decreases parts.len(),
{
    if parts.len() == 1 {
        assert(!parts[0].contains(c));
        lemma_pieces_plain(parts[0], c);
        assert(seq![parts[0]] =~= parts);
    } else {
        let rest = parts.drop_last();
        assert forall|i: int| 0 <= i < rest.len() implies !(#[trigger] rest[i]).contains(c) by {
            assert(!parts[i].contains(c));
        }
        law_pieces_of_joined(rest, c);
        let s = joined(rest, seq![c]);
        assert(!parts[parts.len() - 1].contains(c));
        lemma_pieces_after(s, c, parts.last());
        assert(s + seq![c] + parts.last() =~= s.push(c) + parts.last());
        assert(rest.push(parts.last()) =~= parts);
    }
}

/// Replacing takes each character by itself.
pub proof fn law_replaced(s: Seq<char>, from: char, to: char)
    ensures
        with_replaced(s, from, to).len() == s.len(),
        forall|k: int|
            0 <= k < s.len() ==> #[trigger] with_replaced(s, from, to)[k] == (if s[k] == from {
                to
            } else {
                s[k]
            }),
{
}

/// The characters that count as white space, one by one.
pub proof fn law_white_space(c: char)
    ensures
        white_space(c) <==> c == '\t' || c == '\n' || c == '\u{b}' || c == '\u{c}' || c == '\r' || c
            == ' ' || c == '\u{85}' || c == '\u{a0}' || c == '\u{1680}' || ('\u{2000}' <= c
            <= '\u{200a}') || c == '\u{2028}' || c == '\u{2029}' || c == '\u{202f}' || c
            == '\u{205f}' || c == '\u{3000}',
{
}

proof fn lemma_trimmed_start_at(s: Seq<char>) -> (a: int)
    ensures
        0 <= a <= s.len(),
        trimmed_start(s) == s.skip(a),
        forall|k: int| 0 <= k < a ==> white_space(#[trigger] s[k]),
        a < s.len() ==> !white_space(s[a]),
    decreases s.len(),
{
    if s.len() > 0 && white_space(s[0]) {
        let rest = s.drop_first();
        let a = lemma_trimmed_start_at(rest);
        assert(rest.skip(a) =~= s.skip(a + 1));
        assert forall|k: int| 0 <= k < a + 1 implies white_space(#[trigger] s[k]) by {
            if k > 0 {
                assert(white_space(rest[k - 1]));
            }
        }
        a + 1
    } else {
        assert(s.skip(0) =~= s);
        0
    }
}

proof fn lemma_trimmed_end_at(s: Seq<char>) -> (b: int)
    ensures
        0 <= b <= s.len(),
        trimmed_end(s) == s.take(b),
        forall|k: int| b <= k < s.len() ==> white_space(#[trigger] s[k]),
        b > 0 ==> !white_space(s[b - 1]),
    decreases s.len(),
{
    if s.len() > 0 && white_space(s.last()) {
        let rest = s.drop_last();
        let b = lemma_trimmed_end_at(rest);
        assert(rest.take(b) =~= s.take(b));
        assert forall|k: int| b <= k < s.len() implies white_space(#[trigger] s[k]) by {
            if k < rest.len() {
                assert(white_space(rest[k]));
            }
        }
        b
    } else {
        assert(s.take(s.len() as int) =~= s);
        s.len() as int
    }
}

/// What is left of a trimmed text is one stretch of it: there is nothing but white
/// space before and after it, and none at its ends.
pub proof fn law_trimmed(s: Seq<char>)
    ensures
        exists|a: int, b: int|
            0 <= a <= b <= s.len() && trimmed(s) == #[trigger] s.subrange(a, b) && (forall|k: int|
                0 <= k < s.len() && !(a <= k < b) ==> white_space(#[trigger] s[k])) && (a < b
                ==> !white_space(s[a]) && !white_space(s[b - 1])),
{
    let a = lemma_trimmed_start_at(s);
    let rest = s.skip(a);
    let n = lemma_trimmed_end_at(rest);
    assert(rest.take(n) =~= s.subrange(a, a + n));
    assert forall|k: int| 0 <= k < s.len() && !(a <= k < a + n) implies white_space(
        #[trigger] s[k],
    ) by {
        if k >= a + n {
            assert(white_space(rest[k - a]));
        }
    }
    if n > 0 {
        assert(rest[n - 1] == s[a + n - 1]);
        if white_space(s[a]) {
            assert(a < s.len());
        }
    }
}

/// What was put between white space is what is left of it.
pub proof fn law_trimmed_middle(before: Seq<char>, middle: Seq<char>, after: Seq<char>)
    requires
        forall|k: int| 0 <= k < before.len() ==> white_space(#[trigger] before[k]),
        forall|k: int| 0 <= k < after.len() ==> white_space(#[trigger] after[k]),
        middle.len() > 0 ==> !white_space(middle[0]) && !white_space(middle.last()),
    ensures
        trimmed(before + middle + after) == middle,
{
    let s = before + middle + after;
    let a = before.len() as int;
    if middle.len() > 0 {
        assert forall|k: int| 0 <= k < a implies white_space(#[trigger] s[k]) by {
            assert(white_space(before[k]));
        }
        assert(s[a] == middle[0]);
        lemma_trimmed_start(s, a);
        let rest = s.skip(a);
        let n = middle.len() as int;
        assert forall|k: int| n <= k < rest.len() implies white_space(#[trigger] rest[k]) by {
            assert(white_space(after[k - n]));
        }
        assert(rest[n - 1] == middle.last());
        lemma_trimmed_end(rest, n);
        assert(rest.take(n) =~= middle);
    } else {
        assert forall|k: int| 0 <= k < s.len() implies white_space(#[trigger] s[k]) by {
            if k < a {
                assert(white_space(before[k]));
            } else {
                assert(white_space(after[k - a]));
            }
        }
        lemma_trimmed_start(s, s.len() as int);
        assert(s.skip(s.len() as int) =~= middle);
    }
}

/// The number that a row of digits stands for.
pub open spec fn digits_value(s: Seq<char>) -> int
    decreases s.len(),
{
    if s.len() == 0 {
        0
    } else {
        digits_value(s.drop_last()) * 10 + (s.last() as int - '0' as int)
    }
}

/// A number in decimal is a row of digits that stands for it, without a leading zero.
pub proof fn law_decimal(n: nat)
    ensures
        digits_value(decimal(n)) == n,
        decimal(n).len() > 0,
        forall|k: int| 0 <= k < decimal(n).len() ==> '0' <= #[trigger] decimal(n)[k] <= '9',
        n > 0 ==> decimal(n)[0] != '0',
    decreases n,
{
    if n < 10 {
        assert(decimal(n).drop_last() =~= Seq::<char>::empty());
        assert(digits_value(decimal(n).drop_last()) == 0);
    } else {
        law_decimal(n / 10);
        assert(decimal(n).drop_last() =~= decimal(n / 10));
    }
}

/// A list of strings says what its strings say, one by one.
pub proof fn law_texts(list: Seq<String>)
    ensures
        texts(list).len() == list.len(),
        forall|k: int| 0 <= k < list.len() ==> #[trigger] texts(list)[k] == list[k]@,
{
}

} // verus!
