//! Character-level text utilities shared by the parser and the translator:
//! character classes, decimal rendering of numbers, and whitespace-driven
//! line splitting, trimming and tokenization, each with a mathematical
//! specification over `Seq<char>`.

use vstd::prelude::*;
use vstd::string::StrSliceExecFns;

verus! {

// ---------------------------------------------------------------------------
// Character classes
// ---------------------------------------------------------------------------

/// A whitespace character: the Unicode `White_Space` set, as the
/// standard library's trimming and whitespace splitting recognize it.
pub open spec fn is_space(c: char) -> bool {
    ||| c == '\u{9}'
    ||| c == '\u{a}'
    ||| c == '\u{b}'
    ||| c == '\u{c}'
    ||| c == '\u{d}'
    ||| c == ' '
    ||| c == '\u{85}'
    ||| c == '\u{a0}'
    ||| c == '\u{1680}'
    ||| ('\u{2000}' <= c && c <= '\u{200a}')
    ||| c == '\u{2028}'
    ||| c == '\u{2029}'
    ||| c == '\u{202f}'
    ||| c == '\u{205f}'
    ||| c == '\u{3000}'
}

/// An ASCII decimal digit.
pub open spec fn is_digit(c: char) -> bool {
    '0' <= c && c <= '9'
}

/// The numeric value of an ASCII decimal digit.
pub open spec fn digit_val(c: char) -> nat {
    (c as nat - '0' as nat) as nat
}

/// The ASCII digit character for a value below ten.
pub open spec fn digit_char(d: nat) -> char {
    if d == 0 {
        '0'
    } else if d == 1 {
        '1'
    } else if d == 2 {
        '2'
    } else if d == 3 {
        '3'
    } else if d == 4 {
        '4'
    } else if d == 5 {
        '5'
    } else if d == 6 {
        '6'
    } else if d == 7 {
        '7'
    } else if d == 8 {
        '8'
    } else {
        '9'
    }
}

/// Runtime check matching [`is_space`].
pub fn space_char(c: char) -> (r: bool)
    ensures
        r == is_space(c),
{
    let u = c as u32;
    (9 <= u && u <= 13) || u == 32 || u == 0x85 || u == 0xa0 || u == 0x1680 || (0x2000 <= u && u
        <= 0x200a) || u == 0x2028 || u == 0x2029 || u == 0x202f || u == 0x205f || u == 0x3000
}

// ---------------------------------------------------------------------------
// Decimal rendering
// ---------------------------------------------------------------------------

/// The decimal text of `n`: most significant digit first, no sign, no
/// leading zeros (except for `n == 0`, which is rendered as a single `'0'`).
pub open spec fn dec_rep(n: nat) -> Seq<char>
    decreases n,
{
    if n < 10 {
        seq![digit_char(n)]
    } else {
        dec_rep(n / 10).push(digit_char(n % 10))
    }
}

/// A one-character string slice holding the digit `d`.
pub fn digit_str(d: usize) -> (r: &'static str)
    requires
        d < 10,
    ensures
        r@ == seq![digit_char(d as nat)],
{
    let r: &'static str = if d == 0 {
        proof {
            reveal_strlit("0");
        }
        "0"
    } else if d == 1 {
        proof {
            reveal_strlit("1");
        }
        "1"
    } else if d == 2 {
        proof {
            reveal_strlit("2");
        }
        "2"
    } else if d == 3 {
        proof {
            reveal_strlit("3");
        }
        "3"
    } else if d == 4 {
        proof {
            reveal_strlit("4");
        }
        "4"
    } else if d == 5 {
        proof {
            reveal_strlit("5");
        }
        "5"
    } else if d == 6 {
        proof {
            reveal_strlit("6");
        }
        "6"
    } else if d == 7 {
        proof {
            reveal_strlit("7");
        }
        "7"
    } else if d == 8 {
        proof {
            reveal_strlit("8");
        }
        "8"
    } else {
        proof {
            reveal_strlit("9");
        }
        "9"
    };
    proof {
        assert(r@ =~= seq![digit_char(d as nat)]);
    }
    r
}

/// Renders `n` in decimal, matching [`dec_rep`].
pub fn num_text(n: usize) -> (s: String)
    ensures
        s@ == dec_rep(n as nat),
    decreases n,
{
    if n < 10 {
        String::from_str(digit_str(n))
    } else {
        let mut s = num_text(n / 10);
        s.append(digit_str(n % 10));
        proof {
            assert(s@ =~= dec_rep((n / 10) as nat).push(digit_char((n % 10) as nat)));
        }
        s
    }
}

// ---------------------------------------------------------------------------
// Splitting text into physical lines
// ---------------------------------------------------------------------------

/// The physical lines of `s`: the maximal runs of characters between
/// line-feed separators. Text with no line feed is a single line; every
/// line feed ends the line before it, so `n` line feeds give `n + 1` lines.
pub open spec fn split_lines(s: Seq<char>) -> Seq<Seq<char>>
    decreases s.len(),
{
    if s.len() == 0 {
        seq![Seq::<char>::empty()]
    } else if s[0] == '\n' {
        seq![Seq::<char>::empty()] + split_lines(s.drop_first())
    } else {
        let rest = split_lines(s.drop_first());
        seq![seq![s[0]] + rest[0]] + rest.drop_first()
    }
}

/// Every text splits into at least one line.
pub proof fn lemma_split_lines_nonempty(s: Seq<char>)
    ensures
        split_lines(s).len() >= 1,
    decreases s.len(),
{
    if s.len() != 0 {
        lemma_split_lines_nonempty(s.drop_first());
    }
}

/// If the region `[i, j)` of `s` holds no line feed and `j` sits on a line
/// feed or at the end of the text, then `s[i..]` splits into the line
/// `s[i..j]` followed by the lines of the text after the separator.
pub proof fn lemma_split_lines_head(s: Seq<char>, i: int, j: int)
    requires
        0 <= i <= j <= s.len(),
        forall|k: int| i <= k < j ==> s[k] != '\n',
        j == s.len() || s[j] == '\n',
    ensures
        j == s.len() ==> split_lines(s.skip(i)) == seq![s.subrange(i, j)],
        j < s.len() ==> split_lines(s.skip(i)) == seq![s.subrange(i, j)] + split_lines(
            s.skip(j + 1),
        ),
    decreases j - i,
{
    let u = s.skip(i);
    if i == j {
        if j == s.len() {
            assert(u =~= Seq::<char>::empty());
            assert(s.subrange(i, j) =~= Seq::<char>::empty());
            assert(split_lines(u) =~= seq![s.subrange(i, j)]);
        } else {
            assert(u[0] == s[j]);
            assert(u.drop_first() =~= s.skip(j + 1));
            assert(s.subrange(i, j) =~= Seq::<char>::empty());
            assert(split_lines(u) =~= seq![s.subrange(i, j)] + split_lines(s.skip(j + 1)));
        }
    } else {
        lemma_split_lines_head(s, i + 1, j);
        assert(u[0] == s[i]);
        assert(u[0] != '\n');
        assert(u.drop_first() =~= s.skip(i + 1));
        let rest = split_lines(s.skip(i + 1));
        lemma_split_lines_nonempty(s.skip(i + 1));
        if j == s.len() {
            assert(rest[0] == s.subrange(i + 1, j));
            assert(seq![s[i]] + s.subrange(i + 1, j) =~= s.subrange(i, j));
            assert(rest.drop_first() =~= Seq::<Seq<char>>::empty());
            assert(split_lines(u) =~= seq![s.subrange(i, j)]);
        } else {
            assert(rest[0] == s.subrange(i + 1, j));
            assert(seq![s[i]] + s.subrange(i + 1, j) =~= s.subrange(i, j));
            assert(rest.drop_first() =~= split_lines(s.skip(j + 1)));
            assert(split_lines(u) =~= seq![s.subrange(i, j)] + split_lines(s.skip(j + 1)));
        }
    }
}

// ---------------------------------------------------------------------------
// Trimming
// ---------------------------------------------------------------------------

/// `s` without its leading whitespace.
pub open spec fn trim_start(s: Seq<char>) -> Seq<char>
    decreases s.len(),
{
    if s.len() > 0 && is_space(s[0]) {
        trim_start(s.drop_first())
    } else {
        s
    }
}

/// `s` without its trailing whitespace.
pub open spec fn trim_end(s: Seq<char>) -> Seq<char>
    decreases s.len(),
{
    if s.len() > 0 && is_space(s.last()) {
        trim_end(s.drop_last())
    } else {
        s
    }
}

/// `s` without leading and trailing whitespace.
pub open spec fn trim(s: Seq<char>) -> Seq<char> {
    trim_end(trim_start(s))
}

/// Returns the slice of `t` without leading and trailing whitespace.
pub fn trim_str<'a>(t: &'a str) -> (r: &'a str)
    ensures
        r@ == trim(t@),
{
    let n = t.unicode_len();
    let mut a: usize = 0;
    proof {
        assert(t@.skip(0) =~= t@);
    }
    loop
        invariant_except_break
            a <= n,
            n == t@.len(),
            trim_start(t@) == trim_start(t@.skip(a as int)),
        ensures
            a <= n,
            n == t@.len(),
            trim_start(t@) == t@.skip(a as int),
        decreases n - a,
    {
        if a >= n {
            proof {
                assert(t@.skip(a as int) =~= Seq::<char>::empty());
            }
            break ;
        }
        let c = t.get_char(a);
        proof {
            assert(t@.skip(a as int)[0] == t@[a as int]);
        }
        if !space_char(c) {
            break ;
        }
        proof {
            assert(t@.skip(a as int).drop_first() =~= t@.skip(a as int + 1));
        }
        a += 1;
    }
    let mut b: usize = n;
    proof {
        assert(t@.skip(a as int) =~= t@.subrange(a as int, n as int));
    }
    loop
        invariant_except_break
            a <= b <= n,
            n == t@.len(),
            trim_start(t@) == t@.skip(a as int),
            trim(t@) == trim_end(t@.subrange(a as int, b as int)),
        ensures
            a <= b <= n,
            n == t@.len(),
            trim(t@) == t@.subrange(a as int, b as int),
        decreases b,
    {
        if b == a {
            proof {
                assert(t@.subrange(a as int, b as int) =~= Seq::<char>::empty());
            }
            break ;
        }
        let c = t.get_char(b - 1);
        proof {
            assert(t@.subrange(a as int, b as int).last() == t@[b as int - 1]);
        }
        if !space_char(c) {
            break ;
        }
        proof {
            assert(t@.subrange(a as int, b as int).drop_last() =~= t@.subrange(
                a as int,
                b as int - 1,
            ));
        }
        b -= 1;
    }
    t.substring_char(a, b)
}

// ---------------------------------------------------------------------------
// Tokenization by whitespace
// ---------------------------------------------------------------------------

/// The whitespace-separated tokens of `t`: the maximal runs of
/// non-whitespace characters, in order.
pub open spec fn tokens_of(t: Seq<char>) -> Seq<Seq<char>>
    decreases t.len(),
{
    if t.len() == 0 {
        seq![]
    } else if is_space(t[0]) {
        tokens_of(t.drop_first())
    } else {
        let rest = tokens_of(t.drop_first());
        if t.len() >= 2 && !is_space(t[1]) {
            seq![seq![t[0]] + rest[0]] + rest.drop_first()
        } else {
            seq![seq![t[0]]] + rest
        }
    }
}

/// If the region `[i, j)` of `t` is a maximal run of non-whitespace
/// characters, it is the first token of `t[i..]` and the remaining tokens
/// are those of `t[j..]`.
pub proof fn lemma_tokens_head(t: Seq<char>, i: int, j: int)
    requires
        0 <= i < j <= t.len(),
        forall|k: int| i <= k < j ==> !is_space(t[k]),
        j == t.len() || is_space(t[j]),
    ensures
        tokens_of(t.skip(i)) == seq![t.subrange(i, j)] + tokens_of(t.skip(j)),
    decreases j - i,
{
    let u = t.skip(i);
    assert(u[0] == t[i]);
    assert(!is_space(u[0]));
    assert(u.drop_first() =~= t.skip(i + 1));
    if j == i + 1 {
        if u.len() >= 2 {
            assert(u[1] == t[j]);
        }
        assert(seq![u[0]] =~= t.subrange(i, j));
        assert(tokens_of(u) =~= seq![t.subrange(i, j)] + tokens_of(t.skip(j)));
    } else {
        lemma_tokens_head(t, i + 1, j);
        let rest = tokens_of(t.skip(i + 1));
        assert(u[1] == t[i + 1]);
        assert(!is_space(u[1]));
        assert(rest[0] == t.subrange(i + 1, j));
        assert(seq![t[i]] + t.subrange(i + 1, j) =~= t.subrange(i, j));
        assert(rest.drop_first() =~= tokens_of(t.skip(j)));
        assert(tokens_of(u) =~= seq![t.subrange(i, j)] + tokens_of(t.skip(j)));
    }
}

/// Splits `t` into its whitespace-separated tokens.
pub fn tokenize(t: &str) -> (r: Vec<String>)
    ensures
        r.deep_view() == tokens_of(t@),
{
    let n = t.unicode_len();
    let mut out: Vec<String> = Vec::new();
    let mut i: usize = 0;
    proof {
        assert(t@.skip(0) =~= t@);
        assert(out.deep_view() + tokens_of(t@) =~= tokens_of(t@));
    }
    while i < n
        invariant
            i <= n,
            n == t@.len(),
            tokens_of(t@) == out.deep_view() + tokens_of(t@.skip(i as int)),
        decreases n - i,
    {
        let c = t.get_char(i);
        proof {
            assert(t@.skip(i as int)[0] == t@[i as int]);
        }
        if space_char(c) {
            proof {
                assert(t@.skip(i as int).drop_first() =~= t@.skip(i as int + 1));
            }
            i += 1;
        } else {
            let mut j: usize = i + 1;
            loop
                invariant_except_break
                    i < j <= n,
                    n == t@.len(),
                    forall|k: int| i <= k < j ==> !is_space(t@[k]),
                ensures
                    i < j <= n,
                    n == t@.len(),
                    forall|k: int| i <= k < j ==> !is_space(t@[k]),
                    j == n || is_space(t@[j as int]),
                decreases n - j,
            {
                if j >= n {
                    break ;
                }
                if space_char(t.get_char(j)) {
                    break ;
                }
                j += 1;
            }
            let tok = t.substring_char(i, j);
            let ghost prev = out.deep_view();
            out.push(tok.to_owned());
            proof {
                lemma_tokens_head(t@, i as int, j as int);
                assert(out.deep_view() =~= prev.push(tok@));
                assert(prev.push(tok@) + tokens_of(t@.skip(j as int)) =~= prev + (seq![
                    t@.subrange(i as int, j as int),
                ] + tokens_of(t@.skip(j as int))));
            }
            i = j;
        }
    }
    proof {
        assert(t@.skip(n as int) =~= Seq::<char>::empty());
        assert(out.deep_view() + tokens_of(t@.skip(n as int)) =~= out.deep_view());
    }
    out
}

// ---------------------------------------------------------------------------
// Decimal parsing
// ---------------------------------------------------------------------------

/// Every character of `s` is an ASCII decimal digit.
pub open spec fn all_digits(s: Seq<char>) -> bool {
    forall|i: int| 0 <= i < s.len() ==> is_digit(s[i])
}

/// The numeric value of a digit string, read most significant digit first.
pub open spec fn dec_val(s: Seq<char>) -> nat
    decreases s.len(),
{
    if s.len() == 0 {
        0
    } else {
        dec_val(s.drop_last()) * 10 + digit_val(s.last())
    }
}

/// Reading one more digit multiplies the value so far by ten and adds it.
pub proof fn lemma_dec_val_step(s: Seq<char>, j: int)
    requires
        0 < j <= s.len(),
    ensures
        dec_val(s.take(j)) == dec_val(s.take(j - 1)) * 10 + digit_val(s[j - 1]),
{
    assert(s.take(j).drop_last() =~= s.take(j - 1));
    assert(s.take(j).last() == s[j - 1]);
}

/// The value of a digit string never shrinks as digits are appended.
pub proof fn lemma_dec_val_mono(s: Seq<char>, i: int, j: int)
    requires
        0 <= i <= j <= s.len(),
    ensures
        dec_val(s.take(i)) <= dec_val(s.take(j)),
    decreases j - i,
{
    if i < j {
        lemma_dec_val_mono(s, i, j - 1);
        lemma_dec_val_step(s, j);
    }
}

// ---------------------------------------------------------------------------
// Properties of decimal rendering
// ---------------------------------------------------------------------------

/// Distinct digit values render as distinct digit characters.
pub proof fn lemma_digit_char_inj(a: nat, b: nat)
    requires
        a < 10,
        b < 10,
        digit_char(a) == digit_char(b),
    ensures
        a == b,
{
}

/// A decimal rendering has at least one character, and exactly one
/// character for values below ten.
pub proof fn lemma_dec_rep_len(n: nat)
    ensures
        dec_rep(n).len() >= 1,
        (n < 10) <==> (dec_rep(n).len() == 1),
    decreases n,
{
    if n >= 10 {
        lemma_dec_rep_len(n / 10);
    }
}

/// Decimal rendering is injective: distinct numbers have distinct texts.
pub proof fn lemma_dec_rep_inj(a: nat, b: nat)
    requires
        dec_rep(a) == dec_rep(b),
    ensures
        a == b,
    decreases a,
{
    lemma_dec_rep_len(a);
    lemma_dec_rep_len(b);
    if a < 10 && b < 10 {
        assert(dec_rep(a)[0] == digit_char(a));
        assert(dec_rep(b)[0] == digit_char(b));
        lemma_digit_char_inj(a, b);
    } else if a >= 10 && b >= 10 {
        assert(dec_rep(a).drop_last() =~= dec_rep(a / 10));
        assert(dec_rep(b).drop_last() =~= dec_rep(b / 10));
        assert(dec_rep(a).last() == digit_char(a % 10));
        assert(dec_rep(b).last() == digit_char(b % 10));
        lemma_digit_char_inj(a % 10, b % 10);
        lemma_dec_rep_inj(a / 10, b / 10);
        vstd::arithmetic::div_mod::lemma_fundamental_div_mod(a as int, 10);
        vstd::arithmetic::div_mod::lemma_fundamental_div_mod(b as int, 10);
    }
}

/// A rendered number reads back as itself: [`dec_rep`] produces digits
/// only, and [`dec_val`] recovers the number. This pins the rendering as
/// the decimal form of the number.
pub proof fn lemma_dec_rep_val(n: nat)
    ensures
        all_digits(dec_rep(n)),
        dec_val(dec_rep(n)) == n,
    decreases n,
{
    if n < 10 {
        assert(dec_rep(n).drop_last() =~= Seq::<char>::empty());
        assert(is_digit(digit_char(n)) && digit_val(digit_char(n)) == n);
        assert(dec_rep(n).last() == digit_char(n));
        assert(dec_val(dec_rep(n)) == dec_val(dec_rep(n).drop_last()) * 10 + digit_val(
            dec_rep(n).last(),
        ));
    } else {
        lemma_dec_rep_val(n / 10);
        assert(is_digit(digit_char(n % 10)) && digit_val(digit_char(n % 10)) == n % 10);
        let whole = dec_rep(n);
        assert(whole.drop_last() =~= dec_rep(n / 10));
        assert(whole.last() == digit_char(n % 10));
        assert(dec_val(whole) == dec_val(whole.drop_last()) * 10 + digit_val(whole.last()));
        vstd::arithmetic::div_mod::lemma_fundamental_div_mod(n as int, 10);
        assert(dec_val(whole) == (n / 10) * 10 + (n % 10));
        assert forall|i: int| 0 <= i < whole.len() implies is_digit(whole[i]) by {
            if i < whole.len() - 1 {
                assert(whole[i] == dec_rep(n / 10)[i]);
            }
        }
    }
}

// ---------------------------------------------------------------------------
// Concatenation cancellation
// ---------------------------------------------------------------------------

/// Equal concatenations with a common prefix have equal remainders.
pub proof fn lemma_concat_cancel_left(a: Seq<char>, x: Seq<char>, y: Seq<char>)
    requires
        a + x == a + y,
    ensures
        x == y,
{
    assert((a + x).len() == a.len() + x.len());
    assert((a + y).len() == a.len() + y.len());
    assert(x.len() == y.len());
    assert forall|i: int| 0 <= i < x.len() implies x[i] == y[i] by {
        assert((a + x)[a.len() + i] == x[i]);
        assert((a + y)[a.len() + i] == y[i]);
    }
    assert(x =~= y);
}

/// Equal concatenations with a common prefix and a common suffix have
/// equal middles.
pub proof fn lemma_concat_cancel_mid(a: Seq<char>, x: Seq<char>, y: Seq<char>, b: Seq<char>)
    requires
        a + x + b == a + y + b,
    ensures
        x == y,
{
    assert((a + x + b).len() == a.len() + x.len() + b.len());
    assert((a + y + b).len() == a.len() + y.len() + b.len());
    assert(x.len() == y.len());
    assert forall|i: int| 0 <= i < x.len() implies x[i] == y[i] by {
        assert((a + x + b)[a.len() + i] == x[i]);
        assert((a + y + b)[a.len() + i] == y[i]);
    }
    assert(x =~= y);
}

// ---------------------------------------------------------------------------
// String equality
// ---------------------------------------------------------------------------

/// Compares two string slices character by character.
pub fn str_eq(a: &str, b: &str) -> (r: bool)
    ensures
        r == (a@ == b@),
{
    let n = a.unicode_len();
    if n != b.unicode_len() {
        return false;
    }
    let mut i: usize = 0;
    while i < n
        invariant
            i <= n,
            n == a@.len(),
            n == b@.len(),
            forall|j: int| 0 <= j < i ==> a@[j] == b@[j],
        decreases n - i,
    {
        if a.get_char(i) != b.get_char(i) {
            return false;
        }
        i += 1;
    }
    proof {
        assert(a@ =~= b@);
    }
    true
}

} // verus!
