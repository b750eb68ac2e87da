//! Building text: decimal numbers, joined lists, and the quoted form of a
//! string.
use vstd::prelude::*;

verus! {

/// The decimal digit `d` (which is below ten) as a character.
pub open spec fn digit_char(d: nat) -> char {
    ((d + 48) as u8) as char
}

/// The decimal notation of a natural number, without leading zeros.
pub open spec fn nat_text(n: nat) -> Seq<char>
    decreases n,
{
    if n < 10 {
        seq![digit_char(n)]
    } else {
        nat_text(n / 10).push(digit_char(n % 10))
    }
}

/// The decimal notation of an integer: a minus sign before negative numbers.
pub open spec fn int_text(i: int) -> Seq<char> {
    if i < 0 {
        seq!['-'] + nat_text((-i) as nat)
    } else {
        nat_text(i as nat)
    }
}

/// `true` or `false`.
pub open spec fn bool_text(b: bool) -> Seq<char> {
    if b {
        "true"@
    } else {
        "false"@
    }
}

/// The parts, in order, with `sep` between each two neighbours.
pub open spec fn join(parts: Seq<Seq<char>>, sep: Seq<char>) -> Seq<char>
    decreases parts.len(),
{
    if parts.len() == 0 {
        Seq::empty()
    } else if parts.len() == 1 {
        parts[0]
    } else {
        join(parts.drop_last(), sep) + sep + parts.last()
    }
}

/// The views of a list of strings.
pub open spec fn string_views(v: Seq<String>) -> Seq<Seq<char>> {
    v.map_values(|s: String| s@)
}

/// What std's `Debug` writes for a string slice: the text between double
/// quotes, with quotes, backslashes, control and non-printable characters
/// escaped. The escaping rules follow Unicode tables and are not spelled
/// out here.
pub uninterp spec fn str_debug(s: Seq<char>) -> Seq<char>;

/// Text that std's `Debug` leaves unescaped: printable ASCII (space to `~`)
/// other than the double quote, the single quote and the backslash.
pub open spec fn plain_text(s: Seq<char>) -> bool {
    forall|i: int|
        0 <= i < s.len() ==> {
            let c = #[trigger] s[i];
            ' ' <= c <= '~' && c != '"' && c != '\'' && c != '\\'
        }
}

/// Appends one character (std's `String::push`).
#[verifier::external_body]
pub(crate) fn push_char(out: &mut String, c: char)
    ensures
        final(out)@ == old(out)@.push(c),
{
    out.push(c);
}

/// The `Debug` form of `s` (std's `<str as Debug>::fmt`, through
/// `format!`): the string between double quotes, each character written as
/// `char::escape_debug` writes it. The contract names the result `str_debug`
/// and states one fact of it: plain printable ASCII is written as it is,
/// between the quotes. What other characters become is left unsaid.
#[verifier::external_body]
pub(crate) fn debug_string(s: &str) -> (res: String)
    ensures
        res@ == str_debug(s@),
        plain_text(s@) ==> res@ == "\""@ + s@ + "\""@,
{
    format!("{:?}", s)
}

/// Appends the `Debug` form of `s`.
pub fn push_str_debug(out: &mut String, s: &str)
    ensures
        final(out)@ == old(out)@ + str_debug(s@),
        plain_text(s@) ==> str_debug(s@) == "\""@ + s@ + "\""@,
{
    let d = debug_string(s);
    out.append(d.as_str());
}

/// Appends the decimal notation of `n`.
pub fn push_u64(out: &mut String, n: u64)
    ensures
        final(out)@ == old(out)@ + nat_text(n as nat),
    decreases n,
{
    if n >= 10 {
        push_u64(out, n / 10);
    }
    let d: u8 = (n % 10) as u8;
    push_char(out, (d + 48) as char);
}

/// Appends the decimal notation of `i`, with a minus sign when negative.
pub fn push_i32(out: &mut String, i: i32)
    ensures
        final(out)@ == old(out)@ + int_text(i as int),
{
    if i < 0 {
        push_char(out, '-');
        let m: u64 = (0i64 - (i as i64)) as u64;
        push_u64(out, m);
    } else {
        push_u64(out, i as u64);
    }
}

/// Appends `true` or `false`.
pub fn push_bool(out: &mut String, b: bool)
    ensures
        final(out)@ == old(out)@ + bool_text(b),
{
    if b {
        out.append("true");
    } else {
        out.append("false");
    }
}

/// Appends the strings of `v` with `sep` between neighbours.
pub fn push_joined(out: &mut String, v: &Vec<String>, sep: &str)
    ensures
        final(out)@ == old(out)@ + join(string_views(v@), sep@),
{
    let ghost start = out@;
    let ghost parts = string_views(v@);
    let mut i: usize = 0;
    while i < v.len()
        invariant
            i <= v.len(),
            parts == string_views(v@),
            out@ == start + join(parts.take(i as int), sep@),
        decreases v.len() - i,
    {
        if i > 0 {
            out.append(sep);
        }
        out.append(v[i].as_str());
        proof {
            assert(parts.take(i + 1).drop_last() =~= parts.take(i as int));
        }
        i = i + 1;
    }
    proof {
        assert(parts.take(v.len() as int) =~= parts);
    }
}

/// The number that a string of decimal digits stands for, read from the
/// left.
pub open spec fn digits_value(s: Seq<char>) -> nat
    decreases s.len(),
{
    if s.len() == 0 {
        0
    } else {
        digits_value(s.drop_last()) * 10 + ((s.last() as int - '0' as int) as nat)
    }
}

/// Every character is one of `0` to `9`.
pub open spec fn all_digits(s: Seq<char>) -> bool {
    forall|i: int| 0 <= i < s.len() ==> '0' <= #[trigger] s[i] <= '9'
}

/// The decimal text of `n` is a non-empty string of digits, without a
/// leading zero unless it is `0` itself, and it reads back as `n`.
pub proof fn lemma_nat_text_decimal(n: nat)
    ensures
        nat_text(n).len() >= 1,
        all_digits(nat_text(n)),
        digits_value(nat_text(n)) == n,
        nat_text(n)[0] == '0' ==> n == 0,
    decreases n,
{
    if n < 10 {
        assert((n + 48) as u8 == n + 48);
        assert(digit_char(n) as int == n + 48);
        assert(nat_text(n).drop_last() =~= Seq::<char>::empty());
        assert(digits_value(Seq::<char>::empty()) == 0);
    } else {
        lemma_nat_text_decimal(n / 10);
        let d = n % 10;
        assert(digit_char(d) as int == d + 48);
        assert(nat_text(n).drop_last() =~= nat_text(n / 10));
        assert(nat_text(n).last() == digit_char(d));
        assert(n == (n / 10) * 10 + d);
        assert(nat_text(n)[0] == nat_text(n / 10)[0]);
    }
}

/// Different numbers have different decimal texts.
pub proof fn lemma_nat_text_injective(a: nat, b: nat)
    ensures
        nat_text(a) == nat_text(b) ==> a == b,
{
    lemma_nat_text_decimal(a);
    lemma_nat_text_decimal(b);
}

/// The text of an integer is its decimal text, after a minus sign exactly
/// when it is negative; different integers have different texts.
pub proof fn lemma_int_text(i: int, j: int)
    ensures
        i >= 0 ==> int_text(i) == nat_text(i as nat),
        i < 0 ==> int_text(i) == seq!['-'] + nat_text((-i) as nat),
        (int_text(i)[0] == '-') == (i < 0),
        int_text(i) == int_text(j) ==> i == j,
{
    lemma_nat_text_decimal(if i < 0 { (-i) as nat } else { i as nat });
    lemma_nat_text_decimal(if j < 0 { (-j) as nat } else { j as nat });
    if int_text(i) == int_text(j) {
        if i < 0 && j < 0 {
            assert(nat_text((-i) as nat) =~= int_text(i).skip(1));
            assert(nat_text((-j) as nat) =~= int_text(j).skip(1));
            lemma_nat_text_injective((-i) as nat, (-j) as nat);
        } else if i >= 0 && j >= 0 {
            lemma_nat_text_injective(i as nat, j as nat);
        } else {
            assert(int_text(i)[0] == int_text(j)[0]);
        }
    }
}

/// `true` and `false`, spelled out; the two texts differ.
pub proof fn lemma_bool_text()
    ensures
        bool_text(true) == seq!['t', 'r', 'u', 'e'],
        bool_text(false) == seq!['f', 'a', 'l', 's', 'e'],
        bool_text(true) != bool_text(false),
{
    reveal_strlit("true");
    reveal_strlit("false");
    assert(bool_text(true) =~= seq!['t', 'r', 'u', 'e']);
    assert(bool_text(false) =~= seq!['f', 'a', 'l', 's', 'e']);
}

/// What stands between the same text before and the same text after is
/// determined by the whole.
pub proof fn lemma_frame_injective(a: Seq<char>, x: Seq<char>, y: Seq<char>, c: Seq<char>)
    ensures
        a + x + c == a + y + c ==> x == y,
{
    if a + x + c == a + y + c {
        assert((a + x + c).len() == (a + y + c).len());
        assert(x.len() == y.len());
        assert(x =~= (a + x + c).subrange(a.len() as int, (a.len() + x.len()) as int));
        assert(y =~= (a + y + c).subrange(a.len() as int, (a.len() + y.len()) as int));
    }
}

/// `s` ends with `suffix`.
pub open spec fn ends_with(s: Seq<char>, suffix: Seq<char>) -> bool {
    suffix.len() <= s.len() && s.skip(s.len() - suffix.len()) == suffix
}

} // verus!
