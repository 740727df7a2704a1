//! Numbers as text, for messages and encoder options.
use vstd::prelude::*;
use vstd::string::*;

verus! {

/// The digit `d`, for `d < 10`.
pub open spec fn digit(d: int) -> Seq<char> {
    if d == 0 {
        "0"@
    } else if d == 1 {
        "1"@
    } else if d == 2 {
        "2"@
    } else if d == 3 {
        "3"@
    } else if d == 4 {
        "4"@
    } else if d == 5 {
        "5"@
    } else if d == 6 {
        "6"@
    } else if d == 7 {
        "7"@
    } else if d == 8 {
        "8"@
    } else {
        "9"@
    }
}

/// `n` in decimal, without leading zeros.
pub open spec fn decimal(n: int) -> Seq<char>
    decreases n,
{
    if n < 10 {
        digit(n)
    } else {
        decimal(n / 10) + digit(n % 10)
    }
}

/// `n` in decimal, with a minus sign when it is negative.
pub open spec fn signed_decimal(n: int) -> Seq<char> {
    if n < 0 { "-"@ + decimal(-n) } else { decimal(n) }
}

fn digit_str(d: u64) -> (r: &'static str)
    requires
        d < 10,
    ensures
        r@ == digit(d as int),
{
    match d {
        0 => "0",
        1 => "1",
        2 => "2",
        3 => "3",
        4 => "4",
        5 => "5",
        6 => "6",
        7 => "7",
        8 => "8",
        _ => "9",
    }
}

/// `n` in decimal.
pub fn decimal_str(n: u64) -> (r: String)
    ensures
        r@ == decimal(n as int),
    decreases n,
{
    if n < 10 {
        String::from_str(digit_str(n))
    } else {
        let mut r = decimal_str(n / 10);
        r.append(digit_str(n % 10));
        r
    }
}

/// `n` in decimal, with its sign.
pub fn signed_str(n: i64) -> (r: String)
    ensures
        r@ == signed_decimal(n as int),
{
    if n < 0 {
        let mut r = String::from_str("-");
        let magnitude: u64 = (-(n as i128)) as u64;
        r.append(decimal_str(magnitude).as_str());
        r
    } else {
        decimal_str(n as u64)
    }
}

/// The upper-case hexadecimal digit `d`, for `d < 16`.
pub open spec fn hex_digit(d: int) -> Seq<char> {
    if d < 10 {
        digit(d)
    } else if d == 10 {
        "A"@
    } else if d == 11 {
        "B"@
    } else if d == 12 {
        "C"@
    } else if d == 13 {
        "D"@
    } else if d == 14 {
        "E"@
    } else {
        "F"@
    }
}

/// The last `len` hexadecimal digits of `n`.
pub open spec fn hex_padded(n: int, len: nat) -> Seq<char>
    decreases len,
{
    if len == 0 {
        Seq::empty()
    } else {
        hex_padded(n / 16, (len - 1) as nat) + hex_digit(n % 16)
    }
}

fn hex_digit_str(d: u32) -> (r: &'static str)
    requires
        d < 16,
    ensures
        r@ == hex_digit(d as int),
{
    match d {
        10 => "A",
        11 => "B",
        12 => "C",
        13 => "D",
        14 => "E",
        15 => "F",
        _ => digit_str(d as u64),
    }
}

/// The last `len` hexadecimal digits of `n`, in upper case.
pub fn hex_padded_str(n: u32, len: u32) -> (r: String)
    ensures
        r@ == hex_padded(n as int, len as nat),
    decreases len,
{
    if len == 0 {
        proof {
            reveal_strlit("");
            assert(""@ =~= Seq::empty());
        }
        String::from_str("")
    } else {
        let mut r = hex_padded_str(n / 16, len - 1);
        r.append(hex_digit_str(n % 16));
        r
    }
}

/// The lower-case hexadecimal digit `d`, for `d < 16`.
pub open spec fn hex_lower_digit(d: int) -> Seq<char> {
    if d < 10 {
        digit(d)
    } else if d == 10 {
        "a"@
    } else if d == 11 {
        "b"@
    } else if d == 12 {
        "c"@
    } else if d == 13 {
        "d"@
    } else if d == 14 {
        "e"@
    } else {
        "f"@
    }
}

/// `n` in lower-case hexadecimal, without leading zeros.
pub open spec fn hex_lower(n: int) -> Seq<char>
    decreases n,
{
    if n < 16 {
        hex_lower_digit(n)
    } else {
        hex_lower(n / 16) + hex_lower_digit(n % 16)
    }
}

fn hex_lower_digit_str(d: u32) -> (r: &'static str)
    requires
        d < 16,
    ensures
        r@ == hex_lower_digit(d as int),
{
    match d {
        10 => "a",
        11 => "b",
        12 => "c",
        13 => "d",
        14 => "e",
        15 => "f",
        _ => digit_str(d as u64),
    }
}

/// `n` in lower-case hexadecimal.
pub fn hex_lower_str(n: u32) -> (r: String)
    ensures
        r@ == hex_lower(n as int),
    decreases n,
{
    if n < 16 {
        String::from_str(hex_lower_digit_str(n))
    } else {
        let mut r = hex_lower_str(n / 16);
        r.append(hex_lower_digit_str(n % 16));
        r
    }
}

/// `needle` occurs in `hay`, starting at `at`.
pub open spec fn occurs_at(hay: Seq<char>, needle: Seq<char>, at: int) -> bool {
    &&& 0 <= at
    &&& at + needle.len() <= hay.len()
    &&& forall|k: int| 0 <= k < needle.len() ==> hay[at + k] == #[trigger] needle[k]
}

pub open spec fn occurs(hay: Seq<char>, needle: Seq<char>) -> bool {
    exists|at: int| #[trigger] occurs_at(hay, needle, at)
}

/// Whether `needle` occurs in `hay`.
pub fn str_contains(hay: &str, needle: &str) -> (r: bool)
    ensures
        r == occurs(hay@, needle@),
{
    let n: usize = hay.unicode_len();
    let m: usize = needle.unicode_len();
    if m > n {
        assert forall|at: int| !#[trigger] occurs_at(hay@, needle@, at) by {}
        return false;
    }
    let mut at: usize = 0;
    while at <= n - m
        invariant
            n == hay@.len(),
            m == needle@.len(),
            m <= n,
            at <= n - m + 1,
            forall|a: int| 0 <= a < at ==> !#[trigger] occurs_at(hay@, needle@, a),
        decreases n - m + 1 - at,
    {
        let mut k: usize = 0;
        while k < m && hay.get_char(at + k) == needle.get_char(k)
            invariant
                n == hay@.len(),
                m == needle@.len(),
                m <= n,
                at <= n - m,
                k <= m,
                forall|j: int| 0 <= j < k ==> hay@[at + j] == #[trigger] needle@[j],
            decreases m - k,
        {
            k += 1;
        }
        if k == m {
            assert(occurs_at(hay@, needle@, at as int));
            return true;
        }
        assert(!occurs_at(hay@, needle@, at as int)) by {
            assert(hay@[at + k] != needle@[k as int]);
        }
        if at == n - m {
            assert forall|a: int| !#[trigger] occurs_at(hay@, needle@, a) by {}
            return false;
        }
        at += 1;
    }
    false
}

/// The number that a text of decimal digits stands for.
pub open spec fn decimal_value(text: Seq<char>) -> int
    decreases text.len(),
{
    if text.len() == 0 {
        0
    } else {
        10 * decimal_value(text.drop_last()) + (text.last() as int - '0' as int)
    }
}

/// Every character is a decimal digit.
pub open spec fn all_digits(text: Seq<char>) -> bool {
    forall|i: int| 0 <= i < text.len() ==> '0' <= #[trigger] text[i] <= '9'
}

proof fn lemma_digit(d: int)
    requires
        0 <= d < 10,
    ensures
        digit(d).len() == 1,
        digit(d)[0] as int == '0' as int + d,
{
    reveal_strlit("0");
    reveal_strlit("1");
    reveal_strlit("2");
    reveal_strlit("3");
    reveal_strlit("4");
    reveal_strlit("5");
    reveal_strlit("6");
    reveal_strlit("7");
    reveal_strlit("8");
    reveal_strlit("9");
}

/// A number written in decimal reads back as itself: it is written with digits alone, at
/// least one, and with no zero before the others.
pub proof fn law_decimals_read_back(n: int)
    requires
        n >= 0,
    ensures
        all_digits(decimal(n)),
        decimal(n).len() > 0,
        decimal_value(decimal(n)) == n,
        decimal(n)[0] == '0' ==> n == 0 && decimal(n).len() == 1,
    decreases n,
{
    let text = decimal(n);
    if n < 10 {
        lemma_digit(n);
        assert(text.drop_last() =~= Seq::empty());
        assert(decimal_value(text.drop_last()) == 0);
    } else {
        law_decimals_read_back(n / 10);
        lemma_digit(n % 10);
        let head = decimal(n / 10);
        assert(text.drop_last() =~= head);
        assert forall|i: int| 0 <= i < text.len() implies '0' <= #[trigger] text[i] <= '9' by {
            if i < head.len() {
                assert(text[i] == head[i]);
            }
        }
        assert(text[0] == head[0]);
    }
}

/// A number with its sign reads back as itself: a minus stands before the negative ones and
/// before no other.
pub proof fn law_signed_decimals_read_back(n: int)
    ensures
        n < 0 ==> signed_decimal(n)[0] == '-' && decimal_value(signed_decimal(n).skip(1)) == -n,
        n >= 0 ==> decimal_value(signed_decimal(n)) == n && signed_decimal(n)[0] != '-',
{
    reveal_strlit("-");
    if n < 0 {
        law_decimals_read_back(-n);
        assert(signed_decimal(n).skip(1) =~= decimal(-n));
    } else {
        law_decimals_read_back(n);
        assert(decimal(n)[0] != '-');
    }
}

/// The value of a hexadecimal digit, in either case.
pub open spec fn hex_digit_value(c: char) -> int {
    if '0' <= c <= '9' {
        c as int - '0' as int
    } else if 'A' <= c <= 'F' {
        c as int - 'A' as int + 10
    } else {
        c as int - 'a' as int + 10
    }
}

/// The number that a text of hexadecimal digits stands for.
pub open spec fn hex_value(text: Seq<char>) -> int
    decreases text.len(),
{
    if text.len() == 0 {
        0
    } else {
        16 * hex_value(text.drop_last()) + hex_digit_value(text.last())
    }
}

proof fn lemma_hex_digits(d: int)
    requires
        0 <= d < 16,
    ensures
        hex_digit(d).len() == 1,
        hex_digit_value(hex_digit(d)[0]) == d,
        '0' <= hex_digit(d)[0] <= '9' || 'A' <= hex_digit(d)[0] <= 'F',
        hex_lower_digit(d).len() == 1,
        hex_digit_value(hex_lower_digit(d)[0]) == d,
        '0' <= hex_lower_digit(d)[0] <= '9' || 'a' <= hex_lower_digit(d)[0] <= 'f',
{
    if d < 10 {
        lemma_digit(d);
    }
    reveal_strlit("A");
    reveal_strlit("B");
    reveal_strlit("C");
    reveal_strlit("D");
    reveal_strlit("E");
    reveal_strlit("F");
    reveal_strlit("a");
    reveal_strlit("b");
    reveal_strlit("c");
    reveal_strlit("d");
    reveal_strlit("e");
    reveal_strlit("f");
}

/// `16` to the power `len`.
pub open spec fn sixteen_to(len: nat) -> int
    decreases len,
{
    if len == 0 {
        1
    } else {
        16 * sixteen_to((len - 1) as nat)
    }
}

/// A number written in hexadecimal reads back as itself.  Padded to a length that holds it, it
/// has just that many digits, in upper case; unpadded it is in lower case and has no zero
/// before the others.
pub proof fn law_hexadecimals_read_back(n: int, len: nat)
    requires
        n >= 0,
    ensures
        hex_padded(n, len).len() == len,
        n < sixteen_to(len) ==> hex_value(hex_padded(n, len)) == n,
        forall|i: int|
            0 <= i < len ==> '0' <= #[trigger] hex_padded(n, len)[i] <= '9' || 'A' <= hex_padded(
                n,
                len,
            )[i] <= 'F',
        hex_value(hex_lower(n)) == n,
        hex_lower(n).len() > 0,
        hex_lower(n)[0] == '0' ==> n == 0 && hex_lower(n).len() == 1,
{
    lemma_hex_padded(n, len);
    lemma_hex_lower(n);
}

proof fn lemma_hex_padded(n: int, len: nat)
    requires
        n >= 0,
    ensures
        hex_padded(n, len).len() == len,
        n < sixteen_to(len) ==> hex_value(hex_padded(n, len)) == n,
        forall|i: int|
            0 <= i < len ==> '0' <= #[trigger] hex_padded(n, len)[i] <= '9' || 'A' <= hex_padded(
                n,
                len,
            )[i] <= 'F',
    decreases len,
{
    let text = hex_padded(n, len);
    if len > 0 {
        lemma_hex_padded(n / 16, (len - 1) as nat);
        lemma_hex_digits(n % 16);
        let head = hex_padded(n / 16, (len - 1) as nat);
        assert(text.drop_last() =~= head);
        assert forall|i: int| 0 <= i < len implies '0' <= #[trigger] text[i] <= '9' || 'A'
            <= text[i] <= 'F' by {
            if i < head.len() {
                assert(text[i] == head[i]);
            }
        }
    } else {
        assert(text =~= Seq::empty());
    }
}

proof fn lemma_hex_lower(n: int)
    requires
        n >= 0,
    ensures
        hex_value(hex_lower(n)) == n,
        hex_lower(n).len() > 0,
        hex_lower(n)[0] == '0' ==> n == 0 && hex_lower(n).len() == 1,
    decreases n,
{
    let text = hex_lower(n);
    if n < 16 {
        lemma_hex_digits(n);
        assert(text.drop_last() =~= Seq::empty());
        assert(hex_value(text.drop_last()) == 0);
    } else {
        lemma_hex_lower(n / 16);
        lemma_hex_digits(n % 16);
        assert(text.drop_last() =~= hex_lower(n / 16));
        assert(text[0] == hex_lower(n / 16)[0]);
    }
}

/// A text contains another exactly if it can be cut into a part before, the other, and a part
/// behind.
pub proof fn law_what_occurs_can_be_cut_out(hay: Seq<char>, needle: Seq<char>)
    ensures
        occurs(hay, needle) <==> exists|before: Seq<char>, behind: Seq<char>|
            hay == #[trigger] (before + needle + behind),
{
    if occurs(hay, needle) {
        let at = choose|at: int| #[trigger] occurs_at(hay, needle, at);
        assert(hay =~= hay.take(at) + needle + hay.skip(at + needle.len()));
    }
    if exists|before: Seq<char>, behind: Seq<char>| hay == #[trigger] (before + needle + behind) {
        let (before, behind) = choose|before: Seq<char>, behind: Seq<char>|
            hay == #[trigger] (before + needle + behind);
        assert(occurs_at(hay, needle, before.len() as int));
    }
}

} // verus!
