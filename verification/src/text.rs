//! Text helpers shared by the rest of the crate: blank detection and decimal numerals.

use vstd::prelude::*;
use vstd::string::*;

verus! {

/// Whether `c` carries the Unicode `White_Space` property.
pub open spec fn is_whitespace(c: char) -> bool {
    let n = c as u32;
    ||| 0x09 <= n <= 0x0D
    ||| n == 0x20
    ||| n == 0x85
    ||| n == 0xA0
    ||| n == 0x1680
    ||| 0x2000 <= n <= 0x200A
    ||| n == 0x2028
    ||| n == 0x2029
    ||| n == 0x202F
    ||| n == 0x205F
    ||| n == 0x3000
}

/// A text is blank when it holds nothing but whitespace; the empty text is blank.
pub open spec fn is_blank(s: Seq<char>) -> bool {
    forall|i: int| 0 <= i < s.len() ==> is_whitespace(#[trigger] s[i])
}

/// Decides whether `c` is a whitespace character.
pub fn char_is_whitespace(c: char) -> (b: bool)
    ensures
        b == is_whitespace(c),
{
    let n: u32 = c as u32;
    (0x09 <= n && n <= 0x0D) || n == 0x20 || n == 0x85 || n == 0xA0 || n == 0x1680 || (0x2000 <= n
        && n <= 0x200A) || n == 0x2028 || n == 0x2029 || n == 0x202F || n == 0x205F || n == 0x3000
}

/// Decides whether `value` is empty or made of whitespace only.
pub fn is_invalid_string(value: &str) -> (b: bool)
    ensures
        b == is_blank(value@),
{
    let mut blank = true;
    for c in it: value.chars()
        invariant
            it.seq() == value@,
            blank == is_blank(value@.take(it.index() as int)),
    {
        proof {
            let i = it.index();
            assert(c == value@[i]);
            assert(value@.take(i + 1) =~= value@.take(i).push(c));
            assert(value@.take(i + 1)[i] == c);
            assert forall|j: int| 0 <= j < i implies value@.take(i + 1)[j] == value@.take(i)[j] by {}
        }
        blank = blank && char_is_whitespace(c);
    }
    proof {
        assert(value@.take(value@.len() as int) =~= value@);
    }
    blank
}

/// The character that writes the decimal digit `d`.
pub open spec fn digit_char(d: int) -> char {
    if d == 0 {
        '0'
    } else if d == 1 {
        '1'
    } else if d == 2 {
        '2'
    } else if d == 3 {
        '3'
    } else if d == 4 {
        '4'
    } else if d == 5 {
        '5'
    } else if d == 6 {
        '6'
    } else if d == 7 {
        '7'
    } else if d == 8 {
        '8'
    } else {
        '9'
    }
}

/// The decimal numeral of `n`, without sign and without leading zeros.
pub open spec fn decimal(n: nat) -> Seq<char>
    decreases n,
{
    if n < 10 {
        seq![digit_char(n as int)]
    } else {
        decimal(n / 10).push(digit_char((n % 10) as int))
    }
}

/// `count` zero digits.
pub open spec fn zeros(count: nat) -> Seq<char> {
    Seq::new(count, |i: int| '0')
}

/// The decimal numeral of `n`, filled with leading zeros up to `width` characters.
/// A numeral that is already that wide or wider is left as it is.
pub open spec fn zero_padded(n: nat, width: nat) -> Seq<char> {
    let digits = decimal(n);
    if digits.len() >= width {
        digits
    } else {
        zeros((width - digits.len()) as nat) + digits
    }
}

fn digit_str(d: u32) -> (r: &'static str)
    requires
        d < 10,
    ensures
        r@ == seq![digit_char(d as int)],
{
    proof {
        reveal_strlit("0");
        reveal_strlit("1");
        reveal_strlit("2");
        reveal_strlit("3");
        reveal_strlit("4");
        reveal_strlit("5");
        reveal_strlit("6");
        reveal_strlit("7");
        reveal_strlit("8");
        reveal_strlit("9");
    }
    let r = if d == 0 {
        "0"
    } else if d == 1 {
        "1"
    } else if d == 2 {
        "2"
    } else if d == 3 {
        "3"
    } else if d == 4 {
        "4"
    } else if d == 5 {
        "5"
    } else if d == 6 {
        "6"
    } else if d == 7 {
        "7"
    } else if d == 8 {
        "8"
    } else {
        "9"
    };
    assert(r@ =~= seq![digit_char(d as int)]);
    r
}

/// Writes `n` in decimal.
pub fn decimal_text(n: u32) -> (r: String)
    ensures
        r@ == decimal(n as nat),
    decreases n,
{
    if n < 10 {
        String::from_str(digit_str(n))
    } else {
        let mut r = decimal_text(n / 10);
        r.append(digit_str(n % 10));
        r
    }
}

/// Writes `n` in decimal with leading zeros up to `width` characters.
pub fn zero_padded_text(n: u32, width: usize) -> (r: String)
    ensures
        r@ == zero_padded(n as nat, width as nat),
{
    let digits = decimal_text(n);
    let len = digits.as_str().unicode_len();
    let mut r = String::new();
    let mut k: usize = len;
    while k < width
        invariant
            len == digits@.len(),
            len <= k,
            k <= width || k == len,
            r@ == zeros((k - len) as nat),
        decreases width - k,
    {
        proof {
            reveal_strlit("0");
            assert(zeros((k - len) as nat) + "0"@ =~= zeros((k + 1 - len) as nat));
        }
        r.append("0");
        k = k + 1;
    }
    r.append(digits.as_str());
    proof {
        if len >= width {
            assert(r@ =~= digits@);
        }
    }
    r
}

/// The characters of a text, one by one.
pub fn chars_of(text: &str) -> (chars: Vec<char>)
    ensures
        chars@ == text@,
{
    let mut chars: Vec<char> = Vec::new();
    for c in it: text.chars()
        invariant
            it.seq() == text@,
            chars@ == text@.take(it.index() as int),
    {
        proof {
            assert(text@.take(it.index() + 1) =~= text@.take(it.index()).push(c));
        }
        chars.push(c);
    }
    proof {
        assert(text@.take(text@.len() as int) =~= text@);
    }
    chars
}

/// Whether `a` comes before `b` in the order of a dictionary: at the first
/// place where they differ `a` has the smaller character, or `a` ends there.
pub open spec fn precedes(a: Seq<char>, b: Seq<char>) -> bool {
    exists|k: int| differs_first_at(a, b, k)
}

/// Whether `a` and `b` agree before `k`, and there `a` ends or has the
/// smaller character, while `b` goes on.
pub open spec fn differs_first_at(a: Seq<char>, b: Seq<char>, k: int) -> bool {
    &&& 0 <= k <= a.len()
    &&& k < b.len()
    &&& a.take(k) == b.take(k)
    &&& k < a.len() ==> a[k] < b[k]
}

/// Texts that agree up to `k` agree at every place before `k`.
pub proof fn lemma_common_prefix(a: Seq<char>, b: Seq<char>, k: int, i: int)
    requires
        0 <= i < k <= a.len(),
        k <= b.len(),
        a.take(k) == b.take(k),
    ensures
        a[i] == b[i],
        a.take(i) == b.take(i),
{
    assert(a.take(k)[i] == a[i]);
    assert(b.take(k)[i] == b[i]);
    assert(a.take(i) =~= a.take(k).take(i));
    assert(b.take(i) =~= b.take(k).take(i));
}

/// No text comes before itself, and of two different texts one comes before
/// the other, never both.
pub proof fn lemma_precedes_is_strict(a: Seq<char>, b: Seq<char>)
    ensures
        !precedes(a, a),
        !(precedes(a, b) && precedes(b, a)),
        a == b ==> !precedes(a, b),
{
    if precedes(a, b) && precedes(b, a) {
        let k = choose|k: int| differs_first_at(a, b, k);
        let m = choose|m: int| differs_first_at(b, a, m);
        if k < m {
            lemma_common_prefix(b, a, m, k);
        } else if m < k {
            lemma_common_prefix(a, b, k, m);
        }
    }
}

/// The order is transitive.
pub proof fn lemma_precedes_is_transitive(a: Seq<char>, b: Seq<char>, c: Seq<char>)
    requires
        precedes(a, b),
        precedes(b, c),
    ensures
        precedes(a, c),
{
    let k = choose|k: int| differs_first_at(a, b, k);
    let m = choose|m: int| differs_first_at(b, c, m);
    if k <= m {
        if k < m {
            lemma_common_prefix(b, c, m, k);
        }
        assert(a.take(k) == c.take(k));
        assert(differs_first_at(a, c, k));
    } else {
        lemma_common_prefix(a, b, k, m);
        assert(a.take(m) == c.take(m));
        assert(differs_first_at(a, c, m));
    }
}

/// Decides whether `a` comes before `b`, whether they are the same text, and
/// whether `a` comes after `b`. Exactly one of the three holds.
pub fn order_of(a: &Vec<char>, b: &Vec<char>) -> (r: (bool, bool, bool))
    ensures
        r.0 == precedes(a@, b@),
        r.1 == (a@ == b@),
        r.2 == precedes(b@, a@),
        r.0 || r.1 || r.2,
{
    let mut i: usize = 0;
    while i < a.len() && i < b.len() && a[i] == b[i]
        invariant
            i <= a.len(),
            i <= b.len(),
            a@.take(i as int) == b@.take(i as int),
        decreases a.len() - i,
    {
        assert(a@.take(i + 1) =~= a@.take(i as int).push(a@[i as int]));
        assert(b@.take(i + 1) =~= b@.take(i as int).push(b@[i as int]));
        i = i + 1;
    }
    let before = i < b.len() && (i == a.len() || a[i] < b[i]);
    let same = i == a.len() && i == b.len();
    let after = i < a.len() && (i == b.len() || b[i] < a[i]);
    proof {
        if same {
            assert(a@ =~= a@.take(i as int));
            assert(b@ =~= b@.take(i as int));
        }
        if before {
            assert(differs_first_at(a@, b@, i as int));
        } else if precedes(a@, b@) {
            let k = choose|k: int| differs_first_at(a@, b@, k);
            if k < i {
                lemma_common_prefix(a@, b@, i as int, k);
            } else if k > i {
                lemma_common_prefix(a@, b@, k, i as int);
            }
        }
        if after {
            assert(differs_first_at(b@, a@, i as int));
        } else if precedes(b@, a@) {
            let k = choose|k: int| differs_first_at(b@, a@, k);
            if k < i {
                lemma_common_prefix(b@, a@, i as int, k);
            } else if k > i {
                lemma_common_prefix(b@, a@, k, i as int);
            }
        }
    }
    (before, same, after)
}

/// Ten to the power of `exponent`.
pub open spec fn pow10(exponent: nat) -> nat
    decreases exponent,
{
    if exponent == 0 {
        1
    } else {
        10 * pow10((exponent - 1) as nat)
    }
}

/// The last `width` digits of `n`, leading zeros among them.
pub open spec fn fixed_width(n: nat, width: nat) -> Seq<char>
    decreases width,
{
    if width == 0 {
        Seq::empty()
    } else {
        fixed_width(n / 10, (width - 1) as nat).push(digit_char((n % 10) as int))
    }
}

/// The last digits of zero are zeros, and there are as many digits as were
/// asked for.
pub proof fn lemma_fixed_width_len(n: nat, width: nat)
    ensures
        fixed_width(n, width).len() == width,
        fixed_width(0, width) == zeros(width),
    decreases width,
{
    if width > 0 {
        lemma_fixed_width_len(n / 10, (width - 1) as nat);
        lemma_fixed_width_len(0, (width - 1) as nat);
        assert(fixed_width(0, width) =~= zeros(width));
    } else {
        assert(fixed_width(0, width) =~= zeros(width));
    }
}

/// A number below ten to the power of `width` fills `width` columns with its
/// leading zeros exactly: padding never makes its numeral longer.
pub proof fn lemma_zero_padded_is_fixed_width(n: nat, width: nat)
    requires
        width >= 1,
        n < pow10(width),
    ensures
        zero_padded(n, width) == fixed_width(n, width),
        zero_padded(n, width).len() == width,
    decreases n,
{
    lemma_fixed_width_len(n, width);
    lemma_fixed_width_len(0, (width - 1) as nat);
    if n < 10 {
        assert(n / 10 == 0);
        assert(zero_padded(n, width) =~= fixed_width(n, width));
    } else {
        assert(width >= 2) by {
            assert(pow10(1) == 10) by {
                assert(pow10(0) == 1);
            }
        }
        let rest = (width - 1) as nat;
        assert(n / 10 < pow10(rest));
        lemma_zero_padded_is_fixed_width(n / 10, rest);
        lemma_fixed_width_len(n / 10, rest);
        assert(decimal(n) == decimal(n / 10).push(digit_char((n % 10) as int)));
        assert(decimal(n / 10).len() <= rest);
        if decimal(n / 10).len() >= rest {
            assert(zero_padded(n, width) =~= fixed_width(n, width));
        } else {
            assert(zero_padded(n, width) =~= fixed_width(n, width));
        }
    }
}

/// Among numerals of the same width the smaller number comes first.
pub proof fn lemma_fixed_width_order(a: nat, b: nat, width: nat) -> (k: int)
    requires
        a < b < pow10(width),
    ensures
        0 <= k < width,
        differs_first_at(fixed_width(a, width), fixed_width(b, width), k),
    decreases width,
{
    lemma_fixed_width_len(a, width);
    lemma_fixed_width_len(b, width);
    assert(width > 0);
    let rest = (width - 1) as nat;
    let head_a = fixed_width(a / 10, rest);
    let head_b = fixed_width(b / 10, rest);
    lemma_fixed_width_len(a / 10, rest);
    lemma_fixed_width_len(b / 10, rest);
    let whole_a = fixed_width(a, width);
    let whole_b = fixed_width(b, width);
    if a / 10 < b / 10 {
        let k = lemma_fixed_width_order(a / 10, b / 10, rest);
        assert(whole_a.take(k) =~= head_a.take(k));
        assert(whole_b.take(k) =~= head_b.take(k));
        assert(whole_a[k] == head_a[k]);
        assert(whole_b[k] == head_b[k]);
        k
    } else {
        assert(a / 10 == b / 10);
        assert(a % 10 < b % 10);
        let k = rest as int;
        assert(whole_a.take(k) =~= head_a);
        assert(whole_b.take(k) =~= head_b);
        k
    }
}

/// Texts that differ first within parts of the same place keep their order
/// whatever stands before and behind these parts.
pub proof fn lemma_precedes_within(
    before: Seq<char>,
    a: Seq<char>,
    b: Seq<char>,
    behind_a: Seq<char>,
    behind_b: Seq<char>,
    k: int,
)
    requires
        differs_first_at(a, b, k),
        k < a.len(),
    ensures
        precedes(before + a + behind_a, before + b + behind_b),
{
    let whole_a = before + a + behind_a;
    let whole_b = before + b + behind_b;
    let at = before.len() + k;
    assert(whole_a.take(at) =~= before + a.take(k));
    assert(whole_b.take(at) =~= before + b.take(k));
    assert(whole_a[at] == a[k]);
    assert(whole_b[at] == b[k]);
    assert(differs_first_at(whole_a, whole_b, at));
}

} // verus!
