//! Version-string assembly: renders up to four optional numeric components
//! as a dotted decimal string, truncating at the first absent component.

use vstd::prelude::*;
use vstd::string::StringExecFns;

verus! {

/// The character for one decimal digit value.
pub open spec fn digit_char(d: nat) -> char {
    if d == 0 {
        '0'
    } else if d == 1 {
        '1'
    } else if d == 2 {
        '2'
    } else if d == 3 {
        '3'
    } else if d == 4 {
        '4'
    } else if d == 5 {
        '5'
    } else if d == 6 {
        '6'
    } else if d == 7 {
        '7'
    } else if d == 8 {
        '8'
    } else {
        '9'
    }
}

/// Decimal rendering of a natural number, most significant digit first,
/// with no leading zeros beyond the single digit of zero itself.
pub open spec fn spec_decimal(n: nat) -> Seq<char>
    decreases n,
{
    if n < 10 {
        seq![digit_char(n)]
    } else {
        spec_decimal(n / 10) + seq![digit_char(n % 10)]
    }
}

fn digit_str(d: u64) -> (r: &'static str)
    requires
        d < 10,
    ensures
        r@ == seq![digit_char(d as nat)],
{
    match d {
        0 => {
            proof {
                reveal_strlit("0");
                assert("0"@ =~= seq![digit_char(0)]);
            }
            "0"
        },
        1 => {
            proof {
                reveal_strlit("1");
                assert("1"@ =~= seq![digit_char(1)]);
            }
            "1"
        },
        2 => {
            proof {
                reveal_strlit("2");
                assert("2"@ =~= seq![digit_char(2)]);
            }
            "2"
        },
        3 => {
            proof {
                reveal_strlit("3");
                assert("3"@ =~= seq![digit_char(3)]);
            }
            "3"
        },
        4 => {
            proof {
                reveal_strlit("4");
                assert("4"@ =~= seq![digit_char(4)]);
            }
            "4"
        },
        5 => {
            proof {
                reveal_strlit("5");
                assert("5"@ =~= seq![digit_char(5)]);
            }
            "5"
        },
        6 => {
            proof {
                reveal_strlit("6");
                assert("6"@ =~= seq![digit_char(6)]);
            }
            "6"
        },
        7 => {
            proof {
                reveal_strlit("7");
                assert("7"@ =~= seq![digit_char(7)]);
            }
            "7"
        },
        8 => {
            proof {
                reveal_strlit("8");
                assert("8"@ =~= seq![digit_char(8)]);
            }
            "8"
        },
        _ => {
            proof {
                reveal_strlit("9");
                assert("9"@ =~= seq![digit_char(9)]);
            }
            "9"
        },
    }
}

/// Renders a number in decimal.
pub fn decimal_string(n: u64) -> (s: String)
    ensures
        s@ == spec_decimal(n as nat),
    decreases n,
{
    if n < 10 {
        let s = digit_str(n).to_owned();
        s
    } else {
        let prefix = decimal_string(n / 10);
        let s = prefix.concat(digit_str(n % 10));
        s
    }
}

/// The dotted version string for up to four optional components: a strict
/// left-to-right cascade that stops at the first absent component, whatever
/// stands after it.
pub open spec fn spec_version(
    major: Option<u64>,
    minor: Option<u64>,
    patch: Option<u64>,
    patch_minor: Option<u64>,
) -> Seq<char> {
    match major {
        None => Seq::<char>::empty(),
        Some(ma) => spec_decimal(ma as nat) + match minor {
            None => Seq::<char>::empty(),
            Some(mi) => seq!['.'] + spec_decimal(mi as nat) + match patch {
                None => Seq::<char>::empty(),
                Some(p) => seq!['.'] + spec_decimal(p as nat) + match patch_minor {
                    None => Seq::<char>::empty(),
                    Some(pm) => seq!['.'] + spec_decimal(pm as nat),
                },
            },
        },
    }
}

/// Assembles the dotted version string from the optional components.
pub fn format_version(
    major: Option<u64>,
    minor: Option<u64>,
    patch: Option<u64>,
    patch_minor: Option<u64>,
) -> (s: String)
    ensures
        s@ == spec_version(major, minor, patch, patch_minor),
{
    proof {
        reveal_strlit(".");
        assert("."@ =~= seq!['.']);
    }
    match major {
        None => String::new(),
        Some(ma) => {
            let mut s = decimal_string(ma);
            if let Some(mi) = minor {
                s.append(".");
                let t = decimal_string(mi);
                s.append(t.as_str());
                if let Some(p) = patch {
                    s.append(".");
                    let t = decimal_string(p);
                    s.append(t.as_str());
                    if let Some(pm) = patch_minor {
                        s.append(".");
                        let t = decimal_string(pm);
                        s.append(t.as_str());
                    }
                }
            }
            proof {
                assert(s@ =~= spec_version(major, minor, patch, patch_minor));
            }
            s
        },
    }
}

/// The decimal value of one digit character, or 10 for any other character.
pub open spec fn digit_val(c: char) -> nat {
    if c == '0' {
        0
    } else if c == '1' {
        1
    } else if c == '2' {
        2
    } else if c == '3' {
        3
    } else if c == '4' {
        4
    } else if c == '5' {
        5
    } else if c == '6' {
        6
    } else if c == '7' {
        7
    } else if c == '8' {
        8
    } else if c == '9' {
        9
    } else {
        10
    }
}

/// Whether the character is a decimal digit.
pub open spec fn is_digit(c: char) -> bool {
    digit_val(c) < 10
}

/// Whether every character of the sequence is a decimal digit.
pub open spec fn all_digits(s: Seq<char>) -> bool {
    forall|i: int| 0 <= i < s.len() ==> is_digit(#[trigger] s[i])
}

/// The value of a sequence of digit characters read as a decimal number.
pub open spec fn spec_dec_value(s: Seq<char>) -> nat
    decreases s.len(),
{
    if s.len() == 0 {
        0
    } else {
        spec_dec_value(s.drop_last()) * 10 + digit_val(s.last())
    }
}

/// The decimal value of a prefix never exceeds the value of the whole
/// sequence.
proof fn lemma_dec_value_prefix_le(s: Seq<char>, j: int)
    requires
        0 <= j <= s.len(),
    ensures
        spec_dec_value(s.subrange(0, j)) <= spec_dec_value(s),
    decreases s.len() - j,
{
    if j == s.len() {
        assert(s.subrange(0, j) =~= s);
    } else {
        let a = s.subrange(0, j);
        let b = s.subrange(0, j + 1);
        assert(b.drop_last() =~= a);
        assert(spec_dec_value(b) == spec_dec_value(a) * 10 + digit_val(b.last()));
        assert(spec_dec_value(a) <= spec_dec_value(a) * 10);
        lemma_dec_value_prefix_le(s, j + 1);
    }
}

fn char_digit(c: char) -> (d: u64)
    ensures
        d == digit_val(c),
{
    match c {
        '0' => 0,
        '1' => 1,
        '2' => 2,
        '3' => 3,
        '4' => 4,
        '5' => 5,
        '6' => 6,
        '7' => 7,
        '8' => 8,
        '9' => 9,
        _ => 10,
    }
}

/// Reads a decimal number: the whole string must be one or more digit
/// characters and the value must fit the result type, else nothing is
/// returned.
pub fn parse_decimal(s: &str) -> (r: Option<u64>)
    ensures
        r is Some <==> s@.len() > 0 && all_digits(s@) && spec_dec_value(s@) <= u64::MAX,
        r is Some ==> r->0 == spec_dec_value(s@),
{
    let n = s.unicode_len();
    if n == 0 {
        return None;
    }
    let mut val: u64 = 0;
    let mut i: usize = 0;
    while i < n
        invariant
            0 <= i <= n,
            n == s@.len(),
            all_digits(s@.subrange(0, i as int)),
            val == spec_dec_value(s@.subrange(0, i as int)),
        decreases n - i,
    {
        let c = s.get_char(i);
        let d = char_digit(c);
        if d >= 10 {
            proof {
                assert(s@[i as int] == c);
                assert(!is_digit(c));
                assert(!all_digits(s@));
            }
            return None;
        }
        if val > (u64::MAX - d) / 10 {
            proof {
                let prefix = s@.subrange(0, i as int + 1);
                assert(prefix.drop_last() =~= s@.subrange(0, i as int));
                assert(prefix.last() == c);
                assert(spec_dec_value(prefix) == val * 10 + d);
                assert(val * 10 + d > u64::MAX) by {
                    vstd::arithmetic::div_mod::lemma_fundamental_div_mod(
                        (u64::MAX - d) as int,
                        10,
                    );
                };
                lemma_dec_value_prefix_le(s@, i as int + 1);
                assert(spec_dec_value(s@) > u64::MAX);
            }
            return None;
        }
        proof {
            let prefix = s@.subrange(0, i as int + 1);
            assert(prefix.drop_last() =~= s@.subrange(0, i as int));
            assert(prefix.last() == c);
            assert(val * 10 + d <= u64::MAX) by {
                vstd::arithmetic::div_mod::lemma_fundamental_div_mod((u64::MAX - d) as int, 10);
            };
        }
        val = val * 10 + d;
        i = i + 1;
    }
    proof {
        assert(s@.subrange(0, n as int) =~= s@);
    }
    Some(val)
}

/// The decimal rendering of a number is canonical: every character is a
/// digit, there is no leading zero beyond the single digit of zero itself,
/// and reading the rendering back yields the number.
pub proof fn lemma_decimal_canonical(n: nat)
    ensures
        all_digits(spec_decimal(n)),
        spec_dec_value(spec_decimal(n)) == n,
        spec_decimal(n).len() >= 1,
        n >= 10 ==> spec_decimal(n).len() >= 2,
        spec_decimal(n).len() > 1 ==> spec_decimal(n)[0] != '0',
    decreases n,
{
    if n < 10 {
        let s = spec_decimal(n);
        assert(s =~= seq![digit_char(n)]);
        assert(s.drop_last() =~= Seq::<char>::empty());
        assert(digit_val(digit_char(n)) == n);
        assert(spec_dec_value(s) == spec_dec_value(s.drop_last()) * 10 + digit_val(s.last()));
        assert(spec_dec_value(s) == n);
    } else {
        lemma_decimal_canonical(n / 10);
        let p = spec_decimal(n / 10);
        let s = spec_decimal(n);
        assert(s == p + seq![digit_char(n % 10)]);
        assert(s.drop_last() =~= p);
        assert(s.last() == digit_char(n % 10));
        assert(digit_val(digit_char(n % 10)) == n % 10);
        assert(spec_dec_value(s) == spec_dec_value(p) * 10 + n % 10);
        assert((n / 10) * 10 + n % 10 == n) by {
            vstd::arithmetic::div_mod::lemma_fundamental_div_mod(n as int, 10);
        };
        assert forall|i: int| 0 <= i < s.len() implies is_digit(#[trigger] s[i]) by {
            if i < p.len() {
                assert(s[i] == p[i]);
            } else {
                assert(s[i] == digit_char(n % 10));
            }
        }
        assert(spec_dec_value(s) == n);
        assert(s[0] == p[0]);
        assert(n / 10 >= 1);
        if n / 10 < 10 {
            assert(p == seq![digit_char(n / 10)]);
            assert(p[0] == digit_char(n / 10));
        }
    }
}

/// The numeric value of one optional textual version component: absent when
/// the text is absent, not a plain decimal number, or too large.
pub open spec fn parsed_component(c: Option<Seq<char>>) -> Option<u64> {
    match c {
        None => None,
        Some(t) => if t.len() > 0 && all_digits(t) && spec_dec_value(t) <= u64::MAX {
            Some(spec_dec_value(t) as u64)
        } else {
            None
        },
    }
}

/// Reads one optional textual version component as a decimal number.
pub fn parse_component(c: &Option<String>) -> (r: Option<u64>)
    ensures
        r == parsed_component(c.deep_view()),
{
    match c {
        Some(s) => parse_decimal(s.as_str()),
        None => None,
    }
}

/// The formatted version is decided by the contiguous present prefix of the
/// components alone: a gap truncates the string at the gap, and components
/// after the gap are discarded. The output is therefore always the empty
/// string or the dot-joined rendering of the first one to four components.
pub proof fn lemma_version_truncates_at_gap(
    major: Option<u64>,
    minor: Option<u64>,
    patch: Option<u64>,
    patch_minor: Option<u64>,
)
    ensures
        major is None ==> spec_version(major, minor, patch, patch_minor) == Seq::<char>::empty(),
        major is Some && minor is None ==> spec_version(major, minor, patch, patch_minor)
            == spec_decimal(major->0 as nat),
        major is Some && minor is Some && patch is None ==> spec_version(
            major,
            minor,
            patch,
            patch_minor,
        ) == spec_decimal(major->0 as nat) + seq!['.'] + spec_decimal(minor->0 as nat),
        major is Some && minor is Some && patch is Some && patch_minor is None ==> spec_version(
            major,
            minor,
            patch,
            patch_minor,
        ) == spec_decimal(major->0 as nat) + seq!['.'] + spec_decimal(minor->0 as nat) + seq!['.']
            + spec_decimal(patch->0 as nat),
        major is Some && minor is Some && patch is Some && patch_minor is Some ==> spec_version(
            major,
            minor,
            patch,
            patch_minor,
        ) == spec_decimal(major->0 as nat) + seq!['.'] + spec_decimal(minor->0 as nat) + seq!['.']
            + spec_decimal(patch->0 as nat) + seq!['.'] + spec_decimal(patch_minor->0 as nat),
{
    if major is Some {
        if minor is Some {
            if patch is Some {
                if patch_minor is Some {
                    assert(spec_version(major, minor, patch, patch_minor) =~= spec_decimal(
                        major->0 as nat,
                    ) + seq!['.'] + spec_decimal(minor->0 as nat) + seq!['.'] + spec_decimal(
                        patch->0 as nat,
                    ) + seq!['.'] + spec_decimal(patch_minor->0 as nat));
                } else {
                    assert(spec_version(major, minor, patch, patch_minor) =~= spec_decimal(
                        major->0 as nat,
                    ) + seq!['.'] + spec_decimal(minor->0 as nat) + seq!['.'] + spec_decimal(
                        patch->0 as nat,
                    ));
                }
            } else {
                assert(spec_version(major, minor, patch, patch_minor) =~= spec_decimal(
                    major->0 as nat,
                ) + seq!['.'] + spec_decimal(minor->0 as nat));
            }
        } else {
            assert(spec_version(major, minor, patch, patch_minor) =~= spec_decimal(
                major->0 as nat,
            ));
        }
    }
}

} // verus!
