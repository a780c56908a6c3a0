//! Device-identifier resolution: strips a trailing build tag from model and
//! raw device strings, combines brand and model, and picks the longer of the
//! combined candidate and the raw device candidate.

use vstd::prelude::*;
use vstd::string::{StrSliceExecFns, StringExecFns};

verus! {

/// The marker that begins a build tag inside a model or device string.
pub open spec fn build_marker() -> Seq<char> {
    seq![' ', 'B', 'u', 'i', 'l', 'd', '/']
}

/// Whether the build marker occurs in `s` starting at position `i`.
pub open spec fn marker_at(s: Seq<char>, i: int) -> bool {
    0 <= i && i + 7 <= s.len() && s.subrange(i, i + 7) == build_marker()
}

/// Whether the build marker occurs anywhere in `s`.
pub open spec fn has_marker(s: Seq<char>) -> bool {
    exists|i: int| marker_at(s, i)
}

/// Whether the build marker occurs in at most one position of `s`.
pub open spec fn at_most_one_marker(s: Seq<char>) -> bool {
    forall|i: int, j: int| marker_at(s, i) && marker_at(s, j) ==> i == j
}

/// The prefix of `s` up to the last occurrence of the build marker strictly
/// before position `n`, or `s` itself when there is no such occurrence.
pub open spec fn strip_from(s: Seq<char>, n: int) -> Seq<char>
    decreases n,
{
    if n <= 0 {
        s
    } else if marker_at(s, n - 1) {
        s.subrange(0, n - 1)
    } else {
        strip_from(s, n - 1)
    }
}

/// The string cut at the last occurrence of the build marker: everything
/// from that occurrence on is removed, and a string without the marker is
/// returned unchanged.
pub open spec fn spec_strip_build(s: Seq<char>) -> Seq<char> {
    strip_from(s, s.len() as int)
}

proof fn lemma_strip_from_no_marker(s: Seq<char>, n: int)
    requires
        n <= s.len(),
        forall|i: int| 0 <= i < n ==> !marker_at(s, i),
    ensures
        strip_from(s, n) == s,
    decreases n,
{
    if n > 0 {
        lemma_strip_from_no_marker(s, n - 1);
    }
}

proof fn lemma_strip_from_top_marker(s: Seq<char>, n: int, i0: int)
    requires
        n <= s.len(),
        marker_at(s, i0),
        i0 < n,
        forall|j: int| i0 < j < n ==> !marker_at(s, j),
    ensures
        strip_from(s, n) == s.subrange(0, i0),
    decreases n,
{
    if n - 1 > i0 {
        lemma_strip_from_top_marker(s, n - 1, i0);
    }
}

/// A marker inside a prefix of `s` is a marker of `s` at the same position.
proof fn lemma_marker_in_prefix(s: Seq<char>, m: int, i: int)
    requires
        0 <= m <= s.len(),
        marker_at(s.subrange(0, m), i),
    ensures
        marker_at(s, i),
{
    assert(s.subrange(0, m).subrange(i, i + 7) =~= s.subrange(i, i + 7));
}

/// A string without the build marker comes back from stripping unchanged.
pub proof fn lemma_strip_build_unchanged(s: Seq<char>)
    requires
        !has_marker(s),
    ensures
        spec_strip_build(s) == s,
{
    lemma_strip_from_no_marker(s, s.len() as int);
}

/// Stripping a string that holds the build marker in at most one position
/// leaves no occurrence of the marker.
pub proof fn lemma_strip_build_no_marker(s: Seq<char>)
    requires
        at_most_one_marker(s),
    ensures
        !has_marker(spec_strip_build(s)),
{
    if has_marker(s) {
        let i0 = choose|i: int| marker_at(s, i);
        assert(forall|j: int| i0 < j < s.len() ==> !marker_at(s, j));
        lemma_strip_from_top_marker(s, s.len() as int, i0);
        let t = s.subrange(0, i0);
        if has_marker(t) {
            let k = choose|k: int| marker_at(t, k);
            lemma_marker_in_prefix(s, i0, k);
            assert(k == i0);
            assert(k + 7 <= t.len());
            assert(false);
        }
    } else {
        lemma_strip_from_no_marker(s, s.len() as int);
    }
}

/// Stripping the build tag is idempotent on strings that hold the marker in
/// at most one position: a second application changes nothing.
pub proof fn lemma_strip_build_idempotent(s: Seq<char>)
    requires
        at_most_one_marker(s),
    ensures
        spec_strip_build(spec_strip_build(s)) == spec_strip_build(s),
{
    lemma_strip_build_no_marker(s);
    let t = spec_strip_build(s);
    assert(forall|i: int| 0 <= i < t.len() ==> !marker_at(t, i));
    lemma_strip_from_no_marker(t, t.len() as int);
}

fn marker_match(s: &str, i: usize) -> (r: bool)
    requires
        i + 7 <= s@.len(),
        s@.len() <= usize::MAX,
    ensures
        r == marker_at(s@, i as int),
{
    let c0 = s.get_char(i);
    let c1 = s.get_char(i + 1);
    let c2 = s.get_char(i + 2);
    let c3 = s.get_char(i + 3);
    let c4 = s.get_char(i + 4);
    let c5 = s.get_char(i + 5);
    let c6 = s.get_char(i + 6);
    let r = c0 == ' ' && c1 == 'B' && c2 == 'u' && c3 == 'i' && c4 == 'l' && c5 == 'd' && c6
        == '/';
    proof {
        let ss = s@.subrange(i as int, i as int + 7);
        if r {
            assert(ss =~= build_marker());
        } else if marker_at(s@, i as int) {
            assert(c0 == ss[0] && c1 == ss[1] && c2 == ss[2] && c3 == ss[3] && c4 == ss[4] && c5
                == ss[5] && c6 == ss[6]);
            assert(false);
        }
    }
    r
}

/// Cuts the string at the last occurrence of the build marker; a string
/// without the marker comes back unchanged.
pub fn strip_build(s: &str) -> (r: String)
    ensures
        r@ == spec_strip_build(s@),
{
    let n = s.unicode_len();
    let mut i: usize = n;
    loop
        invariant
            i <= n,
            n == s@.len(),
            strip_from(s@, n as int) == strip_from(s@, i as int),
        decreases i,
    {
        if i == 0 {
            return s.to_owned();
        }
        if n >= 7 && i - 1 <= n - 7 {
            if marker_match(s, i - 1) {
                let t = s.substring_char(0, i - 1);
                return t.to_owned();
            }
        } else {
            proof {
                assert(!marker_at(s@, i as int - 1));
            }
        }
        i = i - 1;
    }
}

/// The brand and model candidate: brand and stripped model joined by a
/// slash when both are present, the present one alone otherwise, and the
/// empty string when neither is present. The brand is never stripped.
pub open spec fn spec_brand_model(brand: Option<Seq<char>>, model: Option<Seq<char>>) -> Seq<
    char,
> {
    match brand {
        Some(b) => match model {
            Some(m) => b + seq!['/'] + spec_strip_build(m),
            None => b,
        },
        None => match model {
            Some(m) => spec_strip_build(m),
            None => Seq::<char>::empty(),
        },
    }
}

/// The resolved device identifier: the brand and model candidate when it is
/// at least as long as the stripped raw device string, else the stripped raw
/// device string.
pub open spec fn spec_resolve_device(
    brand: Option<Seq<char>>,
    model: Option<Seq<char>>,
    device: Seq<char>,
) -> Seq<char> {
    let bm = spec_brand_model(brand, model);
    let dd = spec_strip_build(device);
    if bm.len() >= dd.len() {
        bm
    } else {
        dd
    }
}

/// Resolves the device identifier from the optional brand and model fields
/// and the raw device string.
pub fn resolve_device(brand: Option<&str>, model: Option<&str>, device: &str) -> (r: String)
    ensures
        r@ == spec_resolve_device(brand.deep_view(), model.deep_view(), device@),
{
    proof {
        reveal_strlit("/");
        assert("/"@ =~= seq!['/']);
    }
    let bm: String = match (brand, model) {
        (Some(b), Some(m)) => {
            let mut s = b.to_owned();
            s.append("/");
            let sm = strip_build(m);
            s.append(sm.as_str());
            proof {
                assert(s@ =~= b@ + seq!['/'] + spec_strip_build(m@));
            }
            s
        },
        (Some(b), None) => b.to_owned(),
        (None, Some(m)) => strip_build(m),
        (None, None) => String::new(),
    };
    let dd = strip_build(device);
    if bm.as_str().unicode_len() >= dd.as_str().unicode_len() {
        bm
    } else {
        dd
    }
}

/// Whether `s` ends with the six characters that precede the slash of the
/// build marker, so that a following slash would complete the marker.
pub open spec fn ends_in_open_marker(s: Seq<char>) -> bool {
    s.len() >= 6 && s.subrange(s.len() - 6, s.len() as int) == seq![' ', 'B', 'u', 'i', 'l', 'd']
}

/// The resolved device identifier never holds the build marker, provided
/// the marker occurs at most once in the model and in the raw device
/// string, and the brand neither holds the marker nor ends one character
/// short of it.
pub proof fn lemma_resolve_device_strips_marker(
    brand: Option<Seq<char>>,
    model: Option<Seq<char>>,
    device: Seq<char>,
)
    requires
        brand is Some ==> !has_marker(brand->0) && !ends_in_open_marker(brand->0),
        model is Some ==> at_most_one_marker(model->0),
        at_most_one_marker(device),
    ensures
        !has_marker(spec_resolve_device(brand, model, device)),
{
    lemma_strip_build_no_marker(device);
    if model is Some {
        lemma_strip_build_no_marker(model->0);
    }
    let bm = spec_brand_model(brand, model);
    if brand is Some && model is Some {
        let b = brand->0;
        let m = spec_strip_build(model->0);
        let l = b.len() as int;
        assert(bm == b + seq!['/'] + m);
        assert forall|i: int| !marker_at(bm, i) by {
            if marker_at(bm, i) {
                let w = bm.subrange(i, i + 7);
                assert(w == build_marker());
                if i + 7 <= l {
                    assert(bm.subrange(i, i + 7) =~= b.subrange(i, i + 7));
                    assert(marker_at(b, i));
                } else if i >= l + 1 {
                    assert(bm.subrange(i, i + 7) =~= m.subrange(i - l - 1, i - l - 1 + 7));
                    assert(marker_at(m, i - l - 1));
                } else {
                    // the marker covers the joining slash at position l
                    assert(bm[l] == '/');
                    assert(w[l - i] == '/');
                    if l - i != 6 {
                        assert(build_marker()[l - i] != '/');
                        assert(false);
                    }
                    assert(i == l - 6);
                    assert(b.subrange(l - 6, l) =~= seq![' ', 'B', 'u', 'i', 'l', 'd']) by {
                        assert forall|k: int| 0 <= k < 6 implies b.subrange(l - 6, l)[k]
                            == seq![' ', 'B', 'u', 'i', 'l', 'd'][k] by {
                            assert(b.subrange(l - 6, l)[k] == bm[l - 6 + k]);
                            assert(bm[l - 6 + k] == w[k]);
                        }
                    }
                    assert(ends_in_open_marker(b));
                    assert(false);
                }
            }
        }
    }
    if brand is None && model is None {
        assert(forall|i: int| !marker_at(bm, i));
    }
    assert(!has_marker(bm));
    assert(!has_marker(spec_strip_build(device)));
}

} // verus!
