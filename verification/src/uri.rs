//! Canonical item URIs: `"spotify:" kind ":" id62` where `id62` is the
//! 22-digit base-62 rendering of a 128-bit item identifier.
//!
//! The grammar is given by `spec_parse_uri`; `parse_uri` and `render_uri`
//! are proved against it, and rendering followed by parsing returns the
//! identifier unchanged.

use vstd::prelude::*;
use vstd::string::StrSliceExecFns;
use vstd::string::StringExecFns;

verus! {

/// The kind segment of an item URI. Kind strings outside the known set
/// parse as `Unknown`, which renders as the literal kind `"unknown"`.
#[derive(Clone, Copy, PartialEq, Eq, Structural, Debug)]
pub enum ItemKind {
    Album,
    Artist,
    Episode,
    Playlist,
    Show,
    Track,
    Unknown,
}

/// A parsed item identity: the 128-bit id together with its kind.
#[derive(Clone, Copy, PartialEq, Eq, Structural, Debug)]
pub struct TrackId {
    pub id: u128,
    pub kind: ItemKind,
}

/// Value of one base-62 digit: `0-9` then `a-z` then `A-Z`; -1 if invalid.
pub open spec fn b62_val(c: char) -> int {
    if 48 <= c as int && c as int <= 57 {
        c as int - 48
    } else if 97 <= c as int && c as int <= 122 {
        10 + (c as int - 97)
    } else if 65 <= c as int && c as int <= 90 {
        36 + (c as int - 65)
    } else {
        -1
    }
}

pub open spec fn is_b62(c: char) -> bool {
    0 <= b62_val(c)
}

pub open spec fn all_b62(s: Seq<char>) -> bool {
    forall|i: int| 0 <= i < s.len() ==> is_b62(#[trigger] s[i])
}

/// Base-62 value of a digit string, most significant digit first.
pub open spec fn seq_b62_val(s: Seq<char>) -> int
    decreases s.len(),
{
    if s.len() == 0 {
        0
    } else {
        62 * seq_b62_val(s.drop_last()) + b62_val(s.last())
    }
}

pub open spec fn pow62(k: nat) -> int
    decreases k,
{
    if k == 0 {
        1
    } else {
        62 * pow62((k - 1) as nat)
    }
}

/// Base-62 value of a digit-value list, least significant digit first.
pub open spec fn val_le(ds: Seq<u8>) -> int
    decreases ds.len(),
{
    if ds.len() == 0 {
        0
    } else {
        ds[0] + 62 * val_le(ds.drop_first())
    }
}

pub open spec fn kind_label(k: ItemKind) -> Seq<char> {
    match k {
        ItemKind::Album => "album"@,
        ItemKind::Artist => "artist"@,
        ItemKind::Episode => "episode"@,
        ItemKind::Playlist => "playlist"@,
        ItemKind::Show => "show"@,
        ItemKind::Track => "track"@,
        ItemKind::Unknown => "unknown"@,
    }
}

pub open spec fn kind_of_label(s: Seq<char>) -> ItemKind {
    if s == "album"@ {
        ItemKind::Album
    } else if s == "artist"@ {
        ItemKind::Artist
    } else if s == "episode"@ {
        ItemKind::Episode
    } else if s == "playlist"@ {
        ItemKind::Playlist
    } else if s == "show"@ {
        ItemKind::Show
    } else if s == "track"@ {
        ItemKind::Track
    } else {
        ItemKind::Unknown
    }
}

pub open spec fn colon_free(s: Seq<char>) -> bool {
    forall|i: int| 0 <= i < s.len() ==> (#[trigger] s[i]) != ':'
}

/// The URI grammar: `"spotify:" kind ":" digit^22`, with a non-empty,
/// colon-free kind segment and a 22-digit id that fits in 128 bits.
pub open spec fn spec_parse_uri(s: Seq<char>) -> Option<TrackId> {
    let n = s.len() as int;
    if n >= 32 && s.subrange(0, 8) == "spotify:"@ && s[n - 23] == ':' && colon_free(
        s.subrange(8, n - 23),
    ) && all_b62(s.subrange(n - 22, n)) && seq_b62_val(s.subrange(n - 22, n)) <= u128::MAX {
        Some(
            TrackId {
                id: seq_b62_val(s.subrange(n - 22, n)) as u128,
                kind: kind_of_label(s.subrange(8, n - 23)),
            },
        )
    } else {
        None
    }
}

proof fn lemma_pow62_pos(k: nat)
    ensures
        pow62(k) >= 1,
    decreases k,
{
    if k > 0 {
        lemma_pow62_pos((k - 1) as nat);
    }
}

proof fn lemma_val_le_nonneg(ds: Seq<u8>)
    ensures
        val_le(ds) >= 0,
    decreases ds.len(),
{
    if ds.len() > 0 {
        lemma_val_le_nonneg(ds.drop_first());
    }
}

proof fn lemma_val_le_push(ds: Seq<u8>, d: u8)
    ensures
        val_le(ds.push(d)) == val_le(ds) + d * pow62(ds.len() as nat),
    decreases ds.len(),
{
    if ds.len() == 0 {
        assert(ds.push(d).drop_first() =~= Seq::<u8>::empty());
        assert(ds.push(d)[0] == d);
        assert(val_le(ds.push(d)) == d + 62 * val_le(ds.push(d).drop_first()));
        assert(val_le(Seq::<u8>::empty()) == 0);
        assert(pow62(0) == 1);
    } else {
        assert(ds.push(d).drop_first() =~= ds.drop_first().push(d));
        assert(ds.push(d)[0] == ds[0]);
        lemma_val_le_push(ds.drop_first(), d);
        assert(pow62(ds.len() as nat) == 62 * pow62((ds.len() - 1) as nat));
        assert(62 * (val_le(ds.drop_first()) + d * pow62((ds.len() - 1) as nat)) == 62 * val_le(
            ds.drop_first(),
        ) + d * (62 * pow62((ds.len() - 1) as nat))) by (nonlinear_arith);
        assert(d * (62 * pow62((ds.len() - 1) as nat)) == d * pow62(ds.len() as nat));
        assert(val_le(ds.push(d)) == ds[0] + 62 * val_le(ds.push(d).drop_first()));
        assert(val_le(ds.push(d).drop_first()) == val_le(ds.drop_first().push(d)));
        assert(val_le(ds) == ds[0] + 62 * val_le(ds.drop_first()));
    }
}

proof fn lemma_seq_b62_val_nonneg(s: Seq<char>)
    requires
        all_b62(s),
    ensures
        seq_b62_val(s) >= 0,
    decreases s.len(),
{
    if s.len() > 0 {
        assert(all_b62(s.drop_last())) by {
            assert(forall|i: int|
                0 <= i < s.len() - 1 ==> s.drop_last()[i] == #[trigger] s[i]);
        }
        lemma_seq_b62_val_nonneg(s.drop_last());
        assert(62 * seq_b62_val(s.drop_last()) >= 0) by (nonlinear_arith)
            requires
                seq_b62_val(s.drop_last()) >= 0,
        ;
    }
}

/// Splitting a digit string: the value is the prefix value scaled by the
/// width of the suffix, plus the suffix value.
proof fn lemma_seq_b62_val_split(s: Seq<char>, i: int)
    requires
        0 <= i <= s.len(),
    ensures
        seq_b62_val(s) == seq_b62_val(s.subrange(0, i)) * pow62((s.len() - i) as nat)
            + seq_b62_val(s.subrange(i, s.len() as int)),
    decreases s.len() - i,
{
    let n = s.len() as int;
    if i == n {
        assert(s.subrange(0, n) =~= s);
        assert(s.subrange(n, n) =~= Seq::<char>::empty());
    } else {
        let s1 = s.drop_last();
        lemma_seq_b62_val_split(s1, i);
        assert(s1.subrange(0, i) =~= s.subrange(0, i));
        assert(s.subrange(i, n).drop_last() =~= s1.subrange(i, n - 1));
        assert(seq_b62_val(s.subrange(i, n)) == 62 * seq_b62_val(s1.subrange(i, n - 1)) + b62_val(
            s[n - 1],
        ));
        let p = seq_b62_val(s.subrange(0, i));
        let q = seq_b62_val(s1.subrange(i, n - 1));
        let d = b62_val(s[n - 1]);
        let w = pow62((n - 1 - i) as nat);
        assert(62 * (p * w + q) + d == p * (62 * w) + (62 * q + d)) by (nonlinear_arith);
    }
}

/// Exec digit value, matching `b62_val`.
fn b62_digit_of(c: char) -> (r: Option<u8>)
    ensures
        r matches Some(d) ==> d as int == b62_val(c) && is_b62(c),
        r is None ==> !is_b62(c),
{
    let u = c as u32;
    if 48 <= u && u <= 57 {
        Some((u - 48) as u8)
    } else if 97 <= u && u <= 122 {
        Some((10 + (u - 97)) as u8)
    } else if 65 <= u && u <= 90 {
        Some((36 + (u - 65)) as u8)
    } else {
        None
    }
}

/// One-character digit string for a digit value, from the base-62 alphabet.
#[verifier::rlimit(50)]
fn b62_digit_str(d: usize) -> (r: &'static str)
    requires
        d < 62,
    ensures
        r@.len() == 1,
        b62_val(r@[0]) == d as int,
{
    let a = "0123456789abcdefghijklmnopqrstuvwxyzABCDEFGHIJKLMNOPQRSTUVWXYZ";
    proof {
        reveal_strlit("0123456789abcdefghijklmnopqrstuvwxyzABCDEFGHIJKLMNOPQRSTUVWXYZ");
        assert(a.is_ascii());
        assert(b62_val(a@[d as int]) == d as int);
    }
    let r = a.substring_ascii(d, d + 1);
    proof {
        assert(r@[0] == a@[d as int]);
    }
    r
}

/// 22-digit base-62 rendering of a 128-bit value, most significant first.
fn b62_encode(nv: u128) -> (r: String)
    ensures
        r@.len() == 22,
        all_b62(r@),
        seq_b62_val(r@) == nv as int,
{
    let mut m = nv;
    let mut ds: Vec<u8> = Vec::new();
    let mut i: usize = 0;
    while i < 22
        invariant
            i <= 22,
            ds@.len() == i,
            forall|k: int| 0 <= k < i ==> #[trigger] ds@[k] < 62,
            nv as int == val_le(ds@) + (m as int) * pow62(i as nat),
        decreases 22 - i,
    {
        let d: u8 = (m % 62) as u8;
        let m2 = m / 62;
        proof {
            lemma_val_le_push(ds@, d);
            let p = pow62(i as nat);
            assert(m as int == 62 * (m2 as int) + d as int) by (nonlinear_arith)
                requires
                    m2 == m / 62 && d == m % 62,
            ;
            assert((62 * (m2 as int) + d as int) * p == (m2 as int) * (62 * p) + (d as int) * p)
                by (nonlinear_arith);
        }
        ds.push(d);
        m = m2;
        i = i + 1;
    }
    proof {
        assert(pow62(22) > u128::MAX as int) by {
            reveal_with_fuel(pow62, 23);
        }
        lemma_val_le_nonneg(ds@);
        if m >= 1 {
            assert((m as int) * pow62(22) >= pow62(22)) by (nonlinear_arith)
                requires
                    m >= 1 && pow62(22) >= 0,
            ;
            assert(false);
        }
    }
    let mut r = String::new();
    let mut j: usize = 0;
    while j < 22
        invariant
            j <= 22,
            ds@.len() == 22,
            forall|k: int| 0 <= k < 22 ==> #[trigger] ds@[k] < 62,
            val_le(ds@) == nv as int,
            r@.len() == j,
            all_b62(r@),
            seq_b62_val(r@) == val_le(ds@.subrange(22 - j, 22)),
        decreases 22 - j,
    {
        let c = b62_digit_str(ds[21 - j] as usize);
        let ghost old_r = r@;
        r.append(c);
        proof {
            assert(r@.drop_last() =~= old_r);
            assert(r@.last() == c@[0]);
            assert(ds@.subrange(22 - j - 1, 22).drop_first() =~= ds@.subrange(22 - j as int, 22));
            assert(ds@.subrange(22 - j - 1, 22)[0] == ds@[21 - j as int]);
            assert(forall|k: int| 0 <= k < old_r.len() ==> r@[k] == #[trigger] old_r[k]);
        }
        j = j + 1;
    }
    proof {
        assert(ds@.subrange(0, 22) =~= ds@);
    }
    r
}

/// True iff `s@.subrange(lo, hi)` equals the label.
fn seg_matches(s: &str, lo: usize, hi: usize, label: &str) -> (b: bool)
    requires
        lo <= hi <= s@.len(),
    ensures
        b == (s@.subrange(lo as int, hi as int) == label@),
{
    let llen = label.unicode_len();
    if hi - lo != llen {
        proof {
            assert(s@.subrange(lo as int, hi as int).len() == hi - lo);
        }
        return false;
    }
    let mut i: usize = 0;
    while i < llen
        invariant
            i <= llen,
            llen == label@.len(),
            lo <= hi <= s@.len(),
            hi - lo == llen,
            forall|k: int| 0 <= k < i ==> s@[lo + k] == #[trigger] label@[k],
        decreases llen - i,
    {
        if s.get_char(lo + i) != label.get_char(i) {
            proof {
                if s@.subrange(lo as int, hi as int) == label@ {
                    assert(s@.subrange(lo as int, hi as int)[i as int] == label@[i as int]);
                }
            }
            return false;
        }
        i = i + 1;
    }
    proof {
        assert(s@.subrange(lo as int, hi as int) =~= label@);
    }
    true
}

/// Parse an item URI against the grammar; total, returns exactly what the
/// grammar admits.
pub fn parse_uri(s: &str) -> (r: Option<TrackId>)
    ensures
        r == spec_parse_uri(s@),
{
    let n = s.unicode_len();
    if n < 32 {
        return None;
    }
    // the fixed scheme prefix
    let p = "spotify:";
    proof {
        reveal_strlit("spotify:");
    }
    let mut i: usize = 0;
    while i < 8
        invariant
            i <= 8,
            n == s@.len(),
            n >= 32,
            p@ == "spotify:"@,
            p@.len() == 8,
            forall|k: int| 0 <= k < i ==> s@[k] == #[trigger] p@[k],
        decreases 8 - i,
    {
        if s.get_char(i) != p.get_char(i) {
            proof {
                if s@.subrange(0, 8) == "spotify:"@ {
                    assert(s@.subrange(0, 8)[i as int] == p@[i as int]);
                }
            }
            return None;
        }
        i = i + 1;
    }
    proof {
        assert(s@.subrange(0, 8) =~= "spotify:"@);
    }
    if s.get_char(n - 23) != ':' {
        return None;
    }
    // the kind segment must hold no separator
    let mut j: usize = 8;
    while j < n - 23
        invariant
            8 <= j <= n - 23,
            n == s@.len(),
            n >= 32,
            forall|k: int| 8 <= k < j ==> (#[trigger] s@[k]) != ':',
        decreases n - 23 - j,
    {
        if s.get_char(j) == ':' {
            proof {
                if colon_free(s@.subrange(8, n - 23)) {
                    assert(s@.subrange(8, n - 23)[j - 8] != ':');
                }
            }
            return None;
        }
        j = j + 1;
    }
    proof {
        assert(colon_free(s@.subrange(8, n as int - 23))) by {
            assert(forall|k: int|
                0 <= k < n - 31 ==> s@.subrange(8, n as int - 23)[k] == #[trigger] s@[8 + k]);
        }
    }
    // the 22-digit identifier
    let ghost t = s@.subrange(n as int - 22, n as int);
    let mut acc: u128 = 0;
    let mut x: usize = n - 22;
    while x < n
        invariant
            n - 22 <= x <= n,
            n == s@.len(),
            n >= 32,
            t == s@.subrange(n as int - 22, n as int),
            all_b62(t.subrange(0, x - (n - 22))),
            acc as int == seq_b62_val(t.subrange(0, x - (n - 22))),
        decreases n - x,
    {
        let ghost xi = x - (n - 22);
        let c = s.get_char(x);
        proof {
            assert(t[xi as int] == s@[x as int]);
        }
        match b62_digit_of(c) {
            None => {
                proof {
                    assert(!all_b62(t));
                }
                return None;
            },
            Some(d) => {
                if acc > (u128::MAX - d as u128) / 62 {
                    proof {
                        lemma_overflow_means_too_big(t, xi as int, acc, d);
                    }
                    return None;
                }
                proof {
                    lemma_acc_step_fits(acc, d);
                    assert(t.subrange(0, xi + 1).drop_last() =~= t.subrange(0, xi as int));
                    assert(t.subrange(0, xi + 1).last() == t[xi as int]);
                    assert(all_b62(t.subrange(0, xi + 1))) by {
                        assert(forall|k: int|
                            0 <= k < xi + 1 ==> t.subrange(0, xi + 1)[k] == #[trigger] t[k]);
                    }
                }
                acc = acc * 62 + d as u128;
            },
        }
        x = x + 1;
    }
    proof {
        assert(t.subrange(0, 22) =~= t);
    }
    // the kind segment
    let kind = if seg_matches(s, 8, n - 23, "album") {
        ItemKind::Album
    } else if seg_matches(s, 8, n - 23, "artist") {
        ItemKind::Artist
    } else if seg_matches(s, 8, n - 23, "episode") {
        ItemKind::Episode
    } else if seg_matches(s, 8, n - 23, "playlist") {
        ItemKind::Playlist
    } else if seg_matches(s, 8, n - 23, "show") {
        ItemKind::Show
    } else if seg_matches(s, 8, n - 23, "track") {
        ItemKind::Track
    } else {
        ItemKind::Unknown
    };
    Some(TrackId { id: acc, kind })
}

/// If one more digit would not fit in 128 bits, the whole digit string
/// is too big for the grammar.
proof fn lemma_overflow_means_too_big(t: Seq<char>, xi: int, acc: u128, d: u8)
    requires
        t.len() == 22,
        0 <= xi < 22,
        acc as int == seq_b62_val(t.subrange(0, xi)),
        d as int == b62_val(t[xi]),
        0 <= d as int,
        acc > (u128::MAX - d as u128) / 62,
    ensures
        !(all_b62(t) && seq_b62_val(t) <= u128::MAX),
{
    if all_b62(t) && seq_b62_val(t) <= u128::MAX {
        let hi = u128::MAX as int;
        let dv = d as int;
        // 62 * acc + d exceeds the 128-bit range
        assert(62 * (acc as int) + dv > hi) by (nonlinear_arith)
            requires
                acc as int > (hi - dv) / 62 && 0 <= dv && hi == (hi - dv) / 62 * 62 + (hi - dv) % 62
                    + dv && 0 <= (hi - dv) % 62 < 62,
        {
        }
        assert(hi == (hi - dv) / 62 * 62 + (hi - dv) % 62 + dv) by {
            vstd::arithmetic::div_mod::lemma_fundamental_div_mod(hi - dv, 62);
        }
        let pre = t.subrange(0, xi + 1);
        assert(pre.drop_last() =~= t.subrange(0, xi));
        assert(pre.last() == t[xi]);
        assert(seq_b62_val(pre) == 62 * (acc as int) + dv);
        lemma_seq_b62_val_split(t, xi + 1);
        assert(all_b62(t.subrange(xi + 1, 22))) by {
            assert(forall|k: int|
                0 <= k < 22 - (xi + 1) ==> t.subrange(xi + 1, 22)[k] == #[trigger] t[xi + 1 + k]);
        }
        lemma_seq_b62_val_nonneg(t.subrange(xi + 1, 22));
        lemma_pow62_pos((22 - (xi + 1)) as nat);
        assert(seq_b62_val(pre) * pow62((22 - (xi + 1)) as nat) >= seq_b62_val(pre))
            by (nonlinear_arith)
            requires
                seq_b62_val(pre) >= 0 && pow62((22 - (xi + 1)) as nat) >= 1,
        ;
        assert(false);
    }
}

/// One decoding step stays within 128 bits.
proof fn lemma_acc_step_fits(acc: u128, d: u8)
    requires
        acc <= (u128::MAX - d as u128) / 62,
    ensures
        62 * (acc as int) + d as int <= u128::MAX,
{
    let hi = u128::MAX as int;
    let dv = d as int;
    assert(hi - dv == (hi - dv) / 62 * 62 + (hi - dv) % 62) by {
        vstd::arithmetic::div_mod::lemma_fundamental_div_mod(hi - dv, 62);
    }
    assert(62 * (acc as int) <= (hi - dv) / 62 * 62) by (nonlinear_arith)
        requires
            acc as int <= (hi - dv) / 62,
    ;
}

/// Label text for a kind, for rendering; the label parses back to the
/// same kind.
fn kind_str(k: ItemKind) -> (r: &'static str)
    ensures
        r@ == kind_label(k),
        kind_of_label(r@) == k,
        colon_free(r@),
        4 <= r@.len() <= 8,
{
    proof {
        reveal_strlit("album");
        reveal_strlit("artist");
        reveal_strlit("episode");
        reveal_strlit("playlist");
        reveal_strlit("show");
        reveal_strlit("track");
        reveal_strlit("unknown");
    }
    match k {
        ItemKind::Album => "album",
        ItemKind::Artist => {
            proof {
                assert("artist"@.len() != "album"@.len());
            }
            "artist"
        },
        ItemKind::Episode => {
            proof {
                assert("episode"@.len() != "album"@.len());
                assert("episode"@.len() != "artist"@.len());
            }
            "episode"
        },
        ItemKind::Playlist => {
            proof {
                assert("playlist"@.len() != "album"@.len());
                assert("playlist"@.len() != "artist"@.len());
                assert("playlist"@.len() != "episode"@.len());
            }
            "playlist"
        },
        ItemKind::Show => {
            proof {
                assert("show"@.len() != "album"@.len());
                assert("show"@.len() != "artist"@.len());
                assert("show"@.len() != "episode"@.len());
                assert("show"@.len() != "playlist"@.len());
            }
            "show"
        },
        ItemKind::Track => {
            proof {
                assert("track"@[0] != "album"@[0]);
                assert("track"@.len() != "artist"@.len());
                assert("track"@.len() != "episode"@.len());
                assert("track"@.len() != "playlist"@.len());
                assert("track"@.len() != "show"@.len());
            }
            "track"
        },
        ItemKind::Unknown => {
            proof {
                assert("unknown"@.len() != "album"@.len());
                assert("unknown"@.len() != "artist"@.len());
                assert("unknown"@[0] != "episode"@[0]);
                assert("unknown"@.len() != "playlist"@.len());
                assert("unknown"@.len() != "show"@.len());
                assert("unknown"@.len() != "track"@.len());
            }
            "unknown"
        },
    }
}

/// Render an item identity as a canonical URI. The result is exactly the
/// string the grammar parses back to the same identity.
pub fn render_uri(t: &TrackId) -> (r: String)
    ensures
        spec_parse_uri(r@) == Some(*t),
{
    let mut res = String::from_str("spotify:");
    proof {
        reveal_strlit("spotify:");
    }
    let lbl = kind_str(t.kind);
    res.append(lbl);
    proof {
        reveal_strlit(":");
    }
    res.append(":");
    let digits = b62_encode(t.id);
    res.append(digits.as_str());
    proof {
        let v = res@;
        let ll = kind_label(t.kind).len() as int;
        let n = v.len() as int;
        assert(n == 8 + ll + 1 + 22);
        assert(v.subrange(0, 8) =~= "spotify:"@);
        assert(v[n - 23] == ':');
        assert(v.subrange(8, n - 23) =~= kind_label(t.kind));
        assert(v.subrange(n - 22, n) =~= digits@);
        assert(colon_free(v.subrange(8, n - 23)));
        assert(seq_b62_val(v.subrange(n - 22, n)) == t.id as int);
        assert(spec_parse_uri(v) == Some(*t));
    }
    res
}

/// Parse a URI, force the kind to `Track`, and render the canonical track
/// URI: the id segment survives and the kind segment becomes `"track"`.
pub fn canonical_track_uri(uri: &str) -> (r: Option<String>)
    ensures
        r is Some <==> spec_parse_uri(uri@) is Some,
        (r matches Some(c) ==> spec_parse_uri(uri@) matches Some(t) && spec_parse_uri(c@)
            == Some(TrackId { id: t.id, kind: ItemKind::Track })),
{
    match parse_uri(uri) {
        None => None,
        Some(t) => Some(render_uri(&TrackId { id: t.id, kind: ItemKind::Track })),
    }
}

} // verus!
