//! The device fingerprint: a SHA-256 digest over the normalised hardware identifiers of
//! the host, so that one machine keeps one identity across restarts and reinstalls.
use vstd::prelude::*;

use sha2::{Digest, Sha256};

use crate::text::{
    ascii_lower_seq, ascii_lowercase, chars_of, contains, contains_seq, join_chars, join_seq,
    join_strings, keep_non_empty, non_empty_pieces, owned, pieces_view, split_chars, split_seq,
    string_from_chars, strings_view, trim, trim_end_seq, trim_seq, trim_start_seq, lines_seq,
    text_lines,
};

verus! {

/// Which identifiers went into a fingerprint.
#[derive(Debug, Clone, Copy, Default)]
pub struct DeviceFingerprintSources {
    pub machine_id: bool,
    pub board_serial: bool,
    pub platform_uuid: bool,
    pub fallback: bool,
}

/// A device fingerprint and the scheme version that produced it.
#[derive(Debug, Clone)]
pub struct DeviceFingerprint {
    pub device_fingerprint: String,
    pub fingerprint_version: String,
    pub sources: DeviceFingerprintSources,
}

/// The raw identifiers read from the host; the fallback seed (a host name) is only used
/// when no hardware identifier could be read.
#[derive(Debug, Clone, Default)]
pub struct FingerprintMaterial {
    pub machine_id: Option<String>,
    pub board_serial: Option<String>,
    pub platform_uuid: Option<String>,
    pub fallback_seed: Option<String>,
}

/// A character kept by the identifier normalisation; every other character separates.
pub open spec fn fingerprint_char(c: char) -> char {
    if ('a' <= c && c <= 'z') || ('0' <= c && c <= '9') {
        c
    } else {
        '-'
    }
}

/// An identifier in canonical form: trimmed, lower-cased, every run of characters other
/// than `a-z0-9` collapsed to a single `-`, with no `-` at either end.
pub open spec fn normalized_source(s: Seq<char>) -> Seq<char> {
    let mapped = ascii_lower_seq(trim_seq(s)).map_values(|c: char| fingerprint_char(c));
    join_seq(non_empty_pieces(split_seq(mapped, '-')), seq!['-'])
}

/// A lower-case ASCII letter or digit.
pub open spec fn is_source_alnum(c: char) -> bool {
    ('a' <= c && c <= 'z') || ('0' <= c && c <= '9')
}

/// A text in canonical identifier form: only `a-z`, `0-9` and `-`, no `-` at either end and
/// never two `-` in a row.
pub open spec fn is_normalized_source(s: Seq<char>) -> bool {
    &&& forall|i: int| 0 <= i < s.len() ==> is_source_alnum(#[trigger] s[i]) || s[i] == '-'
    &&& s.len() > 0 ==> s[0] != '-' && s.last() != '-'
    &&& forall|i: int| 0 <= i < s.len() - 1 && #[trigger] s[i] == '-' ==> s[i + 1] != '-'
}

proof fn lemma_join_update_push(parts: Seq<Seq<char>>, sep: Seq<char>, x: char)
    requires
        parts.len() >= 1,
    ensures
        join_seq(parts.update(parts.len() - 1, parts.last().push(x)), sep) == join_seq(parts, sep).push(
            x,
        ),
{
    let q = parts.update(parts.len() - 1, parts.last().push(x));
    assert(q.drop_last() =~= parts.drop_last());
    if parts.len() == 1 {
        assert(join_seq(q, sep) == q[0]);
    } else {
        assert(join_seq(q, sep) == join_seq(q.drop_last(), sep) + sep + q.last());
        assert(join_seq(q, sep) =~= join_seq(parts, sep).push(x));
    }
}

proof fn lemma_split_join(s: Seq<char>, c: char)
    ensures
        join_seq(split_seq(s, c), seq![c]) == s,
    decreases s.len(),
{
    if s.len() == 0 {
        assert(join_seq(split_seq(s, c), seq![c]) =~= s);
    } else {
        let init = split_seq(s.drop_last(), c);
        lemma_split_join(s.drop_last(), c);
        crate::text::lemma_split_nonempty(s.drop_last(), c);
        if s.last() == c {
            let sp = init.push(Seq::<char>::empty());
            assert(sp.drop_last() =~= init);
            assert(join_seq(sp, seq![c]) == join_seq(init, seq![c]) + seq![c] + sp.last());
            assert(join_seq(sp, seq![c]) =~= s);
        } else {
            lemma_join_update_push(init, seq![c], s.last());
            assert(s.drop_last().push(s.last()) =~= s);
        }
    }
}

proof fn lemma_split_pieces(p: Seq<char>)
    requires
        p.len() == 0 || p[0] != '-',
        forall|i: int| 0 <= i < p.len() - 1 && #[trigger] p[i] == '-' ==> p[i + 1] != '-',
        forall|i: int| 0 <= i < p.len() ==> is_source_alnum(#[trigger] p[i]) || p[i] == '-',
    ensures
        split_seq(p, '-').len() >= 1,
        forall|k: int| 0 <= k < split_seq(p, '-').len() - 1 ==> (#[trigger] split_seq(p, '-')[k]).len() > 0,
        (split_seq(p, '-').last().len() == 0) == (p.len() == 0 || p.last() == '-'),
        forall|k: int, j: int|
            0 <= k < split_seq(p, '-').len() && 0 <= j < split_seq(p, '-')[k].len() ==> is_source_alnum(
                #[trigger] split_seq(p, '-')[k][j],
            ),
    decreases p.len(),
{
    if p.len() > 0 {
        let q = p.drop_last();
        assert forall|i: int| 0 <= i < q.len() - 1 && #[trigger] q[i] == '-' implies q[i + 1] != '-' by {
            assert(p[i] == q[i] && p[i + 1] == q[i + 1]);
        }
        assert forall|i: int| 0 <= i < q.len() implies is_source_alnum(#[trigger] q[i]) || q[i] == '-' by {
            assert(p[i] == q[i]);
        }
        lemma_split_pieces(q);
        let sq = split_seq(q, '-');
        let sp = split_seq(p, '-');
        let x = p.last();
        assert(x == p[p.len() - 1]);
        if x == '-' {
            assert(sp == sq.push(Seq::<char>::empty()));
            if q.len() > 0 {
                assert(q.last() == p[p.len() - 2]);
                assert(q.last() != '-');
            }
            assert forall|k: int| 0 <= k < sp.len() - 1 implies (#[trigger] sp[k]).len() > 0 by {
                assert(sp[k] == sq[k]);
            }
            assert forall|k: int, j: int| 0 <= k < sp.len() && 0 <= j < sp[k].len() implies is_source_alnum(
                #[trigger] sp[k][j],
            ) by {
                assert(sp[k] == sq[k]);
            }
        } else {
            assert(sp == sq.update(sq.len() - 1, sq.last().push(x)));
            assert forall|k: int| 0 <= k < sp.len() - 1 implies (#[trigger] sp[k]).len() > 0 by {
                assert(sp[k] == sq[k]);
            }
            assert forall|k: int, j: int| 0 <= k < sp.len() && 0 <= j < sp[k].len() implies is_source_alnum(
                #[trigger] sp[k][j],
            ) by {
                if k < sp.len() - 1 {
                    assert(sp[k] == sq[k]);
                } else if j < sq.last().len() {
                    assert(sp[k][j] == sq[sq.len() - 1][j]);
                } else {
                    assert(sp[k][j] == x);
                }
            }
        }
    }
}

proof fn lemma_non_empty_all(parts: Seq<Seq<char>>)
    requires
        forall|k: int| 0 <= k < parts.len() ==> (#[trigger] parts[k]).len() > 0,
    ensures
        non_empty_pieces(parts) == parts,
    decreases parts.len(),
{
    if parts.len() > 0 {
        lemma_non_empty_all(parts.drop_last());
        assert(parts.drop_last().push(parts.last()) =~= parts);
    }
}

proof fn lemma_non_empty_props(parts: Seq<Seq<char>>)
    requires
        forall|k: int, j: int|
            0 <= k < parts.len() && 0 <= j < parts[k].len() ==> is_source_alnum(#[trigger] parts[k][j]),
    ensures
        forall|k: int| 0 <= k < non_empty_pieces(parts).len() ==> (#[trigger] non_empty_pieces(parts)[k]).len() > 0,
        forall|k: int, j: int|
            0 <= k < non_empty_pieces(parts).len() && 0 <= j < non_empty_pieces(parts)[k].len()
                ==> is_source_alnum(#[trigger] non_empty_pieces(parts)[k][j]),
    decreases parts.len(),
{
    if parts.len() > 0 {
        let front = parts.drop_last();
        assert forall|k: int, j: int| 0 <= k < front.len() && 0 <= j < front[k].len() implies is_source_alnum(
            #[trigger] front[k][j],
        ) by {
            assert(front[k] == parts[k]);
        }
        lemma_non_empty_props(front);
        let ne = non_empty_pieces(parts);
        let nf = non_empty_pieces(front);
        if parts.last().len() > 0 {
            assert(ne == nf.push(parts.last()));
            assert forall|k: int, j: int| 0 <= k < ne.len() && 0 <= j < ne[k].len() implies is_source_alnum(
                #[trigger] ne[k][j],
            ) by {
                if k < nf.len() {
                    assert(ne[k] == nf[k]);
                } else {
                    assert(ne[k][j] == parts[parts.len() - 1][j]);
                }
            }
            assert forall|k: int| 0 <= k < ne.len() implies (#[trigger] ne[k]).len() > 0 by {
                if k < nf.len() {
                    assert(ne[k] == nf[k]);
                }
            }
        }
    }
}

proof fn lemma_join_normalized(parts: Seq<Seq<char>>)
    requires
        forall|k: int| 0 <= k < parts.len() ==> (#[trigger] parts[k]).len() > 0,
        forall|k: int, j: int|
            0 <= k < parts.len() && 0 <= j < parts[k].len() ==> is_source_alnum(#[trigger] parts[k][j]),
    ensures
        is_normalized_source(join_seq(parts, seq!['-'])),
        parts.len() > 0 ==> join_seq(parts, seq!['-']).len() > 0,
    decreases parts.len(),
{
    if parts.len() == 1 {
        let p = parts[0];
        assert(join_seq(parts, seq!['-']) == p);
        assert forall|i: int| 0 <= i < p.len() implies is_source_alnum(#[trigger] p[i]) || p[i] == '-' by {
            assert(is_source_alnum(parts[0][i]));
        }
        assert(is_source_alnum(parts[0][0]));
        assert(is_source_alnum(parts[0][p.len() - 1]));
        assert forall|i: int| 0 <= i < p.len() - 1 && #[trigger] p[i] == '-' implies p[i + 1] != '-' by {
            assert(is_source_alnum(parts[0][i]));
        }
    } else if parts.len() > 1 {
        let front = parts.drop_last();
        assert forall|k: int| 0 <= k < front.len() implies (#[trigger] front[k]).len() > 0 by {
            assert(front[k] == parts[k]);
        }
        assert forall|k: int, j: int| 0 <= k < front.len() && 0 <= j < front[k].len() implies is_source_alnum(
            #[trigger] front[k][j],
        ) by {
            assert(front[k] == parts[k]);
        }
        lemma_join_normalized(front);
        let jf = join_seq(front, seq!['-']);
        let last = parts.last();
        assert(last == parts[parts.len() - 1]);
        assert(last.len() > 0);
        let r = join_seq(parts, seq!['-']);
        assert(r == jf + seq!['-'] + last);
        let n = jf.len();
        assert forall|i: int| 0 <= i < r.len() implies is_source_alnum(#[trigger] r[i]) || r[i] == '-' by {
            if i < n {
                assert(r[i] == jf[i]);
            } else if i > n {
                assert(r[i] == last[i - n - 1]);
                assert(is_source_alnum(parts[parts.len() - 1][i - n - 1]));
            }
        }
        assert(r[0] == jf[0]);
        assert(r[r.len() - 1] == last[last.len() - 1]);
        assert(is_source_alnum(parts[parts.len() - 1][last.len() - 1]));
        assert forall|i: int| 0 <= i < r.len() - 1 && #[trigger] r[i] == '-' implies r[i + 1] != '-' by {
            if i < n - 1 {
                assert(r[i] == jf[i] && r[i + 1] == jf[i + 1]);
            } else if i == n - 1 {
                assert(r[i] == jf[n - 1]);
            } else if i == n {
                assert(r[i + 1] == last[0]);
                assert(is_source_alnum(parts[parts.len() - 1][0]));
            } else {
                assert(r[i] == last[i - n - 1]);
                assert(is_source_alnum(parts[parts.len() - 1][i - n - 1]));
            }
        }
    }
}

/// What the identifier normalisation gives is in canonical form (`a-z`, `0-9` and single
/// inner `-` only), and normalising a canonical text keeps it as it is; so normalising twice
/// is normalising once.
pub proof fn lemma_normalized_source_canonical(s: Seq<char>)
    ensures
        is_normalized_source(normalized_source(s)),
        is_normalized_source(s) ==> normalized_source(s) == s,
        normalized_source(normalized_source(s)) == normalized_source(s),
{
    lemma_normalized_is_canonical(s);
    lemma_canonical_is_fixed(s);
    lemma_canonical_is_fixed(normalized_source(s));
}

proof fn lemma_normalized_is_canonical(s: Seq<char>)
    ensures
        is_normalized_source(normalized_source(s)),
{
    let mapped = ascii_lower_seq(trim_seq(s)).map_values(|c: char| fingerprint_char(c));
    let sp = split_seq(mapped, '-');
    assert forall|k: int, j: int| 0 <= k < sp.len() && 0 <= j < sp[k].len() implies is_source_alnum(
        #[trigger] sp[k][j],
    ) by {
        lemma_split_chars(mapped, k, j);
    }
    lemma_non_empty_props(sp);
    lemma_join_normalized(non_empty_pieces(sp));
}

proof fn lemma_split_chars(m: Seq<char>, k: int, j: int)
    requires
        forall|i: int| 0 <= i < m.len() ==> is_source_alnum(#[trigger] m[i]) || m[i] == '-',
        0 <= k < split_seq(m, '-').len(),
        0 <= j < split_seq(m, '-')[k].len(),
    ensures
        is_source_alnum(split_seq(m, '-')[k][j]),
    decreases m.len(),
{
    if m.len() > 0 {
        let q = m.drop_last();
        let sq = split_seq(q, '-');
        let sp = split_seq(m, '-');
        crate::text::lemma_split_nonempty(q, '-');
        assert forall|i: int| 0 <= i < q.len() implies is_source_alnum(#[trigger] q[i]) || q[i] == '-' by {
            assert(q[i] == m[i]);
        }
        let x = m.last();
        assert(x == m[m.len() - 1]);
        if x == '-' {
            assert(sp == sq.push(Seq::<char>::empty()));
            assert(k < sq.len());
            assert(sp[k] == sq[k]);
            lemma_split_chars(q, k, j);
        } else {
            assert(sp == sq.update(sq.len() - 1, sq.last().push(x)));
            if k < sq.len() - 1 {
                assert(sp[k] == sq[k]);
                lemma_split_chars(q, k, j);
            } else if j < sq.last().len() {
                assert(sp[k][j] == sq[sq.len() - 1][j]);
                lemma_split_chars(q, sq.len() - 1, j);
            } else {
                assert(sp[k][j] == x);
            }
        }
    }
}

proof fn lemma_canonical_is_fixed(s: Seq<char>)
    ensures
        is_normalized_source(s) ==> normalized_source(s) == s,
{
    if is_normalized_source(s) {
        assert forall|i: int| 0 <= i < s.len() implies !crate::text::is_white_space(#[trigger] s[i]) by {
            assert(is_source_alnum(s[i]) || s[i] == '-');
        }
        if s.len() > 0 {
            assert(!crate::text::is_white_space(s[0]));
            assert(!crate::text::is_white_space(s[s.len() - 1]));
            assert(trim_start_seq(s) == s);
            assert(trim_end_seq(s) == s);
        } else {
            assert(trim_start_seq(s) == s);
            assert(trim_end_seq(s) == s);
        }
        assert(trim_seq(s) == s);
        assert(ascii_lower_seq(s) =~= s) by {
            assert forall|i: int| 0 <= i < s.len() implies #[trigger] ascii_lower_seq(s)[i] == s[i] by {
                assert(is_source_alnum(s[i]) || s[i] == '-');
            }
        }
        let mapped = s.map_values(|c: char| fingerprint_char(c));
        assert(mapped =~= s) by {
            assert forall|i: int| 0 <= i < s.len() implies #[trigger] mapped[i] == s[i] by {
                assert(is_source_alnum(s[i]) || s[i] == '-');
            }
        }
        lemma_split_pieces(s);
        lemma_split_join(s, '-');
        let sp = split_seq(s, '-');
        if s.len() > 0 {
            assert forall|k: int| 0 <= k < sp.len() implies (#[trigger] sp[k]).len() > 0 by {
                if k == sp.len() - 1 {
                    assert(sp[k] == sp.last());
                }
            }
            lemma_non_empty_all(sp);
        } else {
            assert(sp == seq![Seq::<char>::empty()]);
            assert(sp.len() == 1 && sp.last().len() == 0);
            assert(sp.drop_last().len() == 0);
            assert(non_empty_pieces(sp) == non_empty_pieces(sp.drop_last()));
            assert(non_empty_pieces(sp).len() == 0);
            assert(join_seq(non_empty_pieces(sp), seq!['-']) =~= s);
        }
    }
}

/// Brings an identifier into canonical form, so that `ABC-123` and `abc_123` agree.
pub fn normalize_fingerprint_source(value: &str) -> (r: String)
    ensures
        r@ == normalized_source(value@),
{
    let t = trim(value);
    let l = ascii_lowercase(t.as_str());
    let v = chars_of(l.as_str());
    let mut mapped: Vec<char> = Vec::new();
    let mut i: usize = 0;
    while i < v.len()
        invariant
            v@ == ascii_lower_seq(trim_seq(value@)),
            i <= v.len(),
            mapped@ =~= v@.take(i as int).map_values(|c: char| fingerprint_char(c)),
        decreases v.len() - i,
    {
        let c = v[i];
        let m = if ('a' <= c && c <= 'z') || ('0' <= c && c <= '9') {
            c
        } else {
            '-'
        };
        mapped.push(m);
        i = i + 1;
    }
    assert(v@.take(v.len() as int) =~= v@);
    let pieces = split_chars(&mapped, '-');
    let kept = keep_non_empty(&pieces);
    let mut sep: Vec<char> = Vec::new();
    sep.push('-');
    assert(sep@ =~= seq!['-']);
    let joined = join_chars(&kept, &sep);
    string_from_chars(&joined)
}

/// The SHA-256 digest of a byte sequence.
pub uninterp spec fn sha256_digest(data: Seq<u8>) -> Seq<u8>;

/// `sha2::Sha256::digest`: the result is the SHA-256 digest of the input, 32 bytes long.
#[verifier::external_body]
fn sha256(data: &[u8]) -> (r: Vec<u8>)
    ensures
        r@ == sha256_digest(data@),
        r@.len() == 32,
{
    Sha256::digest(data).to_vec()
}

/// A lower-case hexadecimal digit.
pub open spec fn hex_digit(n: int) -> char {
    if n < 10 {
        (48 + n) as char
    } else {
        (87 + n) as char
    }
}

/// Lower-case hexadecimal encoding, two digits per byte, high nibble first.
pub open spec fn hex_lower(data: Seq<u8>) -> Seq<char>
    decreases data.len(),
{
    if data.len() == 0 {
        Seq::<char>::empty()
    } else {
        hex_lower(data.drop_last()) + seq![hex_digit((data.last() / 16) as int), hex_digit((data.last() % 16) as int)]
    }
}

/// A text made only of lower-case hexadecimal digits.
pub open spec fn is_lower_hex(s: Seq<char>) -> bool {
    forall|i: int| 0 <= i < s.len() ==> ('0' <= #[trigger] s[i] <= '9') || ('a' <= s[i] <= 'f')
}

/// Hexadecimal encoding gives two lower-case digits per byte.
pub proof fn lemma_hex_lower_shape(data: Seq<u8>)
    ensures
        hex_lower(data).len() == 2 * data.len(),
        is_lower_hex(hex_lower(data)),
    decreases data.len(),
{
    if data.len() > 0 {
        lemma_hex_lower_shape(data.drop_last());
        let hi = (data.last() / 16) as int;
        let lo = (data.last() % 16) as int;
        assert(0 <= hi < 16 && 0 <= lo < 16);
        lemma_hex_digit(hi);
        lemma_hex_digit(lo);
        let prev = hex_lower(data.drop_last());
        let tail = seq![hex_digit(hi), hex_digit(lo)];
        assert(hex_lower(data) == prev + tail);
        assert forall|i: int| 0 <= i < (prev + tail).len() implies ('0' <= #[trigger] (prev
            + tail)[i] <= '9') || ('a' <= (prev + tail)[i] <= 'f') by {
            if i < prev.len() {
                assert((prev + tail)[i] == prev[i]);
            } else {
                assert((prev + tail)[i] == tail[i - prev.len()]);
            }
        }
    }
}

proof fn lemma_hex_digit(n: int)
    requires
        0 <= n < 16,
    ensures
        ('0' <= hex_digit(n) <= '9') || ('a' <= hex_digit(n) <= 'f'),
{
    if n < 10 {
        assert(48 <= 48 + n <= 57);
    } else {
        assert(97 <= 87 + n <= 102);
    }
}

/// `hex::encode`: lower-case hexadecimal, two digits per byte, high nibble first.
#[verifier::external_body]
fn hex_encode(data: &[u8]) -> (r: String)
    ensures
        r@ == hex_lower(data@),
{
    hex::encode(data)
}

/// The identifier parts that are hashed, in order: `machine-id=`, `board-serial=`,
/// `platform-uuid=` for each identifier present; `fallback=` with the seed (or
/// `unknown-device`) when none is.
pub open spec fn fingerprint_parts(m: FingerprintMaterial) -> Seq<Seq<char>> {
    let p1 = match m.machine_id {
        Some(v) => seq!["machine-id="@ + normalized_source(v@)],
        None => Seq::<Seq<char>>::empty(),
    };
    let p2 = match m.board_serial {
        Some(v) => p1.push("board-serial="@ + normalized_source(v@)),
        None => p1,
    };
    let p3 = match m.platform_uuid {
        Some(v) => p2.push("platform-uuid="@ + normalized_source(v@)),
        None => p2,
    };
    if p3.len() == 0 {
        let seed = match m.fallback_seed {
            Some(v) => v@,
            None => "unknown-device"@,
        };
        seq!["fallback="@ + normalized_source(seed)]
    } else {
        p3
    }
}

/// No hardware identifier was available.
pub open spec fn uses_fallback(m: FingerprintMaterial) -> bool {
    m.machine_id is None && m.board_serial is None && m.platform_uuid is None
}

/// The fingerprint string: hex of the SHA-256 of the parts joined by `|` (UTF-8).
pub open spec fn fingerprint_of(m: FingerprintMaterial) -> Seq<char> {
    hex_lower(sha256_digest(vstd::utf8::encode_utf8(join_seq(fingerprint_parts(m), "|"@))))
}

fn labelled(label: &str, value: &str) -> (r: String)
    ensures
        r@ == label@ + normalized_source(value@),
{
    let mut s = owned(label);
    let n = normalize_fingerprint_source(value);
    s.append(n.as_str());
    s
}

/// Builds the fingerprint of a host from the identifiers read from it.
pub fn build_device_fingerprint_from_material(material: FingerprintMaterial) -> (r: DeviceFingerprint)
    ensures
        r.device_fingerprint@ == fingerprint_of(material),
        r.device_fingerprint@.len() == 64,
        is_lower_hex(r.device_fingerprint@),
        r.fingerprint_version@ == (if uses_fallback(material) {
            "v1-fallback"@
        } else {
            "v1"@
        }),
        r.sources.machine_id == material.machine_id is Some,
        r.sources.board_serial == material.board_serial is Some,
        r.sources.platform_uuid == material.platform_uuid is Some,
        r.sources.fallback == uses_fallback(material),
{
    let mut parts: Vec<String> = Vec::new();
    if let Some(v) = &material.machine_id {
        parts.push(labelled("machine-id=", v.as_str()));
    }
    if let Some(v) = &material.board_serial {
        parts.push(labelled("board-serial=", v.as_str()));
    }
    if let Some(v) = &material.platform_uuid {
        parts.push(labelled("platform-uuid=", v.as_str()));
    }
    let fallback = parts.len() == 0;
    if fallback {
        let part = match &material.fallback_seed {
            Some(v) => labelled("fallback=", v.as_str()),
            None => labelled("fallback=", "unknown-device"),
        };
        parts.push(part);
    }
    assert(strings_view(parts@) =~= fingerprint_parts(material));
    let joined = join_strings(&parts, "|");
    let digest = sha256(joined.as_str().as_bytes());
    let device_fingerprint = hex_encode(digest.as_slice());
    proof {
        lemma_hex_lower_shape(digest@);
    }
    let fingerprint_version = if fallback {
        owned("v1-fallback")
    } else {
        owned("v1")
    };
    DeviceFingerprint {
        device_fingerprint,
        fingerprint_version,
        sources: DeviceFingerprintSources {
            machine_id: material.machine_id.is_some(),
            board_serial: material.board_serial.is_some(),
            platform_uuid: material.platform_uuid.is_some(),
            fallback,
        },
    }
}

/// Two hosts whose identifiers normalise alike get the same fingerprint.
pub proof fn lemma_fingerprint_depends_on_normalized_sources(a: FingerprintMaterial, b: FingerprintMaterial)
    requires
        a.machine_id is Some <==> b.machine_id is Some,
        a.board_serial is Some <==> b.board_serial is Some,
        a.platform_uuid is Some <==> b.platform_uuid is Some,
        a.machine_id is Some ==> normalized_source(a.machine_id->0@) == normalized_source(
            b.machine_id->0@,
        ),
        a.board_serial is Some ==> normalized_source(a.board_serial->0@) == normalized_source(
            b.board_serial->0@,
        ),
        a.platform_uuid is Some ==> normalized_source(a.platform_uuid->0@) == normalized_source(
            b.platform_uuid->0@,
        ),
        uses_fallback(a) ==> normalized_source(
            match a.fallback_seed {
                Some(v) => v@,
                None => "unknown-device"@,
            },
        ) == normalized_source(
            match b.fallback_seed {
                Some(v) => v@,
                None => "unknown-device"@,
            },
        ),
    ensures
        fingerprint_of(a) == fingerprint_of(b),
{
    assert(fingerprint_parts(a) =~= fingerprint_parts(b));
}

/// The UUID on an `ioreg` line naming `IOPlatformUUID`: the fourth `"`-separated field.
pub open spec fn uuid_of_line(l: Seq<char>) -> Option<Seq<char>> {
    if contains_seq(l, "IOPlatformUUID"@) && split_seq(l, '"').len() >= 4 {
        Some(split_seq(l, '"')[3])
    } else {
        None
    }
}

/// The UUID of the first line that carries one.
pub open spec fn first_uuid(lines: Seq<Seq<char>>) -> Option<Seq<char>>
    decreases lines.len(),
{
    if lines.len() == 0 {
        None
    } else {
        match uuid_of_line(lines[0]) {
            Some(u) => Some(u),
            None => first_uuid(lines.drop_first()),
        }
    }
}

/// The UUID that `ioreg -rd1 -c IOPlatformExpertDevice` prints, if any.
pub fn extract_ioplatform_uuid(output: &str) -> (r: Option<String>)
    ensures
        crate::config::opt_view(r) == first_uuid(lines_seq(output@)),
{
    let lines = text_lines(output);
    let ghost ls = strings_view(lines@);
    assert(ls.skip(0) =~= ls);
    let mut i: usize = 0;
    while i < lines.len()
        invariant
            ls == strings_view(lines@),
            ls == lines_seq(output@),
            i <= lines.len(),
            first_uuid(ls) == first_uuid(ls.skip(i as int)),
        decreases lines.len() - i,
    {
        let line = lines[i].as_str();
        proof {
            assert(ls.skip(i as int)[0] == ls[i as int]);
            assert(ls.skip(i as int).drop_first() =~= ls.skip(i + 1));
        }
        if contains(line, "IOPlatformUUID") {
            let fields = split_chars(&chars_of(line), '"');
            if fields.len() >= 4 {
                assert(pieces_view(fields@)[3] == fields@[3]@);
                return Some(string_from_chars(&fields[3]));
            }
        }
        i = i + 1;
    }
    None
}

/// The first readable identifier file with content, trimmed: `contents` holds what each
/// candidate file held, in order of preference (`None` where it could not be read).
pub open spec fn first_identifier(contents: Seq<Option<String>>) -> Option<Seq<char>>
    decreases contents.len(),
{
    if contents.len() == 0 {
        None
    } else {
        match contents[0] {
            Some(c) => if trim_seq(c@).len() > 0 {
                Some(trim_seq(c@))
            } else {
                first_identifier(contents.drop_first())
            },
            None => first_identifier(contents.drop_first()),
        }
    }
}

/// Picks the identifier from the candidate files (see `first_identifier`), as the agent
/// reads `/etc/machine-id` and then `/var/lib/dbus/machine-id`.
pub fn read_first_identifier(contents: &Vec<Option<String>>) -> (r: Option<String>)
    ensures
        crate::config::opt_view(r) == first_identifier(contents@),
{
    let mut i: usize = 0;
    assert(contents@.skip(0) =~= contents@);
    while i < contents.len()
        invariant
            i <= contents@.len(),
            first_identifier(contents@) == first_identifier(contents@.skip(i as int)),
        decreases contents@.len() - i,
    {
        assert(contents@.skip(i as int).drop_first() =~= contents@.skip(i + 1));
        if let Some(c) = &contents[i] {
            let t = trim(c.as_str());
            if t.as_str().unicode_len() > 0 {
                return Some(t);
            }
        }
        i = i + 1;
    }
    None
}

/// What was read from the host to identify it: the machine id (`/etc/machine-id` or the
/// Windows `MachineGuid`), a board serial, the macOS platform UUID, and the
/// `COMPUTERNAME` and `HOSTNAME` variables.
#[derive(Debug, Clone, Default)]
pub struct HostIdentifiers {
    pub machine_id: Option<String>,
    pub board_serial: Option<String>,
    pub platform_uuid: Option<String>,
    pub computer_name: Option<String>,
    pub host_name: Option<String>,
}

/// The fingerprint material of a host: its hardware identifiers; only when there is none,
/// a fallback seed from `COMPUTERNAME`, else `HOSTNAME`, else `unknown-host`.
pub open spec fn material_of(ids: HostIdentifiers) -> (
    Option<Seq<char>>,
    Option<Seq<char>>,
    Option<Seq<char>>,
    Option<Seq<char>>,
) {
    let opt = |o: Option<String>| match o {
        Some(s) => Some(s@),
        None => None,
    };
    (
        opt(ids.machine_id),
        opt(ids.board_serial),
        opt(ids.platform_uuid),
        if ids.machine_id is None && ids.platform_uuid is None && ids.board_serial is None {
            Some(
                match ids.computer_name {
                    Some(c) => c@,
                    None => match ids.host_name {
                        Some(h) => h@,
                        None => "unknown-host"@,
                    },
                },
            )
        } else {
            None
        },
    )
}

/// The material of a fingerprint as views.
pub open spec fn material_view(m: FingerprintMaterial) -> (
    Option<Seq<char>>,
    Option<Seq<char>>,
    Option<Seq<char>>,
    Option<Seq<char>>,
) {
    (
        crate::config::opt_view(m.machine_id),
        crate::config::opt_view(m.board_serial),
        crate::config::opt_view(m.platform_uuid),
        crate::config::opt_view(m.fallback_seed),
    )
}

/// Assembles the fingerprint material from what was read from the host (see
/// `material_of`).
pub fn collect_fingerprint_material(ids: HostIdentifiers) -> (r: FingerprintMaterial)
    ensures
        material_view(r) == material_of(ids),
{
    let none_found = ids.machine_id.is_none() && ids.platform_uuid.is_none() && ids.board_serial.is_none();
    let fallback_seed = if none_found {
        Some(
            match ids.computer_name {
                Some(c) => c,
                None => match ids.host_name {
                    Some(h) => h,
                    None => owned("unknown-host"),
                },
            },
        )
    } else {
        None
    };
    FingerprintMaterial {
        machine_id: ids.machine_id,
        board_serial: ids.board_serial,
        platform_uuid: ids.platform_uuid,
        fallback_seed,
    }
}

/// The fingerprint of a host from what was read from it: the material of
/// `collect_fingerprint_material`, fingerprinted by `build_device_fingerprint_from_material`.
pub fn collect_device_fingerprint(ids: HostIdentifiers) -> (r: DeviceFingerprint)
    ensures
        exists|m: FingerprintMaterial|
            #![trigger fingerprint_of(m)]
            material_view(m) == material_of(ids) && r.device_fingerprint@ == fingerprint_of(m)
                && r.fingerprint_version@ == (if uses_fallback(m) {
                "v1-fallback"@
            } else {
                "v1"@
            }) && r.sources.fallback == uses_fallback(m),
        r.sources.machine_id == ids.machine_id is Some,
        r.sources.board_serial == ids.board_serial is Some,
        r.sources.platform_uuid == ids.platform_uuid is Some,
        r.device_fingerprint@.len() == 64,
        is_lower_hex(r.device_fingerprint@),
{
    let material = collect_fingerprint_material(ids);
    let ghost m = material;
    let r = build_device_fingerprint_from_material(material);
    assert(material_view(m) == material_of(ids));
    r
}

} // verus!
