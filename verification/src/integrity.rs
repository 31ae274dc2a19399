//! SHA-256 digests of downloads: reading the digest a release source reports,
//! printing digests as hex, and checking a download against its digest while
//! it streams in.
use vstd::prelude::*;
use sha2::Digest;
use crate::text::{chars_of, string_of};
use crate::error::UpdateError;

verus! {

/// Whitespace as `char::is_whitespace` and `str::trim` read it: the
/// characters with the Unicode `White_Space` property.
pub open spec fn is_whitespace(c: char) -> bool {
    ||| c == '\t'
    ||| c == '\n'
    ||| c == '\u{0B}'
    ||| c == '\u{0C}'
    ||| c == '\r'
    ||| c == ' '
    ||| c == '\u{85}'
    ||| c == '\u{A0}'
    ||| c == '\u{1680}'
    ||| (0x2000 <= c as u32 && c as u32 <= 0x200A)
    ||| c == '\u{2028}'
    ||| c == '\u{2029}'
    ||| c == '\u{202F}'
    ||| c == '\u{205F}'
    ||| c == '\u{3000}'
}

/// `s` without its leading whitespace.
pub open spec fn trim_start(s: Seq<char>) -> Seq<char>
    decreases s.len(),
{
    if s.len() > 0 && is_whitespace(s[0]) {
        trim_start(s.drop_first())
    } else {
        s
    }
}

/// `s` without its trailing whitespace.
pub open spec fn trim_end(s: Seq<char>) -> Seq<char>
    decreases s.len(),
{
    if s.len() > 0 && is_whitespace(s.last()) {
        trim_end(s.drop_last())
    } else {
        s
    }
}

/// `s` without leading and trailing whitespace (`str::trim`).
pub open spec fn trim(s: Seq<char>) -> Seq<char> {
    trim_end(trim_start(s))
}

/// The ASCII lower-case form of a character; other characters are kept.
pub open spec fn ascii_lower(c: char) -> char {
    if 'A' <= c && c <= 'Z' {
        ((c as u32) + 32) as char
    } else {
        c
    }
}

/// The ASCII lower-case form of a text (`str::to_ascii_lowercase`).
pub open spec fn ascii_lowercase(s: Seq<char>) -> Seq<char> {
    s.map_values(|c: char| ascii_lower(c))
}

/// Two texts are equal when ASCII letters are compared without case
/// (`str::eq_ignore_ascii_case`).
pub open spec fn eq_ignore_ascii_case(a: Seq<char>, b: Seq<char>) -> bool {
    a.len() == b.len() && forall|i: int| 0 <= i < a.len() ==> ascii_lower(a[i]) == ascii_lower(b[i])
}

/// The digest a release source reports as `sha256:<hex>`, as trimmed
/// lower-case hex; `None` for any other (or no) algorithm.
pub open spec fn sha256_from_digest_field(digest: Seq<char>) -> Option<Seq<char>> {
    if "sha256:"@.is_prefix_of(digest) {
        Some(ascii_lowercase(trim(digest.skip(7))))
    } else {
        None
    }
}

/// The lower-case hex digit of `d` (for `d < 16`).
pub open spec fn hex_digit(d: int) -> char {
    if d < 10 {
        (48 + d) as char
    } else {
        (87 + d) as char
    }
}

/// Bytes as lower-case hex, two digits per byte, most significant first.
pub open spec fn hex_lower(bytes: Seq<u8>) -> Seq<char>
    decreases bytes.len(),
{
    if bytes.len() == 0 {
        Seq::empty()
    } else {
        hex_lower(bytes.drop_last()) + seq![
            hex_digit(bytes.last() as int / 16),
            hex_digit(bytes.last() as int % 16),
        ]
    }
}

fn is_whitespace_char(c: char) -> (r: bool)
    ensures
        r == is_whitespace(c),
{
    let u = c as u32;
    c == '\t' || c == '\n' || c == '\u{0B}' || c == '\u{0C}' || c == '\r' || c == ' ' || c
        == '\u{85}' || c == '\u{A0}' || c == '\u{1680}' || (0x2000 <= u && u <= 0x200A) || c
        == '\u{2028}' || c == '\u{2029}' || c == '\u{202F}' || c == '\u{205F}' || c == '\u{3000}'
}

fn to_ascii_lower(c: char) -> (r: char)
    ensures
        r == ascii_lower(c),
{
    if 'A' <= c && c <= 'Z' {
        let b = c as u8;
        (b + 32) as char
    } else {
        c
    }
}

/// The characters `cs[from..]`, without leading and trailing whitespace.
fn trimmed(cs: &[char], from: usize) -> (r: Vec<char>)
    requires
        from <= cs.len(),
    ensures
        r@ == trim(cs@.skip(from as int)),
{
    let ghost s = cs@.skip(from as int);
    let mut a: usize = from;
    while a < cs.len() && is_whitespace_char(cs[a])
        invariant
            from <= a <= cs.len(),
            s == cs@.skip(from as int),
            trim_start(s) == trim_start(cs@.skip(a as int)),
        decreases cs.len() - a,
    {
        assert(cs@.skip(a as int).drop_first() =~= cs@.skip(a + 1));
        a = a + 1;
    }
    let ghost front = cs@.skip(a as int);
    assert(trim_start(front) == front);
    let mut b: usize = cs.len();
    while b > a && is_whitespace_char(cs[b - 1])
        invariant
            a <= b <= cs.len(),
            front == cs@.skip(a as int),
            trim_end(front) == trim_end(cs@.subrange(a as int, b as int)),
        decreases b,
    {
        assert(cs@.subrange(a as int, b as int).drop_last() =~= cs@.subrange(a as int, b - 1));
        b = b - 1;
    }
    assert(front =~= cs@.subrange(a as int, cs.len() as int));
    let mut out: Vec<char> = Vec::new();
    let mut i: usize = a;
    while i < b
        invariant
            a <= i <= b <= cs.len(),
            out@ == cs@.subrange(a as int, i as int),
        decreases b - i,
    {
        out.push(cs[i]);
        assert(cs@.subrange(a as int, i + 1) =~= cs@.subrange(a as int, i as int).push(cs@[i as int]));
        i = i + 1;
    }
    out
}

/// Read a reported asset digest such as `sha256:ABCdef`: the hex after
/// `sha256:`, trimmed and in lower case, or `None` when the digest is of
/// another algorithm (or empty).
pub fn parse_sha256_digest(digest: &str) -> (r: Option<String>)
    ensures
        opt_chars(r) == sha256_from_digest_field(digest@),
{
    let cs = chars_of(digest);
    let prefix = chars_of("sha256:");
    proof {
        reveal_strlit("sha256:");
    }
    if cs.len() < prefix.len() {
        return None;
    }
    let mut i: usize = 0;
    while i < prefix.len()
        invariant
            prefix@ == "sha256:"@,
            cs@ == digest@,
            prefix.len() <= cs.len(),
            i <= prefix.len(),
            forall|k: int| 0 <= k < i ==> prefix@[k] == cs@[k],
        decreases prefix.len() - i,
    {
        if prefix[i] != cs[i] {
            return None;
        }
        i = i + 1;
    }
    let t = trimmed(cs.as_slice(), 7);
    let mut lowered: Vec<char> = Vec::new();
    let mut j: usize = 0;
    while j < t.len()
        invariant
            j <= t.len(),
            lowered@ == ascii_lowercase(t@.take(j as int)),
        decreases t.len() - j,
    {
        lowered.push(to_ascii_lower(t[j]));
        assert(ascii_lowercase(t@.take(j + 1)) =~= ascii_lowercase(t@.take(j as int)).push(
            ascii_lower(t@[j as int]),
        ));
        j = j + 1;
    }
    assert(t@.take(t.len() as int) =~= t@);
    Some(string_of(lowered.as_slice()))
}

pub open spec fn opt_chars(s: Option<String>) -> Option<Seq<char>> {
    match s {
        Some(x) => Some(x@),
        None => None,
    }
}

fn hex_digit_char(d: u8) -> (r: char)
    requires
        d < 16,
    ensures
        r == hex_digit(d as int),
{
    if d < 10 {
        (48 + d) as char
    } else {
        (87 + d) as char
    }
}

/// Encode bytes as lower-case hexadecimal.
pub fn to_hex(bytes: &[u8]) -> (r: String)
    ensures
        r@ == hex_lower(bytes@),
{
    let mut out: Vec<char> = Vec::new();
    let mut i: usize = 0;
    while i < bytes.len()
        invariant
            i <= bytes.len(),
            out@ == hex_lower(bytes@.take(i as int)),
        decreases bytes.len() - i,
    {
        let b = bytes[i];
        out.push(hex_digit_char(b / 16));
        out.push(hex_digit_char(b % 16));
        assert(bytes@.take(i + 1).drop_last() =~= bytes@.take(i as int));
        i = i + 1;
    }
    assert(bytes@.take(bytes.len() as int) =~= bytes@);
    string_of(out.as_slice())
}

/// Compare two texts ignoring the case of ASCII letters.
pub fn equal_ignoring_ascii_case(a: &str, b: &str) -> (r: bool)
    ensures
        r == eq_ignore_ascii_case(a@, b@),
{
    let x = chars_of(a);
    let y = chars_of(b);
    if x.len() != y.len() {
        return false;
    }
    let mut i: usize = 0;
    while i < x.len()
        invariant
            x.len() == y.len(),
            x@ == a@,
            y@ == b@,
            i <= x.len(),
            forall|k: int| 0 <= k < i ==> ascii_lower(x@[k]) == ascii_lower(y@[k]),
        decreases x.len() - i,
    {
        if to_ascii_lower(x[i]) != to_ascii_lower(y[i]) {
            return false;
        }
        i = i + 1;
    }
    true
}

/// A `sha2::Sha256` hasher, held in a private field. The hasher is opaque:
/// what is known of it is the bytes it has taken in, `sha256_input`.
#[verifier::external_body]
pub struct Sha256Hasher {
    inner: sha2::Sha256,
}

/// The bytes a hasher has taken in so far.
pub uninterp spec fn sha256_input(hasher: Sha256Hasher) -> Seq<u8>;

/// The SHA-256 digest of a byte sequence, as `sha2` computes it.
pub uninterp spec fn sha256(data: Seq<u8>) -> Seq<u8>;

/// Calls `Sha256::new` (`Digest::new`): a hasher that has taken in nothing.
#[verifier::external_body]
fn sha256_start() -> (h: Sha256Hasher)
    ensures
        sha256_input(h) == Seq::<u8>::empty(),
{
    Sha256Hasher { inner: sha2::Sha256::new() }
}

/// Calls `Digest::update`: the hasher takes in `data` after what it held.
#[verifier::external_body]
fn sha256_take_in(h: &mut Sha256Hasher, data: &[u8])
    ensures
        sha256_input(*final(h)) == sha256_input(*old(h)) + data@,
{
    h.inner.update(data)
}

/// Calls `Digest::finalize`: the 32-byte SHA-256 digest of all the hasher took in.
#[verifier::external_body]
fn sha256_finish(h: Sha256Hasher) -> (r: Vec<u8>)
    ensures
        r@ == sha256(sha256_input(h)),
        r@.len() == 32,
{
    h.inner.finalize().to_vec()
}

/// Checks a download against the SHA-256 digest its source reported while the
/// bytes stream in.
pub struct DownloadCheck {
    hasher: Sha256Hasher,
    expected: Option<String>,
}

impl DownloadCheck {
    /// The bytes taken in so far.
    pub closed spec fn received(&self) -> Seq<u8> {
        sha256_input(self.hasher)
    }

    /// The digest the download must have, as reported by its source.
    pub closed spec fn expected(&self) -> Option<Seq<char>> {
        opt_chars(self.expected)
    }

    /// A check of a download whose source reported `expected` (hex) as its
    /// SHA-256 digest, or reported none.
    pub fn new(expected: Option<&str>) -> (r: DownloadCheck)
        ensures
            r.received() == Seq::<u8>::empty(),
            r.expected() == (match expected {
                Some(e) => Some(e@),
                None => None,
            }),
    {
        let expected = match expected {
            Some(e) => Some(string_of(chars_of(e).as_slice())),
            None => None,
        };
        DownloadCheck { hasher: sha256_start(), expected }
    }

    /// Take in the next chunk of the download.
    pub fn take_in(&mut self, chunk: &[u8])
        ensures
            final(self).received() == old(self).received() + chunk@,
            final(self).expected() == old(self).expected(),
    {
        sha256_take_in(&mut self.hasher, chunk);
    }

    /// Whether the download is intact: always when no digest was reported,
    /// otherwise exactly when the hex of the SHA-256 of all bytes taken in
    /// equals the reported digest, ignoring ASCII case. A mismatch names both
    /// digests.
    pub fn finish(self) -> (r: Result<(), UpdateError>)
        ensures
            self.expected() is None ==> r is Ok,
            self.expected() matches Some(e) ==> {
                &&& (r is Ok <==> eq_ignore_ascii_case(hex_lower(sha256(self.received())), e))
                &&& r matches Err(err) ==> err@ == (crate::error::UpdateErrorView::IntegrityMismatch {
                    expected: e,
                    actual: hex_lower(sha256(self.received())),
                })
            },
    {
        let digest = sha256_finish(self.hasher);
        match self.expected {
            None => Ok(()),
            Some(expected) => {
                let actual = to_hex(digest.as_slice());
                if equal_ignoring_ascii_case(actual.as_str(), expected.as_str()) {
                    Ok(())
                } else {
                    Err(UpdateError::IntegrityMismatch { expected, actual })
                }
            },
        }
    }
}

/// Every character of the hex form of bytes is a lower-case hex digit.
proof fn lemma_hex_digits(bytes: Seq<u8>)
    ensures
        forall|i: int|
            0 <= i < hex_lower(bytes).len() ==> {
                let c = #[trigger] hex_lower(bytes)[i];
                ('0' <= c && c <= '9') || ('a' <= c && c <= 'f')
            },
        hex_lower(bytes).len() == 2 * bytes.len(),
    decreases bytes.len(),
{
    if bytes.len() > 0 {
        lemma_hex_digits(bytes.drop_last());
        let h = hex_lower(bytes.drop_last());
        assert forall|i: int| 0 <= i < hex_lower(bytes).len() implies {
            let c = #[trigger] hex_lower(bytes)[i];
            ('0' <= c && c <= '9') || ('a' <= c && c <= 'f')
        } by {
            if i < h.len() {
                assert(hex_lower(bytes)[i] == h[i]);
            }
        }
    }
}

/// The hex digits are `0123456789abcdef`, in that order.
pub proof fn law_hex_digits_are_lower_case(d: int)
    requires
        0 <= d < 16,
    ensures
        hex_digit(d) == "0123456789abcdef"@[d],
{
    reveal_strlit("0123456789abcdef");
}

/// Hex encoding writes each byte as two digits in place: byte `i` becomes the
/// digits at `2i` (its high half) and `2i + 1` (its low half), e.g. `0x4d`
/// is `4d`.
pub proof fn law_hex_writes_each_byte_in_place(bytes: Seq<u8>)
    ensures
        hex_lower(bytes).len() == 2 * bytes.len(),
        forall|i: int|
            0 <= i < bytes.len() ==> hex_lower(bytes)[2 * i] == hex_digit(#[trigger] bytes[i] as int / 16)
                && hex_lower(bytes)[2 * i + 1] == hex_digit(bytes[i] as int % 16),
    decreases bytes.len(),
{
    lemma_hex_digits(bytes);
    if bytes.len() > 0 {
        let prev = bytes.drop_last();
        law_hex_writes_each_byte_in_place(prev);
        lemma_hex_digits(prev);
        assert forall|i: int| 0 <= i < bytes.len() implies hex_lower(bytes)[2 * i] == hex_digit(
            #[trigger] bytes[i] as int / 16,
        ) && hex_lower(bytes)[2 * i + 1] == hex_digit(bytes[i] as int % 16) by {
            if i < prev.len() {
                assert(prev[i] == bytes[i]);
                assert(hex_lower(bytes)[2 * i] == hex_lower(prev)[2 * i]);
                assert(hex_lower(bytes)[2 * i + 1] == hex_lower(prev)[2 * i + 1]);
            }
        }
    }
}

/// A digest printed as hex and reported as `sha256:<hex>` reads back as the
/// same hex; and a download checked against the hex of its own SHA-256 passes.
pub proof fn law_hex_digest_reads_back(bytes: Seq<u8>)
    ensures
        sha256_from_digest_field("sha256:"@ + hex_lower(bytes)) == Some(hex_lower(bytes)),
        eq_ignore_ascii_case(hex_lower(bytes), hex_lower(bytes)),
{
    reveal_strlit("sha256:");
    let h = hex_lower(bytes);
    lemma_hex_digits(bytes);
    let d = "sha256:"@ + h;
    assert("sha256:"@.is_prefix_of(d)) by {
        assert("sha256:"@ =~= d.subrange(0, 7));
    }
    assert(d.skip(7) =~= h);
    if h.len() > 0 {
        assert(!is_whitespace(h[0]));
        assert(!is_whitespace(h.last()));
    }
    assert(trim_start(h) == h);
    assert(trim_end(h) == h);
    assert(ascii_lowercase(h) =~= h);
}

} // verus!
