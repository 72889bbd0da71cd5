//! `ANSI_STRING` and `UNICODE_STRING` as the kernel builds them.
//!
//! A counted kernel string is a byte length, a maximum length and a buffer.
//! Here the buffer is owned: it holds the `max_len` bytes (ANSI) or the
//! `max_len / 2` UTF-16 units (Unicode) that the string describes.
use vstd::prelude::*;
use vstd::slice::slice_index_get;
use vstd::string::StringSliceAdditionalSpecFns;

verus! {

/// The longest counted string the run-time library builds, in bytes
/// (`MAX_USTRING`).
pub const MAX_USTRING: u32 = 65534;

/// Number of elements before the first `nul` (the whole length if there is
/// none): `strlen` and `wcslen`.
pub open spec fn nul_len<T>(s: Seq<T>, nul: T) -> nat
    decreases s.len(),
{
    if s.len() == 0 {
        0
    } else if s[0] == nul {
        0
    } else {
        1 + nul_len(s.drop_first(), nul)
    }
}

/// `nul` occurs in `s`.
pub open spec fn has_nul<T>(s: Seq<T>, nul: T) -> bool {
    exists|i: int| 0 <= i < s.len() && s[i] == nul
}

/// The first `i` elements hold no `nul`, so the `nul`-terminated length is at
/// least `i`, and it is `i` when element `i` is `nul` or the sequence ends.
pub proof fn lemma_nul_len<T>(s: Seq<T>, nul: T, i: int)
    requires
        0 <= i <= s.len(),
        forall|j: int| 0 <= j < i ==> s[j] != nul,
    ensures
        nul_len(s, nul) >= i,
        nul_len(s, nul) <= s.len(),
        i == s.len() ==> nul_len(s, nul) == i,
        i < s.len() && s[i] == nul ==> nul_len(s, nul) == i,
    decreases i,
{
    if i == 0 {
        lemma_nul_len_bound(s, nul);
    } else {
        assert(s[0] != nul);
        assert forall|j: int| 0 <= j < i - 1 implies s.drop_first()[j] != nul by {
            assert(s.drop_first()[j] == s[j + 1]);
        }
        lemma_nul_len(s.drop_first(), nul, i - 1);
        if i < s.len() {
            assert(s.drop_first()[i - 1] == s[i]);
        }
    }
}

/// The `nul`-terminated length never exceeds the length of the sequence.
pub proof fn lemma_nul_len_bound<T>(s: Seq<T>, nul: T)
    ensures
        nul_len(s, nul) <= s.len(),
    decreases s.len(),
{
    if s.len() > 0 && s[0] != nul {
        lemma_nul_len_bound(s.drop_first(), nul);
    }
}

/// When the sequence holds a `nul`, the terminated length stops before its
/// end at a `nul`.
pub proof fn lemma_nul_len_found<T>(s: Seq<T>, nul: T)
    requires
        has_nul(s, nul),
    ensures
        nul_len(s, nul) < s.len(),
        s[nul_len(s, nul) as int] == nul,
    decreases s.len(),
{
    if s[0] != nul {
        let i = choose|i: int| 0 <= i < s.len() && s[i] == nul;
        assert(s.drop_first()[i - 1] == nul);
        lemma_nul_len_found(s.drop_first(), nul);
        assert(s[nul_len(s, nul) as int] == s.drop_first()[nul_len(s.drop_first(), nul) as int]);
    }
}

/// The bytes an `AnsiString` is built over: the input, with a terminating zero
/// added when its last byte is not zero.
pub open spec fn nul_terminated(bytes: Seq<u8>) -> Seq<u8> {
    if bytes.last() != 0 {
        bytes.push(0)
    } else {
        bytes
    }
}

/// What `RtlInitAnsiString` records for a zero-terminated copy of `bytes`:
/// the length up to the first zero byte, capped at `MAX_USTRING`, a maximum
/// length one larger, and the bytes of the string with its terminator.
pub open spec fn ansi_init(bytes: Seq<u8>) -> (u16, u16, Seq<u8>) {
    let t = nul_terminated(bytes);
    let n = nul_len(t, 0u8);
    let l: int = if n > MAX_USTRING { MAX_USTRING as int } else { n as int };
    (l as u16, (l + 1) as u16, t.subrange(0, l + 1))
}

/// The string that `ansi_init` describes always holds its text and the byte
/// after it.
pub proof fn lemma_ansi_init_len(bytes: Seq<u8>)
    requires
        bytes.len() > 0,
    ensures
        ansi_init(bytes).0 < ansi_init(bytes).2.len(),
        ansi_init(bytes).2.len() == ansi_init(bytes).0 + 1,
        ansi_init(bytes).1 == ansi_init(bytes).0 + 1,
{
    let t = nul_terminated(bytes);
    assert(t[t.len() - 1] == 0u8);
    assert(has_nul(t, 0u8));
    lemma_nul_len_found(t, 0u8);
}

/// Widens each byte of an ANSI string to one UTF-16 unit.
pub open spec fn widen(bytes: Seq<u8>) -> Seq<u16> {
    bytes.map_values(|b: u8| b as u16)
}

/// What `RtlAnsiStringToUnicodeString` with an allocated destination builds
/// from an ANSI string of length `len` over `buffer`, as far as it is fixed:
/// an empty string when the result would need more than `MAX_USTRING`
/// bytes; otherwise `len` units and a terminating zero, in which every ASCII
/// byte (below 0x80) becomes the same unit and a unit is zero exactly when
/// its byte is. A byte of 0x80 or above is converted through the system's
/// ANSI code page to a non-zero unit that is otherwise left open.
pub open spec fn is_unicode_of_ansi(len: u16, buffer: Seq<u8>, u: (u16, u16, Seq<u16>)) -> bool {
    let size: int = (len as int + 1) * 2;
    if size > MAX_USTRING {
        u == (0u16, 0u16, Seq::<u16>::empty())
    } else {
        &&& u.0 == size - 2
        &&& u.1 == size
        &&& u.2.len() == len + 1
        &&& u.2[len as int] == 0u16
        &&& forall|i: int|
            #![trigger u.2[i]]
            0 <= i < len && buffer[i] < 0x80 ==> u.2[i] == buffer[i] as u16
        &&& forall|i: int| #![trigger u.2[i]] 0 <= i < len ==> ((u.2[i] == 0u16) == (buffer[i] == 0u8))
    }
}

/// Converting an ANSI text without zero bytes keeps its length as text: the
/// converted string's units up to its first zero are exactly one per byte,
/// so every character survives, whatever the code page makes of it.
pub proof fn lemma_converted_text_keeps_length(len: u16, buffer: Seq<u8>, u: (u16, u16, Seq<u16>))
    requires
        (len as int + 1) * 2 <= MAX_USTRING,
        len <= buffer.len(),
        forall|i: int| 0 <= i < len ==> buffer[i] != 0u8,
        is_unicode_of_ansi(len, buffer, u),
    ensures
        nul_len(u.2, 0u16) == len,
        u.0 == 2 * len,
{
    assert forall|j: int| 0 <= j < len implies u.2[j] != 0u16 by {
        assert(buffer[j] != 0u8);
    }
    lemma_nul_len(u.2, 0u16, len as int);
}

/// What `RtlCreateUnicodeString` builds from a zero-terminated UTF-16 source:
/// an empty string when the copy with its terminator would exceed
/// `MAX_USTRING` bytes, else the units up to and including the first zero.
pub open spec fn unicode_create(src: Seq<u16>) -> (u16, u16, Seq<u16>) {
    let w = nul_len(src, 0u16);
    let cb: int = (w as int + 1) * 2;
    if cb > MAX_USTRING {
        (0u16, 0u16, Seq::empty())
    } else {
        ((cb - 2) as u16, cb as u16, src.subrange(0, w as int + 1))
    }
}

/// The character whose scalar value is `cp`.
pub open spec fn code_point_char(cp: int) -> char {
    cp as char
}

/// `cp` is a Unicode scalar value.
pub open spec fn is_scalar_value(cp: int) -> bool {
    (0 <= cp < 0xD800) || (0xDFFF < cp <= 0x10FFFF)
}

/// `u` is a high (leading) surrogate.
pub open spec fn is_high_surrogate(u: u16) -> bool {
    0xD800 <= u <= 0xDBFF
}

/// `u` is a low (trailing) surrogate.
pub open spec fn is_low_surrogate(u: u16) -> bool {
    0xDC00 <= u <= 0xDFFF
}

/// The scalar value encoded by a surrogate pair.
pub open spec fn surrogate_pair_value(hi: u16, lo: u16) -> int {
    0x10000 + (hi - 0xD800) * 0x400 + (lo - 0xDC00)
}

/// Prepends `p` to a decoded tail, keeping a failed decoding failed.
pub open spec fn prepend_decoded(p: Seq<char>, tail: Option<Seq<char>>) -> Option<Seq<char>> {
    match tail {
        Some(t) => Some(p + t),
        None => None,
    }
}

/// Decodes UTF-16: every unit outside the surrogate range is one character,
/// a high surrogate followed by a low surrogate is one supplementary
/// character, and any other surrogate makes the whole input invalid.
pub open spec fn utf16_decode(s: Seq<u16>) -> Option<Seq<char>>
    decreases s.len(),
{
    if s.len() == 0 {
        Some(Seq::empty())
    } else if !(0xD800 <= s[0] <= 0xDFFF) {
        prepend_decoded(seq![code_point_char(s[0] as int)], utf16_decode(s.drop_first()))
    } else if is_high_surrogate(s[0]) && s.len() >= 2 && is_low_surrogate(s[1]) {
        prepend_decoded(
            seq![code_point_char(surrogate_pair_value(s[0], s[1]))],
            utf16_decode(s.subrange(2, s.len() as int)),
        )
    } else {
        None
    }
}

/// The text of a UTF-16 buffer: its decoding, or the empty text when it is
/// not valid UTF-16.
pub open spec fn utf16_text(s: Seq<u16>) -> Seq<char> {
    match utf16_decode(s) {
        Some(t) => t,
        None => Seq::empty(),
    }
}

/// Every byte is a non-zero ASCII character.
pub open spec fn is_plain_ascii(b: Seq<u8>) -> bool {
    forall|i: int| 0 <= i < b.len() ==> 0 < #[trigger] b[i] < 0x80
}

/// The characters that ASCII bytes encode.
pub open spec fn ascii_chars(b: Seq<u8>) -> Seq<char> {
    b.map_values(|x: u8| code_point_char(x as int))
}

/// Widened ASCII bytes decode as UTF-16 to the characters they encode.
pub proof fn lemma_decode_widened_ascii(b: Seq<u8>)
    requires
        forall|i: int| 0 <= i < b.len() ==> #[trigger] b[i] < 0x80,
    ensures
        utf16_decode(widen(b)) == Some(ascii_chars(b)),
    decreases b.len(),
{
    if b.len() > 0 {
        let w = widen(b);
        assert(w[0] == b[0] as u16);
        assert(w.drop_first() =~= widen(b.drop_first()));
        lemma_decode_widened_ascii(b.drop_first());
        assert(seq![code_point_char(w[0] as int)] + ascii_chars(b.drop_first()) =~= ascii_chars(b));
    } else {
        assert(widen(b) =~= Seq::<u16>::empty());
        assert(ascii_chars(b) =~= Seq::<char>::empty());
    }
}

/// Turning non-empty ASCII text with no zero byte and at most 32766
/// characters into an ANSI string, converting that to a Unicode string `u`,
/// and reading `u` back as text gives the original characters.
pub proof fn lemma_ascii_round_trip(b: Seq<u8>, u: (u16, u16, Seq<u16>))
    requires
        0 < b.len() <= 32766,
        is_plain_ascii(b),
        is_unicode_of_ansi(ansi_init(b).0, ansi_init(b).2, u),
    ensures
        utf16_text(u.2.subrange(0, (u.0 / 2) as int)) == ascii_chars(b),
{
    let t = nul_terminated(b);
    assert(b[b.len() - 1] > 0);
    assert(t == b.push(0u8));
    assert forall|j: int| 0 <= j < b.len() implies t[j] != 0u8 by {
        assert(t[j] == b[j]);
        assert(0 < b[j]);
    }
    lemma_nul_len(t, 0u8, b.len() as int);
    let a = ansi_init(b);
    assert(a.0 == b.len());
    assert(a.2 =~= b.push(0u8));
    assert forall|i: int| 0 <= i < b.len() implies #[trigger] u.2[i] == b[i] as u16 by {
        assert(a.2[i] == b[i]);
        assert(b[i] < 0x80);
    }
    assert(u.2.subrange(0, (u.0 / 2) as int) =~= widen(b));
    lemma_decode_widened_ascii(b);
}

/// Copying zero-terminated UTF-16 text of at most 32766 units with
/// `RtlCreateUnicodeString` and reading the copy back gives the text of the
/// units before the terminator.
pub proof fn lemma_utf16_copy_round_trip(units: Seq<u16>)
    requires
        units.len() <= 32766,
        forall|i: int| 0 <= i < units.len() ==> #[trigger] units[i] != 0u16,
    ensures
        ({
            let u = unicode_create(units.push(0u16));
            utf16_text(u.2.subrange(0, (u.0 / 2) as int)) == utf16_text(units)
        }),
{
    let src = units.push(0u16);
    assert forall|j: int| 0 <= j < units.len() implies src[j] != 0u16 by {
        assert(src[j] == units[j]);
    }
    lemma_nul_len(src, 0u16, units.len() as int);
    let u = unicode_create(src);
    assert(u.2.subrange(0, (u.0 / 2) as int) =~= units);
}

/// `char::from_u32`: the character with scalar value `v`, or `None` for a
/// surrogate or a value above `0x10FFFF`, as the standard library documents.
#[verifier::external_body]
fn char_from_u32(v: u32) -> (r: Option<char>)
    ensures
        r == (if is_scalar_value(v as int) { Some(code_point_char(v as int)) } else { None }),
{
    char::from_u32(v)
}

/// `String::push`: appends one character, as the standard library documents.
#[verifier::external_body]
fn string_push(s: &mut String, c: char)
    ensures
        final(s)@ == old(s)@.push(c),
{
    s.push(c)
}

/// An `ANSI_STRING`: `len` bytes of text in a buffer of `max_len` bytes.
pub struct AnsiString {
    pub len: u16,
    pub max_len: u16,
    pub buffer: Vec<u8>,
}

impl View for AnsiString {
    type V = (u16, u16, Seq<u8>);

    open spec fn view(&self) -> (u16, u16, Seq<u8>) {
        (self.len, self.max_len, self.buffer@)
    }
}

impl Default for AnsiString {
    /// The empty string with no buffer.
    fn default() -> (r: Self)
        ensures
            r@ == (0u16, 0u16, Seq::<u8>::empty()),
    {
        AnsiString { len: 0, max_len: 0, buffer: Vec::new() }
    }
}

impl AnsiString {
    /// Builds an ANSI string over a zero-terminated copy of `buffer`, as
    /// `RtlInitAnsiString` describes it. The input must not be empty.
    pub fn create(buffer: &[u8]) -> (r: AnsiString)
        requires
            buffer@.len() > 0,
        ensures
            r@ == ansi_init(buffer@),
    {
        let n = buffer.len();
        let ghost t = nul_terminated(buffer@);
        assert forall|j: int| 0 <= j < n implies t[j] == buffer@[j] by {}
        let mut i: usize = 0;
        while i < n && *slice_index_get(buffer, i) != 0 && i < 65534
            invariant
                n == buffer@.len(),
                0 <= i <= n,
                i <= 65534,
                t == nul_terminated(buffer@),
                forall|j: int| 0 <= j < n ==> t[j] == buffer@[j],
                forall|j: int| 0 <= j < i ==> buffer@[j] != 0,
            decreases n - i,
        {
            i = i + 1;
        }
        let l = i;
        proof {
            assert(t.len() == n || t.len() == n + 1);
            assert(t[t.len() - 1] == 0);
            assert forall|j: int| 0 <= j < l implies t[j] != 0u8 by {}
            lemma_nul_len(t, 0u8, l as int);
            if l < n && buffer@[l as int] == 0 {
                assert(nul_len(t, 0u8) == l);
            } else if l == n {
                assert(buffer@.last() != 0);
                assert(t.len() == n + 1);
                assert(nul_len(t, 0u8) == l);
            } else {
                assert(l == 65534);
            }
        }
        let mut out: Vec<u8> = Vec::new();
        let mut j: usize = 0;
        while j < l
            invariant
                l <= n,
                l <= 65534,
                n == buffer@.len(),
                0 <= j <= l,
                out@ == buffer@.subrange(0, j as int),
            decreases l - j,
        {
            out.push(*slice_index_get(buffer, j));
            j = j + 1;
            assert(out@ =~= buffer@.subrange(0, j as int));
        }
        let last: u8 = if l < n { *slice_index_get(buffer, l) } else { 0 };
        out.push(last);
        proof {
            assert(out@ =~= t.subrange(0, l + 1));
        }
        AnsiString { len: l as u16, max_len: (l + 1) as u16, buffer: out }
    }

    /// Builds an ANSI string over the UTF-8 bytes of a non-empty text.
    pub fn from_str(text: &str) -> (r: AnsiString)
        requires
            text.spec_bytes().len() > 0,
        ensures
            r@ == ansi_init(text.spec_bytes()),
    {
        AnsiString::create(text.as_bytes())
    }
}

/// A `UNICODE_STRING`: `len` bytes of UTF-16 text in a buffer of `max_len`
/// bytes, that is `max_len / 2` units.
pub struct UnicodeString {
    pub len: u16,
    pub max_len: u16,
    pub buffer: Vec<u16>,
}

impl View for UnicodeString {
    type V = (u16, u16, Seq<u16>);

    open spec fn view(&self) -> (u16, u16, Seq<u16>) {
        (self.len, self.max_len, self.buffer@)
    }
}

impl Default for UnicodeString {
    /// The empty string with no buffer.
    fn default() -> (r: Self)
        ensures
            r@ == (0u16, 0u16, Seq::<u16>::empty()),
    {
        UnicodeString { len: 0, max_len: 0, buffer: Vec::new() }
    }
}

impl UnicodeString {
    /// The UTF-16 units of the text: the first `len / 2` units of the buffer.
    pub open spec fn text_units(&self) -> Seq<u16> {
        self.buffer@.subrange(0, (self.len / 2) as int)
    }

    /// The text as a Rust string.
    pub open spec fn spec_text(&self) -> Seq<char> {
        utf16_text(self.text_units())
    }

    /// Builds the Unicode string of a non-empty text: the text's UTF-8 bytes
    /// become an ANSI string, which is then converted to Unicode.
    pub fn create(buffer: &str) -> (r: UnicodeString)
        requires
            buffer.spec_bytes().len() > 0,
        ensures
            is_unicode_of_ansi(ansi_init(buffer.spec_bytes()).0, ansi_init(buffer.spec_bytes()).2, r@),
    {
        let ansi = AnsiString::from_str(buffer);
        proof {
            lemma_ansi_init_len(buffer.spec_bytes());
        }
        UnicodeString::from_ansi(&ansi)
    }

    /// Converts an ANSI string to a newly allocated Unicode string, as
    /// `RtlAnsiStringToUnicodeString` does; a string too long to convert
    /// gives the empty string. ASCII bytes become the same units. A byte of
    /// 0x80 or above is widened to one unit here, where the kernel would use
    /// the system's ANSI code page; the contract leaves its unit open.
    pub fn from_ansi(source: &AnsiString) -> (r: UnicodeString)
        requires
            source.len as int <= source.buffer@.len(),
        ensures
            is_unicode_of_ansi(source.len, source.buffer@, r@),
    {
        let len = source.len as usize;
        if len > 32766 {
            return UnicodeString::default();
        }
        let mut out: Vec<u16> = Vec::new();
        let mut i: usize = 0;
        while i < len
            invariant
                len == source.len,
                len <= source.buffer@.len(),
                0 <= i <= len,
                out@ == widen(source.buffer@.subrange(0, i as int)),
            decreases len - i,
        {
            out.push(source.buffer[i] as u16);
            i = i + 1;
            assert(out@ =~= widen(source.buffer@.subrange(0, i as int)));
        }
        out.push(0);
        let size = (len + 1) * 2;
        UnicodeString { len: (size - 2) as u16, max_len: size as u16, buffer: out }
    }

    /// Copies a zero-terminated UTF-16 text into a newly allocated Unicode
    /// string, as `RtlCreateUnicodeString` does; a text too long to copy gives
    /// the empty string. The source must hold a terminating zero.
    pub fn from_utf16(buffer: &[u16]) -> (r: UnicodeString)
        requires
            has_nul(buffer@, 0u16),
        ensures
            r@ == unicode_create(buffer@),
    {
        let n = buffer.len();
        let mut w: usize = 0;
        while w < n && *slice_index_get(buffer, w) != 0
            invariant
                n == buffer@.len(),
                0 <= w <= n,
                has_nul(buffer@, 0u16),
                forall|j: int| 0 <= j < w ==> buffer@[j] != 0,
            decreases n - w,
        {
            w = w + 1;
        }
        proof {
            lemma_nul_len_found(buffer@, 0u16);
            lemma_nul_len(buffer@, 0u16, w as int);
        }
        if w >= 32767 {
            return UnicodeString::default();
        }
        let mut out: Vec<u16> = Vec::new();
        let mut j: usize = 0;
        while j <= w
            invariant
                w < n,
                n == buffer@.len(),
                0 <= j <= w + 1,
                out@ == buffer@.subrange(0, j as int),
            decreases w + 1 - j,
        {
            out.push(*slice_index_get(buffer, j));
            j = j + 1;
            assert(out@ =~= buffer@.subrange(0, j as int));
        }
        let cb = (w + 1) * 2;
        UnicodeString { len: (cb - 2) as u16, max_len: cb as u16, buffer: out }
    }

    /// Decodes the text as UTF-16; text that is not valid UTF-16 gives the
    /// empty string.
    pub fn as_rust_string(&self) -> (r: String)
        requires
            self.len / 2 <= self.buffer@.len(),
        ensures
            r@ == self.spec_text(),
    {
        let n: usize = (self.len / 2) as usize;
        let ghost units = self.text_units();
        let mut out = String::new();
        let mut i: usize = 0;
        proof {
            assert(units.subrange(0, n as int) =~= units);
            if utf16_decode(units) is Some {
                assert(out@ + utf16_decode(units)->0 =~= utf16_decode(units)->0);
            }
        }
        while i < n
            invariant
                n == self.len / 2,
                n <= self.buffer@.len(),
                units == self.buffer@.subrange(0, n as int),
                0 <= i <= n,
                utf16_decode(units) == prepend_decoded(out@, utf16_decode(units.subrange(i as int, n as int))),
            decreases n - i,
        {
            let ghost rest = units.subrange(i as int, n as int);
            let u = self.buffer[i];
            assert(rest[0] == u);
            if u < 0xD800 || u > 0xDFFF {
                let c = char_from_u32(u as u32);
                match c {
                    Some(ch) => {
                        proof {
                            assert(rest.drop_first() =~= units.subrange(i + 1, n as int));
                            let tail = utf16_decode(units.subrange(i + 1, n as int));
                            assert(prepend_decoded(out@, prepend_decoded(seq![ch], tail))
                                == prepend_decoded(out@.push(ch), tail)) by {
                                if tail is Some {
                                    assert(out@ + (seq![ch] + tail->0) =~= out@.push(ch) + tail->0);
                                }
                            }
                        }
                        string_push(&mut out, ch);
                        i = i + 1;
                    },
                    None => {
                        assert(false);
                        return String::new();
                    },
                }
            } else if u <= 0xDBFF && i + 1 < n && self.buffer[i + 1] >= 0xDC00 && self.buffer[i + 1] <= 0xDFFF {
                let lo = self.buffer[i + 1];
                assert(rest[1] == lo);
                let v: u32 = 0x10000 + ((u as u32 - 0xD800) * 0x400) + (lo as u32 - 0xDC00);
                let c = char_from_u32(v);
                match c {
                    Some(ch) => {
                        proof {
                            assert(rest.subrange(2, rest.len() as int) =~= units.subrange(i + 2, n as int));
                            assert(v as int == surrogate_pair_value(u, lo));
                            let tail = utf16_decode(units.subrange(i + 2, n as int));
                            assert(prepend_decoded(out@, prepend_decoded(seq![ch], tail))
                                == prepend_decoded(out@.push(ch), tail)) by {
                                if tail is Some {
                                    assert(out@ + (seq![ch] + tail->0) =~= out@.push(ch) + tail->0);
                                }
                            }
                        }
                        string_push(&mut out, ch);
                        i = i + 2;
                    },
                    None => {
                        assert(false);
                        return String::new();
                    },
                }
            } else {
                assert(utf16_decode(rest) is None);
                return String::new();
            }
        }
        proof {
            assert(units.subrange(n as int, n as int) =~= Seq::<u16>::empty());
            assert(out@ + Seq::<char>::empty() =~= out@);
        }
        out
    }
}

} // verus!
