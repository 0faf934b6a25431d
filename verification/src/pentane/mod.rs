use vstd::prelude::*;
use vstd::string::*;
use vstd::utf8::is_ascii_chars;

use crate::text::{ascii_lower_char, ascii_lowercase};

verus! {

/// A semantic version as the Pentane loader reads it.
#[derive(Debug, Copy, Clone)]
pub struct PentaneSemVer {
    pub major: i16,
    pub minor: i16,
    pub patch: i16,
}

impl PentaneSemVer {
    pub fn new(major: i16, minor: i16, patch: i16) -> (v: Self)
        ensures
            v.major == major,
            v.minor == minor,
            v.patch == patch,
    {
        PentaneSemVer { major, minor, patch }
    }
}

/// Whether `c` is one of the sixteen hexadecimal digits, in either case.
pub open spec fn is_hex_digit(c: char) -> bool {
    ||| ('0' <= c && c <= '9')
    ||| ('a' <= c && c <= 'f')
    ||| ('A' <= c && c <= 'F')
}

/// The value, from 0 to 15, of a hexadecimal digit.
pub open spec fn hex_digit_value(c: char) -> int {
    if '0' <= c && c <= '9' {
        c as int - '0' as int
    } else if 'a' <= c && c <= 'f' {
        c as int - 'a' as int + 10
    } else {
        c as int - 'A' as int + 10
    }
}

/// A text that a UUID can be read from: 32 hexadecimal digits and nothing else.
pub open spec fn is_uuid_text(s: Seq<char>) -> bool {
    &&& s.len() == 32
    &&& forall|i: int| 0 <= i < 32 ==> is_hex_digit(#[trigger] s[i])
}

/// The sixteen bytes that a UUID text spells out, two digits per byte, high digit first.
pub open spec fn uuid_bytes(s: Seq<char>) -> Seq<u8> {
    Seq::new(16, |i: int| (hex_digit_value(s[2 * i]) * 16 + hex_digit_value(s[2 * i + 1])) as u8)
}

/// The value of the hexadecimal digit whose ASCII code is `b`.
fn hex_nibble(b: u8) -> (v: u8)
    requires
        is_hex_digit(b as char),
    ensures
        v == hex_digit_value(b as char),
        v < 16,
{
    // ASCII codes: '0' is 48, 'a' is 97, 'A' is 65.
    if 48 <= b && b <= 57 {
        b - 48
    } else if 97 <= b && b <= 102 {
        b - 97 + 10
    } else {
        b - 65 + 10
    }
}

/// A 128-bit identifier of a plugin, as the Pentane loader reads it.
#[derive(Debug, Copy, Clone)]
pub struct PentaneUUID {
    pub data: [u8; 16],
}

/// Whether `c` is a hexadecimal digit.
fn hex_digit(c: char) -> (r: bool)
    ensures
        r == is_hex_digit(c),
{
    ('0' <= c && c <= '9') || ('a' <= c && c <= 'f') || ('A' <= c && c <= 'F')
}

/// Whether `s` is 32 hexadecimal digits and nothing else, the text that
/// [`PentaneUUID::from_str`] accepts.
pub fn is_uuid_str(s: &str) -> (r: bool)
    ensures
        r == is_uuid_text(s@),
{
    let n: usize = s.unicode_len();
    if n != 32 {
        return false;
    }
    let mut i: usize = 0;
    while i < 32
        invariant
            i <= 32,
            n == s@.len(),
            n == 32,
            forall|j: int| 0 <= j < i ==> is_hex_digit(#[trigger] s@[j]),
        decreases 32 - i,
    {
        if !hex_digit(s.get_char(i)) {
            return false;
        }
        i += 1;
    }
    true
}

impl PentaneUUID {
    /// Creates a new `PentaneUUID` from `s` if it is a 32-character hexadecimal string, and
    /// nothing otherwise.
    pub fn try_from_str(s: &str) -> (uuid: Option<Self>)
        ensures
            uuid is Some <==> is_uuid_text(s@),
            uuid matches Some(u) ==> u.data@ == uuid_bytes(s@),
    {
        if is_uuid_str(s) {
            Some(Self::from_str(s))
        } else {
            None
        }
    }

    /// Creates a new `PentaneUUID` from a 32-character hexadecimal string.
    pub fn from_str(s: &str) -> (uuid: Self)
        requires
            is_uuid_text(s@),
        ensures
            uuid.data@ == uuid_bytes(s@),
    {
        proof {
            assert(is_ascii_chars(s@));
        }
        let mut data = [0u8; 16];
        let mut i: usize = 0;
        while i < 16
            invariant
                i <= 16,
                is_uuid_text(s@),
                is_ascii_chars(s@),
                forall|j: int| 0 <= j < i ==> data@[j] == uuid_bytes(s@)[j],
            decreases 16 - i,
        {
            let hi: u8 = s.get_ascii(2 * i);
            let lo: u8 = s.get_ascii(2 * i + 1);
            assert(is_hex_digit(s@[2 * i as int]));
            assert(is_hex_digit(s@[2 * i + 1]));
            let h: u8 = hex_nibble(hi);
            let l: u8 = hex_nibble(lo);
            data[i] = (h << 4) | l;
            assert(((h << 4) | l) == h * 16 + l) by (bit_vector)
                requires
                    h < 16,
                    l < 16,
            ;
            i += 1;
        }
        proof {
            assert(data@ =~= uuid_bytes(s@));
        }
        PentaneUUID { data }
    }
}

/// A byte string laid into a 256-byte field: its first 256 bytes, then zeros.
pub open spec fn padded(data: Seq<u8>) -> Seq<u8> {
    Seq::new(256, |i: int| if i < data.len() { data[i] } else { 0u8 })
}

/// What a plugin tells the Pentane loader about itself.
#[derive(Debug, Copy, Clone)]
pub struct PluginInformation {
    name: [u8; 256],
    author: [u8; 256],
    uuid: PentaneUUID,
    version: PentaneSemVer,
    minimum_pentane_version: PentaneSemVer,
    reserved: [u8; 484],
}

/// The contents of a [`PluginInformation`], field by field.
pub struct PluginInformationView {
    pub name: Seq<u8>,
    pub author: Seq<u8>,
    pub uuid: PentaneUUID,
    pub version: PentaneSemVer,
    pub minimum_pentane_version: PentaneSemVer,
    pub reserved: Seq<u8>,
}

impl View for PluginInformation {
    type V = PluginInformationView;

    closed spec fn view(&self) -> PluginInformationView {
        PluginInformationView {
            name: self.name@,
            author: self.author@,
            uuid: self.uuid,
            version: self.version,
            minimum_pentane_version: self.minimum_pentane_version,
            reserved: self.reserved@,
        }
    }
}

impl PluginInformation {
    /// The plugin's name field.
    pub fn name(&self) -> (r: &[u8; 256])
        ensures
            r@ == self@.name,
    {
        &self.name
    }

    /// The plugin's author field.
    pub fn author(&self) -> (r: &[u8; 256])
        ensures
            r@ == self@.author,
    {
        &self.author
    }

    /// The plugin's identifier.
    pub fn uuid(&self) -> (r: PentaneUUID)
        ensures
            r == self@.uuid,
    {
        self.uuid
    }

    /// The plugin's own version.
    pub fn version(&self) -> (r: PentaneSemVer)
        ensures
            r == self@.version,
    {
        self.version
    }

    /// The oldest Pentane version that the plugin runs on.
    pub fn minimum_pentane_version(&self) -> (r: PentaneSemVer)
        ensures
            r == self@.minimum_pentane_version,
    {
        self.minimum_pentane_version
    }

    /// The reserved tail of the record.
    pub fn reserved(&self) -> (r: &[u8; 484])
        ensures
            r@ == self@.reserved,
    {
        &self.reserved
    }

    /// Create a new PluginInformation instance.
    pub fn new(
        name: &[u8],
        author: &[u8],
        uuid: PentaneUUID,
        version: PentaneSemVer,
        minimum_pentane_version: PentaneSemVer,
    ) -> (info: Self)
        ensures
            info@.name == padded(name@),
            info@.author == padded(author@),
            info@.uuid == uuid,
            info@.version == version,
            info@.minimum_pentane_version == minimum_pentane_version,
            info@.reserved == Seq::new(484, |i: int| 0u8),
    {
        let reserved = [0u8; 484];
        proof {
            assert(reserved@ =~= Seq::new(484, |i: int| 0u8));
        }
        Self {
            name: Self::pad_to_fit(name),
            author: Self::pad_to_fit(author),
            version,
            minimum_pentane_version,
            uuid,
            reserved,
        }
    }

    /// Helper function to pad a byte slice to the required length
    fn pad_to_fit(data: &[u8]) -> (out: [u8; 256])
        ensures
            out@ == padded(data@),
    {
        let mut out = [0u8; 256];
        let mut i: usize = 0;
        while i < data.len() && i < 256
            invariant
                i <= 256,
                i <= data@.len(),
                forall|j: int| 0 <= j < i ==> out@[j] == data@[j],
                forall|j: int| i <= j < 256 ==> out@[j] == 0u8,
            decreases 256 - i,
        {
            out[i] = data[i];
            i += 1;
        }
        proof {
            assert(out@ =~= padded(data@));
        }
        out
    }
}

/// The lowercase hexadecimal digit for a value from 0 to 15.
pub open spec fn hex_digit_char(v: int) -> char {
    if v < 10 {
        ('0' as int + v) as char
    } else {
        ('a' as int + v - 10) as char
    }
}

/// Bytes written as lowercase hexadecimal text, two digits per byte, high digit first.
pub open spec fn hex_lower(data: Seq<u8>) -> Seq<char> {
    Seq::new(
        2 * data.len(),
        |i: int|
            if i % 2 == 0 {
                hex_digit_char(data[i / 2] as int / 16)
            } else {
                hex_digit_char(data[i / 2] as int % 16)
            },
    )
}

proof fn lemma_hex_digit_char(v: int)
    requires
        0 <= v < 16,
    ensures
        is_hex_digit(hex_digit_char(v)),
        hex_digit_value(hex_digit_char(v)) == v,
{
}

proof fn lemma_hex_digit_case(c: char)
    requires
        is_hex_digit(c),
    ensures
        is_hex_digit(ascii_lower_char(c)),
        hex_digit_value(ascii_lower_char(c)) == hex_digit_value(c),
        hex_digit_char(hex_digit_value(c)) == ascii_lower_char(c),
        0 <= hex_digit_value(c) < 16,
{
}

proof fn lemma_byte_digits(hi: int, lo: int)
    requires
        0 <= hi < 16,
        0 <= lo < 16,
    ensures
        ((hi * 16 + lo) as u8) / 16 == hi,
        ((hi * 16 + lo) as u8) % 16 == lo,
{
    assert(0 <= hi * 16 + lo < 256);
}

/// Writing sixteen bytes as hexadecimal text and reading the text back gives the same bytes.
pub proof fn law_uuid_bytes_read_back_from_their_text(data: Seq<u8>)
    requires
        data.len() == 16,
    ensures
        is_uuid_text(hex_lower(data)),
        uuid_bytes(hex_lower(data)) == data,
{
    let t = hex_lower(data);
    assert forall|i: int| 0 <= i < 32 implies is_hex_digit(#[trigger] t[i]) by {
        lemma_hex_digit_char(data[i / 2] as int / 16);
        lemma_hex_digit_char(data[i / 2] as int % 16);
    }
    assert forall|i: int| 0 <= i < 16 implies #[trigger] uuid_bytes(t)[i] == data[i] by {
        lemma_hex_digit_char(data[i] as int / 16);
        lemma_hex_digit_char(data[i] as int % 16);
        assert(t[2 * i] == hex_digit_char(data[i] as int / 16));
        assert(t[2 * i + 1] == hex_digit_char(data[i] as int % 16));
    }
    assert(uuid_bytes(t) =~= data);
}

/// Reading a UUID text and writing the bytes back as hexadecimal text gives the text in
/// lowercase.
pub proof fn law_uuid_text_written_back_in_lowercase(s: Seq<char>)
    requires
        is_uuid_text(s),
    ensures
        hex_lower(uuid_bytes(s)) == ascii_lowercase(s),
{
    let b = uuid_bytes(s);
    assert forall|i: int| 0 <= i < 32 implies #[trigger] hex_lower(b)[i] == ascii_lowercase(s)[i] by {
        let k = i / 2;
        lemma_hex_digit_case(s[2 * k]);
        lemma_hex_digit_case(s[2 * k + 1]);
        lemma_byte_digits(hex_digit_value(s[2 * k]), hex_digit_value(s[2 * k + 1]));
        assert(b[k] == (hex_digit_value(s[2 * k]) * 16 + hex_digit_value(s[2 * k + 1])) as u8);
        if i % 2 == 0 {
            assert(i == 2 * k);
        } else {
            assert(i == 2 * k + 1);
        }
    }
    assert(hex_lower(b) =~= ascii_lowercase(s));
}

/// Two UUID texts give the same bytes exactly when they are equal up to the case of their
/// letters.
pub proof fn law_uuid_texts_agree_exactly_up_to_letter_case(s: Seq<char>, t: Seq<char>)
    requires
        is_uuid_text(s),
        is_uuid_text(t),
    ensures
        uuid_bytes(s) == uuid_bytes(t) <==> ascii_lowercase(s) == ascii_lowercase(t),
{
    law_uuid_text_written_back_in_lowercase(s);
    law_uuid_text_written_back_in_lowercase(t);
    if ascii_lowercase(s) == ascii_lowercase(t) {
        assert forall|i: int| 0 <= i < 32 implies hex_digit_value(#[trigger] s[i]) == hex_digit_value(t[i]) by {
            lemma_hex_digit_case(s[i]);
            lemma_hex_digit_case(t[i]);
            assert(ascii_lowercase(s)[i] == ascii_lowercase(t)[i]);
        }
        assert forall|i: int| 0 <= i < 16 implies #[trigger] uuid_bytes(s)[i] == uuid_bytes(t)[i] by {
            assert(hex_digit_value(s[2 * i]) == hex_digit_value(t[2 * i]));
            assert(hex_digit_value(s[2 * i + 1]) == hex_digit_value(t[2 * i + 1]));
        }
        assert(uuid_bytes(s) =~= uuid_bytes(t));
    }
}

/// A text longer than a field is cut to the field's 256 bytes; a shorter one is kept whole;
/// padding twice pads once; and zeros at the end of a text change nothing.
pub proof fn law_padding_keeps_the_first_256_bytes(data: Seq<u8>)
    ensures
        data.len() >= 256 ==> padded(data) == padded(data.take(256)),
        data.len() <= 256 ==> padded(data).take(data.len() as int) == data,
        padded(padded(data)) == padded(data),
        padded(data.push(0u8)) == padded(data),
{
    assert(padded(padded(data)) =~= padded(data));
    assert(padded(data.push(0u8)) =~= padded(data));
    if data.len() >= 256 {
        assert(padded(data) =~= padded(data.take(256)));
    }
    if data.len() <= 256 {
        assert(padded(data).take(data.len() as int) =~= data);
    }
}

/// A UUID text is 32 characters, each a digit '0' to '9' or a letter 'a' to 'f' or 'A' to 'F',
/// and any such text is one; whether a text is accepted does not depend on the case of its
/// letters; and each digit stands for its place in "0123456789abcdef", letters read in
/// lowercase.
pub proof fn law_uuid_text_is_32_hex_digits_of_either_case(s: Seq<char>)
    ensures
        is_uuid_text(s) <==> (s.len() == 32 && forall|i: int|
            0 <= i < 32 ==> {
                let c = #[trigger] s[i];
                ||| ('0' <= c && c <= '9')
                ||| ('a' <= c && c <= 'f')
                ||| ('A' <= c && c <= 'F')
            }),
        is_uuid_text(s) <==> is_uuid_text(ascii_lowercase(s)),
        is_uuid_text(s) ==> forall|i: int|
            0 <= i < 32 ==> "0123456789abcdef"@[hex_digit_value(#[trigger] s[i])]
                == ascii_lower_char(s[i]),
{
    let t = ascii_lowercase(s);
    if is_uuid_text(s) {
        assert forall|i: int| 0 <= i < 32 implies is_hex_digit(#[trigger] t[i]) by {
            lemma_hex_digit_case(s[i]);
        }
    }
    if is_uuid_text(t) {
        assert forall|i: int| 0 <= i < 32 implies is_hex_digit(#[trigger] s[i]) by {
            assert(is_hex_digit(t[i]));
        }
    }
    reveal_strlit("0123456789abcdef");
    assert("0123456789abcdef"@ =~= seq![
        '0', '1', '2', '3', '4', '5', '6', '7', '8', '9', 'a', 'b', 'c', 'd', 'e', 'f',
    ]);
    if is_uuid_text(s) {
        assert forall|i: int| 0 <= i < 32 implies "0123456789abcdef"@[hex_digit_value(#[trigger] s[i])]
            == ascii_lower_char(s[i]) by {
            lemma_hex_digit_case(s[i]);
            let v = hex_digit_value(s[i]);
            assert(hex_digit_char(v) == "0123456789abcdef"@[v]);
        }
    }
}

/// Each byte of a UUID is spelled by two characters of its text: the first is the byte's high
/// hexadecimal digit and the second its low one, as placed in "0123456789abcdef" (letters of
/// either case).
pub proof fn law_uuid_byte_is_spelled_high_digit_first(s: Seq<char>, i: int)
    requires
        is_uuid_text(s),
        0 <= i < 16,
    ensures
        "0123456789abcdef"@[uuid_bytes(s)[i] as int / 16] == ascii_lower_char(s[2 * i]),
        "0123456789abcdef"@[uuid_bytes(s)[i] as int % 16] == ascii_lower_char(s[2 * i + 1]),
{
    law_uuid_text_is_32_hex_digits_of_either_case(s);
    lemma_hex_digit_case(s[2 * i]);
    lemma_hex_digit_case(s[2 * i + 1]);
    lemma_byte_digits(hex_digit_value(s[2 * i]), hex_digit_value(s[2 * i + 1]));
}

} // verus!
