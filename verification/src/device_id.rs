use vstd::prelude::*;

use crate::text::{
    decimal_digit, end_non_blank, first_non_blank, is_white_space, law_trim, trim, trim_chars,
};

verus! {

/// A lower-case hexadecimal digit.
pub open spec fn is_lower_hex_digit(c: char) -> bool {
    ('0' <= c <= '9') || ('a' <= c <= 'f')
}

/// A random (version 4) UUID written in the hyphenated lower-case form,
/// like `67e55044-10b1-426f-9247-bb680e5fe0c8`: 36 characters, hyphens at
/// 8, 13, 18 and 23, hexadecimal digits elsewhere, the version digit `4` at
/// 14 and one of `8`, `9`, `a`, `b` (the RFC 4122 variant) at 19.
pub open spec fn is_hyphenated_v4_uuid(s: Seq<char>) -> bool {
    &&& s.len() == 36
    &&& forall|i: int|
        0 <= i < 36 ==> if i == 8 || i == 13 || i == 18 || i == 23 {
            #[trigger] s[i] == '-'
        } else {
            is_lower_hex_digit(s[i])
        }
    &&& s[14] == '4'
    &&& (s[19] == '8' || s[19] == '9' || s[19] == 'a' || s[19] == 'b')
}

/// The lower-case hexadecimal digit of a number below 16.
pub open spec fn hex_digit(n: int) -> char {
    if n < 10 {
        decimal_digit(n as nat)
    } else if n == 10 {
        'a'
    } else if n == 11 {
        'b'
    } else if n == 12 {
        'c'
    } else if n == 13 {
        'd'
    } else if n == 14 {
        'e'
    } else {
        'f'
    }
}

/// The bytes of a random (version 4, RFC 4122 variant) UUID made from 16
/// random bytes: byte 6 keeps its low four bits and gets the version 4 in its
/// high four (`(b & 0x0f) | 0x40`), byte 8 keeps its low six bits and gets
/// the variant bits `10` (`(b & 0x3f) | 0x80`).
pub open spec fn v4_uuid_byte(random: Seq<u8>, k: int) -> int {
    if k == 6 {
        random[6] % 16 + 0x40
    } else if k == 8 {
        random[8] % 64 + 0x80
    } else {
        random[k] as int
    }
}

/// The number of hex digits that come before position `i` of the
/// hyphenated form (the hyphens stand at 8, 13, 18 and 23).
pub open spec fn hyphenated_digit_index(i: int) -> int {
    if i < 8 {
        i
    } else if i < 13 {
        i - 1
    } else if i < 18 {
        i - 2
    } else if i < 23 {
        i - 3
    } else {
        i - 4
    }
}

/// The hyphenated lower-case text of the UUID made from `random`: each byte
/// as two hex digits, high half first, with hyphens after the 4th, 6th, 8th
/// and 10th byte.
pub open spec fn random_uuid_text(random: Seq<u8>) -> Seq<char> {
    Seq::new(
        36,
        |i: int|
            if i == 8 || i == 13 || i == 18 || i == 23 {
                '-'
            } else {
                let d = hyphenated_digit_index(i);
                let b = v4_uuid_byte(random, d / 2);
                if d % 2 == 0 {
                    hex_digit(b / 16)
                } else {
                    hex_digit(b % 16)
                }
            },
    )
}

/// `uuid::Builder::from_random_bytes(random).into_uuid().to_string()`: the
/// UUID made from the given random bytes, with the version and variant bits
/// set, written by the crate's `Display` impl in the hyphenated lower-case
/// form.
#[verifier::external_body]
fn uuid_from_random_bytes(random: [u8; 16]) -> (id: String)
    ensures
        id@ == random_uuid_text(random@),
{
    uuid::Builder::from_random_bytes(random).into_uuid().to_string()
}

proof fn lemma_random_uuid_form(random: Seq<u8>)
    requires
        random.len() == 16,
    ensures
        is_hyphenated_v4_uuid(random_uuid_text(random)),
{
    let t = random_uuid_text(random);
    assert forall|i: int| 0 <= i < 36 implies if i == 8 || i == 13 || i == 18 || i == 23 {
        #[trigger] t[i] == '-'
    } else {
        is_lower_hex_digit(t[i])
    } by {
        if !(i == 8 || i == 13 || i == 18 || i == 23) {
            let d = hyphenated_digit_index(i);
            let b = v4_uuid_byte(random, d / 2);
            assert(0 <= d < 32);
            assert(0 <= b < 256);
        }
    }
    assert(t[14] == hex_digit(v4_uuid_byte(random, 6) / 16));
    assert(v4_uuid_byte(random, 6) / 16 == 4);
    assert(t[19] == hex_digit(v4_uuid_byte(random, 8) / 16));
    assert(8 <= v4_uuid_byte(random, 8) / 16 <= 11);
}

/// The value of a lower-case hexadecimal digit.
pub open spec fn hex_value(c: char) -> int {
    if '0' <= c <= '9' {
        c as int - '0' as int
    } else {
        c as int - 'a' as int + 10
    }
}

/// Where the two hex digits of byte `k` start in the hyphenated form.
pub open spec fn byte_text_position(k: int) -> int {
    2 * k + (if k >= 4 { 1int } else { 0 }) + (if k >= 6 { 1int } else { 0 }) + (if k >= 8 { 1int } else {
        0
    }) + (if k >= 10 { 1int } else { 0 })
}

proof fn lemma_hex_value(x: int)
    requires
        0 <= x < 16,
    ensures
        hex_value(hex_digit(x)) == x,
{
}

/// The text of a UUID made from random bytes holds those bytes, in order,
/// each as two hex digits (high half first): every byte as it was, except
/// that byte 6 keeps its low four bits and gets the version 4 in its high
/// four, and byte 8 keeps its low six bits and gets the variant bits `10`.
pub proof fn law_uuid_text_holds_bytes(random: Seq<u8>, k: int)
    requires
        random.len() == 16,
        0 <= k < 16,
    ensures
        ({
            let t = random_uuid_text(random);
            let p = byte_text_position(k);
            hex_value(t[p]) * 16 + hex_value(t[p + 1]) == v4_uuid_byte(random, k)
        }),
        k != 6 && k != 8 ==> v4_uuid_byte(random, k) == random[k],
        v4_uuid_byte(random, 6) % 16 == random[6] % 16 && v4_uuid_byte(random, 6) / 16 == 4,
        v4_uuid_byte(random, 8) % 64 == random[8] % 64 && v4_uuid_byte(random, 8) / 64 == 2,
{
    let t = random_uuid_text(random);
    let p = byte_text_position(k);
    assert(hyphenated_digit_index(p) == 2 * k);
    assert(hyphenated_digit_index(p + 1) == 2 * k + 1);
    assert(!(p == 8 || p == 13 || p == 18 || p == 23));
    assert(!(p + 1 == 8 || p + 1 == 13 || p + 1 == 18 || p + 1 == 23));
    let b = v4_uuid_byte(random, k);
    assert(0 <= b < 256);
    assert(t[p] == hex_digit(b / 16));
    assert(t[p + 1] == hex_digit(b % 16));
    lemma_hex_value(b / 16);
    lemma_hex_value(b % 16);
}

/// A new device id made from 16 random bytes: the hyphenated lower-case
/// text of the version 4 UUID that they make.
pub fn new_device_id(random: [u8; 16]) -> (id: String)
    ensures
        id@ == random_uuid_text(random@),
        is_hyphenated_v4_uuid(id@),
{
    let id = uuid_from_random_bytes(random);
    proof {
        lemma_random_uuid_form(random@);
    }
    id
}

/// Where the device id comes from.
#[derive(Debug)]
pub enum DeviceId {
    /// Read from the fallback file: use it as it is.
    Stored(String),
    /// The file holds no id: make one with `new_device_id` from fresh
    /// random bytes, and write it to the fallback file before it is used.
    Missing,
}

/// The device id that stands in the fallback file's text, if any: the text
/// without surrounding white space, where that is not empty.
pub open spec fn stored_device_id(content: Option<Seq<char>>) -> Option<Seq<char>> {
    match content {
        Some(text) => if trim_chars(text).len() > 0 {
            Some(trim_chars(text))
        } else {
            None
        },
        None => None,
    }
}

/// The views of an optional string.
pub open spec fn opt_view(s: Option<String>) -> Option<Seq<char>> {
    match s {
        Some(s) => Some(s@),
        None => None,
    }
}

/// The device id kept in the fallback file.  Given the file's text (`None`
/// where it could not be read), this is the trimmed text where that is not
/// empty; otherwise there is none and a new one must be made.
pub fn get_fallback_id(stored: Option<String>) -> (id: DeviceId)
    ensures
        stored_device_id(opt_view(stored)) matches Some(t) ==> (id matches DeviceId::Stored(s) && s@ == t),
        stored_device_id(opt_view(stored)) is None ==> id is Missing,
{
    if let Some(content) = stored {
        let id = trim(content.as_str());
        if id.as_str().unicode_len() > 0 {
            return DeviceId::Stored(id);
        }
    }
    DeviceId::Missing
}

/// Any fallback-file text that is not white space only holds the device id,
/// whatever its characters: the text without the white space around it,
/// which starts and ends with a character that is not white space.  Only
/// text that is white space only, or no text, holds none.
pub proof fn law_stored_id_is_trimmed_text(text: Seq<char>)
    ensures
        stored_device_id(None) is None,
        stored_device_id(Some(text)) is None <==> (forall|i: int|
            0 <= i < text.len() ==> is_white_space(#[trigger] text[i])),
        stored_device_id(Some(text)) matches Some(id) ==> exists|a: int, b: int|
            #![trigger text.subrange(a, b)]
            0 <= a < b <= text.len() && id == text.subrange(a, b) && (forall|i: int|
                0 <= i < a ==> is_white_space(#[trigger] text[i])) && (forall|i: int|
                b <= i < text.len() ==> is_white_space(#[trigger] text[i])) && !is_white_space(text[a])
                && !is_white_space(text[b - 1]),
{
    law_trim(text);
    if let Some(id) = stored_device_id(Some(text)) {
        let (a, b) = choose|a: int, b: int|
            #![trigger text.subrange(a, b)]
            0 <= a <= b <= text.len() && trim_chars(text) == text.subrange(a, b) && (forall|i: int|
                0 <= i < a ==> is_white_space(#[trigger] text[i])) && (forall|i: int|
                b <= i < text.len() ==> is_white_space(#[trigger] text[i])) && (a < b ==> !is_white_space(
                text[a],
            ) && !is_white_space(text[b - 1]));
        assert(id == text.subrange(a, b));
        assert(a < b);
    }
}

/// Where the device id is taken from.
#[derive(Debug)]
pub enum DeviceIdSource {
    /// The system's own id of the machine: it is the device id, and the
    /// fallback file is neither read nor written.
    System(String),
    /// The system has no id: the device id is the fallback id
    /// (`get_fallback_id` on the fallback file's text).
    Fallback,
}

/// The device id that the system id and the fallback file's text give:
/// `Some` of an id that is used as it is, or `None` where a new random id is
/// made and stored.
pub open spec fn device_id_outcome(system_id: Option<Seq<char>>, stored: Option<Seq<char>>) -> Option<Seq<char>> {
    match system_id {
        Some(id) => Some(id),
        None => stored_device_id(stored),
    }
}

/// Chooses where the device id comes from, given the system's id of the
/// machine (`None` where the system has none, or on Android, where it is
/// not used): that id where there is one, and otherwise the fallback id.
pub fn get_device_id(system_id: Option<String>) -> (source: DeviceIdSource)
    ensures
        system_id matches Some(id) ==> (source matches DeviceIdSource::System(s) && s@ == id@),
        system_id is None ==> source is Fallback,
{
    match system_id {
        Some(id) => DeviceIdSource::System(id),
        None => DeviceIdSource::Fallback,
    }
}

/// The system's id, where there is one, is the device id whatever the
/// fallback file holds; without one, the device id is the fallback file's.
pub proof fn law_system_id_wins(id: Seq<char>, stored: Option<Seq<char>>, other: Option<Seq<char>>)
    ensures
        device_id_outcome(Some(id), stored) == Some(id),
        device_id_outcome(Some(id), stored) == device_id_outcome(Some(id), other),
        device_id_outcome(None, stored) == stored_device_id(stored),
{
}

proof fn lemma_uuid_is_trimmed(s: Seq<char>)
    requires
        is_hyphenated_v4_uuid(s),
    ensures
        trim_chars(s) == s,
{
    assert(!is_white_space(s[0])) by {
        assert(is_lower_hex_digit(s[0]));
    }
    assert(!is_white_space(s[35])) by {
        assert(is_lower_hex_digit(s[35]));
    }
    assert(first_non_blank(s, 0) == 0);
    assert(end_non_blank(s, 0, 36) == 36);
    assert(s.subrange(0, 36) =~= s);
}

/// A generated device id, once written to the fallback file (alone or with
/// white space around it), is the id read back from it next time.
pub proof fn law_generated_id_is_read_back(generated: Seq<char>, before: Seq<char>, after: Seq<char>)
    requires
        is_hyphenated_v4_uuid(generated),
        forall|i: int| 0 <= i < before.len() ==> is_white_space(#[trigger] before[i]),
        forall|i: int| 0 <= i < after.len() ==> is_white_space(#[trigger] after[i]),
    ensures
        stored_device_id(Some(before + generated + after)) == Some(generated),
{
    lemma_uuid_is_trimmed(generated);
    let text = before + generated + after;
    let a = before.len() as int;
    lemma_first_non_blank_skips(text, 0, a);
    assert(text[a] == generated[0]);
    assert(!is_white_space(text[a])) by {
        assert(is_lower_hex_digit(generated[0]));
    }
    assert(first_non_blank(text, a) == a);
    lemma_end_non_blank_skips(text, a, a + 36, text.len() as int);
    assert(text[a + 35] == generated[35]);
    assert(!is_white_space(text[a + 35])) by {
        assert(is_lower_hex_digit(generated[35]));
    }
    assert(end_non_blank(text, a, a + 36) == a + 36);
    assert(text.subrange(a, a + 36) =~= generated);
}

proof fn lemma_first_non_blank_skips(s: Seq<char>, from: int, to: int)
    requires
        0 <= from <= to <= s.len(),
        forall|i: int| from <= i < to ==> is_white_space(#[trigger] s[i]),
    ensures
        first_non_blank(s, from) == first_non_blank(s, to),
    decreases to - from,
{
    if from < to {
        lemma_first_non_blank_skips(s, from + 1, to);
    }
}

proof fn lemma_end_non_blank_skips(s: Seq<char>, lo: int, mid: int, to: int)
    requires
        lo <= mid <= to <= s.len(),
        forall|i: int| mid <= i < to ==> is_white_space(#[trigger] s[i]),
    ensures
        end_non_blank(s, lo, to) == end_non_blank(s, lo, mid),
    decreases to - mid,
{
    if mid < to {
        lemma_end_non_blank_skips(s, lo, mid, to - 1);
    }
}

/// The folder of the fallback device-id file, which can be set once.
pub struct DeviceIdDir<D> {
    dir: Option<D>,
}

impl<D> View for DeviceIdDir<D> {
    type V = Option<D>;

    closed spec fn view(&self) -> Option<D> {
        self.dir
    }
}

impl<D> DeviceIdDir<D> {
    /// No folder set yet.
    pub fn new() -> (d: Self)
        ensures
            d@ is None,
    {
        DeviceIdDir { dir: None }
    }

    /// Sets the folder; the first folder set stays, later ones are ignored.
    pub fn set_fallback_dir(&mut self, path: D)
        ensures
            final(self)@ == (match old(self)@ {
                Some(d) => Some(d),
                None => Some(path),
            }),
    {
        if self.dir.is_none() {
            self.dir = Some(path);
        }
    }

    /// The folder, if one was set.
    pub fn fallback_dir(&self) -> (dir: Option<&D>)
        ensures
            dir is Some <==> self@ is Some,
            dir is Some ==> *dir->0 == self@->0,
    {
        match &self.dir {
            Some(d) => Some(d),
            None => None,
        }
    }
}

} // verus!
