//! The primary key of the table, a UUID held as its sixteen raw bytes.
//!
//! The script reads the key from a hyphenated UUID string and prints it back
//! in the same form. Parsing goes through the `uuid` crate; formatting is
//! done here and proved to be the exact inverse of parsing.

use vstd::prelude::*;

verus! {

/// The value of one hexadecimal digit character, either case, or -1 for any
/// other character.
pub open spec fn hex_val(c: char) -> int {
    if c == '0' {
        0
    } else if c == '1' {
        1
    } else if c == '2' {
        2
    } else if c == '3' {
        3
    } else if c == '4' {
        4
    } else if c == '5' {
        5
    } else if c == '6' {
        6
    } else if c == '7' {
        7
    } else if c == '8' {
        8
    } else if c == '9' {
        9
    } else if c == 'a' || c == 'A' {
        10
    } else if c == 'b' || c == 'B' {
        11
    } else if c == 'c' || c == 'C' {
        12
    } else if c == 'd' || c == 'D' {
        13
    } else if c == 'e' || c == 'E' {
        14
    } else if c == 'f' || c == 'F' {
        15
    } else {
        -1
    }
}

pub open spec fn is_hex_digit(c: char) -> bool {
    hex_val(c) >= 0
}

/// The lowercase hexadecimal digit character for a value below sixteen.
pub open spec fn hex_char_of(v: int) -> char {
    if v == 0 {
        '0'
    } else if v == 1 {
        '1'
    } else if v == 2 {
        '2'
    } else if v == 3 {
        '3'
    } else if v == 4 {
        '4'
    } else if v == 5 {
        '5'
    } else if v == 6 {
        '6'
    } else if v == 7 {
        '7'
    } else if v == 8 {
        '8'
    } else if v == 9 {
        '9'
    } else if v == 10 {
        'a'
    } else if v == 11 {
        'b'
    } else if v == 12 {
        'c'
    } else if v == 13 {
        'd'
    } else if v == 14 {
        'e'
    } else {
        'f'
    }
}

/// Position in the 36-character hyphenated text of the hexadecimal digit
/// with index `j` (0 to 31): digits are laid out in groups of 8, 4, 4, 4
/// and 12, separated by hyphens.
pub open spec fn digit_pos(j: int) -> int {
    if j < 8 {
        j
    } else if j < 12 {
        j + 1
    } else if j < 16 {
        j + 2
    } else if j < 20 {
        j + 3
    } else {
        j + 4
    }
}

/// Index of the hexadecimal digit standing at text position `p`, for `p`
/// not a hyphen position.
pub open spec fn hex_index_of_pos(p: int) -> int {
    if p < 8 {
        p
    } else if p < 13 {
        p - 1
    } else if p < 18 {
        p - 2
    } else if p < 23 {
        p - 3
    } else {
        p - 4
    }
}

/// A 36-character hyphenated UUID text: hyphens at positions 8, 13, 18 and
/// 23, hexadecimal digits of either case everywhere else.
pub open spec fn is_uuid_text(t: Seq<char>) -> bool {
    &&& t.len() == 36
    &&& t[8] == '-'
    &&& t[13] == '-'
    &&& t[18] == '-'
    &&& t[23] == '-'
    &&& forall|j: int| 0 <= j < 32 ==> is_hex_digit(#[trigger] t[digit_pos(j)])
}

/// The sixteen bytes denoted by a hyphenated UUID text: byte `i` is the
/// value of the two digits with indices `2i` and `2i + 1`.
pub open spec fn uuid_bytes_of(t: Seq<char>) -> Seq<u8> {
    Seq::new(16, |i: int| (16 * hex_val(t[digit_pos(2 * i)]) + hex_val(t[digit_pos(2 * i + 1)])) as u8)
}

/// The canonical lowercase hyphenated text of sixteen bytes.
pub open spec fn uuid_text_of(b: Seq<u8>) -> Seq<char> {
    Seq::new(36, |p: int|
        if p == 8 || p == 13 || p == 18 || p == 23 {
            '-'
        } else {
            (if hex_index_of_pos(p) % 2 == 0 {
                hex_char_of(b[hex_index_of_pos(p) / 2] as int / 16)
            } else {
                hex_char_of(b[hex_index_of_pos(p) / 2] as int % 16)
            })
        })
}

/// Relies on `uuid::Uuid::parse_str`: a 36-character string with hyphens at
/// positions 8, 13, 18 and 23 and hexadecimal digits elsewhere parses to
/// exactly its sixteen hex-decoded bytes, and every successful parse of any
/// accepted form yields sixteen bytes.
#[verifier::external_body]
fn parse_uuid_str(s: &str) -> (r: Option<Vec<u8>>)
    ensures
        r matches Some(v) ==> v@.len() == 16 && (is_uuid_text(s@) ==> v@ == uuid_bytes_of(s@)),
        r is None ==> !is_uuid_text(s@),
{
    match uuid::Uuid::parse_str(s) {
        Ok(u) => Some(u.as_bytes().to_vec()),
        Err(_) => None,
    }
}

/// Relies on `String::from_iter` for `char`: collecting characters yields
/// the string of exactly those characters in order.
#[verifier::external_body]
fn string_of_chars(v: Vec<char>) -> (r: String)
    ensures
        r@ == v@,
{
    v.into_iter().collect()
}

/// The lowercase hexadecimal digit character for a byte value below
/// sixteen.
fn hex_char(v: u8) -> (r: char)
    requires
        v < 16,
    ensures
        r == hex_char_of(v as int),
{
    if v == 0 {
        '0'
    } else if v == 1 {
        '1'
    } else if v == 2 {
        '2'
    } else if v == 3 {
        '3'
    } else if v == 4 {
        '4'
    } else if v == 5 {
        '5'
    } else if v == 6 {
        '6'
    } else if v == 7 {
        '7'
    } else if v == 8 {
        '8'
    } else if v == 9 {
        '9'
    } else if v == 10 {
        'a'
    } else if v == 11 {
        'b'
    } else if v == 12 {
        'c'
    } else if v == 13 {
        'd'
    } else if v == 14 {
        'e'
    } else {
        'f'
    }
}

/// The table's primary key: a UUID held as its sixteen raw bytes.
pub struct UserId {
    bytes: Vec<u8>,
}

impl View for UserId {
    type V = Seq<u8>;

    closed spec fn view(&self) -> Seq<u8> {
        self.bytes@
    }
}

impl UserId {
    pub open spec fn wf(&self) -> bool {
        self@.len() == 16
    }

    /// Builds a key from raw bytes; exactly sixteen bytes are accepted.
    pub fn from_bytes(bytes: Vec<u8>) -> (r: Option<UserId>)
        ensures
            r matches Some(u) ==> u.wf() && u@ == bytes@,
            bytes@.len() == 16 <==> r is Some,
    {
        if bytes.len() == 16 {
            Some(UserId { bytes })
        } else {
            None
        }
    }

    /// Reads a key from its hyphenated text form; any well-formed
    /// hyphenated UUID text is accepted and decodes to its sixteen bytes.
    pub fn from_text(s: &str) -> (r: Option<UserId>)
        ensures
            is_uuid_text(s@) ==> (r matches Some(u) && u@ == uuid_bytes_of(s@)),
            r matches Some(u) ==> u.wf(),
    {
        match parse_uuid_str(s) {
            Some(v) => Some(UserId { bytes: v }),
            None => None,
        }
    }

    /// The sixteen raw bytes of the key.
    pub fn bytes(&self) -> (r: &Vec<u8>)
        ensures
            r@ == self@,
    {
        &self.bytes
    }

    /// An owned copy of the key.
    pub fn duplicate(&self) -> (r: UserId)
        ensures
            r@ == self@,
    {
        let bytes = self.bytes.clone();
        proof {
            assert(bytes@ =~= self.bytes@);
        }
        UserId { bytes }
    }

    /// Whether two keys hold the same bytes.
    pub fn eq_id(&self, other: &UserId) -> (r: bool)
        requires
            self.wf(),
            other.wf(),
        ensures
            r == (self@ == other@),
    {
        let mut i: usize = 0;
        while i < 16
            invariant
                i <= 16,
                self.wf(),
                other.wf(),
                forall|k: int| 0 <= k < i ==> self@[k] == other@[k],
            decreases 16 - i,
        {
            if self.bytes[i] != other.bytes[i] {
                assert(self@[i as int] != other@[i as int]);
                return false;
            }
            i += 1;
        }
        proof {
            assert(self@ =~= other@);
        }
        true
    }

    /// Writes the key in canonical lowercase hyphenated text form.
    pub fn to_text(&self) -> (r: String)
        requires
            self.wf(),
        ensures
            r@ == uuid_text_of(self@),
    {
        let mut out: Vec<char> = Vec::new();
        let mut p: usize = 0;
        while p < 36
            invariant
                p <= 36,
                self.wf(),
                out@ =~= uuid_text_of(self@).subrange(0, p as int),
            decreases 36 - p,
        {
            let c: char = if p == 8 || p == 13 || p == 18 || p == 23 {
                '-'
            } else {
                let j: usize = if p < 8 {
                    p
                } else if p < 13 {
                    p - 1
                } else if p < 18 {
                    p - 2
                } else if p < 23 {
                    p - 3
                } else {
                    p - 4
                };
                let b: u8 = self.bytes[j / 2];
                let v: u8 = if j % 2 == 0 {
                    b / 16
                } else {
                    b % 16
                };
                hex_char(v)
            };
            proof {
                assert(c == uuid_text_of(self@)[p as int]);
            }
            out.push(c);
            proof {
                assert(out@ =~= uuid_text_of(self@).subrange(0, p + 1 as int));
            }
            p += 1;
        }
        proof {
            assert(out@ =~= uuid_text_of(self@));
        }
        string_of_chars(out)
    }
}

/// A value below sixteen survives the round trip through its lowercase
/// digit character.
pub proof fn lemma_hex_round_trip(v: int)
    requires
        0 <= v < 16,
    ensures
        hex_val(hex_char_of(v)) == v,
        is_hex_digit(hex_char_of(v)),
{
}

/// The canonical text of sixteen bytes is a well-formed hyphenated UUID
/// text.
pub proof fn lemma_text_of_is_uuid_text(b: Seq<u8>)
    requires
        b.len() == 16,
    ensures
        is_uuid_text(uuid_text_of(b)),
{
    let t = uuid_text_of(b);
    assert forall|j: int| 0 <= j < 32 implies is_hex_digit(#[trigger] t[digit_pos(j)]) by {
        let p = digit_pos(j);
        assert(hex_index_of_pos(p) == j);
        if j % 2 == 0 {
            lemma_hex_round_trip(b[j / 2] as int / 16);
        } else {
            lemma_hex_round_trip(b[j / 2] as int % 16);
        }
    }
}

/// Formatting sixteen bytes and parsing the text back yields the same
/// sixteen bytes: parsing is the exact inverse of formatting.
pub proof fn lemma_uuid_round_trip(b: Seq<u8>)
    requires
        b.len() == 16,
    ensures
        uuid_bytes_of(uuid_text_of(b)) =~= b,
{
    let t = uuid_text_of(b);
    assert forall|i: int| 0 <= i < 16 implies uuid_bytes_of(t)[i] == b[i] by {
        let lo = digit_pos(2 * i);
        let hi = digit_pos(2 * i + 1);
        assert(hex_index_of_pos(lo) == 2 * i);
        assert(hex_index_of_pos(hi) == 2 * i + 1);
        assert(t[lo] == hex_char_of(b[i] as int / 16));
        assert(t[hi] == hex_char_of(b[i] as int % 16));
        lemma_hex_round_trip(b[i] as int / 16);
        lemma_hex_round_trip(b[i] as int % 16);
        assert(16 * (b[i] as int / 16) + b[i] as int % 16 == b[i] as int);
    }
}

} // verus!
