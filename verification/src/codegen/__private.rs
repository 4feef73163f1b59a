//! What generated option code relies on: the values of options, read from
//! text or from the bytes of a file.

use base64::prelude::BASE64_STANDARD;
use base64::Engine;
use byteorder::{BigEndian, ReadBytesExt};
use std::io::Cursor;
use std::str::FromStr;
use vstd::prelude::*;
use vstd::string::*;
use vstd::utf8::{decode_utf8, valid_utf8};

verus! {

/// Bytes without an interpretation.
#[derive(Debug, Clone, PartialEq, Eq)]
pub struct Blob {
    pub data: Vec<u8>,
}

#[derive(Debug, Clone, PartialEq, Eq)]
pub enum Error {
    /// The option is not set.
    MissingOption(String),
    /// A value that does not read as the type of its option. `get_option`
    /// gives the value, then the name of the option; `get_options` gives the
    /// name of the option, then the value.
    BadValue(String, String),
    /// The file, then what is wrong with its content.
    UnexpectedData(String, String),
    /// The file could not be read.
    IO(String),
}

#[derive(Debug, Clone, PartialEq, Eq)]
pub enum FromBytesError {
    UnexpectedData(String),
}

/// The number that the first `n` bytes of `bytes` spell, most significant
/// byte first.
pub open spec fn be_value(bytes: Seq<u8>, n: nat) -> int
    decreases n,
{
    if n == 0 {
        0
    } else {
        be_value(bytes, (n - 1) as nat) * 256 + bytes[n - 1]
    }
}

/// The number below `2 * half` that `v` stands for when its upper half is
/// read as the negative numbers.
pub open spec fn signed(v: int, half: int) -> int {
    if v >= half {
        v - 2 * half
    } else {
        v
    }
}

/// A value that can be read from the bytes of a file.
pub trait FromBytes: Sized {
    /// The bytes hold a value.
    spec fn decodable(bytes: Seq<u8>) -> bool;

    /// `value` is what the bytes hold.
    spec fn decodes(bytes: Seq<u8>, value: Self) -> bool;

    /// What is said of bytes that hold no value.
    spec fn complaint() -> Seq<char>;

    fn from_bytes(x: Vec<u8>) -> (value: Result<Self, FromBytesError>)
        ensures
            value is Ok <==> Self::decodable(x@),
            value matches Ok(v) ==> Self::decodes(x@, v),
            value matches Err(FromBytesError::UnexpectedData(m)) ==> m@ == Self::complaint(),
    ;
}

/// The error for bytes that hold no value.
fn unexpected(complaint: &str) -> (error: FromBytesError)
    ensures
        error matches FromBytesError::UnexpectedData(m) && m@ == complaint@,
{
    FromBytesError::UnexpectedData(complaint.to_owned())
}

/// `byteorder::ReadBytesExt::read_u16` with `byteorder::BigEndian`, on a
/// cursor at the start of `bytes`: it takes two bytes and gives the number
/// they spell, the first byte being the upper one; with fewer than two bytes
/// it fails.
#[verifier::external_body]
fn read_u16_be(bytes: &Vec<u8>) -> (value: Option<u16>)
    ensures
        value == if bytes@.len() >= 2 {
            Some(be_value(bytes@, 2) as u16)
        } else {
            None::<u16>
        },
{
    Cursor::new(bytes).read_u16::<BigEndian>().ok()
}

/// `byteorder::ReadBytesExt::read_i16` with `byteorder::BigEndian`: as
/// `read_u16`, the number read as a signed one.
#[verifier::external_body]
fn read_i16_be(bytes: &Vec<u8>) -> (value: Option<i16>)
    ensures
        value == if bytes@.len() >= 2 {
            Some(signed(be_value(bytes@, 2), 0x8000) as i16)
        } else {
            None::<i16>
        },
{
    Cursor::new(bytes).read_i16::<BigEndian>().ok()
}

/// `byteorder::ReadBytesExt::read_u32` with `byteorder::BigEndian`: it takes
/// four bytes and gives the number they spell, most significant byte first;
/// with fewer than four bytes it fails.
#[verifier::external_body]
fn read_u32_be(bytes: &Vec<u8>) -> (value: Option<u32>)
    ensures
        value == if bytes@.len() >= 4 {
            Some(be_value(bytes@, 4) as u32)
        } else {
            None::<u32>
        },
{
    Cursor::new(bytes).read_u32::<BigEndian>().ok()
}

/// `byteorder::ReadBytesExt::read_i32` with `byteorder::BigEndian`: as
/// `read_u32`, the number read as a signed one.
#[verifier::external_body]
fn read_i32_be(bytes: &Vec<u8>) -> (value: Option<i32>)
    ensures
        value == if bytes@.len() >= 4 {
            Some(signed(be_value(bytes@, 4), 0x8000_0000) as i32)
        } else {
            None::<i32>
        },
{
    Cursor::new(bytes).read_i32::<BigEndian>().ok()
}

/// `byteorder::ReadBytesExt::read_u64` with `byteorder::BigEndian`: it takes
/// eight bytes and gives the number they spell, most significant byte first;
/// with fewer than eight bytes it fails.
#[verifier::external_body]
fn read_u64_be(bytes: &Vec<u8>) -> (value: Option<u64>)
    ensures
        value == if bytes@.len() >= 8 {
            Some(be_value(bytes@, 8) as u64)
        } else {
            None::<u64>
        },
{
    Cursor::new(bytes).read_u64::<BigEndian>().ok()
}

/// `byteorder::ReadBytesExt::read_i64` with `byteorder::BigEndian`: as
/// `read_u64`, the number read as a signed one.
#[verifier::external_body]
fn read_i64_be(bytes: &Vec<u8>) -> (value: Option<i64>)
    ensures
        value == if bytes@.len() >= 8 {
            Some(signed(be_value(bytes@, 8), 0x8000_0000_0000_0000) as i64)
        } else {
            None::<i64>
        },
{
    Cursor::new(bytes).read_i64::<BigEndian>().ok()
}

/// `String::from_utf8`: the text that the bytes encode, where they are valid
/// UTF-8, and nothing where they are not.
#[verifier::external_body]
fn string_from_utf8(bytes: Vec<u8>) -> (text: Option<String>)
    ensures
        text is Some <==> valid_utf8(bytes@),
        text matches Some(t) ==> t@ == decode_utf8(bytes@),
{
    String::from_utf8(bytes).ok()
}

/// What decoding `text` as standard base64 with padding gives: the bytes, or
/// nothing where the text is no such encoding.
pub uninterp spec fn base64_standard_decode(text: Seq<char>) -> Option<Seq<u8>>;

/// `base64::Engine::decode` of the engine `base64::prelude::BASE64_STANDARD`.
#[verifier::external_body]
fn decode_base64_standard(text: &str) -> (bytes: Option<Vec<u8>>)
    ensures
        bytes_view(bytes) == base64_standard_decode(text@),
{
    BASE64_STANDARD.decode(text).ok()
}

pub open spec fn bytes_view(bytes: Option<Vec<u8>>) -> Option<Seq<u8>> {
    match bytes {
        Some(b) => Some(b@),
        None => None,
    }
}

impl FromBytes for u8 {
    open spec fn decodable(bytes: Seq<u8>) -> bool {
        bytes.len() > 0
    }

    /// The value is the last byte.
    open spec fn decodes(bytes: Seq<u8>, value: u8) -> bool {
        value == bytes.last()
    }

    open spec fn complaint() -> Seq<char> {
        "file is empty"@
    }

    fn from_bytes(x: Vec<u8>) -> (value: Result<u8, FromBytesError>) {
        let mut bytes = x;
        match bytes.pop() {
            Some(b) => Ok(b),
            None => Err(unexpected("file is empty")),
        }
    }
}

impl FromBytes for i8 {
    open spec fn decodable(bytes: Seq<u8>) -> bool {
        bytes.len() > 0
    }

    /// The value is the last byte, read as a signed number.
    open spec fn decodes(bytes: Seq<u8>, value: i8) -> bool {
        value == signed(bytes.last() as int, 0x80)
    }

    open spec fn complaint() -> Seq<char> {
        "file is empty"@
    }

    fn from_bytes(x: Vec<u8>) -> (value: Result<i8, FromBytesError>) {
        let mut bytes = x;
        match bytes.pop() {
            Some(b) => {
                if b >= 0x80 {
                    let wide: i16 = b as i16 - 0x100;
                    Ok(wide as i8)
                } else {
                    Ok(b as i8)
                }
            },
            None => Err(unexpected("file is empty")),
        }
    }
}

impl FromBytes for bool {
    open spec fn decodable(bytes: Seq<u8>) -> bool {
        bytes.len() > 0
    }

    /// The value says whether the last byte is other than zero.
    open spec fn decodes(bytes: Seq<u8>, value: bool) -> bool {
        value == (bytes.last() != 0)
    }

    open spec fn complaint() -> Seq<char> {
        "file is empty"@
    }

    fn from_bytes(x: Vec<u8>) -> (value: Result<bool, FromBytesError>) {
        let mut bytes = x;
        match bytes.pop() {
            Some(b) => Ok(b != 0),
            None => Err(unexpected("file is empty")),
        }
    }
}

impl FromBytes for u16 {
    open spec fn decodable(bytes: Seq<u8>) -> bool {
        bytes.len() >= 2
    }

    open spec fn decodes(bytes: Seq<u8>, value: u16) -> bool {
        value == be_value(bytes, 2)
    }

    open spec fn complaint() -> Seq<char> {
        "not enough bytes"@
    }

    fn from_bytes(x: Vec<u8>) -> (value: Result<u16, FromBytesError>) {
        proof {
            lemma_be_value_bound(x@, 2);
        }
        match read_u16_be(&x) {
            Some(v) => Ok(v),
            None => Err(unexpected("not enough bytes")),
        }
    }
}

impl FromBytes for i16 {
    open spec fn decodable(bytes: Seq<u8>) -> bool {
        bytes.len() >= 2
    }

    open spec fn decodes(bytes: Seq<u8>, value: i16) -> bool {
        value == signed(be_value(bytes, 2), 0x8000)
    }

    open spec fn complaint() -> Seq<char> {
        "not enough bytes"@
    }

    fn from_bytes(x: Vec<u8>) -> (value: Result<i16, FromBytesError>) {
        proof {
            lemma_be_value_bound(x@, 2);
        }
        match read_i16_be(&x) {
            Some(v) => Ok(v),
            None => Err(unexpected("not enough bytes")),
        }
    }
}

impl FromBytes for u32 {
    open spec fn decodable(bytes: Seq<u8>) -> bool {
        bytes.len() >= 4
    }

    open spec fn decodes(bytes: Seq<u8>, value: u32) -> bool {
        value == be_value(bytes, 4)
    }

    open spec fn complaint() -> Seq<char> {
        "not enough bytes"@
    }

    fn from_bytes(x: Vec<u8>) -> (value: Result<u32, FromBytesError>) {
        proof {
            lemma_be_value_bound(x@, 4);
        }
        match read_u32_be(&x) {
            Some(v) => Ok(v),
            None => Err(unexpected("not enough bytes")),
        }
    }
}

impl FromBytes for i32 {
    open spec fn decodable(bytes: Seq<u8>) -> bool {
        bytes.len() >= 4
    }

    open spec fn decodes(bytes: Seq<u8>, value: i32) -> bool {
        value == signed(be_value(bytes, 4), 0x8000_0000)
    }

    open spec fn complaint() -> Seq<char> {
        "not enough bytes"@
    }

    fn from_bytes(x: Vec<u8>) -> (value: Result<i32, FromBytesError>) {
        proof {
            lemma_be_value_bound(x@, 4);
        }
        match read_i32_be(&x) {
            Some(v) => Ok(v),
            None => Err(unexpected("not enough bytes")),
        }
    }
}

impl FromBytes for u64 {
    open spec fn decodable(bytes: Seq<u8>) -> bool {
        bytes.len() >= 8
    }

    open spec fn decodes(bytes: Seq<u8>, value: u64) -> bool {
        value == be_value(bytes, 8)
    }

    open spec fn complaint() -> Seq<char> {
        "not enough bytes"@
    }

    fn from_bytes(x: Vec<u8>) -> (value: Result<u64, FromBytesError>) {
        proof {
            lemma_be_value_bound(x@, 8);
        }
        match read_u64_be(&x) {
            Some(v) => Ok(v),
            None => Err(unexpected("not enough bytes")),
        }
    }
}

impl FromBytes for i64 {
    open spec fn decodable(bytes: Seq<u8>) -> bool {
        bytes.len() >= 8
    }

    open spec fn decodes(bytes: Seq<u8>, value: i64) -> bool {
        value == signed(be_value(bytes, 8), 0x8000_0000_0000_0000)
    }

    open spec fn complaint() -> Seq<char> {
        "not enough bytes"@
    }

    fn from_bytes(x: Vec<u8>) -> (value: Result<i64, FromBytesError>) {
        proof {
            lemma_be_value_bound(x@, 8);
        }
        match read_i64_be(&x) {
            Some(v) => Ok(v),
            None => Err(unexpected("not enough bytes")),
        }
    }
}

/// The number that `n` bytes spell is below `256^n`.
pub proof fn lemma_be_value_bound(bytes: Seq<u8>, n: nat)
    requires
        n <= 8,
    ensures
        0 <= be_value(bytes, n),
        n == 0 ==> be_value(bytes, n) == 0,
        n == 1 ==> be_value(bytes, n) < 0x100,
        n == 2 ==> be_value(bytes, n) < 0x1_0000,
        n == 3 ==> be_value(bytes, n) < 0x100_0000,
        n == 4 ==> be_value(bytes, n) < 0x1_0000_0000,
        n == 5 ==> be_value(bytes, n) < 0x100_0000_0000,
        n == 6 ==> be_value(bytes, n) < 0x1_0000_0000_0000,
        n == 7 ==> be_value(bytes, n) < 0x100_0000_0000_0000,
        n == 8 ==> be_value(bytes, n) < 0x1_0000_0000_0000_0000,
    decreases n,
{
    if n > 0 {
        lemma_be_value_bound(bytes, (n - 1) as nat);
    }
}

impl FromBytes for String {
    open spec fn decodable(bytes: Seq<u8>) -> bool {
        valid_utf8(bytes)
    }

    open spec fn decodes(bytes: Seq<u8>, value: String) -> bool {
        value@ == decode_utf8(bytes)
    }

    open spec fn complaint() -> Seq<char> {
        "invalid utf8 bytes"@
    }

    fn from_bytes(x: Vec<u8>) -> (value: Result<String, FromBytesError>) {
        match string_from_utf8(x) {
            Some(text) => Ok(text),
            None => Err(unexpected("invalid utf8 bytes")),
        }
    }
}

impl FromBytes for Blob {
    open spec fn decodable(bytes: Seq<u8>) -> bool {
        true
    }

    open spec fn decodes(bytes: Seq<u8>, value: Blob) -> bool {
        value.data@ == bytes
    }

    open spec fn complaint() -> Seq<char> {
        Seq::empty()
    }

    fn from_bytes(x: Vec<u8>) -> (value: Result<Blob, FromBytesError>) {
        Ok(Blob { data: x })
    }
}

impl Blob {
    /// The blob that decoded bytes make, or the error for a text that is no
    /// base64.
    pub fn from_decoded(decoded: Option<Vec<u8>>) -> (blob: Result<Blob, FromBytesError>)
        ensures
            blob is Ok <==> decoded is Some,
            blob matches Ok(b) ==> b.data == decoded.unwrap(),
            blob matches Err(FromBytesError::UnexpectedData(m)) ==> m@ == "invalid base64"@,
    {
        match decoded {
            Some(data) => Ok(Blob { data }),
            None => Err(unexpected("invalid base64")),
        }
    }

    /// The blob that `s` encodes in standard base64 with padding.
    pub fn parse(s: &str) -> (blob: Result<Blob, FromBytesError>)
        ensures
            blob is Ok <==> base64_standard_decode(s@) is Some,
            blob matches Ok(b) ==> Some(b.data@) == base64_standard_decode(s@),
            blob matches Err(FromBytesError::UnexpectedData(m)) ==> m@ == "invalid base64"@,
    {
        Blob::from_decoded(decode_base64_standard(s))
    }
}

/// Where the value of one option comes from, once the environment and the
/// file system were asked.
#[derive(Debug, PartialEq, Eq)]
pub enum OptionSource<T> {
    /// The variable of the option is not set.
    Missing,
    /// The variable holds the value: its text, and what the text parses to.
    Text { value: String, parsed: Option<T> },
    /// The variable names a file: its path, and the bytes that were read
    /// from it or what the reading failed with.
    File { path: String, read: Result<Vec<u8>, String> },
}

/// The value of the option `name`, given where it comes from.
///
/// A variable that is not set is a missing option. A text that does not
/// parse is a bad value, reported with the text and then the name. A file
/// that cannot be read is an input error, and one whose bytes hold no value
/// is unexpected data, reported with the path.
pub fn get_option<T: FromBytes>(name: &str, source: OptionSource<T>) -> (value: Result<T, Error>)
    ensures
        match source {
            OptionSource::Missing => value matches Err(Error::MissingOption(n)) && n@ == name@,
            OptionSource::Text { value: text, parsed: Some(v) } => value == Ok::<T, Error>(v),
            OptionSource::Text { value: text, parsed: None } => value matches Err(
                Error::BadValue(t, n),
            ) && t == text && n@ == name@,
            OptionSource::File { path, read: Err(e) } => value matches Err(Error::IO(m)) && m == e,
            OptionSource::File { path, read: Ok(bytes) } => if T::decodable(bytes@) {
                value matches Ok(v) && T::decodes(bytes@, v)
            } else {
                value matches Err(Error::UnexpectedData(p, m)) && p == path && m@
                    == T::complaint()
            },
        },
{
    match source {
        OptionSource::Missing => Err(Error::MissingOption(name.to_owned())),
        OptionSource::Text { value, parsed } => match parsed {
            Some(v) => Ok(v),
            None => Err(Error::BadValue(value, name.to_owned())),
        },
        OptionSource::File { path, read } => match read {
            Err(e) => Err(Error::IO(e)),
            Ok(bytes) => match T::from_bytes(bytes) {
                Ok(v) => Ok(v),
                Err(FromBytesError::UnexpectedData(m)) => Err(Error::UnexpectedData(path, m)),
            },
        },
    }
}

/// The character that separates the values of a list option: between paths
/// the separator of the platform's path lists, between values a comma.
pub fn option_separator(fs: bool, windows: bool) -> (separator: char)
    ensures
        separator == if fs {
            if windows {
                ';'
            } else {
                ':'
            }
        } else {
            ','
        },
{
    if fs {
        if windows {
            ';'
        } else {
            ':'
        }
    } else {
        ','
    }
}

/// The pieces of `text` between the occurrences of `separator`: one more
/// than there are occurrences, what stands before the first one first.
pub open spec fn split(text: Seq<char>, separator: char) -> Seq<Seq<char>>
    decreases text.len(),
{
    if text.len() == 0 {
        seq![Seq::empty()]
    } else {
        let before = split(text.drop_last(), separator);
        if text.last() == separator {
            before.push(Seq::empty())
        } else {
            before.update(before.len() - 1, before.last().push(text.last()))
        }
    }
}

pub open spec fn strings_view(strings: Seq<String>) -> Seq<Seq<char>> {
    strings.map_values(|s: String| s@)
}

/// The values of a list option, as they stand in its text.
pub fn split_values(value: &str, separator: char) -> (pieces: Vec<String>)
    ensures
        strings_view(pieces@) == split(value@, separator),
{
    let n = value.unicode_len();
    let mut pieces: Vec<String> = Vec::new();
    let mut start: usize = 0;
    let mut i: usize = 0;
    proof {
        assert(value@.take(0) =~= Seq::empty());
        assert(value@.subrange(0, 0) =~= Seq::empty());
        assert(strings_view(pieces@).push(value@.subrange(0, 0)) =~= split(
            value@.take(0),
            separator,
        ));
    }
    while i < n
        invariant
            n == value@.len(),
            start <= i <= n,
            strings_view(pieces@).push(value@.subrange(start as int, i as int)) == split(
                value@.take(i as int),
                separator,
            ),
        decreases n - i,
    {
        let c = value.get_char(i);
        proof {
            assert(value@.take(i + 1).drop_last() =~= value@.take(i as int));
            assert(value@.take(i + 1).last() == c);
        }
        if c == separator {
            let piece = value.substring_char(start, i).to_owned();
            proof {
                assert(strings_view(pieces@.push(piece)) =~= strings_view(pieces@).push(piece@));
                assert(value@.subrange(i + 1, i + 1) =~= Seq::empty());
            }
            pieces.push(piece);
            start = i + 1;
        } else {
            proof {
                let before = strings_view(pieces@).push(value@.subrange(start as int, i as int));
                assert(value@.subrange(start as int, i + 1) =~= value@.subrange(
                    start as int,
                    i as int,
                ).push(c));
                assert(before.update(before.len() - 1, before.last().push(c)) =~= strings_view(
                    pieces@,
                ).push(value@.subrange(start as int, i + 1)));
            }
        }
        i += 1;
    }
    let last = value.substring_char(start, n).to_owned();
    proof {
        assert(value@.take(n as int) =~= value@);
        assert(strings_view(pieces@.push(last)) =~= strings_view(pieces@).push(last@));
    }
    pieces.push(last);
    pieces
}

/// Where one value of a list option comes from.
#[derive(Debug, PartialEq, Eq)]
pub enum ItemSource<T> {
    /// The piece of text, and what it parses to.
    Text { value: String, parsed: Option<T> },
    /// The path of a file, and the bytes that were read from it or what the
    /// reading failed with.
    File { path: String, read: Result<Vec<u8>, String> },
}

impl<T: FromBytes> ItemSource<T> {
    /// The item holds a value.
    pub open spec fn good(self) -> bool {
        match self {
            ItemSource::Text { value, parsed } => parsed is Some,
            ItemSource::File { path, read } => read matches Ok(bytes) && T::decodable(bytes@),
        }
    }

    /// `value` is what the item holds.
    pub open spec fn holds(self, value: T) -> bool {
        match self {
            ItemSource::Text { value: text, parsed } => parsed == Some(value),
            ItemSource::File { path, read } => read matches Ok(bytes) && T::decodes(bytes@, value),
        }
    }

    /// `error` is what is reported of the item for the option `name`: for a
    /// text that does not parse, a bad value with the name and then the
    /// text.
    pub open spec fn fails_with(self, name: Seq<char>, error: Error) -> bool {
        match self {
            ItemSource::Text { value: text, parsed } => error matches Error::BadValue(n, t) && n@
                == name && t == text,
            ItemSource::File { path, read: Err(e) } => error matches Error::IO(m) && m == e,
            ItemSource::File { path, read: Ok(bytes) } => error matches Error::UnexpectedData(
                p,
                m,
            ) && p == path && m@ == T::complaint(),
        }
    }

    /// The value of the item, or what is reported of it.
    pub fn get(self, name: &str) -> (value: Result<T, Error>)
        ensures
            value is Ok <==> self.good(),
            value matches Ok(v) ==> self.holds(v),
            value matches Err(e) ==> self.fails_with(name@, e),
    {
        match self {
            ItemSource::Text { value, parsed } => match parsed {
                Some(v) => Ok(v),
                None => Err(Error::BadValue(name.to_owned(), value)),
            },
            ItemSource::File { path, read } => match read {
                Err(e) => Err(Error::IO(e)),
                Ok(bytes) => match T::from_bytes(bytes) {
                    Ok(v) => Ok(v),
                    Err(FromBytesError::UnexpectedData(m)) => Err(Error::UnexpectedData(path, m)),
                },
            },
        }
    }
}

/// The values of the list option `name`, given where each comes from, or
/// `None` for the sources of an option whose variable is not set.
///
/// All values in order, where every item holds one; else what is reported
/// of the first item that holds none.
pub fn get_options<T: FromBytes>(name: &str, sources: Option<Vec<ItemSource<T>>>) -> (values:
    Result<Vec<T>, Error>)
    ensures
        match sources {
            None => values matches Err(Error::MissingOption(n)) && n@ == name@,
            Some(items) => {
                &&& values is Ok <==> forall|i: int| 0 <= i < items@.len() ==> items@[i].good()
                &&& values matches Ok(vs) ==> vs@.len() == items@.len() && forall|i: int|
                    0 <= i < items@.len() ==> (#[trigger] items@[i]).holds(vs@[i])
                &&& values matches Err(e) ==> exists|k: int|
                    0 <= k < items@.len() && !(#[trigger] items@[k]).good() && items@[k].fails_with(
                        name@,
                        e,
                    ) && forall|i: int| 0 <= i < k ==> items@[i].good()
            },
        },
{
    let items = match sources {
        None => {
            return Err(Error::MissingOption(name.to_owned()));
        },
        Some(items) => items,
    };
    let ghost given = items@;
    let mut rest = items;
    let mut reversed: Vec<ItemSource<T>> = Vec::new();
    while rest.len() > 0
        invariant
            sources matches Some(list) && list@ == given,
            rest@.len() + reversed@.len() == given.len(),
            rest@ == given.take(rest@.len() as int),
            forall|j: int|
                0 <= j < reversed@.len() ==> reversed@[j] == given[given.len() - 1 - j],
        decreases rest@.len(),
    {
        let item = rest.pop();
        reversed.push(item.unwrap());
    }
    let mut values: Vec<T> = Vec::new();
    while reversed.len() > 0
        invariant
            sources matches Some(list) && list@ == given,
            values@.len() + reversed@.len() == given.len(),
            forall|j: int|
                0 <= j < reversed@.len() ==> reversed@[j] == given[given.len() - 1 - j],
            forall|i: int| 0 <= i < values@.len() ==> given[i].good(),
            forall|i: int| 0 <= i < values@.len() ==> (#[trigger] given[i]).holds(values@[i]),
        decreases reversed@.len(),
    {
        let ghost k = values@.len() as int;
        let item = reversed.pop().unwrap();
        proof {
            assert(item == given[k]);
        }
        match item.get(name) {
            Ok(v) => {
                values.push(v);
            },
            Err(e) => {
                proof {
                    assert(!given[k].good() && given[k].fails_with(name@, e));
                }
                return Err(e);
            },
        }
    }
    Ok(values)
}

impl FromStr for Blob {
    type Err = FromBytesError;

    /// The blob that `s` encodes in standard base64 with padding, as
    /// `Blob::parse` gives it.
    fn from_str(s: &str) -> (blob: Result<Blob, FromBytesError>)
        ensures
            blob is Ok <==> base64_standard_decode(s@) is Some,
            blob matches Ok(b) ==> Some(b.data@) == base64_standard_decode(s@),
            blob matches Err(FromBytesError::UnexpectedData(m)) ==> m@ == "invalid base64"@,
    {
        Blob::parse(s)
    }
}

} // verus!
