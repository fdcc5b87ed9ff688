//! SQL values in a form that can be written as JSON, with blobs in several
//! textual encodings.

use base64::prelude::BASE64_URL_SAFE;
use base64::Engine;
use vstd::prelude::*;

verus! {

/// Why a base64 text could not be decoded.
#[derive(Debug, Clone, Copy, PartialEq, Eq, Structural)]
pub enum Base64Error {
    /// A byte outside the alphabet, with its offset.
    InvalidByte(usize, u8),
    /// The number of symbols cannot end a base64 text.
    InvalidLength(usize),
    /// The last symbol carries bits that would be discarded; with its offset.
    InvalidLastSymbol(usize, u8),
    /// Padding is missing or not canonical.
    InvalidPadding,
}

/// Why a blob's text could not be turned into bytes.
#[derive(Debug, Clone, Copy, PartialEq, Eq, Structural)]
pub enum DecodeError {
    Base64(Base64Error),
    Hex,
}

/// A blob, as bytes or as text in one of two encodings.
#[derive(Debug, Clone, PartialEq, Eq)]
pub enum Blob {
    Array(Vec<u8>),
    /// Base64 in the URL-safe alphabet, padded. Blobs read from the
    /// database come in this form, the most compact of the three.
    Base64UrlSafe(String),
    Hex(String),
}

/// A blob as a mathematical value.
pub enum BlobView {
    Array(Seq<u8>),
    Base64UrlSafe(Seq<char>),
    Hex(Seq<char>),
}

impl View for Blob {
    type V = BlobView;

    open spec fn view(&self) -> BlobView {
        match self {
            Blob::Array(bytes) => BlobView::Array(bytes@),
            Blob::Base64UrlSafe(text) => BlobView::Base64UrlSafe(text@),
            Blob::Hex(text) => BlobView::Hex(text@),
        }
    }
}

/// An SQL value that can be written as JSON.
#[derive(Debug, Clone, PartialEq, Eq)]
pub enum SqlValue {
    Null,
    Integer(i64),
    /// A floating-point number, held as its IEEE 754 binary64 bit pattern.
    Real(u64),
    Text(String),
    Blob(Blob),
}

/// An `SqlValue` as a mathematical value.
pub enum SqlValueView {
    Null,
    Integer(i64),
    Real(u64),
    Text(Seq<char>),
    Blob(BlobView),
}

impl View for SqlValue {
    type V = SqlValueView;

    open spec fn view(&self) -> SqlValueView {
        match self {
            SqlValue::Null => SqlValueView::Null,
            SqlValue::Integer(v) => SqlValueView::Integer(*v),
            SqlValue::Real(bits) => SqlValueView::Real(*bits),
            SqlValue::Text(text) => SqlValueView::Text(text@),
            SqlValue::Blob(blob) => SqlValueView::Blob(blob@),
        }
    }
}

/// A value as the database holds it.
#[derive(Debug, Clone, PartialEq, Eq)]
pub enum Value {
    Null,
    Integer(i64),
    /// A floating-point number, held as its IEEE 754 binary64 bit pattern.
    Real(u64),
    Text(String),
    Blob(Vec<u8>),
}

/// A `Value` as a mathematical value.
pub enum ValueView {
    Null,
    Integer(i64),
    Real(u64),
    Text(Seq<char>),
    Blob(Seq<u8>),
}

impl View for Value {
    type V = ValueView;

    open spec fn view(&self) -> ValueView {
        match self {
            Value::Null => ValueView::Null,
            Value::Integer(v) => ValueView::Integer(*v),
            Value::Real(bits) => ValueView::Real(*bits),
            Value::Text(text) => ValueView::Text(text@),
            Value::Blob(bytes) => ValueView::Blob(bytes@),
        }
    }
}

/// The text that the base64 codec, URL-safe alphabet with padding, gives
/// for `bytes`.
pub uninterp spec fn base64_url_safe_encoded(bytes: Seq<u8>) -> Seq<char>;

/// What the base64 codec, URL-safe alphabet with padding, makes of
/// `text`: the bytes it spells, or the reason why it spells none.
pub uninterp spec fn base64_url_safe_decoded(text: Seq<char>) -> Result<Seq<u8>, Base64Error>;

/// The length of the base64 text for `len` bytes: four characters for
/// every three bytes or part of three.
pub open spec fn base64_len(len: nat) -> nat {
    4 * ((len + 2) / 3)
}

/// Whether the base64 text for `len` bytes is short enough to be
/// allocated.
pub open spec fn base64_fits(len: nat) -> bool {
    base64_len(len) <= isize::MAX
}

/// Whether `c` can stand in padded base64 text of the URL-safe alphabet:
/// a letter, a digit, `-`, `_`, or the padding sign `=`.
pub open spec fn is_base64_url_safe_symbol(c: char) -> bool {
    ||| 'A' <= c <= 'Z'
    ||| 'a' <= c <= 'z'
    ||| '0' <= c <= '9'
    ||| c == '-'
    ||| c == '_'
    ||| c == '='
}

/// Whether `text` has the shape of the base64 text of `len` bytes: the
/// length for that many bytes, and no character from outside the
/// alphabet.
pub open spec fn is_base64_text(text: Seq<char>, len: nat) -> bool {
    &&& text.len() == base64_len(len)
    &&& forall|i: int| 0 <= i < text.len() ==> is_base64_url_safe_symbol(#[trigger] text[i])
}

/// Calls `base64::Engine::encode` on `base64::prelude::BASE64_URL_SAFE`.
///
/// Trusted: the text returned is a function of the bytes alone, named
/// `base64_url_safe_encoded`. The codec sizes the text for the number of
/// bytes and fills it with symbols of its alphabet and with padding,
/// which is what `is_base64_text` says. It panics when the text would be
/// longer than an allocation can be, so such input is left out.
#[verifier::external_body]
fn base64_url_safe_encode(bytes: &Vec<u8>) -> (text: String)
    requires
        base64_fits(bytes@.len()),
    ensures
        text@ == base64_url_safe_encoded(bytes@),
        is_base64_text(text@, bytes@.len()),
{
    BASE64_URL_SAFE.encode(bytes)
}

/// Calls `base64::Engine::decode` on `base64::prelude::BASE64_URL_SAFE`.
///
/// Trusted: the outcome is a function of the text alone, named
/// `base64_url_safe_decoded`; the codec's error is handed on variant for
/// variant.
#[verifier::external_body]
fn base64_url_safe_decode(text: &str) -> (r: Result<Vec<u8>, Base64Error>)
    ensures
        match r {
            Ok(bytes) => base64_url_safe_decoded(text@) == Ok::<Seq<u8>, Base64Error>(bytes@),
            Err(e) => base64_url_safe_decoded(text@) == Err::<Seq<u8>, Base64Error>(e),
        },
{
    match BASE64_URL_SAFE.decode(text) {
        Ok(bytes) => Ok(bytes),
        Err(base64::DecodeError::InvalidByte(at, byte)) => Err(Base64Error::InvalidByte(at, byte)),
        Err(base64::DecodeError::InvalidLength(len)) => Err(Base64Error::InvalidLength(len)),
        Err(base64::DecodeError::InvalidLastSymbol(at, byte)) => Err(
            Base64Error::InvalidLastSymbol(at, byte),
        ),
        Err(base64::DecodeError::InvalidPadding) => Err(Base64Error::InvalidPadding),
    }
}

/// The value of one hexadecimal digit, upper or lower case.
pub open spec fn hex_digit_value(c: char) -> Option<u8> {
    if '0' <= c <= '9' {
        Some((c as u8 - '0' as u8) as u8)
    } else if 'a' <= c <= 'f' {
        Some((c as u8 - 'a' as u8 + 10) as u8)
    } else if 'A' <= c <= 'F' {
        Some((c as u8 - 'A' as u8 + 10) as u8)
    } else {
        None
    }
}

/// The byte that two characters spell in base 16. A plus sign in the first
/// place is a sign, not a digit: it leaves the second character as the
/// whole number.
pub open spec fn hex_pair_value(first: char, second: char) -> Option<u8> {
    match (hex_digit_value(first), hex_digit_value(second)) {
        (Some(hi), Some(lo)) => Some((16 * hi + lo) as u8),
        (None, Some(lo)) => if first == '+' {
            Some(lo)
        } else {
            None
        },
        _ => None,
    }
}

/// The byte spelled by the `k`-th pair of characters of `text`.
pub open spec fn hex_pair_at(text: Seq<char>, k: int) -> Option<u8> {
    hex_pair_value(text[2 * k], text[2 * k + 1])
}

/// The bytes that a hexadecimal text spells: one byte per pair of
/// characters, provided that the text has an even length and that every
/// pair spells a byte.
pub open spec fn hex_decoded(text: Seq<char>) -> Option<Seq<u8>> {
    if text.len() % 2 == 0 && forall|k: int|
        0 <= k < text.len() / 2 ==> (#[trigger] hex_pair_at(text, k)) is Some {
        Some(Seq::new(text.len() / 2, |k: int| hex_pair_at(text, k)->0))
    } else {
        None
    }
}

/// The value of the hexadecimal digit that the byte `b` is the ASCII code of.
fn hex_digit(b: u8) -> (r: Option<u8>)
    ensures
        r == hex_digit_value(b as char),
        r matches Some(v) ==> v < 16,
{
    if 0x30 <= b && b <= 0x39 {
        Some(b - 0x30)
    } else if 0x61 <= b && b <= 0x66 {
        Some(b - 0x61 + 10)
    } else if 0x41 <= b && b <= 0x46 {
        Some(b - 0x41 + 10)
    } else {
        None
    }
}

/// The byte spelled by the two ASCII codes `first` and `second`.
fn hex_pair(first: u8, second: u8) -> (r: Option<u8>)
    ensures
        r == hex_pair_value(first as char, second as char),
{
    match (hex_digit(first), hex_digit(second)) {
        (Some(hi), Some(lo)) => Some(16 * hi + lo),
        (None, Some(lo)) => if first == 0x2b {
            Some(lo)
        } else {
            None
        },
        _ => None,
    }
}

/// A text that holds a character outside ASCII spells no bytes.
proof fn lemma_hex_needs_ascii(text: Seq<char>, at: int)
    requires
        0 <= at < text.len(),
        !('\0' <= text[at] <= '\u{7f}'),
    ensures
        hex_decoded(text) is None,
{
    if text.len() % 2 == 0 {
        let k = at / 2;
        assert(at == 2 * k || at == 2 * k + 1);
        assert(hex_pair_at(text, k) is None);
    }
}

/// Decodes a hexadecimal text, two characters to the byte.
///
/// Succeeds exactly on the texts that `hex_decoded` gives bytes for;
/// every other text, of odd length or with a pair that spells no byte, is
/// refused as `DecodeError::Hex`.
pub fn decode_hex(s: &str) -> (r: Result<Vec<u8>, DecodeError>)
    ensures
        match r {
            Ok(bytes) => hex_decoded(s@) == Some(bytes@),
            Err(e) => e == DecodeError::Hex && hex_decoded(s@) is None,
        },
{
    if !s.is_ascii() {
        proof {
            let at = choose|i: int| 0 <= i < s@.len() && !('\0' <= #[trigger] s@[i] <= '\u{7f}');
            lemma_hex_needs_ascii(s@, at);
        }
        return Err(DecodeError::Hex);
    }
    let bytes = s.as_bytes();
    proof {
        vstd::string::is_ascii_spec_bytes(s);
    }
    let n = bytes.len();
    if n % 2 != 0 {
        return Err(DecodeError::Hex);
    }
    let mut out: Vec<u8> = Vec::new();
    let mut i: usize = 0;
    while i < n
        invariant
            n == s@.len(),
            n == bytes@.len(),
            n % 2 == 0,
            i % 2 == 0,
            i <= n,
            vstd::utf8::is_ascii_chars(s@),
            forall|j: int| 0 <= j < n ==> #[trigger] bytes@[j] == s@[j] as u8,
            out@.len() == i / 2,
            forall|k: int| 0 <= k < i / 2 ==> #[trigger] hex_pair_at(s@, k) == Some(out@[k]),
        decreases n - i,
    {
        let ghost k = (i / 2) as int;
        assert(s@[2 * k] as u8 as char == s@[2 * k]);
        assert(s@[2 * k + 1] as u8 as char == s@[2 * k + 1]);
        match hex_pair(bytes[i], bytes[i + 1]) {
            Some(byte) => {
                out.push(byte);
            },
            None => {
                assert(hex_pair_at(s@, k) is None);
                return Err(DecodeError::Hex);
            },
        }
        i += 2;
    }
    assert(out@ =~= Seq::new(s@.len() / 2, |k: int| hex_pair_at(s@, k)->0));
    Ok(out)
}

/// The bytes that a blob stands for, or why its text spells none.
pub open spec fn blob_bytes(blob: BlobView) -> Result<Seq<u8>, DecodeError> {
    match blob {
        BlobView::Array(bytes) => Ok(bytes),
        BlobView::Base64UrlSafe(text) => match base64_url_safe_decoded(text) {
            Ok(bytes) => Ok(bytes),
            Err(e) => Err(DecodeError::Base64(e)),
        },
        BlobView::Hex(text) => match hex_decoded(text) {
            Some(bytes) => Ok(bytes),
            None => Err(DecodeError::Hex),
        },
    }
}

/// The database value that an SQL value stands for: the same value, with
/// a blob turned into its bytes.
pub open spec fn database_value(value: SqlValueView) -> Result<ValueView, DecodeError> {
    match value {
        SqlValueView::Null => Ok(ValueView::Null),
        SqlValueView::Integer(v) => Ok(ValueView::Integer(v)),
        SqlValueView::Real(bits) => Ok(ValueView::Real(bits)),
        SqlValueView::Text(text) => Ok(ValueView::Text(text)),
        SqlValueView::Blob(blob) => match blob_bytes(blob) {
            Ok(bytes) => Ok(ValueView::Blob(bytes)),
            Err(e) => Err(e),
        },
    }
}

/// The view of the outcome of a conversion to a database value.
pub open spec fn outcome_view(r: Result<Value, DecodeError>) -> Result<ValueView, DecodeError> {
    match r {
        Ok(value) => Ok(value@),
        Err(e) => Err(e),
    }
}

impl From<Base64Error> for DecodeError {
    /// The codec's error as a `DecodeError`.
    fn from(e: Base64Error) -> (r: DecodeError) {
        DecodeError::Base64(e)
    }
}

impl vstd::std_specs::convert::FromSpecImpl<Base64Error> for DecodeError {
    open spec fn obeys_from_spec() -> bool {
        true
    }

    open spec fn from_spec(e: Base64Error) -> DecodeError {
        DecodeError::Base64(e)
    }
}

impl Blob {
    /// The bytes for the outcome of decoding a blob's base64 text: the
    /// bytes decoded, or the codec's error as a `DecodeError`.
    pub fn from_base64(decoded: Result<Vec<u8>, Base64Error>) -> (r: Result<Vec<u8>, DecodeError>)
        ensures
            match decoded {
                Ok(bytes) => r == Ok::<Vec<u8>, DecodeError>(bytes),
                Err(e) => r == Err::<Vec<u8>, DecodeError>(DecodeError::Base64(e)),
            },
    {
        match decoded {
            Ok(bytes) => Ok(bytes),
            Err(e) => Err(DecodeError::from(e)),
        }
    }

    /// The bytes that the blob stands for.
    ///
    /// Bytes are handed on as they are; text is decoded by its encoding,
    /// and refused where it is not a text of that encoding.
    pub fn into_bytes(self) -> (r: Result<Vec<u8>, DecodeError>)
        ensures
            match r {
                Ok(bytes) => blob_bytes(self@) == Ok::<Seq<u8>, DecodeError>(bytes@),
                Err(e) => blob_bytes(self@) == Err::<Seq<u8>, DecodeError>(e),
            },
    {
        match self {
            Blob::Array(bytes) => Ok(bytes),
            Blob::Base64UrlSafe(text) => Blob::from_base64(base64_url_safe_decode(text.as_str())),
            Blob::Hex(text) => decode_hex(text.as_str()),
        }
    }
}

impl TryFrom<SqlValue> for Value {
    type Error = DecodeError;

    /// The database value that `value` stands for; fails where `value` is
    /// a blob whose text cannot be decoded.
    fn try_from(value: SqlValue) -> (r: Result<Self, DecodeError>)
        ensures
            outcome_view(r) == database_value(value@),
    {
        Ok(
            match value {
                SqlValue::Null => Value::Null,
                SqlValue::Integer(v) => Value::Integer(v),
                SqlValue::Real(bits) => Value::Real(bits),
                SqlValue::Text(text) => Value::Text(text),
                SqlValue::Blob(blob) => Value::Blob(blob.into_bytes()?),
            },
        )
    }
}

/// The conversion is stated over views, by the contract of `try_from`
/// itself; nothing is claimed through the trait's own specification.
impl vstd::std_specs::convert::TryFromSpecImpl<SqlValue> for Value {
    open spec fn obeys_try_from_spec() -> bool {
        false
    }

    open spec fn try_from_spec(value: SqlValue) -> Result<Self, DecodeError> {
        arbitrary()
    }
}

/// The blob in which bytes read from the database are handed out: their
/// base64 text, or the bytes themselves where that text would be too long
/// to allocate.
pub open spec fn blob_of_bytes(bytes: Seq<u8>) -> BlobView {
    if base64_fits(bytes.len()) {
        BlobView::Base64UrlSafe(base64_url_safe_encoded(bytes))
    } else {
        BlobView::Array(bytes)
    }
}

/// The SQL value for a database value: the same value, with a blob as
/// `blob_of_bytes` gives it.
pub open spec fn sql_value(value: ValueView) -> SqlValueView {
    match value {
        ValueView::Null => SqlValueView::Null,
        ValueView::Integer(v) => SqlValueView::Integer(v),
        ValueView::Real(bits) => SqlValueView::Real(bits),
        ValueView::Text(text) => SqlValueView::Text(text),
        ValueView::Blob(bytes) => SqlValueView::Blob(blob_of_bytes(bytes)),
    }
}

/// Where a database blob was turned into base64 text, the text has the
/// shape of the base64 text of that many bytes.
pub open spec fn blob_text_is_base64(r: SqlValueView, value: ValueView) -> bool {
    r matches SqlValueView::Blob(BlobView::Base64UrlSafe(text)) ==> (value matches ValueView::Blob(
        bytes,
    ) && is_base64_text(text, bytes.len()))
}

/// The base64 text of `bytes`, URL-safe alphabet with padding; `None`
/// where the text would be too long to allocate.
pub fn base64_text(bytes: &Vec<u8>) -> (r: Option<String>)
    ensures
        r is Some <==> base64_fits(bytes@.len()),
        r matches Some(text) ==> text@ == base64_url_safe_encoded(bytes@) && is_base64_text(
            text@,
            bytes@.len(),
        ),
{
    let len = bytes.len();
    let groups = len / 3 + if len % 3 > 0 { 1 } else { 0 };
    assert(groups == (len + 2) / 3);
    if groups <= (isize::MAX as usize) / 4 {
        Some(base64_url_safe_encode(bytes))
    } else {
        None
    }
}

impl From<Value> for SqlValue {
    /// The SQL value for a database value.
    fn from(value: Value) -> (r: SqlValue)
        ensures
            r@ == sql_value(value@),
            blob_text_is_base64(r@, value@),
    {
        match value {
            Value::Null => SqlValue::Null,
            Value::Integer(v) => SqlValue::Integer(v),
            Value::Real(bits) => SqlValue::Real(bits),
            Value::Text(text) => SqlValue::Text(text),
            Value::Blob(bytes) => SqlValue::Blob(
                match base64_text(&bytes) {
                    Some(text) => Blob::Base64UrlSafe(text),
                    None => Blob::Array(bytes),
                },
            ),
        }
    }
}

/// The conversion is stated over views, by the contract of `from` itself;
/// nothing is claimed through the trait's own specification.
impl vstd::std_specs::convert::FromSpecImpl<Value> for SqlValue {
    open spec fn obeys_from_spec() -> bool {
        false
    }

    open spec fn from_spec(value: Value) -> SqlValue {
        arbitrary()
    }
}

impl<'a> From<&'a Value> for SqlValue {
    /// The SQL value for a database value, which is left in place.
    fn from(value: &'a Value) -> (r: SqlValue)
        ensures
            r@ == sql_value(value@),
            blob_text_is_base64(r@, value@),
    {
        match value {
            Value::Null => SqlValue::Null,
            Value::Integer(v) => SqlValue::Integer(*v),
            Value::Real(bits) => SqlValue::Real(*bits),
            Value::Text(text) => SqlValue::Text(text.clone()),
            Value::Blob(bytes) => SqlValue::Blob(
                match base64_text(bytes) {
                    Some(text) => Blob::Base64UrlSafe(text),
                    None => Blob::Array(bytes.clone()),
                },
            ),
        }
    }
}

/// The conversion is stated over views, by the contract of `from` itself;
/// nothing is claimed through the trait's own specification.
impl<'a> vstd::std_specs::convert::FromSpecImpl<&'a Value> for SqlValue {
    open spec fn obeys_from_spec() -> bool {
        false
    }

    open spec fn from_spec(value: &'a Value) -> SqlValue {
        arbitrary()
    }
}

} // verus!
