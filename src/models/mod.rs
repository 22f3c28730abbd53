pub mod color;
pub mod member;
pub mod patchable_color;
pub mod patchable_datetime;

use vstd::prelude::*;
use time::OffsetDateTime;
use hex::FromHexError;
use vstd::string::StringSliceAdditionalSpecFns;

verus! {

/// Whether a part of a resource is shown to everyone or to its owner only.
#[derive(Clone, Copy, Debug, PartialEq, Eq, Structural)]
pub enum Privacy {
    Public,
    Private,
}

/// A field of a patch: either left alone, or set to a value (which may itself
/// be `None`, to clear the field).
#[derive(Clone, Debug)]
pub enum Patchable<T> {
    /// Set to this value.
    Patched(T),
    /// Not part of the patch.
    Unmodified,
}

impl<T> Patchable<T> {
    /// Whether the field is left alone; such a field is never written out.
    pub fn is_unmodified(&self) -> (r: bool)
        ensures
            r == (*self is Unmodified),
    {
        match self {
            Patchable::Patched(_) => false,
            Patchable::Unmodified => true,
        }
    }
}

impl<T> Default for Patchable<T> {
    fn default() -> (r: Patchable<T>)
        ensures
            r is Unmodified,
    {
        Patchable::Unmodified
    }
}

/// What a field that is written out holds, in the terms of the written form.
#[derive(Clone, Debug)]
pub enum FieldValue {
    /// An explicit null: the field is cleared.
    Null,
    Bool(bool),
    Text(String),
    /// A URL, written as its text.
    Link(url::Url),
    /// A point in time, written as ISO 8601 text.
    Timestamp(OffsetDateTime),
    /// A nested object of privacy settings, one per name.
    PrivacyObject(Vec<PrivacyField>),
    /// A list of proxy tags.
    ProxyTags(Vec<member::ProxyTag>),
}

/// A named privacy setting in a nested object.
#[derive(Clone, Debug)]
pub struct PrivacyField {
    pub name: String,
    pub value: Privacy,
}

/// A field that is written out: its name and its value.
#[derive(Clone, Debug)]
pub struct Field {
    pub name: String,
    pub value: FieldValue,
}

/// A written-out value in mathematical terms.
pub enum ValueView {
    Null,
    Bool(bool),
    Text(Seq<char>),
    Link(url::Url),
    Timestamp(OffsetDateTime),
    PrivacyObject(Seq<(Seq<char>, Privacy)>),
    ProxyTags(Seq<(Option<Seq<char>>, Option<Seq<char>>)>),
}

impl PrivacyField {
    pub open spec fn view(&self) -> (Seq<char>, Privacy) {
        (self.name@, self.value)
    }
}

/// The names and settings that a list of privacy fields holds.
pub open spec fn privacy_fields_view(s: Seq<PrivacyField>) -> Seq<(Seq<char>, Privacy)> {
    s.map_values(|f: PrivacyField| f.view())
}

impl FieldValue {
    pub open spec fn view(&self) -> ValueView {
        match self {
            FieldValue::Null => ValueView::Null,
            FieldValue::Bool(b) => ValueView::Bool(*b),
            FieldValue::Text(t) => ValueView::Text(t@),
            FieldValue::Link(u) => ValueView::Link(*u),
            FieldValue::Timestamp(d) => ValueView::Timestamp(*d),
            FieldValue::PrivacyObject(v) => ValueView::PrivacyObject(privacy_fields_view(v@)),
            FieldValue::ProxyTags(v) => ValueView::ProxyTags(member::proxy_tags_view(v@)),
        }
    }
}

impl Field {
    pub open spec fn view(&self) -> (Seq<char>, ValueView) {
        (self.name@, self.value.view())
    }
}

/// The names and values that a list of written-out fields holds.
pub open spec fn fields_view(s: Seq<Field>) -> Seq<(Seq<char>, ValueView)> {
    s.map_values(|f: Field| f.view())
}

/// What a patch field contributes to the written form: nothing when it is left
/// alone, its name and its value when it is set.
pub open spec fn emit<V>(name: Seq<char>, p: Patchable<V>) -> Seq<(Seq<char>, V)> {
    match p {
        Patchable::Patched(v) => seq![(name, v)],
        Patchable::Unmodified => seq![],
    }
}

/// A field that is left alone contributes nothing to the written form,
/// whatever its type: no name, no null.
pub proof fn lemma_unmodified_is_omitted<V>(name: Seq<char>, p: Patchable<V>)
    requires
        p is Unmodified,
    ensures
        emit(name, p) == Seq::<(Seq<char>, V)>::empty(),
        forall|n: Seq<char>, v: V| !emit(name, p).contains((n, v)),
{
    assert(emit(name, p) =~= Seq::<(Seq<char>, V)>::empty());
}

/// A field that is set contributes exactly one entry: its name and its value.
pub proof fn lemma_patched_is_written<V>(name: Seq<char>, v: V)
    ensures
        emit(name, Patchable::Patched(v)) == seq![(name, v)],
{
}

/// The lower-case hexadecimal digit for `d` (below 16).
pub open spec fn hex_digit(d: nat) -> char {
    if d < 10 {
        (('0' as nat) + d) as char
    } else {
        (('a' as nat) + (d - 10)) as char
    }
}

/// The lower-case hexadecimal text of `b`: two digits per byte, the high
/// half first.
pub open spec fn hex_of(b: Seq<u8>) -> Seq<char>
    decreases b.len(),
{
    if b.len() == 0 {
        seq![]
    } else {
        hex_of(b.drop_last()) + seq![
            hex_digit((b.last() / 16) as nat),
            hex_digit((b.last() % 16) as nat),
        ]
    }
}

/// Relies on `hex::encode`: two lower-case hexadecimal digits for each byte,
/// the high half first.
#[verifier::external_body]
fn hex_encode(b: &[u8]) -> (r: String)
    ensures
        r@ == hex_of(b@),
{
    hex::encode(b)
}

/// A colour of three 8-bit channels.
#[derive(Clone, Copy, Debug, PartialEq, Eq, Structural)]
pub struct Color {
    pub r: u8,
    pub g: u8,
    pub b: u8,
}

impl Color {
    pub fn new(r: u8, g: u8, b: u8) -> (c: Color)
        ensures
            c == (Color { r, g, b }),
    {
        Color { r, g, b }
    }

    /// The six hexadecimal digits under which the colour is written out.
    pub open spec fn spec_hex(self) -> Seq<char> {
        hex_of(seq![self.r, self.g, self.b])
    }

    /// The colour as six lower-case hexadecimal digits, red first.
    pub fn to_hex(&self) -> (t: String)
        ensures
            t@ == self.spec_hex(),
    {
        let bytes: [u8; 3] = [self.r, self.g, self.b];
        assert(bytes@ =~= seq![self.r, self.g, self.b]);
        hex_encode(bytes.as_slice())
    }
}

/// Why a patch field could not be written out.
#[derive(Clone, Copy, Debug, PartialEq, Eq, Structural)]
pub enum PatchFieldError {
    /// A field that is left alone was handed to its encoder; such fields are
    /// to be skipped.
    Unmodified,
}

/// A point in time of the `time` crate, carried as it is.
#[verifier::external_type_specification]
#[verifier::external_body]
pub struct ExOffsetDateTime(OffsetDateTime);

/// Relies on the `Clone` impl of `time::OffsetDateTime`, which is derived: the
/// copy equals the original.
pub assume_specification[ <OffsetDateTime as Clone>::clone ](d: &OffsetDateTime) -> (r:
    OffsetDateTime)
    ensures
        r == *d,
;

/// Whether `b` is a hexadecimal digit of either case.
pub open spec fn is_hex_byte(b: u8) -> bool {
    (48 <= b && b <= 57) || (65 <= b && b <= 70) || (97 <= b && b <= 102)
}

/// The value of the hexadecimal digit `b`.
pub open spec fn hex_byte_value(b: u8) -> int {
    if 48 <= b && b <= 57 {
        b - 48
    } else if 65 <= b && b <= 70 {
        b - 55
    } else {
        b - 87
    }
}

/// Whether `t` is hexadecimal text: an even number of digits of either case.
pub open spec fn is_hex_text(t: Seq<u8>) -> bool {
    t.len() % 2 == 0 && forall|i: int| 0 <= i < t.len() ==> #[trigger] is_hex_byte(t[i])
}

/// The byte that the digits of `t` at `2 * i` and `2 * i + 1` spell.
pub open spec fn hex_pair(t: Seq<u8>, i: int) -> int {
    16 * hex_byte_value(t[2 * i]) + hex_byte_value(t[2 * i + 1])
}

/// Why the `hex` crate refused a text, carried as it is.
#[verifier::external_type_specification]
#[verifier::external_body]
pub struct ExFromHexError(FromHexError);

/// Relies on `hex::decode`: it accepts an even number of hexadecimal digits of
/// either case and gives one byte for each pair, the high half first.
#[verifier::external_body]
fn hex_decode(s: &str) -> (r: Result<Vec<u8>, FromHexError>)
    ensures
        r is Ok <==> is_hex_text(s.spec_bytes()),
        r matches Ok(v) ==> v@.len() * 2 == s.spec_bytes().len() && forall|i: int|
            0 <= i < v@.len() ==> #[trigger] v@[i] == hex_pair(s.spec_bytes(), i),
{
    hex::decode(s)
}

/// Why a text is not a colour.
#[derive(Clone, Copy, Debug, PartialEq)]
pub enum ColorError {
    /// The text is not hexadecimal.
    NotHex(FromHexError),
    /// The text is hexadecimal but does not spell three bytes.
    IncorrectLength,
}

impl Color {
    /// Reads a colour from six hexadecimal digits of either case, red first.
    pub fn from_hex(text: &str) -> (r: Result<Color, ColorError>)
        ensures
            r is Ok <==> is_hex_text(text.spec_bytes()) && text.spec_bytes().len() == 6,
            !is_hex_text(text.spec_bytes()) ==> r matches Err(ColorError::NotHex(_)),
            is_hex_text(text.spec_bytes()) && text.spec_bytes().len() != 6 ==> r == Err::<
                Color,
                ColorError,
            >(ColorError::IncorrectLength),
            r matches Ok(c) ==> c.r == hex_pair(text.spec_bytes(), 0) && c.g == hex_pair(
                text.spec_bytes(),
                1,
            ) && c.b == hex_pair(text.spec_bytes(), 2),
    {
        match hex_decode(text) {
            Err(e) => Err(ColorError::NotHex(e)),
            Ok(v) => {
                if v.len() != 3 {
                    Err(ColorError::IncorrectLength)
                } else {
                    Ok(Color { r: v[0], g: v[1], b: v[2] })
                }
            },
        }
    }
}

} // verus!
