use vstd::prelude::*;
use vstd::string::StringExecFns;
use vstd::string::StringSliceAdditionalSpecFns;
use uuid::Uuid;

verus! {

/// The number of letters in a short identifier.
pub const SHORT_ID_LEN: usize = 5;

/// Whether `c` is one of the letters `a` to `z`.
pub open spec fn is_lower_letter(c: char) -> bool {
    'a' <= c && c <= 'z'
}

/// Whether `s` is a well-formed short identifier: five letters `a` to `z`.
pub open spec fn is_short_id_text(s: Seq<char>) -> bool {
    s.len() == SHORT_ID_LEN && forall|i: int| 0 <= i < s.len() ==> #[trigger] is_lower_letter(s[i])
}

/// Whether every character of `s` is a letter `a` to `z`.
pub open spec fn all_lower_letters(s: Seq<char>) -> bool {
    forall|i: int| 0 <= i < s.len() ==> #[trigger] is_lower_letter(s[i])
}

/// A short identifier: five letters `a` to `z` (for example "ptckn").
///
/// These are meant for user-facing interaction. The owning service may reassign
/// them, so they are no stable key for stored data: use the UUID for that.
#[derive(Clone, Debug, PartialEq, Eq)]
pub struct ShortId(String);

impl View for ShortId {
    type V = Seq<char>;

    closed spec fn view(&self) -> Seq<char> {
        self.0@
    }
}

/// Why a text is not a short identifier.
#[derive(Clone, Copy, Debug, PartialEq, Eq, Structural)]
pub enum ShortError {
    /// A character is outside `a` to `z`.
    InvalidCharacters,
    /// The text is not five bytes long.
    IncorrectLength,
}

/// What reading `value` as a short identifier gives: the letters, or the
/// first rule broken (the byte length before the characters).
pub open spec fn short_id_outcome(value: &str) -> Result<Seq<char>, ShortError> {
    if value.spec_bytes().len() != SHORT_ID_LEN {
        Err(ShortError::IncorrectLength)
    } else if !all_lower_letters(value@) {
        Err(ShortError::InvalidCharacters)
    } else {
        Ok(value@)
    }
}

/// The text that a result of reading a short identifier holds.
pub open spec fn short_result_view(r: Result<ShortId, ShortError>) -> Result<Seq<char>, ShortError> {
    match r {
        Ok(id) => Ok(id@),
        Err(e) => Err(e),
    }
}

impl ShortId {
    /// Every value of this type holds five letters `a` to `z`.
    pub open spec fn wf(&self) -> bool {
        is_short_id_text(self@)
    }

    /// Checks `value` and keeps it as a short identifier. The length is checked
    /// first, then the characters.
    pub fn parse(value: &str) -> (r: Result<ShortId, ShortError>)
        ensures
            short_result_view(r) == short_id_outcome(value),
            r matches Ok(id) ==> id.wf(),
    {
        proof {
            broadcast use vstd::string::is_ascii_spec_bytes;
        }
        let bytes = value.as_bytes();
        if bytes.len() != SHORT_ID_LEN {
            return Err(ShortError::IncorrectLength);
        }
        if !value.is_ascii() {
            proof {
                assert(!all_lower_letters(value@)) by {
                    if all_lower_letters(value@) {
                        assert forall|j: int| 0 <= j < value@.len() implies '\0' <= #[trigger] value@[j]
                            <= '\x7f' by {
                            assert(is_lower_letter(value@[j]));
                        }
                    }
                }
            }
            return Err(ShortError::InvalidCharacters);
        }
        assert(bytes@ =~= Seq::new(value@.len(), |j: int| value@[j] as u8));
        let mut i: usize = 0;
        while i < bytes.len()
            invariant
                bytes@ =~= Seq::new(value@.len(), |j: int| value@[j] as u8),
                vstd::utf8::is_ascii_chars(value@),
                bytes@ == value.spec_bytes(),
                bytes@.len() == SHORT_ID_LEN,
                i <= bytes@.len(),
                forall|j: int| 0 <= j < i ==> #[trigger] is_lower_letter(value@[j]),
            decreases bytes@.len() - i,
        {
            let b = bytes[i];
            assert('\0' <= value@[i as int] <= '\x7f');
            assert(b == value@[i as int] as u8);
            if b < 97u8 || b > 122u8 {
                assert(!is_lower_letter(value@[i as int]));
                return Err(ShortError::InvalidCharacters);
            }
            assert(is_lower_letter(value@[i as int]));
            i = i + 1;
        }
        Ok(ShortId(value.to_owned()))
    }

    /// The identifier's text.
    pub fn as_str(&self) -> (r: &str)
        ensures
            r@ == self@,
    {
        self.0.as_str()
    }

    /// The canonical text of the identifier: its five letters.
    pub fn to_string(&self) -> (r: String)
        ensures
            r@ == self@,
    {
        self.0.clone()
    }
}

impl core::ops::Deref for ShortId {
    type Target = str;

    fn deref(&self) -> (r: &str)
        ensures
            r@ == self@,
    {
        self.0.as_str()
    }
}

impl vstd::std_specs::convert::TryFromSpecImpl<&str> for ShortId {
    /// The contract of `try_from` below says what it returns.
    open spec fn obeys_try_from_spec() -> bool {
        false
    }

    open spec fn try_from_spec(v: &str) -> Result<ShortId, ShortError> {
        arbitrary()
    }
}

impl TryFrom<&str> for ShortId {
    type Error = ShortError;

    fn try_from(value: &str) -> (r: Result<ShortId, ShortError>)
        ensures
            short_result_view(r) == short_id_outcome(value),
            r matches Ok(id) ==> id.wf(),
    {
        ShortId::parse(value)
    }
}

/// Whether `c` is a hexadecimal digit in lower case.
pub open spec fn is_lower_hex_char(c: char) -> bool {
    ('0' <= c && c <= '9') || ('a' <= c && c <= 'f')
}

/// Whether `s` has the hyphenated form of a UUID: 36 characters, hyphens at
/// offsets 8, 13, 18 and 23, lower-case hexadecimal digits everywhere else.
pub open spec fn is_hyphenated_uuid(s: Seq<char>) -> bool {
    &&& s.len() == 36
    &&& forall|i: int|
        0 <= i < 36 ==> if i == 8 || i == 13 || i == 18 || i == 23 {
            #[trigger] s[i] == '-'
        } else {
            is_lower_hex_char(s[i])
        }
}

/// The decimal digit for `d` (below 10).
pub open spec fn decimal_digit(d: nat) -> char {
    (('0' as nat) + d) as char
}

/// The decimal text of `n`, without sign or leading zeros.
pub open spec fn decimal(n: nat) -> Seq<char>
    decreases n,
{
    if n < 10 {
        seq![decimal_digit(n)]
    } else {
        decimal(n / 10) + seq![decimal_digit(n % 10)]
    }
}

/// A UUID of the `uuid` crate, carried as it is.
#[verifier::external_type_specification]
#[verifier::external_body]
pub struct ExUuid(Uuid);

/// Relies on the `Clone` impl of `uuid::Uuid`, which is derived: the copy
/// equals the original.
pub assume_specification[ <uuid::Uuid as Clone>::clone ](u: &uuid::Uuid) -> (r: uuid::Uuid)
    ensures
        r == *u,
;

/// Relies on the `Display` impl of `uuid::Uuid`, which writes the hyphenated form
/// in lower case.
#[verifier::external_body]
fn uuid_text(u: &Uuid) -> (r: String)
    ensures
        is_hyphenated_uuid(r@),
{
    u.to_string()
}

/// Relies on the `Display` impl of `u64`: decimal digits, no sign, no padding.
#[verifier::external_body]
fn decimal_text(n: u64) -> (r: String)
    ensures
        r@ == decimal(n as nat),
{
    n.to_string()
}

/// The token that stands for the caller's own system.
pub open spec fn current_token() -> Seq<char> {
    seq!['@', 'm', 'e']
}

/// A reference to a member or a group: by short identifier or by UUID.
pub enum GenericRef {
    /// By short identifier (for example "ptckn").
    ShortId(ShortId),
    /// By UUID (for example "30523e4f-dd68-4b91-8ee0-59c7598db16c").
    Uuid(Uuid),
}

impl GenericRef {
    /// What the canonical text of this reference is made of.
    pub open spec fn text_ok(&self, t: Seq<char>) -> bool {
        match self {
            GenericRef::ShortId(id) => t == id@,
            GenericRef::Uuid(_) => is_hyphenated_uuid(t),
        }
    }

    /// The canonical text: the short identifier's letters, or the UUID in its
    /// hyphenated form.
    pub fn to_string(&self) -> (r: String)
        ensures
            self.text_ok(r@),
    {
        match self {
            GenericRef::ShortId(id) => id.to_string(),
            GenericRef::Uuid(u) => uuid_text(u),
        }
    }
}

impl vstd::std_specs::convert::TryFromSpecImpl<&str> for GenericRef {
    /// The contract of `try_from` below says what it returns.
    open spec fn obeys_try_from_spec() -> bool {
        false
    }

    open spec fn try_from_spec(v: &str) -> Result<GenericRef, ShortError> {
        arbitrary()
    }
}

impl TryFrom<&str> for GenericRef {
    type Error = ShortError;

    /// Text always reads as a short identifier.
    fn try_from(value: &str) -> (r: Result<GenericRef, ShortError>)
        ensures
            match r {
                Ok(GenericRef::ShortId(id)) => short_id_outcome(value) == Ok::<Seq<char>, ShortError>(id@),
                Ok(GenericRef::Uuid(_)) => false,
                Err(e) => short_id_outcome(value) == Err::<Seq<char>, ShortError>(e),
            },
    {
        match ShortId::parse(value) {
            Ok(id) => Ok(GenericRef::ShortId(id)),
            Err(e) => Err(e),
        }
    }
}

impl From<Uuid> for GenericRef {
    fn from(value: Uuid) -> (r: GenericRef)
        ensures
            r == GenericRef::Uuid(value),
    {
        GenericRef::Uuid(value)
    }
}

impl vstd::std_specs::convert::FromSpecImpl<Uuid> for GenericRef {
    open spec fn obeys_from_spec() -> bool {
        true
    }

    open spec fn from_spec(v: Uuid) -> GenericRef {
        GenericRef::Uuid(v)
    }
}

/// A reference to a system: by short identifier, by UUID, by the numeric id of
/// a linked account, or the caller's own system.
pub enum SystemRef {
    /// By short identifier (for example "rwqjp").
    ShortId(ShortId),
    /// By UUID (for example "deb31677-c36c-41db-bef5-5d1e8e2f3ad7").
    Uuid(Uuid),
    /// By the numeric id of a linked account (for example 521031433972744193).
    Snowflake(u64),
    /// The system of the caller who is authenticated.
    Current,
}

impl SystemRef {
    /// What the canonical text of this reference is made of.
    pub open spec fn text_ok(&self, t: Seq<char>) -> bool {
        match self {
            SystemRef::ShortId(id) => t == id@,
            SystemRef::Uuid(_) => is_hyphenated_uuid(t),
            SystemRef::Snowflake(n) => t == decimal(*n as nat),
            SystemRef::Current => t == current_token(),
        }
    }

    /// The canonical text: the short identifier's letters, the UUID in its
    /// hyphenated form, the account id in decimal, or "@me".
    pub fn to_string(&self) -> (r: String)
        ensures
            self.text_ok(r@),
    {
        match self {
            SystemRef::ShortId(id) => id.to_string(),
            SystemRef::Uuid(u) => uuid_text(u),
            SystemRef::Snowflake(n) => decimal_text(*n),
            SystemRef::Current => {
                proof {
                    reveal_strlit("@me");
                }
                let r = String::from_str("@me");
                assert(r@ =~= current_token());
                r
            },
        }
    }
}

impl vstd::std_specs::convert::TryFromSpecImpl<&str> for SystemRef {
    /// The contract of `try_from` below says what it returns.
    open spec fn obeys_try_from_spec() -> bool {
        false
    }

    open spec fn try_from_spec(v: &str) -> Result<SystemRef, ShortError> {
        arbitrary()
    }
}

impl TryFrom<&str> for SystemRef {
    type Error = ShortError;

    /// Text always reads as a short identifier.
    fn try_from(value: &str) -> (r: Result<SystemRef, ShortError>)
        ensures
            match r {
                Ok(SystemRef::ShortId(id)) => short_id_outcome(value) == Ok::<Seq<char>, ShortError>(id@),
                Ok(_) => false,
                Err(e) => short_id_outcome(value) == Err::<Seq<char>, ShortError>(e),
            },
    {
        match ShortId::parse(value) {
            Ok(id) => Ok(SystemRef::ShortId(id)),
            Err(e) => Err(e),
        }
    }
}

impl From<Uuid> for SystemRef {
    fn from(value: Uuid) -> (r: SystemRef)
        ensures
            r == SystemRef::Uuid(value),
    {
        SystemRef::Uuid(value)
    }
}

impl vstd::std_specs::convert::FromSpecImpl<Uuid> for SystemRef {
    open spec fn obeys_from_spec() -> bool {
        true
    }

    open spec fn from_spec(v: Uuid) -> SystemRef {
        SystemRef::Uuid(v)
    }
}

impl From<u64> for SystemRef {
    fn from(value: u64) -> (r: SystemRef)
        ensures
            r == SystemRef::Snowflake(value),
    {
        SystemRef::Snowflake(value)
    }
}

impl vstd::std_specs::convert::FromSpecImpl<u64> for SystemRef {
    open spec fn obeys_from_spec() -> bool {
        true
    }

    open spec fn from_spec(v: u64) -> SystemRef {
        SystemRef::Snowflake(v)
    }
}

/// A text of five letters `a` to `z` reads as a short identifier whose text
/// is the input itself; `to_string` then gives it back unchanged.
pub proof fn lemma_short_id_round_trip(s: &str)
    requires
        is_short_id_text(s@),
    ensures
        short_id_outcome(s) == Ok::<Seq<char>, ShortError>(s@),
{
    broadcast use vstd::string::is_ascii_spec_bytes;

    assert forall|j: int| 0 <= j < s@.len() implies '\0' <= #[trigger] s@[j] <= '\x7f' by {
        assert(is_lower_letter(s@[j]));
    }
    assert(vstd::string::is_ascii(s));
    assert(s.spec_bytes().len() == s@.len());
}

/// A text whose length is not five bytes is refused for its length; a text of
/// five bytes with a character outside `a` to `z` is refused for its
/// characters.
pub proof fn lemma_short_id_errors(s: &str)
    ensures
        s.spec_bytes().len() != SHORT_ID_LEN ==> short_id_outcome(s) == Err::<Seq<char>, ShortError>(
            ShortError::IncorrectLength,
        ),
        s.spec_bytes().len() == SHORT_ID_LEN && (exists|i: int|
            0 <= i < s@.len() && !is_lower_letter(#[trigger] s@[i])) ==> short_id_outcome(s) == Err::<
            Seq<char>,
            ShortError,
        >(ShortError::InvalidCharacters),
{
}

} // verus!

