use vstd::prelude::*;
use vstd::string::StringSliceAdditionalSpecFns;
use vstd::string::StringExecFns;
use time::OffsetDateTime;
use uuid::Uuid;
use crate::limited::{byte_len, LimitedStr, LimitedUrl};
use crate::models::{
    emit, fields_view, patchable_color, patchable_datetime, privacy_fields_view, Color, Field,
    FieldValue, Patchable, PatchFieldError, Privacy, PrivacyField, ValueView,
};
use crate::references::ShortId;

verus! {

/// A member of a system, as the service describes it.
#[derive(Clone, Debug)]
pub struct Member {
    pub id: ShortId,
    pub uuid: Uuid,
    pub system_id: ShortId,
    pub name: LimitedStr<100>,
    pub display_name: Option<LimitedStr<100>>,
    pub color: Option<Color>,
    pub birthday: Option<OffsetDateTime>,
    pub pronouns: Option<LimitedStr<100>>,
    pub avatar: Option<LimitedUrl<256>>,
    pub webhook_avatar: Option<LimitedUrl<256>>,
    pub banner: Option<LimitedUrl<256>>,
    pub description: Option<LimitedStr<1000>>,
    pub created: Option<OffsetDateTime>,
    pub proxy_tags: Vec<ProxyTag>,
    pub keep_proxy_tags: bool,
    pub text_to_speech: bool,
    pub autoproxy_enabled: Option<bool>,
    pub message_count: Option<u32>,
    pub last_message_timestamp: Option<OffsetDateTime>,
    pub privacy: Option<MemberPrivacy>,
}

/// Who may see each part of a member.
#[derive(Clone, Copy, Debug, PartialEq, Eq, Structural)]
pub struct MemberPrivacy {
    pub visibility: Privacy,
    pub name: Privacy,
    pub description: Privacy,
    pub birthday: Privacy,
    pub pronouns: Privacy,
    pub avatar: Privacy,
    pub metadata: Privacy,
}

/// The most bytes that the prefix and the suffix of a proxy tag may take
/// together.
pub const PROXY_TAG_SIZE_LIMIT: usize = 100;

/// The texts that a list of proxy tags holds.
pub open spec fn proxy_tags_view(s: Seq<ProxyTag>) -> Seq<(Option<Seq<char>>, Option<Seq<char>>)> {
    s.map_values(|t: ProxyTag| t.view())
}

/// The text that an optional string holds.
pub open spec fn opt_view(o: Option<String>) -> Option<Seq<char>> {
    match o {
        Some(s) => Some(s@),
        None => None,
    }
}

/// The text that an optional string slice holds.
pub open spec fn str_opt_view(o: Option<&str>) -> Option<Seq<char>> {
    match o {
        Some(s) => Some(s@),
        None => None,
    }
}

/// The bytes that an optional fragment takes: none when it is absent.
pub open spec fn fragment_len(o: Option<Seq<char>>) -> nat {
    match o {
        Some(s) => byte_len(s),
        None => 0,
    }
}

/// A proxy tag: text written before and after a message.
#[derive(Clone, Debug)]
pub struct ProxyTag {
    pub prefix: Option<String>,
    pub suffix: Option<String>,
}

/// The prefix and the suffix of a proxy tag were too long together.
#[derive(Clone, Copy, Debug, PartialEq, Eq, Structural)]
pub struct ProxyTagExceededLimitError;

/// The bytes of an optional fragment, and its text.
fn fragment(o: Option<&str>) -> (r: (usize, Option<String>))
    ensures
        r.0 == fragment_len(str_opt_view(o)),
        opt_view(r.1) == str_opt_view(o),
{
    match o {
        Some(s) => (s.as_bytes().len(), Some(String::from_str(s))),
        None => (0, None),
    }
}

impl ProxyTag {
    pub open spec fn view(&self) -> (Option<Seq<char>>, Option<Seq<char>>) {
        (opt_view(self.prefix), opt_view(self.suffix))
    }

    /// Makes a proxy tag of an optional prefix and an optional suffix. The two
    /// are limited together: their bytes may add up to at most 100.
    pub fn new(prefix: Option<&str>, suffix: Option<&str>) -> (r: Result<
        ProxyTag,
        ProxyTagExceededLimitError,
    >)
        ensures
            r is Ok <==> fragment_len(str_opt_view(prefix)) + fragment_len(str_opt_view(suffix))
                <= PROXY_TAG_SIZE_LIMIT,
            r matches Ok(t) ==> t.view() == (str_opt_view(prefix), str_opt_view(suffix)),
    {
        let (prefix_len, prefix_text) = fragment(prefix);
        let (suffix_len, suffix_text) = fragment(suffix);
        if prefix_len > PROXY_TAG_SIZE_LIMIT || suffix_len > PROXY_TAG_SIZE_LIMIT - prefix_len {
            return Err(ProxyTagExceededLimitError);
        }
        Ok(ProxyTag { prefix: prefix_text, suffix: suffix_text })
    }
}

/// A change to a member's privacy settings: each setting is left alone or set.
#[derive(Clone, Debug)]
pub struct MemberPrivacyPatch {
    pub visibility: Patchable<Privacy>,
    pub name: Patchable<Privacy>,
    pub description: Patchable<Privacy>,
    pub birthday: Patchable<Privacy>,
    pub pronouns: Patchable<Privacy>,
    pub avatar: Patchable<Privacy>,
    pub metadata: Patchable<Privacy>,
}

/// Appends what a privacy setting contributes to the written form.
fn push_privacy(out: &mut Vec<PrivacyField>, name: &str, p: &Patchable<Privacy>)
    ensures
        privacy_fields_view(final(out)@) == privacy_fields_view(old(out)@) + emit(name@, *p),
{
    match p {
        Patchable::Patched(v) => {
            let f = PrivacyField { name: String::from_str(name), value: *v };
            out.push(f);
            assert(privacy_fields_view(out@) =~= privacy_fields_view(old(out)@) + emit(name@, *p));
        },
        Patchable::Unmodified => {
            assert(privacy_fields_view(out@) =~= privacy_fields_view(old(out)@) + emit(name@, *p));
        },
    }
}

impl MemberPrivacyPatch {
    /// The settings that are written out, in order, with their names.
    pub open spec fn spec_fields(self) -> Seq<(Seq<char>, Privacy)> {
        emit("visibility"@, self.visibility) + emit("name"@, self.name) + emit(
            "description"@,
            self.description,
        ) + emit("birthday"@, self.birthday) + emit("pronouns"@, self.pronouns) + emit(
            "avatar"@,
            self.avatar,
        ) + emit("metadata"@, self.metadata)
    }

    /// Whether every setting is set to `privacy`.
    pub open spec fn is_all(self, privacy: Privacy) -> bool {
        &&& self.visibility == Patchable::Patched(privacy)
        &&& self.name == Patchable::Patched(privacy)
        &&& self.description == Patchable::Patched(privacy)
        &&& self.birthday == Patchable::Patched(privacy)
        &&& self.pronouns == Patchable::Patched(privacy)
        &&& self.avatar == Patchable::Patched(privacy)
        &&& self.metadata == Patchable::Patched(privacy)
    }

    /// A patch that sets every setting to `privacy`.
    pub fn all(privacy: Privacy) -> (r: MemberPrivacyPatch)
        ensures
            r.is_all(privacy),
    {
        MemberPrivacyPatch {
            visibility: Patchable::Patched(privacy),
            name: Patchable::Patched(privacy),
            description: Patchable::Patched(privacy),
            birthday: Patchable::Patched(privacy),
            pronouns: Patchable::Patched(privacy),
            avatar: Patchable::Patched(privacy),
            metadata: Patchable::Patched(privacy),
        }
    }

    /// A patch that makes every part of a member public.
    pub fn public() -> (r: MemberPrivacyPatch)
        ensures
            r.is_all(Privacy::Public),
    {
        MemberPrivacyPatch::all(Privacy::Public)
    }

    /// A patch that makes every part of a member private.
    pub fn private() -> (r: MemberPrivacyPatch)
        ensures
            r.is_all(Privacy::Private),
    {
        MemberPrivacyPatch::all(Privacy::Private)
    }

    /// The settings that are written out: those that are set, in the order
    /// of the fields, each under its name. Those left alone are skipped.
    pub fn fields(&self) -> (r: Vec<PrivacyField>)
        ensures
            privacy_fields_view(r@) == self.spec_fields(),
    {
        let mut out: Vec<PrivacyField> = Vec::new();
        assert(privacy_fields_view(out@) =~= seq![]);
        push_privacy(&mut out, "visibility", &self.visibility);
        push_privacy(&mut out, "name", &self.name);
        push_privacy(&mut out, "description", &self.description);
        push_privacy(&mut out, "birthday", &self.birthday);
        push_privacy(&mut out, "pronouns", &self.pronouns);
        push_privacy(&mut out, "avatar", &self.avatar);
        push_privacy(&mut out, "metadata", &self.metadata);
        assert(privacy_fields_view(out@) =~= self.spec_fields());
        out
    }
}

impl Default for MemberPrivacyPatch {
    fn default() -> (r: MemberPrivacyPatch)
        ensures
            r.spec_fields() == Seq::<(Seq<char>, Privacy)>::empty(),
            r.visibility is Unmodified && r.name is Unmodified && r.description is Unmodified
                && r.birthday is Unmodified && r.pronouns is Unmodified && r.avatar is Unmodified
                && r.metadata is Unmodified,
    {
        let r = MemberPrivacyPatch {
            visibility: Patchable::Unmodified,
            name: Patchable::Unmodified,
            description: Patchable::Unmodified,
            birthday: Patchable::Unmodified,
            pronouns: Patchable::Unmodified,
            avatar: Patchable::Unmodified,
            metadata: Patchable::Unmodified,
        };
        assert(r.spec_fields() =~= Seq::<(Seq<char>, Privacy)>::empty());
        r
    }
}

/// A change to a member: each field is left alone or set. The list of proxy
/// tags is always written out and replaces the member's whole list.
#[derive(Clone, Debug)]
pub struct MemberPatch {
    pub name: Patchable<LimitedStr<100>>,
    pub display_name: Patchable<Option<LimitedStr<100>>>,
    pub color: Patchable<Option<Color>>,
    pub birthday: Patchable<Option<OffsetDateTime>>,
    pub pronouns: Patchable<Option<LimitedStr<100>>>,
    pub avatar: Patchable<Option<LimitedUrl<256>>>,
    pub webhook_avatar: Patchable<Option<LimitedUrl<256>>>,
    pub banner: Patchable<Option<LimitedUrl<256>>>,
    pub description: Patchable<Option<LimitedStr<1000>>>,
    pub proxy_tags: Vec<ProxyTag>,
    pub keep_proxy_tags: Patchable<bool>,
    pub text_to_speech: Patchable<bool>,
    pub autoproxy_enabled: Patchable<Option<bool>>,
    pub privacy: Patchable<MemberPrivacyPatch>,
}

/// The written-out value that a patch field holds, when it is set.
pub open spec fn patch_value_view(p: Patchable<FieldValue>) -> Patchable<ValueView> {
    match p {
        Patchable::Patched(v) => Patchable::Patched(v.view()),
        Patchable::Unmodified => Patchable::Unmodified,
    }
}

/// A set text field is written out as its text.
pub open spec fn text_patch<const L: usize>(p: Patchable<LimitedStr<L>>) -> Patchable<ValueView> {
    match p {
        Patchable::Patched(s) => Patchable::Patched(ValueView::Text(s@)),
        Patchable::Unmodified => Patchable::Unmodified,
    }
}

/// A set optional text field is written out as its text, or as null.
pub open spec fn opt_text_patch<const L: usize>(p: Patchable<Option<LimitedStr<L>>>) -> Patchable<
    ValueView,
> {
    match p {
        Patchable::Patched(Some(s)) => Patchable::Patched(ValueView::Text(s@)),
        Patchable::Patched(None) => Patchable::Patched(ValueView::Null),
        Patchable::Unmodified => Patchable::Unmodified,
    }
}

/// A set colour field is written out as six hexadecimal digits, or as null.
pub open spec fn color_patch(p: Patchable<Option<Color>>) -> Patchable<ValueView> {
    match p {
        Patchable::Patched(Some(c)) => Patchable::Patched(ValueView::Text(c.spec_hex())),
        Patchable::Patched(None) => Patchable::Patched(ValueView::Null),
        Patchable::Unmodified => Patchable::Unmodified,
    }
}

/// A set time field is written out as the time, or as null.
pub open spec fn datetime_patch(p: Patchable<Option<OffsetDateTime>>) -> Patchable<ValueView> {
    match p {
        Patchable::Patched(Some(d)) => Patchable::Patched(ValueView::Timestamp(d)),
        Patchable::Patched(None) => Patchable::Patched(ValueView::Null),
        Patchable::Unmodified => Patchable::Unmodified,
    }
}

/// A set URL field is written out as the URL, or as null.
pub open spec fn url_patch<const L: usize>(p: Patchable<Option<LimitedUrl<L>>>) -> Patchable<
    ValueView,
> {
    match p {
        Patchable::Patched(Some(u)) => Patchable::Patched(ValueView::Link(u.spec_url())),
        Patchable::Patched(None) => Patchable::Patched(ValueView::Null),
        Patchable::Unmodified => Patchable::Unmodified,
    }
}

/// A set flag is written out as itself.
pub open spec fn bool_patch(p: Patchable<bool>) -> Patchable<ValueView> {
    match p {
        Patchable::Patched(b) => Patchable::Patched(ValueView::Bool(b)),
        Patchable::Unmodified => Patchable::Unmodified,
    }
}

/// A set optional flag is written out as itself, or as null.
pub open spec fn opt_bool_patch(p: Patchable<Option<bool>>) -> Patchable<ValueView> {
    match p {
        Patchable::Patched(Some(b)) => Patchable::Patched(ValueView::Bool(b)),
        Patchable::Patched(None) => Patchable::Patched(ValueView::Null),
        Patchable::Unmodified => Patchable::Unmodified,
    }
}

/// A set privacy patch is written out as the object of its own set fields.
pub open spec fn privacy_patch(p: Patchable<MemberPrivacyPatch>) -> Patchable<ValueView> {
    match p {
        Patchable::Patched(q) => Patchable::Patched(ValueView::PrivacyObject(q.spec_fields())),
        Patchable::Unmodified => Patchable::Unmodified,
    }
}

/// Appends what a field contributes to the written form.
fn push_field(out: &mut Vec<Field>, name: &str, p: Patchable<FieldValue>)
    ensures
        fields_view(final(out)@) == fields_view(old(out)@) + emit(name@, patch_value_view(p)),
{
    match p {
        Patchable::Patched(v) => {
            out.push(Field { name: String::from_str(name), value: v });
            assert(fields_view(out@) =~= fields_view(old(out)@) + emit(
                name@,
                patch_value_view(p),
            ));
        },
        Patchable::Unmodified => {
            assert(fields_view(out@) =~= fields_view(old(out)@) + emit(
                name@,
                patch_value_view(p),
            ));
        },
    }
}

fn text_value<const L: usize>(p: &Patchable<LimitedStr<L>>) -> (r: Patchable<FieldValue>)
    ensures
        patch_value_view(r) == text_patch(*p),
{
    match p {
        Patchable::Patched(s) => Patchable::Patched(FieldValue::Text(s.to_string())),
        Patchable::Unmodified => Patchable::Unmodified,
    }
}

fn opt_text_value<const L: usize>(p: &Patchable<Option<LimitedStr<L>>>) -> (r: Patchable<FieldValue>)
    ensures
        patch_value_view(r) == opt_text_patch(*p),
{
    match p {
        Patchable::Patched(Some(s)) => Patchable::Patched(FieldValue::Text(s.to_string())),
        Patchable::Patched(None) => Patchable::Patched(FieldValue::Null),
        Patchable::Unmodified => Patchable::Unmodified,
    }
}

fn url_value<const L: usize>(p: &Patchable<Option<LimitedUrl<L>>>) -> (r: Patchable<FieldValue>)
    ensures
        patch_value_view(r) == url_patch(*p),
{
    match p {
        Patchable::Patched(Some(u)) => Patchable::Patched(FieldValue::Link(u.as_url().clone())),
        Patchable::Patched(None) => Patchable::Patched(FieldValue::Null),
        Patchable::Unmodified => Patchable::Unmodified,
    }
}

fn bool_value(p: &Patchable<bool>) -> (r: Patchable<FieldValue>)
    ensures
        patch_value_view(r) == bool_patch(*p),
{
    match p {
        Patchable::Patched(b) => Patchable::Patched(FieldValue::Bool(*b)),
        Patchable::Unmodified => Patchable::Unmodified,
    }
}

fn opt_bool_value(p: &Patchable<Option<bool>>) -> (r: Patchable<FieldValue>)
    ensures
        patch_value_view(r) == opt_bool_patch(*p),
{
    match p {
        Patchable::Patched(Some(b)) => Patchable::Patched(FieldValue::Bool(*b)),
        Patchable::Patched(None) => Patchable::Patched(FieldValue::Null),
        Patchable::Unmodified => Patchable::Unmodified,
    }
}

fn privacy_value(p: &Patchable<MemberPrivacyPatch>) -> (r: Patchable<FieldValue>)
    ensures
        patch_value_view(r) == privacy_patch(*p),
{
    match p {
        Patchable::Patched(q) => Patchable::Patched(FieldValue::PrivacyObject(q.fields())),
        Patchable::Unmodified => Patchable::Unmodified,
    }
}

/// Where the colour and time encoders are handed a set field, they succeed.
fn encoded(r: Result<FieldValue, PatchFieldError>, p: bool) -> (v: Patchable<FieldValue>)
    requires
        p ==> r is Ok,
    ensures
        p ==> v == Patchable::Patched(r->Ok_0),
        !p ==> v is Unmodified,
{
    match r {
        Ok(x) if p => Patchable::Patched(x),
        _ => Patchable::Unmodified,
    }
}

/// A copy of a proxy tag.
fn clone_tag(t: &ProxyTag) -> (r: ProxyTag)
    ensures
        r.view() == t.view(),
{
    let prefix = match &t.prefix {
        Some(s) => Some(s.clone()),
        None => None,
    };
    let suffix = match &t.suffix {
        Some(s) => Some(s.clone()),
        None => None,
    };
    ProxyTag { prefix, suffix }
}

/// A copy of a list of proxy tags.
fn clone_tags(tags: &Vec<ProxyTag>) -> (r: Vec<ProxyTag>)
    ensures
        proxy_tags_view(r@) == proxy_tags_view(tags@),
{
    let mut out: Vec<ProxyTag> = Vec::new();
    let mut i: usize = 0;
    while i < tags.len()
        invariant
            i <= tags@.len(),
            out@.len() == i,
            forall|j: int| 0 <= j < i ==> #[trigger] out@[j].view() == tags@[j].view(),
        decreases tags@.len() - i,
    {
        out.push(clone_tag(&tags[i]));
        i = i + 1;
    }
    assert(proxy_tags_view(out@) =~= proxy_tags_view(tags@));
    out
}

impl MemberPatch {
    /// The fields that are written out, in order, with their names.
    pub open spec fn spec_fields(self) -> Seq<(Seq<char>, ValueView)> {
        emit("name"@, text_patch(self.name)) + emit("display_name"@, opt_text_patch(self.display_name))
            + emit("color"@, color_patch(self.color)) + emit("birthday"@, datetime_patch(self.birthday))
            + emit("pronouns"@, opt_text_patch(self.pronouns)) + emit("avatar_url"@, url_patch(self.avatar))
            + emit("webhook_avatar_url"@, url_patch(self.webhook_avatar)) + emit(
            "banner"@,
            url_patch(self.banner),
        ) + emit("description"@, opt_text_patch(self.description)) + seq![
            ("proxy_tags"@, ValueView::ProxyTags(proxy_tags_view(self.proxy_tags@))),
        ] + emit("keep_proxy"@, bool_patch(self.keep_proxy_tags)) + emit(
            "text_to_speech"@,
            bool_patch(self.text_to_speech),
        ) + emit("autoproxy_enabled"@, opt_bool_patch(self.autoproxy_enabled)) + emit(
            "privacy"@,
            privacy_patch(self.privacy),
        )
    }

    /// The fields that are written out: those that are set, in the order of
    /// the fields, each under its name, and always the list of proxy tags.
    /// A field that is set to `None` is written out as an explicit null.
    pub fn fields(&self) -> (r: Vec<Field>)
        ensures
            fields_view(r@) == self.spec_fields(),
    {
        let mut out: Vec<Field> = Vec::new();
        assert(fields_view(out@) =~= seq![]);
        push_field(&mut out, "name", text_value(&self.name));
        push_field(&mut out, "display_name", opt_text_value(&self.display_name));
        let color = encoded(patchable_color::serialize(&self.color), !self.color.is_unmodified());
        push_field(&mut out, "color", color);
        let birthday = encoded(patchable_datetime::serialize(&self.birthday), !self.birthday.is_unmodified());
        push_field(&mut out, "birthday", birthday);
        push_field(&mut out, "pronouns", opt_text_value(&self.pronouns));
        push_field(&mut out, "avatar_url", url_value(&self.avatar));
        push_field(&mut out, "webhook_avatar_url", url_value(&self.webhook_avatar));
        push_field(&mut out, "banner", url_value(&self.banner));
        push_field(&mut out, "description", opt_text_value(&self.description));
        let tags = clone_tags(&self.proxy_tags);
        push_field(&mut out, "proxy_tags", Patchable::Patched(FieldValue::ProxyTags(tags)));
        push_field(&mut out, "keep_proxy", bool_value(&self.keep_proxy_tags));
        push_field(&mut out, "text_to_speech", bool_value(&self.text_to_speech));
        push_field(&mut out, "autoproxy_enabled", opt_bool_value(&self.autoproxy_enabled));
        push_field(&mut out, "privacy", privacy_value(&self.privacy));
        assert(fields_view(out@) =~= self.spec_fields());
        out
    }
}

impl Default for MemberPatch {
    fn default() -> (r: MemberPatch)
        ensures
            r.spec_fields() == seq![
                ("proxy_tags"@, ValueView::ProxyTags(Seq::empty())),
            ],
            r.proxy_tags@.len() == 0,
    {
        let r = MemberPatch {
            name: Patchable::Unmodified,
            display_name: Patchable::Unmodified,
            color: Patchable::Unmodified,
            birthday: Patchable::Unmodified,
            pronouns: Patchable::Unmodified,
            avatar: Patchable::Unmodified,
            webhook_avatar: Patchable::Unmodified,
            banner: Patchable::Unmodified,
            description: Patchable::Unmodified,
            proxy_tags: Vec::new(),
            keep_proxy_tags: Patchable::Unmodified,
            text_to_speech: Patchable::Unmodified,
            autoproxy_enabled: Patchable::Unmodified,
            privacy: Patchable::Unmodified,
        };
        assert(proxy_tags_view(r.proxy_tags@) =~= Seq::empty());
        assert(r.spec_fields() =~= seq![("proxy_tags"@, ValueView::ProxyTags(Seq::empty()))]);
        r
    }
}

/// An optional field that is set to `None` is written out as an explicit null;
/// one set to `Some(v)` is written out as `v`'s own encoding. Shown for the
/// text, colour, time, URL and flag fields of a member patch.
pub proof fn lemma_cleared_is_null(name: Seq<char>, p: MemberPatch)
    ensures
        p.display_name == Patchable::Patched(None::<LimitedStr<100>>) ==> emit(
            name,
            opt_text_patch(p.display_name),
        ) == seq![(name, ValueView::Null)],
        p.display_name matches Patchable::Patched(Some(v)) ==> emit(name, opt_text_patch(p.display_name))
            == seq![(name, ValueView::Text(v@))],
        p.color == Patchable::Patched(None::<Color>) ==> emit(name, color_patch(p.color)) == seq![
            (name, ValueView::Null),
        ],
        p.color matches Patchable::Patched(Some(c)) ==> emit(name, color_patch(p.color)) == seq![
            (name, ValueView::Text(c.spec_hex())),
        ],
        p.birthday == Patchable::Patched(None::<OffsetDateTime>) ==> emit(name, datetime_patch(p.birthday))
            == seq![(name, ValueView::Null)],
        p.birthday matches Patchable::Patched(Some(d)) ==> emit(name, datetime_patch(p.birthday))
            == seq![(name, ValueView::Timestamp(d))],
        p.avatar == Patchable::Patched(None::<LimitedUrl<256>>) ==> emit(name, url_patch(p.avatar))
            == seq![(name, ValueView::Null)],
        p.avatar matches Patchable::Patched(Some(u)) ==> emit(name, url_patch(p.avatar)) == seq![
            (name, ValueView::Link(u.spec_url())),
        ],
        p.autoproxy_enabled == Patchable::Patched(None::<bool>) ==> emit(
            name,
            opt_bool_patch(p.autoproxy_enabled),
        ) == seq![(name, ValueView::Null)],
        p.autoproxy_enabled matches Patchable::Patched(Some(b)) ==> emit(
            name,
            opt_bool_patch(p.autoproxy_enabled),
        ) == seq![(name, ValueView::Bool(b))],
{
}

/// A member patch where nothing is set writes out the list of proxy tags
/// alone.
pub proof fn lemma_untouched_patch_writes_tags_only(p: MemberPatch)
    requires
        p.name is Unmodified,
        p.display_name is Unmodified,
        p.color is Unmodified,
        p.birthday is Unmodified,
        p.pronouns is Unmodified,
        p.avatar is Unmodified,
        p.webhook_avatar is Unmodified,
        p.banner is Unmodified,
        p.description is Unmodified,
        p.keep_proxy_tags is Unmodified,
        p.text_to_speech is Unmodified,
        p.autoproxy_enabled is Unmodified,
        p.privacy is Unmodified,
    ensures
        p.spec_fields() == seq![
            ("proxy_tags"@, ValueView::ProxyTags(proxy_tags_view(p.proxy_tags@))),
        ],
{
    assert(p.spec_fields() =~= seq![
        ("proxy_tags"@, ValueView::ProxyTags(proxy_tags_view(p.proxy_tags@))),
    ]);
}

/// A privacy patch that sets every setting to one value writes out all seven
/// settings, in order, each with that value.
pub proof fn lemma_all_writes_every_setting(p: MemberPrivacyPatch, privacy: Privacy)
    requires
        p.is_all(privacy),
    ensures
        p.spec_fields() == seq![
            ("visibility"@, privacy),
            ("name"@, privacy),
            ("description"@, privacy),
            ("birthday"@, privacy),
            ("pronouns"@, privacy),
            ("avatar"@, privacy),
            ("metadata"@, privacy),
        ],
        p.spec_fields().len() == 7,
        forall|i: int| 0 <= i < 7 ==> (#[trigger] p.spec_fields()[i]).1 == privacy,
{
    assert(p.spec_fields() =~= seq![
        ("visibility"@, privacy),
        ("name"@, privacy),
        ("description"@, privacy),
        ("birthday"@, privacy),
        ("pronouns"@, privacy),
        ("avatar"@, privacy),
        ("metadata"@, privacy),
    ]);
}

/// The names of a list of written-out entries.
pub open spec fn entry_names<V>(s: Seq<(Seq<char>, V)>) -> Seq<Seq<char>> {
    s.map_values(|e: (Seq<char>, V)| e.0)
}

/// Every entry that a field contributes carries that field's name.
proof fn lemma_emit_names<V>(name: Seq<char>, p: Patchable<V>)
    ensures
        forall|i: int| 0 <= i < emit(name, p).len() ==> (#[trigger] emit(name, p)[i]).0 == name,
{
}

/// A colour field that is left alone writes nothing under its name: the
/// written form of a member patch has no entry named `color`.
pub proof fn lemma_untouched_color_is_absent(p: MemberPatch)
    requires
        p.color is Unmodified,
    ensures
        !entry_names(p.spec_fields()).contains("color"@),
{
    reveal_strlit("name");
    reveal_strlit("display_name");
    reveal_strlit("color");
    reveal_strlit("birthday");
    reveal_strlit("pronouns");
    reveal_strlit("avatar_url");
    reveal_strlit("webhook_avatar_url");
    reveal_strlit("banner");
    reveal_strlit("description");
    reveal_strlit("proxy_tags");
    reveal_strlit("keep_proxy");
    reveal_strlit("text_to_speech");
    reveal_strlit("autoproxy_enabled");
    reveal_strlit("privacy");
    let f = p.spec_fields();
    assert forall|i: int| 0 <= i < f.len() implies (#[trigger] f[i]).0 != "color"@ by {
        lemma_emit_names("name"@, text_patch(p.name));
        lemma_emit_names("display_name"@, opt_text_patch(p.display_name));
        lemma_emit_names("birthday"@, datetime_patch(p.birthday));
        lemma_emit_names("pronouns"@, opt_text_patch(p.pronouns));
        lemma_emit_names("avatar_url"@, url_patch(p.avatar));
        lemma_emit_names("webhook_avatar_url"@, url_patch(p.webhook_avatar));
        lemma_emit_names("banner"@, url_patch(p.banner));
        lemma_emit_names("description"@, opt_text_patch(p.description));
        lemma_emit_names("keep_proxy"@, bool_patch(p.keep_proxy_tags));
        lemma_emit_names("text_to_speech"@, bool_patch(p.text_to_speech));
        lemma_emit_names("autoproxy_enabled"@, opt_bool_patch(p.autoproxy_enabled));
        lemma_emit_names("privacy"@, privacy_patch(p.privacy));
        assert("color"@.len() == 5);
    }
    assert forall|i: int| 0 <= i < f.len() implies #[trigger] entry_names(f)[i] != "color"@ by {
        assert(entry_names(f)[i] == f[i].0);
    }
}

} // verus!
