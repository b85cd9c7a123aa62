//! The record schema: the shape of each secret record and its stored form.
//!
//! A record is stored as one JSON object with a text member for each field
//! that is present. Required fields are always written; an optional field
//! that is absent is left out, never written as `null`. Reading accepts what
//! writing produces and a little more: members that the schema does not know
//! are passed over, and `null` in the place of an optional field reads as
//! absent. Anything else is malformed.

use vstd::prelude::*;
use vstd::std_specs::cmp::PartialEqSpecImpl;
use crate::json::{json_members, json_text, read_object, write_object, Member, MemberView};
use crate::slot::Slot;

verus! {

/// The fields that records are made of.
#[derive(Clone, Copy, PartialEq, Eq, Debug, Structural)]
pub enum Field {
    Provider,
    ApiKey,
    BaseUrl,
    Language,
    Model,
}

impl Field {
    /// The key under which the field is stored.
    pub open spec fn key(self) -> Seq<char> {
        match self {
            Field::Provider => "provider"@,
            Field::ApiKey => "api_key"@,
            Field::BaseUrl => "base_url"@,
            Field::Language => "language"@,
            Field::Model => "model"@,
        }
    }

    /// The key under which the field is stored.
    pub fn name(&self) -> (name: String)
        ensures
            name@ == self.key(),
    {
        match self {
            Field::Provider => "provider".to_owned(),
            Field::ApiKey => "api_key".to_owned(),
            Field::BaseUrl => "base_url".to_owned(),
            Field::Language => "language".to_owned(),
            Field::Model => "model".to_owned(),
        }
    }
}

/// No two fields are stored under the same key.
pub proof fn lemma_keys_distinct(a: Field, b: Field)
    ensures
        a != b ==> a.key() != b.key(),
{
    reveal_strlit("provider");
    reveal_strlit("api_key");
    reveal_strlit("base_url");
    reveal_strlit("language");
    reveal_strlit("model");
    if a != b {
        assert(a.key()[0] != b.key()[0]);
    }
}

/// What is wrong with a stored text.
#[derive(Clone, Copy, PartialEq, Eq, Debug, Structural)]
pub enum Flaw {
    /// The text is not one JSON object.
    Unreadable,
    /// A required field has no member.
    Missing(Field),
    /// The member of a field holds something other than a text.
    Mistyped(Field),
}

/// Why a record could not be read or written.
#[derive(Clone, Copy, PartialEq, Eq, Debug, Structural)]
pub enum SchemaError {
    /// The stored text does not have the shape of the record.
    Malformed(Flaw),
    /// No text was produced that reads back as the record.
    Unwritable,
}

impl SchemaError {
    /// The error in words. No stored text and no part of a record is ever
    /// repeated in it.
    pub open spec fn text(self) -> Seq<char> {
        match self {
            SchemaError::Malformed(Flaw::Unreadable) => "stored value is not a JSON object"@,
            SchemaError::Malformed(Flaw::Missing(field)) => "stored value has no field `"@
                + field.key() + "`"@,
            SchemaError::Malformed(Flaw::Mistyped(field)) => "stored value holds no text in field `"@
                + field.key() + "`"@,
            SchemaError::Unwritable => "record cannot be written as JSON"@,
        }
    }

    /// The error in words, for a caller that shows it to the user.
    pub fn message(&self) -> (message: String)
        ensures
            message@ == self.text(),
    {
        match self {
            SchemaError::Malformed(Flaw::Unreadable) => "stored value is not a JSON object".to_owned(),
            SchemaError::Malformed(Flaw::Missing(field)) => {
                let mut message = "stored value has no field `".to_owned();
                message.append(field.name().as_str());
                message.append("`");
                message
            },
            SchemaError::Malformed(Flaw::Mistyped(field)) => {
                let mut message = "stored value holds no text in field `".to_owned();
                message.append(field.name().as_str());
                message.append("`");
                message
            },
            SchemaError::Unwritable => "record cannot be written as JSON".to_owned(),
        }
    }
}

impl DeepView for SchemaError {
    type V = SchemaError;

    open spec fn deep_view(&self) -> SchemaError {
        *self
    }
}

/// The credentials of the language-model backend.
#[derive(Clone, Debug)]
pub struct SecureApiConfig {
    /// Which backend the key belongs to.
    pub provider: String,
    /// The secret itself.
    pub api_key: String,
    /// Where the backend is reached, if not at its usual place.
    pub base_url: Option<String>,
}

/// A [`SecureApiConfig`] with its texts as character sequences.
pub struct ApiConfigView {
    pub provider: Seq<char>,
    pub api_key: Seq<char>,
    pub base_url: Option<Seq<char>>,
}

impl View for SecureApiConfig {
    type V = ApiConfigView;

    open spec fn view(&self) -> ApiConfigView {
        ApiConfigView {
            provider: self.provider@,
            api_key: self.api_key@,
            base_url: self.base_url.deep_view(),
        }
    }
}

/// The credentials of the speech-to-text backend.
#[derive(Clone, Debug)]
pub struct SecureSttConfig {
    /// Which backend the key belongs to.
    pub provider: String,
    /// The secret itself.
    pub api_key: String,
    /// The language to expect, if one is fixed.
    pub language: Option<String>,
    /// The model to use, if not the backend's own choice.
    pub model: Option<String>,
}

/// A [`SecureSttConfig`] with its texts as character sequences.
pub struct SttConfigView {
    pub provider: Seq<char>,
    pub api_key: Seq<char>,
    pub language: Option<Seq<char>>,
    pub model: Option<Seq<char>>,
}

impl View for SecureSttConfig {
    type V = SttConfigView;

    open spec fn view(&self) -> SttConfigView {
        SttConfigView {
            provider: self.provider@,
            api_key: self.api_key@,
            language: self.language.deep_view(),
            model: self.model.deep_view(),
        }
    }
}

/// A secret record of any kind. Each kind belongs to one slot.
#[derive(Clone, Debug)]
pub enum SecretRecord {
    Api(SecureApiConfig),
    Stt(SecureSttConfig),
}

/// A [`SecretRecord`] with its texts as character sequences.
pub enum RecordView {
    Api(ApiConfigView),
    Stt(SttConfigView),
}

impl View for SecretRecord {
    type V = RecordView;

    open spec fn view(&self) -> RecordView {
        match self {
            SecretRecord::Api(config) => RecordView::Api(config@),
            SecretRecord::Stt(config) => RecordView::Stt(config@),
        }
    }
}

impl DeepView for SecretRecord {
    type V = RecordView;

    open spec fn deep_view(&self) -> RecordView {
        self@
    }
}

impl DeepView for SecureApiConfig {
    type V = ApiConfigView;

    open spec fn deep_view(&self) -> ApiConfigView {
        self@
    }
}

impl DeepView for SecureSttConfig {
    type V = SttConfigView;

    open spec fn deep_view(&self) -> SttConfigView {
        self@
    }
}

/// Whether two optional texts are the same: both absent, or both present
/// with the same characters.
pub fn same_text(a: &Option<String>, b: &Option<String>) -> (same: bool)
    ensures
        same == (a.deep_view() == b.deep_view()),
{
    match a {
        Some(x) => match b {
            Some(y) => *x == *y,
            None => false,
        },
        None => b.is_none(),
    }
}

impl PartialEq for SecureApiConfig {
    fn eq(&self, other: &SecureApiConfig) -> (same: bool) {
        self.provider == other.provider && self.api_key == other.api_key && same_text(
            &self.base_url,
            &other.base_url,
        )
    }
}

impl PartialEqSpecImpl for SecureApiConfig {
    open spec fn obeys_eq_spec() -> bool {
        true
    }

    open spec fn eq_spec(&self, other: &SecureApiConfig) -> bool {
        self@ == other@
    }
}

impl PartialEq for SecureSttConfig {
    fn eq(&self, other: &SecureSttConfig) -> (same: bool) {
        self.provider == other.provider && self.api_key == other.api_key && same_text(
            &self.language,
            &other.language,
        ) && same_text(&self.model, &other.model)
    }
}

impl PartialEqSpecImpl for SecureSttConfig {
    open spec fn obeys_eq_spec() -> bool {
        true
    }

    open spec fn eq_spec(&self, other: &SecureSttConfig) -> bool {
        self@ == other@
    }
}

impl PartialEq for SecretRecord {
    fn eq(&self, other: &SecretRecord) -> (same: bool) {
        match self {
            SecretRecord::Api(a) => match other {
                SecretRecord::Api(b) => *a == *b,
                SecretRecord::Stt(_) => false,
            },
            SecretRecord::Stt(a) => match other {
                SecretRecord::Api(_) => false,
                SecretRecord::Stt(b) => *a == *b,
            },
        }
    }
}

impl PartialEqSpecImpl for SecretRecord {
    open spec fn obeys_eq_spec() -> bool {
        true
    }

    open spec fn eq_spec(&self, other: &SecretRecord) -> bool {
        self@ == other@
    }
}

/// The members written so far, and one more for an optional field if it is
/// present.
pub open spec fn with_optional(
    members: Seq<(Seq<char>, Seq<char>)>,
    field: Field,
    value: Option<Seq<char>>,
) -> Seq<(Seq<char>, Seq<char>)> {
    match value {
        Some(text) => members.push((field.key(), text)),
        None => members,
    }
}

impl RecordView {
    /// The slot that records of this kind are kept in.
    pub open spec fn slot(self) -> Slot {
        match self {
            RecordView::Api(_) => Slot::ApiConfig,
            RecordView::Stt(_) => Slot::SttConfig,
        }
    }

    /// The value of a field: `None` where the record's kind has no such
    /// field, or has it and it is absent.
    pub open spec fn field(self, field: Field) -> Option<Seq<char>> {
        match self {
            RecordView::Api(config) => match field {
                Field::Provider => Some(config.provider),
                Field::ApiKey => Some(config.api_key),
                Field::BaseUrl => config.base_url,
                _ => None,
            },
            RecordView::Stt(config) => match field {
                Field::Provider => Some(config.provider),
                Field::ApiKey => Some(config.api_key),
                Field::Language => config.language,
                Field::Model => config.model,
                _ => None,
            },
        }
    }

    /// The members that are written for the record, in their order.
    pub open spec fn members(self) -> Seq<(Seq<char>, Seq<char>)> {
        match self {
            RecordView::Api(config) => with_optional(
                seq![(Field::Provider.key(), config.provider), (Field::ApiKey.key(), config.api_key)],
                Field::BaseUrl,
                config.base_url,
            ),
            RecordView::Stt(config) => with_optional(
                with_optional(
                    seq![
                        (Field::Provider.key(), config.provider),
                        (Field::ApiKey.key(), config.api_key),
                    ],
                    Field::Language,
                    config.language,
                ),
                Field::Model,
                config.model,
            ),
        }
    }
}

/// A result with both sides taken by their views.
pub open spec fn seen<T: DeepView, E: DeepView>(result: Result<T, E>) -> Result<T::V, E::V> {
    match result {
        Ok(value) => Ok(value.deep_view()),
        Err(error) => Err(error.deep_view()),
    }
}

/// The first member stored under a key, if there is one.
pub open spec fn lookup(members: Seq<(Seq<char>, MemberView)>, key: Seq<char>) -> Option<MemberView>
    decreases members.len(),
{
    if members.len() == 0 {
        None
    } else if members[0].0 == key {
        Some(members[0].1)
    } else {
        lookup(members.drop_first(), key)
    }
}

/// The text of a required field: its member must be there and hold a text.
pub open spec fn required(members: Seq<(Seq<char>, MemberView)>, field: Field) -> Result<
    Seq<char>,
    SchemaError,
> {
    match lookup(members, field.key()) {
        Some(MemberView::Text(text)) => Ok(text),
        Some(_) => Err(SchemaError::Malformed(Flaw::Mistyped(field))),
        None => Err(SchemaError::Malformed(Flaw::Missing(field))),
    }
}

/// The text of an optional field: absent where it has no member or its
/// member is `null`; a member of any other kind but text is a flaw.
pub open spec fn optional(members: Seq<(Seq<char>, MemberView)>, field: Field) -> Result<
    Option<Seq<char>>,
    SchemaError,
> {
    match lookup(members, field.key()) {
        Some(MemberView::Text(text)) => Ok(Some(text)),
        Some(MemberView::Null) | None => Ok(None),
        Some(_) => Err(SchemaError::Malformed(Flaw::Mistyped(field))),
    }
}

/// The record of a slot that a list of members stands for. The fields are
/// taken in the order of their declaration, and the first flaw is reported.
pub open spec fn decoded(slot: Slot, members: Seq<(Seq<char>, MemberView)>) -> Result<
    RecordView,
    SchemaError,
> {
    match (required(members, Field::Provider), required(members, Field::ApiKey)) {
        (Err(flaw), _) => Err(flaw),
        (Ok(_), Err(flaw)) => Err(flaw),
        (Ok(provider), Ok(api_key)) => match slot {
            Slot::ApiConfig => match optional(members, Field::BaseUrl) {
                Err(flaw) => Err(flaw),
                Ok(base_url) => Ok(RecordView::Api(ApiConfigView { provider, api_key, base_url })),
            },
            Slot::SttConfig => match (
                optional(members, Field::Language),
                optional(members, Field::Model),
            ) {
                (Err(flaw), _) => Err(flaw),
                (Ok(_), Err(flaw)) => Err(flaw),
                (Ok(language), Ok(model)) => Ok(
                    RecordView::Stt(SttConfigView { provider, api_key, language, model }),
                ),
            },
        },
    }
}

/// The record of a slot that a stored text stands for.
pub open spec fn parsed(slot: Slot, text: Seq<char>) -> Result<RecordView, SchemaError> {
    match json_members(text) {
        Some(members) => decoded(slot, members),
        None => Err(SchemaError::Malformed(Flaw::Unreadable)),
    }
}

/// The text under which a record is stored: what the codec writes for its
/// members, provided that this text reads back as the record. Without such a
/// text the record is unwritable.
pub open spec fn written(record: RecordView) -> Result<Seq<char>, SchemaError> {
    match json_text(record.members()) {
        Some(text) => if parsed(record.slot(), text) == Ok::<RecordView, SchemaError>(record) {
            Ok(text)
        } else {
            Err(SchemaError::Unwritable)
        },
        None => Err(SchemaError::Unwritable),
    }
}

/// Finds the first member stored under the key of a field.
pub fn find<'a>(members: &'a Vec<(String, Member)>, field: Field) -> (found: Option<&'a Member>)
    ensures
        found.deep_view() == lookup(members.deep_view(), field.key()),
{
    let key = field.name();
    let ghost all = members.deep_view();
    let mut i: usize = 0;
    assert(all.skip(0) =~= all);
    while i < members.len()
        invariant
            i <= members.len(),
            key@ == field.key(),
            all == members.deep_view(),
            lookup(all, field.key()) == lookup(all.skip(i as int), field.key()),
        decreases members.len() - i,
    {
        assert(all.skip(i as int)[0] == all[i as int]);
        if members[i].0 == key {
            return Some(&members[i].1);
        }
        assert(all.skip(i as int).drop_first() =~= all.skip(i + 1));
        i += 1;
    }
    None
}

/// Reads a required field.
pub fn required_text(members: &Vec<(String, Member)>, field: Field) -> (r: Result<String, SchemaError>)
    ensures
        seen(r) == required(members.deep_view(), field),
{
    match find(members, field) {
        Some(Member::Text(text)) => Ok(text.clone()),
        Some(_) => Err(SchemaError::Malformed(Flaw::Mistyped(field))),
        None => Err(SchemaError::Malformed(Flaw::Missing(field))),
    }
}

/// Reads an optional field.
pub fn optional_text(members: &Vec<(String, Member)>, field: Field) -> (r: Result<
    Option<String>,
    SchemaError,
>)
    ensures
        seen(r) == optional(members.deep_view(), field),
{
    match find(members, field) {
        Some(Member::Text(text)) => Ok(Some(text.clone())),
        Some(Member::Null) => Ok(None),
        None => Ok(None),
        Some(_) => Err(SchemaError::Malformed(Flaw::Mistyped(field))),
    }
}

/// Adds the member of an optional field to the members to write, if the
/// field is present.
fn push_optional(members: &mut Vec<(String, String)>, field: Field, value: &Option<String>)
    ensures
        final(members).deep_view() == with_optional(
            old(members).deep_view(),
            field,
            value.deep_view(),
        ),
{
    match value {
        Some(text) => {
            members.push((field.name(), text.clone()));
            assert(members.deep_view() =~= old(members).deep_view().push((field.key(), text@)));
        },
        None => {},
    }
}

impl SecretRecord {
    /// The slot that the record is kept in.
    pub fn slot(&self) -> (slot: Slot)
        ensures
            slot == self@.slot(),
    {
        match self {
            SecretRecord::Api(_) => Slot::ApiConfig,
            SecretRecord::Stt(_) => Slot::SttConfig,
        }
    }

    /// The members to write for the record: the required fields, then each
    /// optional field that is present.
    pub fn members(&self) -> (members: Vec<(String, String)>)
        ensures
            members.deep_view() == self@.members(),
    {
        let mut members: Vec<(String, String)> = Vec::new();
        match self {
            SecretRecord::Api(config) => {
                members.push((Field::Provider.name(), config.provider.clone()));
                members.push((Field::ApiKey.name(), config.api_key.clone()));
                assert(members.deep_view() =~= seq![
                    (Field::Provider.key(), config.provider@),
                    (Field::ApiKey.key(), config.api_key@),
                ]);
                push_optional(&mut members, Field::BaseUrl, &config.base_url);
            },
            SecretRecord::Stt(config) => {
                members.push((Field::Provider.name(), config.provider.clone()));
                members.push((Field::ApiKey.name(), config.api_key.clone()));
                assert(members.deep_view() =~= seq![
                    (Field::Provider.key(), config.provider@),
                    (Field::ApiKey.key(), config.api_key@),
                ]);
                push_optional(&mut members, Field::Language, &config.language);
                push_optional(&mut members, Field::Model, &config.model);
            },
        }
        members
    }

    /// Builds the record of a slot from the members of a stored object.
    pub fn decode(slot: Slot, members: &Vec<(String, Member)>) -> (r: Result<
        SecretRecord,
        SchemaError,
    >)
        ensures
            seen(r) == decoded(slot, members.deep_view()),
    {
        let provider = match required_text(members, Field::Provider) {
            Ok(text) => text,
            Err(flaw) => { return Err(flaw); },
        };
        let api_key = match required_text(members, Field::ApiKey) {
            Ok(text) => text,
            Err(flaw) => { return Err(flaw); },
        };
        match slot {
            Slot::ApiConfig => {
                let base_url = match optional_text(members, Field::BaseUrl) {
                    Ok(text) => text,
                    Err(flaw) => { return Err(flaw); },
                };
                Ok(SecretRecord::Api(SecureApiConfig { provider, api_key, base_url }))
            },
            Slot::SttConfig => {
                let language = match optional_text(members, Field::Language) {
                    Ok(text) => text,
                    Err(flaw) => { return Err(flaw); },
                };
                let model = match optional_text(members, Field::Model) {
                    Ok(text) => text,
                    Err(flaw) => { return Err(flaw); },
                };
                Ok(SecretRecord::Stt(SecureSttConfig { provider, api_key, language, model }))
            },
        }
    }

    /// Reads the record of a slot from its stored text.
    ///
    /// The text must be one JSON object that holds a text for each required
    /// field. Whether it is an object, and which members it has, is for the
    /// codec to say; the rest is decided here.
    pub fn deserialize(slot: Slot, text: &str) -> (r: Result<SecretRecord, SchemaError>)
        ensures
            seen(r) == parsed(slot, text@),
    {
        match read_object(text) {
            Ok(members) => SecretRecord::decode(slot, &members),
            Err(_) => Err(SchemaError::Malformed(Flaw::Unreadable)),
        }
    }

    /// Writes the record as the text to store.
    ///
    /// The text is read back before it is handed out, so a text that comes
    /// out of here is known to stand for this record and no other. Should the
    /// codec fail, or write what does not read back, the record is
    /// unwritable.
    pub fn serialize(&self) -> (r: Result<String, SchemaError>)
        ensures
            seen(r) == written(self@),
    {
        let members = self.members();
        let text = match write_object(&members) {
            Ok(text) => text,
            Err(_) => { return Err(SchemaError::Unwritable); },
        };
        match SecretRecord::deserialize(self.slot(), text.as_str()) {
            Ok(back) => if back == *self {
                Ok(text)
            } else {
                Err(SchemaError::Unwritable)
            },
            Err(_) => Err(SchemaError::Unwritable),
        }
    }
}

/// The members that the codec is asked to write, as it should hand them back
/// when it reads them: each one a text.
pub open spec fn as_texts(members: Seq<(Seq<char>, Seq<char>)>) -> Seq<(Seq<char>, MemberView)> {
    members.map_values(|member: (Seq<char>, Seq<char>)| (member.0, MemberView::Text(member.1)))
}

/// A member added at the end is found only under keys that no earlier
/// member has.
pub proof fn lemma_lookup_push(
    members: Seq<(Seq<char>, MemberView)>,
    last: (Seq<char>, MemberView),
    key: Seq<char>,
)
    ensures
        lookup(members.push(last), key) == match lookup(members, key) {
            Some(member) => Some(member),
            None => if last.0 == key {
                Some(last.1)
            } else {
                None
            },
        },
    decreases members.len(),
{
    if members.len() == 0 {
        assert(members.push(last).drop_first() =~= members);
    } else {
        assert(members.push(last).drop_first() =~= members.drop_first().push(last));
        lemma_lookup_push(members.drop_first(), last, key);
    }
}

/// The members written for a record hold its fields and nothing else: a
/// field that is present is found under its key as a text, and a field that
/// is absent, or that the record's kind does not have, has no member at all.
pub proof fn lemma_members_hold_fields(record: RecordView, field: Field)
    ensures
        lookup(as_texts(record.members()), field.key()) == match record.field(field) {
            Some(text) => Some(MemberView::Text(text)),
            None => None,
        },
{
    let key = field.key();
    lemma_keys_distinct(field, Field::Provider);
    lemma_keys_distinct(field, Field::ApiKey);
    lemma_keys_distinct(field, Field::BaseUrl);
    lemma_keys_distinct(field, Field::Language);
    lemma_keys_distinct(field, Field::Model);
    let provider = (Field::Provider.key(), MemberView::Text(record.field(Field::Provider).unwrap()));
    let api_key = (Field::ApiKey.key(), MemberView::Text(record.field(Field::ApiKey).unwrap()));
    let none = Seq::<(Seq<char>, MemberView)>::empty();
    let required = none.push(provider).push(api_key);
    lemma_lookup_push(none, provider, key);
    lemma_lookup_push(none.push(provider), api_key, key);
    match record {
        RecordView::Api(config) => {
            match config.base_url {
                Some(text) => {
                    let base_url = (Field::BaseUrl.key(), MemberView::Text(text));
                    lemma_lookup_push(required, base_url, key);
                    assert(as_texts(record.members()) =~= required.push(base_url));
                },
                None => {
                    assert(as_texts(record.members()) =~= required);
                },
            }
        },
        RecordView::Stt(config) => {
            let first = match config.language {
                Some(text) => required.push((Field::Language.key(), MemberView::Text(text))),
                None => required,
            };
            if let Some(text) = config.language {
                lemma_lookup_push(required, (Field::Language.key(), MemberView::Text(text)), key);
            }
            let second = match config.model {
                Some(text) => first.push((Field::Model.key(), MemberView::Text(text))),
                None => first,
            };
            if let Some(text) = config.model {
                lemma_lookup_push(first, (Field::Model.key(), MemberView::Text(text)), key);
            }
            assert(as_texts(record.members()) =~= second);
        },
    }
}

/// Reading the members that were written for a record gives the record back,
/// with each optional field present or absent as it was.
pub proof fn lemma_decode_members(record: RecordView)
    ensures
        decoded(record.slot(), as_texts(record.members())) == Ok::<RecordView, SchemaError>(record),
{
    lemma_members_hold_fields(record, Field::Provider);
    lemma_members_hold_fields(record, Field::ApiKey);
    lemma_members_hold_fields(record, Field::BaseUrl);
    lemma_members_hold_fields(record, Field::Language);
    lemma_members_hold_fields(record, Field::Model);
}

/// Two lists of members read alike where every field finds the same in both.
/// Order does not matter, nor do members under other keys.
pub open spec fn read_alike(
    a: Seq<(Seq<char>, MemberView)>,
    b: Seq<(Seq<char>, MemberView)>,
) -> bool {
    forall|field: Field| lookup(a, #[trigger] field.key()) == lookup(b, field.key())
}

/// The codec is faithful to a record where it writes a text for the
/// record's members and reads from that text members that read like the ones
/// it was given.
pub open spec fn faithful(record: RecordView) -> bool {
    json_text(record.members()) matches Some(text) && json_members(text) matches Some(read)
        && read_alike(read, as_texts(record.members()))
}

/// Every record can be written as long as the codec does its part: where the
/// codec is faithful to a record, the text that it writes is the record's
/// stored form. A record is unwritable only where the codec falls short.
pub proof fn lemma_written_by_faithful_codec(record: RecordView)
    ensures
        faithful(record) ==> written(record) == Ok::<Seq<char>, SchemaError>(
            json_text(record.members())->Some_0,
        ),
{
    if faithful(record) {
        let read = json_members(json_text(record.members())->Some_0)->Some_0;
        let given = as_texts(record.members());
        lemma_decode_members(record);
        assert(lookup(read, Field::Provider.key()) == lookup(given, Field::Provider.key()));
        assert(lookup(read, Field::ApiKey.key()) == lookup(given, Field::ApiKey.key()));
        assert(lookup(read, Field::BaseUrl.key()) == lookup(given, Field::BaseUrl.key()));
        assert(lookup(read, Field::Language.key()) == lookup(given, Field::Language.key()));
        assert(lookup(read, Field::Model.key()) == lookup(given, Field::Model.key()));
    }
}

} // verus!
