//! Resources, what is delivered of them, and how they are refused.
use crate::table::Key;
use vstd::prelude::*;
use vstd::string::to_string_from_display_ensures;

verus! {

/// The type and the name that identify a resource.
pub struct KeyView {
    pub type_url: Seq<char>,
    pub name: Seq<char>,
}

/// Identifies a resource.
#[derive(Debug, PartialEq, Eq, Hash)]
pub struct ResourceKey {
    pub name: String,
    pub type_url: String,
}

impl View for ResourceKey {
    type V = KeyView;

    open spec fn view(&self) -> KeyView {
        KeyView { type_url: self.type_url@, name: self.name@ }
    }
}

impl Clone for ResourceKey {
    fn clone(&self) -> (copy: Self)
        ensures
            copy == *self,
    {
        ResourceKey { name: self.name.clone(), type_url: self.type_url.clone() }
    }
}

impl Key for ResourceKey {
    fn same(&self, other: &Self) -> (b: bool) {
        self.name == other.name && self.type_url == other.type_url
    }
}

impl ResourceKey {
    /// Writes the key as its type and its name with a slash between them.
    pub fn to_string(&self) -> (text: String)
        ensures
            text@ == self.type_url@ + "/"@ + self.name@,
    {
        self.type_url.clone().concat("/").concat(self.name.as_str())
    }
}

/// A name and the reason for which its configuration was rejected.
pub struct RejectionView {
    pub name: Seq<char>,
    pub reason: Seq<char>,
}

impl RejectionView {
    /// The text that names the rejected configuration and its reason.
    pub open spec fn text(self) -> Seq<char> {
        self.name + ": "@ + self.reason
    }
}

/// A rejected configuration.
#[derive(Debug, PartialEq, Eq)]
pub struct RejectedConfig {
    name: String,
    reason: String,
}

impl View for RejectedConfig {
    type V = RejectionView;

    closed spec fn view(&self) -> RejectionView {
        RejectionView { name: self.name@, reason: self.reason@ }
    }
}

impl RejectedConfig {
    /// Notes that the configuration `name` was rejected for `reason`.
    pub fn new(name: String, reason: String) -> (rejected: Self)
        ensures
            rejected@ == (RejectionView { name: name@, reason: reason@ }),
    {
        RejectedConfig { name, reason }
    }

    /// Writes the name and the reason with a colon between them.
    pub fn to_string(&self) -> (text: String)
        ensures
            text@ == self@.text(),
    {
        self.name.clone().concat(": ").concat(self.reason.as_str())
    }
}

/// A decoded resource.
#[derive(Clone, Debug, PartialEq, Eq)]
pub struct XdsResource<T> {
    pub name: String,
    pub resource: T,
}

/// One change that a response brings.
#[derive(Debug, PartialEq, Eq)]
pub enum XdsUpdate<T> {
    Update(XdsResource<T>),
    Remove(String),
}

impl<T> XdsUpdate<T> {
    /// The name of the resource that changes.
    pub open spec fn subject(self) -> Seq<char> {
        match self {
            XdsUpdate::Update(r) => r.name@,
            XdsUpdate::Remove(n) => n@,
        }
    }

    /// The name of the resource that changes.
    pub fn name(&self) -> (name: String)
        ensures
            name@ == self.subject(),
    {
        match self {
            XdsUpdate::Update(r) => r.name.clone(),
            XdsUpdate::Remove(n) => n.clone(),
        }
    }
}

/// What can be wrong with a resource or a message.
#[derive(Debug)]
pub enum AdsError {
    UnknownResourceType(String),
    Decode(prost::DecodeError),
    MissingResource(),
    Encode(prost::EncodeError),
}

/// The text says what is wrong, with the carried error as that error displays itself.
pub open spec fn says(error: AdsError, text: Seq<char>) -> bool {
    match error {
        AdsError::UnknownResourceType(t) => text == "unknown resource type: "@ + t@,
        AdsError::Decode(e) => exists|cause: String| #[trigger]
            to_string_from_display_ensures::<prost::DecodeError>(&e, cause) && text == "decode: "@
                + cause@,
        AdsError::MissingResource() => text == "XDS payload without resource"@,
        AdsError::Encode(e) => exists|cause: String| #[trigger]
            to_string_from_display_ensures::<prost::EncodeError>(&e, cause) && text == "encode: "@
                + cause@,
    }
}

impl AdsError {
    /// Writes what is wrong.
    pub fn to_string(&self) -> (text: String)
        ensures
            says(*self, text@),
    {
        match self {
            AdsError::Decode(e) => self.text(e.to_string().as_str()),
            AdsError::Encode(e) => self.text(e.to_string().as_str()),
            _ => self.text(""),
        }
    }

    /// Writes what is wrong. `cause` is the text of the error that the variant carries, where it
    /// carries one.
    pub fn text(&self, cause: &str) -> (text: String)
        ensures
            text@ == match self {
                AdsError::UnknownResourceType(t) => "unknown resource type: "@ + t@,
                AdsError::Decode(_) => "decode: "@ + cause@,
                AdsError::MissingResource() => "XDS payload without resource"@,
                AdsError::Encode(_) => "encode: "@ + cause@,
            },
    {
        match self {
            AdsError::UnknownResourceType(t) => "unknown resource type: ".to_owned().concat(
                t.as_str(),
            ),
            AdsError::Decode(_) => "decode: ".to_owned().concat(cause),
            AdsError::MissingResource() => "XDS payload without resource".to_owned(),
            AdsError::Encode(_) => "encode: ".to_owned().concat(cause),
        }
    }
}

impl Clone for AdsError {
    fn clone(&self) -> (copy: Self)
        ensures
            copy == *self,
    {
        match self {
            AdsError::UnknownResourceType(t) => AdsError::UnknownResourceType(t.clone()),
            AdsError::Decode(e) => AdsError::Decode(e.clone()),
            AdsError::MissingResource() => AdsError::MissingResource(),
            AdsError::Encode(e) => AdsError::Encode(e.clone()),
        }
    }
}

/// A key stands for its type and its name, and for nothing else.
pub proof fn law_key_is_type_and_name(one: ResourceKey, other: ResourceKey)
    ensures
        one@.type_url == one.type_url@,
        one@.name == one.name@,
        one@ == other@ <==> one.type_url@ == other.type_url@ && one.name@ == other.name@,
{
}

/// What is written of a rejection begins with its name and ends with its reason, with a colon and
/// a blank between them.
pub proof fn law_rejection_is_told_whole(rejection: RejectionView)
    ensures
        rejection.text() == rejection.name + ": "@ + rejection.reason,
        rejection.text().len() == rejection.name.len() + 2 + rejection.reason.len(),
        rejection.name.is_prefix_of(rejection.text()),
        rejection.reason.is_suffix_of(rejection.text()),
{
    reveal_strlit(": ");
    assert(rejection.text().subrange(0, rejection.name.len() as int) =~= rejection.name);
    assert(rejection.text().subrange(
        rejection.text().len() - rejection.reason.len(),
        rejection.text().len() as int,
    ) =~= rejection.reason);
}

/// An update is about the resource that it brings, and a removal about the name that it removes.
pub proof fn law_update_is_about_its_resource<T>(resource: XdsResource<T>, removed: String)
    ensures
        XdsUpdate::Update(resource).subject() == resource.name@,
        XdsUpdate::<T>::Remove(removed).subject() == removed@,
{
}

/// The text of an error tells its variant and carries the whole of what the variant holds.
pub proof fn law_error_text_tells_the_variant(error: AdsError, text: Seq<char>)
    requires
        says(error, text),
    ensures
        error matches AdsError::UnknownResourceType(t) ==> text == "unknown resource type: "@ + t@,
        error is MissingResource ==> text == "XDS payload without resource"@,
        error matches AdsError::Decode(e) ==> exists|cause: String| #[trigger]
            to_string_from_display_ensures::<prost::DecodeError>(&e, cause) && text == "decode: "@
                + cause@,
        error matches AdsError::Encode(e) ==> exists|cause: String| #[trigger]
            to_string_from_display_ensures::<prost::EncodeError>(&e, cause) && text == "encode: "@
                + cause@,
{
}

/// A key that is written has its type before the slash and its name after it.
pub proof fn law_written_key_is_type_and_name(key: ResourceKey, text: String)
    requires
        call_ensures(ResourceKey::to_string, (&key,), text),
    ensures
        text@ == key.type_url@ + "/"@ + key.name@,
{
}

/// A rejection that is noted and then written tells the name and the reason that were noted.
pub proof fn law_noted_rejection_is_written(
    name: String,
    reason: String,
    rejected: RejectedConfig,
    text: String,
)
    requires
        call_ensures(RejectedConfig::new, (name, reason), rejected),
        call_ensures(RejectedConfig::to_string, (&rejected,), text),
    ensures
        rejected@.name == name@,
        rejected@.reason == reason@,
        text@ == name@ + ": "@ + reason@,
{
}

/// The name that an update gives is that of the resource that it brings or removes.
pub proof fn law_update_gives_its_name<T>(update: XdsUpdate<T>, name: String)
    requires
        call_ensures(XdsUpdate::<T>::name, (&update,), name),
    ensures
        match update {
            XdsUpdate::Update(r) => name@ == r.name@,
            XdsUpdate::Remove(n) => name@ == n@,
        },
{
}

/// An error that is written with the text of its cause tells its variant, and the cause where it
/// has one.
pub proof fn law_written_error_tells_its_cause(error: AdsError, cause: &str, text: String)
    requires
        call_ensures(AdsError::text, (&error, cause), text),
    ensures
        error matches AdsError::UnknownResourceType(t) ==> text@ == "unknown resource type: "@ + t@,
        error is MissingResource ==> text@ == "XDS payload without resource"@,
        error is Decode ==> text@ == "decode: "@ + cause@,
        error is Encode ==> text@ == "encode: "@ + cause@,
{
}

} // verus!
