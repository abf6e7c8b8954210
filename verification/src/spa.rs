//! The values of the simple plugin API that the connection looks at.

use vstd::prelude::*;

verus! {

/// An enumerated value as received: one that is known, or a number that stands for none.
#[derive(Clone, Copy, Debug, PartialEq, Eq)]
pub enum SpaEnum<T> {
    Value(T),
    Unknown,
}

/// What kind of media flows through a port or a link.
#[derive(Clone, Copy, Debug, PartialEq, Eq, Structural)]
pub enum SpaMediaType {
    Unknown,
    Audio,
    Video,
    Image,
    Binary,
    Stream,
    Application,
}

/// Which way media flows through a port.
#[derive(Clone, Copy, Debug, PartialEq, Eq, Structural)]
pub enum Direction {
    Input,
    Output,
}

/// Which parameter of a port is meant, as far as the formats it can take are told from the rest.
#[derive(Clone, Copy, Debug, PartialEq, Eq, Structural)]
pub enum ParamType {
    EnumFormat,
    Other,
}

/// The state of a link, as far as an active one is told from the rest.
#[derive(Clone, Copy, Debug, PartialEq, Eq, Structural)]
pub enum LinkState {
    Active,
    Other,
}

/// The value of a format's media type property.
#[derive(Clone, Copy, Debug, PartialEq, Eq)]
pub enum MediaTypeValue {
    /// An id, and the media type that it stands for.
    Id(SpaEnum<SpaMediaType>),
    /// Something other than an id.
    NotAnId,
}

/// A format object.
#[derive(Clone, Copy, Debug, PartialEq, Eq)]
pub struct Format {
    /// Its media type property, where it has one.
    pub media_type: Option<MediaTypeValue>,
}

/// The media type that a format states, where the received value is an object that has such a
/// property with an id.
pub open spec fn stated_media_type(format: Option<Format>) -> Option<SpaEnum<SpaMediaType>> {
    match format {
        Some(Format { media_type: Some(MediaTypeValue::Id(id)) }) => Some(id),
        _ => None,
    }
}

/// Whether a format does not state a media type that is none.
pub open spec fn has_usable_media_type(format: Option<Format>) -> bool {
    stated_media_type(format) != Some(SpaEnum::<SpaMediaType>::Unknown)
}

/// The media type of a format: the one it states, or `Unknown` where it states none.
pub open spec fn media_type_of(format: Option<Format>) -> SpaMediaType {
    match stated_media_type(format) {
        Some(SpaEnum::Value(media_type)) => media_type,
        _ => SpaMediaType::Unknown,
    }
}

/// Whether a format does not state a media type that is none.
pub fn media_type_usable(format: &Option<Format>) -> (usable: bool)
    ensures
        usable == has_usable_media_type(*format),
{
    match format {
        Some(Format { media_type: Some(MediaTypeValue::Id(SpaEnum::Unknown)) }) => false,
        _ => true,
    }
}

/// The media type of a format, where `format` is the object that was received, if it was one.
pub fn media_type(format: &Option<Format>) -> (media_type: SpaMediaType)
    requires
        has_usable_media_type(*format),
    ensures
        media_type == media_type_of(*format),
{
    match format {
        Some(Format { media_type: Some(MediaTypeValue::Id(SpaEnum::Value(media_type))) }) =>
            *media_type,
        _ => SpaMediaType::Unknown,
    }
}

/// A format that states a known media type is of that type. One that states an unknown media type is
/// not usable. Where nothing is stated, by no format, no property or no id, the type is unknown.
pub proof fn law_stated_media_type_is_told(media_type: SpaMediaType)
    ensures
        ({
            let known = Some(
                Format { media_type: Some(MediaTypeValue::Id(SpaEnum::Value(media_type))) },
            );
            has_usable_media_type(known) && media_type_of(known) == media_type
        }),
        !has_usable_media_type(
            Some(Format { media_type: Some(MediaTypeValue::Id(SpaEnum::Unknown)) }),
        ),
        has_usable_media_type(Some(Format { media_type: Some(MediaTypeValue::NotAnId) })),
        media_type_of(Some(Format { media_type: Some(MediaTypeValue::NotAnId) }))
            == SpaMediaType::Unknown,
        has_usable_media_type(Some(Format { media_type: None })),
        media_type_of(Some(Format { media_type: None })) == SpaMediaType::Unknown,
        has_usable_media_type(None),
        media_type_of(None) == SpaMediaType::Unknown,
{
}

} // verus!
