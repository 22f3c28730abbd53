use vstd::prelude::*;
use time::OffsetDateTime;
use crate::models::{FieldValue, PatchFieldError, Patchable, ValueView};

verus! {

/// Encodes a time field of a patch that is set: null when it clears the time,
/// the time otherwise (written as ISO 8601 text). A field that is left alone
/// is an error: it is to be skipped, never encoded.
pub fn serialize(datetime: &Patchable<Option<OffsetDateTime>>) -> (r: Result<
    FieldValue,
    PatchFieldError,
>)
    ensures
        match (*datetime, r) {
            (Patchable::Patched(None), Ok(v)) => v.view() == ValueView::Null,
            (Patchable::Patched(Some(d)), Ok(v)) => v.view() == ValueView::Timestamp(d),
            (Patchable::Unmodified, Err(e)) => e == PatchFieldError::Unmodified,
            _ => false,
        },
{
    match datetime {
        Patchable::Patched(None) => Ok(FieldValue::Null),
        Patchable::Patched(Some(d)) => Ok(FieldValue::Timestamp(*d)),
        Patchable::Unmodified => Err(PatchFieldError::Unmodified),
    }
}

} // verus!
