//! Errors of the device library, as text.
use vstd::prelude::*;

verus! {

/// An error of the device library, which is opaque here.
#[verifier::external_type_specification]
#[verifier::external_body]
pub struct ExIdeviceError(idevice::IdeviceError);

/// The name of the variant of `idevice::IdeviceError` that an error is.
pub uninterp spec fn variant_name(error: idevice::IdeviceError) -> Seq<char>;

/// The text is the `Debug` notation of the error on some machine.
pub uninterp spec fn shows(error: idevice::IdeviceError, text: Seq<char>) -> bool;

/// The text names the error: it is the error's own notation, and begins with the name
/// of the error's variant.
pub open spec fn names(text: Seq<char>, error: idevice::IdeviceError) -> bool {
    let name = variant_name(error);
    &&& shows(error, text)
    &&& text.len() >= name.len() > 0
    &&& text.take(name.len() as int) == name
}

/// The `Debug` notation that `idevice::IdeviceError` derives, which begins with the
/// name of the error's variant. What follows are the values that the error carries.
/// Some carry an error of the operating system, whose wording and language differ from
/// machine to machine: so the text is not claimed to be a function of the error, only to
/// be a notation that the error has.
#[verifier::external_body]
pub(crate) fn error_text(error: &idevice::IdeviceError) -> (text: String)
    ensures
        shows(*error, text@),
        text@.len() >= variant_name(*error).len() > 0,
        text@.take(variant_name(*error).len() as int) == variant_name(*error),
{
    format!("{error:?}")
}

/// A text that names an error is the error's own notation, and begins with the name of
/// its variant.
pub proof fn law_named_error_is_shown(text: Seq<char>, error: idevice::IdeviceError)
    ensures
        names(text, error) <==> shows(error, text) && variant_name(error).len() > 0 && variant_name(
            error,
        ).is_prefix_of(text),
{
    let name = variant_name(error);
    if name.is_prefix_of(text) {
        assert(text.take(name.len() as int) =~= name);
    }
}

} // verus!
