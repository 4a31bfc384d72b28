use vstd::prelude::*;
use crate::error::Error;

verus! {

/// The text that `ash` displays for the Vulkan result with the given raw code.
pub uninterp spec fn vk_result_description(code: i32) -> Seq<char>;

/// The raw code of `VK_ERROR_DEVICE_LOST`.
pub open spec fn device_lost_code() -> i32 {
    -4i32
}

/// Calls `Display::fmt` of `ash::vk::Result` (through `to_string`) on the result with the
/// given raw code. The text is the name of the result's meaning for the codes `ash` knows,
/// and its debug form otherwise; the contract only names it.
#[verifier::external_body]
fn describe_vk_result(code: i32) -> (r: String)
    ensures
        r@ == vk_result_description(code),
{
    ash::vk::Result::from_raw(code).to_string()
}

/// Reads the raw code of `ash::vk::Result::ERROR_DEVICE_LOST`, which `ash` defines as -4.
#[verifier::external_body]
fn device_lost() -> (r: i32)
    ensures
        r == device_lost_code(),
{
    ash::vk::Result::ERROR_DEVICE_LOST.as_raw()
}

/// The error of a context for a failed Vulkan call with the given raw result code and its
/// description: a lost device is an invalid context, anything else is an internal error
/// with the description.
pub fn error_from_vk(code: i32, description: String) -> (r: Error)
    ensures
        code == device_lost_code() ==> r == Error::InvalidContext,
        code != device_lost_code() ==> r == Error::Internal(description),
{
    if code == device_lost() {
        Error::InvalidContext
    } else {
        Error::Internal(description)
    }
}

/// The error of a context for a failed Vulkan call with the given raw result code.
pub fn vulkan_error(code: i32) -> (r: Error)
    ensures
        code == device_lost_code() ==> r == Error::InvalidContext,
        code != device_lost_code() ==> (r matches Error::Internal(text) && text@ == vk_result_description(code)),
{
    let description = describe_vk_result(code);
    error_from_vk(code, description)
}

} // verus!
