//! Errors raised by the renderer and their human-readable text.

use vstd::prelude::*;

verus! {

/// What can go wrong while setting up or driving the renderer.
///
/// A Vulkan failure is kept as the raw `VkResult` code; a loader failure as
/// the loader's own description of what failed.
#[derive(Clone, Debug, PartialEq, Eq)]
pub enum RtxError {
    Vulkan(i32),
    Loading(String),
    Init(String),
    NoSuitableGpu,
    Interop(String),
}

/// The text that ash's `Debug` formatting gives a `VkResult` code.
pub uninterp spec fn vk_result_text(code: i32) -> Seq<char>;

/// Calls ash's `Debug` impl of `vk::Result` on the value built from `code`.
/// Claimed: the text depends on the code alone (it is the variant's name for
/// codes ash knows, else the code in decimal; that table is not stated).
#[verifier::external_body]
fn vk_result_debug(code: i32) -> (text: String)
    ensures
        text@ == vk_result_text(code),
{
    format!("{:?}", ash::vk::Result::from_raw(code))
}

/// The message that describes an error.
pub open spec fn message_text(e: RtxError) -> Seq<char> {
    match e {
        RtxError::Vulkan(code) => "Vulkan error: "@ + vk_result_text(code),
        RtxError::Loading(m) => "Vulkan loader error: "@ + m@,
        RtxError::Init(m) => "Init failed: "@ + m@,
        RtxError::NoSuitableGpu => "No suitable GPU found"@,
        RtxError::Interop(m) => "Interop error: "@ + m@,
    }
}

/// Each message names the kind of error and then carries the error's own
/// text: a Vulkan code's name, the loader's description, or the given text.
pub proof fn messages_name_their_kind(code: i32, text: String)
    ensures
        message_text(RtxError::Vulkan(code)) == "Vulkan error: "@ + vk_result_text(code),
        message_text(RtxError::Loading(text)) == "Vulkan loader error: "@ + text@,
        message_text(RtxError::Init(text)) == "Init failed: "@ + text@,
        message_text(RtxError::Interop(text)) == "Interop error: "@ + text@,
        message_text(RtxError::NoSuitableGpu) == "No suitable GPU found"@,
{
}

impl RtxError {
    /// The human-readable description of the error.
    pub fn message(&self) -> (text: String)
        ensures
            text@ == message_text(*self),
    {
        match self {
            RtxError::Vulkan(code) => {
                let name = vk_result_debug(*code);
                String::from_str("Vulkan error: ").concat(name.as_str())
            },
            RtxError::Loading(m) => String::from_str("Vulkan loader error: ").concat(m.as_str()),
            RtxError::Init(m) => String::from_str("Init failed: ").concat(m.as_str()),
            RtxError::NoSuitableGpu => String::from_str("No suitable GPU found"),
            RtxError::Interop(m) => String::from_str("Interop error: ").concat(m.as_str()),
        }
    }

    /// The error for a Vulkan call `call` that failed with `code` during
    /// setup: an `Init` error whose text names the call and the code.
    pub fn init_failure(call: &str, code: i32) -> (e: RtxError)
        ensures
            e matches RtxError::Init(m) && m@ == call@ + ": "@ + vk_result_text(code),
    {
        let name = vk_result_debug(code);
        let text = String::from_str(call).concat(": ").concat(name.as_str());
        RtxError::Init(text)
    }
}

} // verus!
