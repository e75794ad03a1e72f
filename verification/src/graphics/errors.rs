//! The renderer's error type.

use crate::graphics::constants::SUCCESS;
use crate::log::ProjectError;
use crate::text::{decimal, integer_to_string};
use vstd::prelude::*;
use vstd::string::to_string_from_display_ensures;
use vstd::string::StringExecFns;

verus! {

/// Everything that can end the renderer.
#[derive(Debug)]
pub enum VkAppError {
    /// A driver call failed. Holds the raw `VkResult` code, never the success code.
    VkError(i32),
    /// A file could not be read or did not hold what was expected.
    /// First the cause, then the path of the file.
    IoError(String, String),
    /// The Vulkan installation lacks something the renderer needs.
    InstanceError(String),
    /// No device can do what the renderer needs, or a device refused a request.
    DeviceError(String),
}

/// The text that ash's `Display` gives for the `vk::Result` with raw value `code`.
pub uninterp spec fn vk_result_description(code: i32) -> Seq<char>;

/// Formats the `vk::Result` with raw value `code` through ash's `Display` impl for
/// `ash::vk::Result`. The text depends on the code alone: a fixed sentence for
/// the core codes, the enumerant's name or the number for the others.
#[verifier::external_body]
fn describe_vk_result(code: i32) -> (text: String)
    ensures
        text@ == vk_result_description(code),
{
    ash::vk::Result::from_raw(code).to_string()
}

/// `Code <code>: <description>`
pub open spec fn vk_error_text(code: i32, description: Seq<char>) -> Seq<char> {
    "Code "@ + decimal(code as int) + ": "@ + description
}

/// `<cause> for file <path>`
pub open spec fn io_error_text(cause: Seq<char>, path: Seq<char>) -> Seq<char> {
    cause + " for file "@ + path
}

/// Message of a driver error, given the driver's description of the code.
pub fn vk_error_message(code: i32, description: &str) -> (message: String)
    ensures
        message@ == vk_error_text(code, description@),
{
    let mut message = String::from_str("Code ");
    let digits = integer_to_string(code);
    message.append(digits.as_str());
    message.append(": ");
    message.append(description);
    message
}

impl VkAppError {
    /// What went wrong, without code or file: for a driver error the driver's
    /// description of the code.
    pub open spec fn cause_text(&self) -> Seq<char> {
        match self {
            VkAppError::VkError(code) => vk_result_description(*code),
            VkAppError::IoError(cause, _) => cause@,
            VkAppError::InstanceError(text) => text@,
            VkAppError::DeviceError(text) => text@,
        }
    }

    /// Says what went wrong, without code or file.
    pub fn cause(&self) -> (cause: String)
        ensures
            cause@ == self.cause_text(),
    {
        match self {
            VkAppError::VkError(code) => describe_vk_result(*code),
            VkAppError::IoError(cause, _) => cause.clone(),
            VkAppError::InstanceError(text) => text.clone(),
            VkAppError::DeviceError(text) => text.clone(),
        }
    }

    /// Wraps the raw code of a failed driver call.
    pub fn from_vk_result(code: i32) -> (error: Self)
        requires
            code != SUCCESS,
        ensures
            error == VkAppError::VkError(code),
    {
        VkAppError::VkError(code)
    }
}

impl ProjectError for VkAppError {
    open spec fn title_text(&self) -> Seq<char> {
        match self {
            VkAppError::VkError(_) => "Vulkan"@,
            VkAppError::IoError(_, _) => "IO"@,
            VkAppError::DeviceError(_) => "Device"@,
            VkAppError::InstanceError(_) => "Instance"@,
        }
    }

    open spec fn message_text(&self) -> Seq<char> {
        match self {
            VkAppError::VkError(code) => vk_error_text(*code, vk_result_description(*code)),
            VkAppError::IoError(cause, path) => io_error_text(cause@, path@),
            VkAppError::DeviceError(text) => text@,
            VkAppError::InstanceError(text) => text@,
        }
    }

    fn title(&self) -> (title: String) {
        String::from_str(
            match self {
                VkAppError::VkError(_) => "Vulkan",
                VkAppError::IoError(_, _) => "IO",
                VkAppError::DeviceError(_) => "Device",
                VkAppError::InstanceError(_) => "Instance",
            },
        )
    }

    fn message(&self) -> (message: String) {
        match self {
            VkAppError::VkError(code) => {
                let description = describe_vk_result(*code);
                vk_error_message(*code, description.as_str())
            },
            VkAppError::IoError(cause, path) => {
                let mut message = cause.clone();
                message.append(" for file ");
                message.append(path.as_str());
                message
            },
            VkAppError::DeviceError(text) => text.clone(),
            VkAppError::InstanceError(text) => text.clone(),
        }
    }
}

/// Declares `std::io::Error`, which is carried through and never looked into.
#[verifier::external_type_specification]
#[verifier::external_body]
pub struct ExIoError(std::io::Error);

/// Turns the outcome of a file operation into the renderer's outcome,
/// remembering which file it was about.
pub trait IOResultToResultExt<T> {
    /// What `to_result` returns for `path`.
    spec fn to_result_spec(self, path: Seq<char>, result: Result<T, VkAppError>) -> bool;

    /// Keeps a success; turns a failure into [`VkAppError::IoError`] with
    /// the failure's text and `path`.
    fn to_result(self, path: &str) -> (result: Result<T, VkAppError>)
        ensures
            self.to_result_spec(path@, result),
    ;
}

impl<T> IOResultToResultExt<T> for Result<T, std::io::Error> {
    open spec fn to_result_spec(self, path: Seq<char>, result: Result<T, VkAppError>) -> bool {
        match self {
            Ok(value) => result == Ok::<T, VkAppError>(value),
            Err(error) => {
                &&& result matches Err(VkAppError::IoError(cause, file))
                &&& to_string_from_display_ensures::<std::io::Error>(&error, cause)
                &&& file@ == path
            },
        }
    }

    fn to_result(self, path: &str) -> (result: Result<T, VkAppError>) {
        match self {
            Ok(value) => Ok(value),
            Err(error) => {
                let cause = error.to_string();
                Err(VkAppError::IoError(cause, String::from_str(path)))
            },
        }
    }
}

} // verus!
