//! Validation layers and the messages they send.

use vstd::prelude::*;
use crate::device::{contains_name, names_contain};
use crate::error::RenderError;

verus! {

/// Message severity: verbose.
pub const SEVERITY_VERBOSE: u32 = 0x1;

/// Message severity: information.
pub const SEVERITY_INFO: u32 = 0x10;

/// Message severity: warning.
pub const SEVERITY_WARNING: u32 = 0x100;

/// Message severity: error.
pub const SEVERITY_ERROR: u32 = 0x1000;

/// Message type: general.
pub const MESSAGE_GENERAL: u32 = 0x1;

/// Message type: validation.
pub const MESSAGE_VALIDATION: u32 = 0x2;

/// Message type: performance.
pub const MESSAGE_PERFORMANCE: u32 = 0x4;

/// Whether validation is wanted, and through which layers.
pub struct ValidationInfo {
    pub is_enable: bool,
    pub required_validation_layers: [&'static str; 1],
}

/// The name of the validation layer.
pub open spec fn validation_layer() -> Seq<char> {
    "VK_LAYER_KHRONOS_validation"@
}

/// The validation that the renderer asks for: it is on, through the one
/// standard layer.
pub fn validation() -> (info: ValidationInfo)
    ensures
        info.is_enable,
        info.required_validation_layers@ == seq!["VK_LAYER_KHRONOS_validation"],
{
    ValidationInfo {
        is_enable: true,
        required_validation_layers: ["VK_LAYER_KHRONOS_validation"],
    }
}

/// Whether the layers on offer include the validation layer. With no layer
/// on offer the answer is no.
pub fn check_validation_layer_support(available_layer_names: &Vec<String>) -> (supported: bool)
    ensures
        supported == names_contain(available_layer_names@, validation_layer()),
{
    if available_layer_names.len() == 0 {
        return false;
    }
    let required = "VK_LAYER_KHRONOS_validation".to_owned();
    contains_name(available_layer_names, &required)
}

/// The severities and the types of message that the debug messenger is
/// created for: warnings and errors, of every type.
pub fn populate_debug_messenger_create_info() -> (masks: (u32, u32))
    ensures
        masks.0 == SEVERITY_WARNING | SEVERITY_ERROR,
        masks.1 == MESSAGE_GENERAL | MESSAGE_PERFORMANCE | MESSAGE_VALIDATION,
{
    (SEVERITY_WARNING | SEVERITY_ERROR, MESSAGE_GENERAL | MESSAGE_PERFORMANCE | MESSAGE_VALIDATION)
}

/// The tag that a message of the given severity is printed with.
pub open spec fn severity_tag(message_severity: u32) -> Seq<char> {
    if message_severity == SEVERITY_VERBOSE {
        "[Verbose]"@
    } else if message_severity == SEVERITY_WARNING {
        "[Warning]"@
    } else if message_severity == SEVERITY_ERROR {
        "[Error]"@
    } else if message_severity == SEVERITY_INFO {
        "[Info]"@
    } else {
        "[Unknown]"@
    }
}

/// The tag that a message of the given type is printed with.
pub open spec fn type_tag(message_type: u32) -> Seq<char> {
    if message_type == MESSAGE_GENERAL {
        "[General]"@
    } else if message_type == MESSAGE_PERFORMANCE {
        "[Performance]"@
    } else if message_type == MESSAGE_VALIDATION {
        "[Validation]"@
    } else {
        "[Unknown]"@
    }
}

/// The tag that a message of the given severity is printed with.
pub fn severity_label(message_severity: u32) -> (label: &'static str)
    ensures
        label@ == severity_tag(message_severity),
{
    if message_severity == SEVERITY_VERBOSE {
        "[Verbose]"
    } else if message_severity == SEVERITY_WARNING {
        "[Warning]"
    } else if message_severity == SEVERITY_ERROR {
        "[Error]"
    } else if message_severity == SEVERITY_INFO {
        "[Info]"
    } else {
        "[Unknown]"
    }
}

/// The tag that a message of the given type is printed with.
pub fn type_label(message_type: u32) -> (label: &'static str)
    ensures
        label@ == type_tag(message_type),
{
    if message_type == MESSAGE_GENERAL {
        "[General]"
    } else if message_type == MESSAGE_PERFORMANCE {
        "[Performance]"
    } else if message_type == MESSAGE_VALIDATION {
        "[Validation]"
    } else {
        "[Unknown]"
    }
}

/// The first version of the graphics API.
pub const API_VERSION_1_0: u32 = 0x0040_0000;

/// The number that a version is packed into: the variant in the highest
/// three bits, then ten bits of major, ten of minor and twelve of patch
/// number.
pub open spec fn packed_version(variant: u32, major: u32, minor: u32, patch: u32) -> u32 {
    (variant << 29) | (major << 22) | (minor << 12) | patch
}

/// Packs a version into one number.
///
/// Calls `ash::vk::make_api_version`, which shifts the variant by 29 bits,
/// the major number by 22 and the minor number by 12 and joins them and the
/// patch number with bitwise or.
#[verifier::external_body]
fn make_api_version(variant: u32, major: u32, minor: u32, patch: u32) -> (version: u32)
    ensures
        version == packed_version(variant, major, minor, patch),
{
    ash::vk::make_api_version(variant, major, minor, patch)
}

/// What the instance is created with.
#[derive(Clone, Copy, Debug, PartialEq, Eq, Structural)]
pub struct InstanceInfo {
    pub application_version: u32,
    pub engine_version: u32,
    pub api_version: u32,
    /// Whether the validation layer and the debug messenger are switched
    /// on.
    pub enable_validation: bool,
}

/// Describes the instance: the application and the engine both have the
/// version with variant one and nothing else, the API is asked for in its
/// first version, and validation is on.
///
/// Fails where the layers on offer do not include the validation layer.
pub fn create_instance(available_layer_names: &Vec<String>) -> (info: Result<
    InstanceInfo,
    RenderError,
>)
    ensures
        names_contain(available_layer_names@, validation_layer()) ==> info == Ok::<
            InstanceInfo,
            RenderError,
        >(
            InstanceInfo {
                application_version: packed_version(1, 0, 0, 0),
                engine_version: packed_version(1, 0, 0, 0),
                api_version: API_VERSION_1_0,
                enable_validation: true,
            },
        ),
        !names_contain(available_layer_names@, validation_layer()) ==> info == Err::<
            InstanceInfo,
            RenderError,
        >(RenderError::MissingValidationLayer),
{
    let wanted = validation();
    if wanted.is_enable && !check_validation_layer_support(available_layer_names) {
        return Err(RenderError::MissingValidationLayer);
    }
    Ok(
        InstanceInfo {
            application_version: make_api_version(1, 0, 0, 0),
            engine_version: make_api_version(1, 0, 0, 0),
            api_version: API_VERSION_1_0,
            enable_validation: wanted.is_enable,
        },
    )
}

/// The version with variant one and nothing else is two to the power of 29.
pub proof fn lemma_packed_version_one()
    ensures
        packed_version(1, 0, 0, 0) == 0x2000_0000,
        packed_version(0, 1, 0, 0) == API_VERSION_1_0,
{
    assert(((1u32 << 29) | (0u32 << 22) | (0u32 << 12) | 0u32) == 0x2000_0000u32) by (bit_vector);
    assert(((0u32 << 29) | (1u32 << 22) | (0u32 << 12) | 0u32) == 0x0040_0000u32) by (bit_vector);
}

} // verus!
