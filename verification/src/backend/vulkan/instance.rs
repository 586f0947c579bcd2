//! Capability negotiation: what to request when the instance is created.

use crate::backend::vulkan::flags::{
    message_type_bits, severity_bits, MESSAGE_TYPE_ALL, SEVERITY_ALL,
};
use crate::backend::vulkan::names::{
    contains_name, debug_utils_extension, debug_utils_name, names, VALIDATION_LAYER_NAME,
};
use crate::backend::vulkan::version::{
    compatibility_instance_extensions, compatibility_instance_flags, effective_version,
    platform_compatibility_extensions, spec_effective_version, spec_portability_required,
    OsFamily, API_VERSION_1_0,
};
use crate::backend::vulkan::vulkan_error;
use crate::backend::{Error, ErrorKind, ErrorView};
use vstd::prelude::*;
use vstd::string::*;

verus! {

/// How the application presents itself to the driver.
#[derive(Debug)]
pub struct ApplicationInfo {
    pub application_name: String,
    pub application_version: u32,
    pub engine_name: String,
    pub engine_version: u32,
    pub api_version: u32,
}

/// The mathematical content of an [`ApplicationInfo`].
pub struct ApplicationInfoView {
    pub application_name: Seq<char>,
    pub application_version: u32,
    pub engine_name: Seq<char>,
    pub engine_version: u32,
    pub api_version: u32,
}

impl View for ApplicationInfo {
    type V = ApplicationInfoView;

    open spec fn view(&self) -> ApplicationInfoView {
        ApplicationInfoView {
            application_name: self.application_name@,
            application_version: self.application_version,
            engine_name: self.engine_name@,
            engine_version: self.engine_version,
            api_version: self.api_version,
        }
    }
}

/// Which diagnostic messages the debug messenger is to receive.
#[derive(Clone, Copy, Debug, PartialEq, Eq, Structural)]
pub struct DebugMessengerInfo {
    pub message_severity: u32,
    pub message_type: u32,
}

/// Everything the host needs to create the instance.
#[derive(Debug)]
pub struct InstanceRequest {
    pub app_info: ApplicationInfo,
    /// Instance extensions, in the order they are to be passed.
    pub extensions: Vec<String>,
    /// Layers, in the order they are to be passed.
    pub layers: Vec<String>,
    /// Raw instance-creation flags.
    pub flags: u32,
    /// Present exactly when diagnostics are enabled. The host chains it into
    /// instance creation and creates the messenger from it afterwards.
    pub debug_messenger: Option<DebugMessengerInfo>,
}

/// The mathematical content of an [`InstanceRequest`].
pub struct InstanceRequestView {
    pub app_info: ApplicationInfoView,
    pub extensions: Seq<Seq<char>>,
    pub layers: Seq<Seq<char>>,
    pub flags: u32,
    pub debug_messenger: Option<DebugMessengerInfo>,
}

impl View for InstanceRequest {
    type V = InstanceRequestView;

    open spec fn view(&self) -> InstanceRequestView {
        InstanceRequestView {
            app_info: self.app_info@,
            extensions: names(self.extensions@),
            layers: names(self.layers@),
            flags: self.flags,
            debug_messenger: self.debug_messenger,
        }
    }
}

/// The identity this library always presents.
pub open spec fn spec_application_info() -> ApplicationInfoView {
    ApplicationInfoView {
        application_name: "Vulkan App"@,
        application_version: API_VERSION_1_0,
        engine_name: "w_"@,
        engine_version: API_VERSION_1_0,
        api_version: API_VERSION_1_0,
    }
}

/// The identity this library always presents: application "Vulkan App",
/// engine "w_", every version 1.0.0.
pub fn application_info() -> (info: ApplicationInfo)
    ensures
        info@ == spec_application_info(),
{
    ApplicationInfo {
        application_name: String::from_str("Vulkan App"),
        application_version: effective_version(None),
        engine_name: String::from_str("w_"),
        engine_version: effective_version(None),
        api_version: effective_version(None),
    }
}

/// The messenger that listens to everything.
pub open spec fn spec_debug_messenger_info() -> DebugMessengerInfo {
    DebugMessengerInfo { message_severity: SEVERITY_ALL, message_type: MESSAGE_TYPE_ALL }
}

/// The messenger that listens to everything: all four severities, and the
/// general, validation and performance categories.
pub fn debug_messenger_info() -> (info: DebugMessengerInfo)
    ensures
        info == spec_debug_messenger_info(),
{
    let severity = severity_bits();
    let message_type = message_type_bits();
    assert(0x1000u32 | 0x100u32 | 0x10u32 | 0x1u32 == 0x1111u32) by (bit_vector);
    assert(0x1u32 | 0x2u32 | 0x4u32 == 0x7u32) by (bit_vector);
    DebugMessengerInfo {
        message_severity: severity.error | severity.warning | severity.info | severity.verbose,
        message_type: message_type.general | message_type.validation | message_type.performance,
    }
}

/// The error for a validation layer that is asked for and not installed.
pub open spec fn unsupported_validation_layer() -> ErrorView {
    vulkan_error(
        ErrorKind::UnsupportedValidationLayer,
        "Validation layers requested but not supported."@,
    )
}

/// The layers to enable when `requested` is asked for.
pub open spec fn spec_layers(requested: Option<Seq<char>>) -> Seq<Seq<char>> {
    match requested {
        Some(layer) => seq![layer],
        None => Seq::empty(),
    }
}

/// Decides the layers to enable. With no layer requested, none is enabled.
/// A requested layer is enabled if the system offers it; if not, the
/// negotiation fails rather than going on without it.
pub fn negotiate_layers(
    requested: Option<String>,
    available: &Vec<String>,
) -> (result: Result<Vec<String>, Error>)
    ensures
        result is Ok <==> (requested matches Some(layer) ==> names(available@).contains(layer@)),
        result matches Ok(layers) ==> names(layers@) == spec_layers(
            match requested {
                Some(layer) => Some(layer@),
                None => None,
            },
        ),
        result matches Err(e) ==> e@ == unsupported_validation_layer(),
{
    let mut layers: Vec<String> = Vec::new();
    match requested {
        Some(layer) => {
            if !contains_name(available, &layer) {
                return Err(
                    Error::new(
                        ErrorKind::UnsupportedValidationLayer,
                        String::from_str("Validation layers requested but not supported."),
                    ),
                );
            }
            layers.push(layer);
        },
        None => {},
    }
    Ok(layers)
}

/// The request that a successful negotiation produces.
pub open spec fn spec_instance_request(
    validation_enabled: bool,
    portability: bool,
    required_extensions: Seq<Seq<char>>,
) -> InstanceRequestView {
    InstanceRequestView {
        app_info: spec_application_info(),
        extensions: required_extensions + (if validation_enabled {
            seq![debug_utils_extension()]
        } else {
            Seq::empty()
        }) + compatibility_instance_extensions(portability),
        layers: spec_layers(
            if validation_enabled {
                Some(VALIDATION_LAYER_NAME@)
            } else {
                None
            },
        ),
        flags: compatibility_instance_flags(portability),
        debug_messenger: if validation_enabled {
            Some(spec_debug_messenger_info())
        } else {
            None
        },
    }
}

/// Negotiates instance creation.
///
/// `reported_version` is what the loader reports of itself (`None` where it
/// predates the query), `required_extensions` are the presentation
/// extensions the window system demands, `available_layers` the layers the
/// system offers.
///
/// The request always carries the presentation extensions first. With
/// diagnostics enabled it adds the debug-utilities extension, the validation
/// layer and the messenger description; the validation layer must then be
/// among `available_layers`, or nothing is requested at all. Where the
/// platform requires the portability subset, its two instance extensions
/// and its flag are added last.
pub fn create_instance(
    validation_enabled: bool,
    os: OsFamily,
    reported_version: Option<u32>,
    required_extensions: Vec<String>,
    available_layers: &Vec<String>,
) -> (result: Result<InstanceRequest, Error>)
    ensures
        result is Ok <==> (validation_enabled ==> names(available_layers@).contains(
            VALIDATION_LAYER_NAME@,
        )),
        result matches Ok(request) ==> request@ == spec_instance_request(
            validation_enabled,
            spec_portability_required(spec_effective_version(reported_version), os),
            names(required_extensions@),
        ),
        result matches Err(e) ==> e@ == unsupported_validation_layer(),
{
    let instance_version = effective_version(reported_version);

    let mut extensions = required_extensions;
    if validation_enabled {
        extensions.push(debug_utils_name());
    }
    let mut compatibility = platform_compatibility_extensions(instance_version, os);
    extensions.append(&mut compatibility.instance_extensions);
    assert(names(extensions@) =~= spec_instance_request(
        validation_enabled,
        spec_portability_required(spec_effective_version(reported_version), os),
        names(required_extensions@),
    ).extensions);

    let requested = if validation_enabled {
        Some(String::from_str(VALIDATION_LAYER_NAME))
    } else {
        None
    };
    let layers = match negotiate_layers(requested, available_layers) {
        Ok(layers) => layers,
        Err(e) => {
            return Err(e);
        },
    };

    let debug_messenger = if validation_enabled {
        Some(debug_messenger_info())
    } else {
        None
    };

    Ok(
        InstanceRequest {
            app_info: application_info(),
            extensions,
            layers,
            flags: compatibility.instance_flags,
            debug_messenger,
        },
    )
}

} // verus!
