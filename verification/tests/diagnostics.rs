use w_gfx::backend::vulkan::diagnostics::{
    debug_callback, format_diagnostic, severity_level, LogLevel,
};
use w_gfx::backend::vulkan::flags::{
    MESSAGE_TYPE_GENERAL, MESSAGE_TYPE_PERFORMANCE, MESSAGE_TYPE_VALIDATION, SEVERITY_ERROR,
    SEVERITY_INFO, SEVERITY_VERBOSE, SEVERITY_WARNING,
};

#[test]
fn severity_bits_are_those_of_the_binding() {
    assert_eq!(SEVERITY_ERROR, ash::vk::DebugUtilsMessageSeverityFlagsEXT::ERROR.as_raw());
    assert_eq!(SEVERITY_WARNING, ash::vk::DebugUtilsMessageSeverityFlagsEXT::WARNING.as_raw());
    assert_eq!(SEVERITY_INFO, ash::vk::DebugUtilsMessageSeverityFlagsEXT::INFO.as_raw());
    assert_eq!(SEVERITY_VERBOSE, ash::vk::DebugUtilsMessageSeverityFlagsEXT::VERBOSE.as_raw());
}

#[test]
fn category_bits_are_those_of_the_binding() {
    assert_eq!(MESSAGE_TYPE_GENERAL, ash::vk::DebugUtilsMessageTypeFlagsEXT::GENERAL.as_raw());
    assert_eq!(
        MESSAGE_TYPE_VALIDATION,
        ash::vk::DebugUtilsMessageTypeFlagsEXT::VALIDATION.as_raw()
    );
    assert_eq!(
        MESSAGE_TYPE_PERFORMANCE,
        ash::vk::DebugUtilsMessageTypeFlagsEXT::PERFORMANCE.as_raw()
    );
}

#[test]
fn each_severity_goes_to_its_level() {
    assert_eq!(severity_level(0x1000), LogLevel::Error);
    assert_eq!(severity_level(0x100), LogLevel::Warn);
    assert_eq!(severity_level(0x10), LogLevel::Debug);
    assert_eq!(severity_level(0x1), LogLevel::Trace);
    assert_eq!(severity_level(0), LogLevel::Trace);
}

#[test]
fn severity_between_thresholds_takes_the_higher_bucket_reached() {
    assert_eq!(severity_level(0x1001), LogLevel::Error);
    assert_eq!(severity_level(u32::MAX), LogLevel::Error);
    assert_eq!(severity_level(0x0fff), LogLevel::Warn);
    assert_eq!(severity_level(0x0110), LogLevel::Warn);
    assert_eq!(severity_level(0x00ff), LogLevel::Debug);
    assert_eq!(severity_level(0x0011), LogLevel::Debug);
    assert_eq!(severity_level(0x000f), LogLevel::Trace);
}

#[test]
fn diagnostic_line_has_categories_then_message() {
    assert_eq!(format_diagnostic("VALIDATION", "bad handle"), "(VALIDATION) bad handle");
    assert_eq!(format_diagnostic("", ""), "() ");
}

#[test]
fn callback_routes_formats_and_never_aborts() {
    let record = debug_callback(0x1000, 0b10, "bad handle");
    assert_eq!(record.level, LogLevel::Error);
    assert_eq!(record.text, "(VALIDATION) bad handle");
    assert!(!record.abort_call);

    let record = debug_callback(0x10, 0b101, "loaded");
    assert_eq!(record.level, LogLevel::Debug);
    assert_eq!(record.text, "(GENERAL | PERFORMANCE) loaded");
    assert!(!record.abort_call);

    let record = debug_callback(0x1, 0, "");
    assert_eq!(record.level, LogLevel::Trace);
    assert_eq!(record.text, "() ");
    assert!(!record.abort_call);
}

#[test]
fn callback_names_categories_as_the_binding_does() {
    let flags = ash::vk::DebugUtilsMessageTypeFlagsEXT::GENERAL
        | ash::vk::DebugUtilsMessageTypeFlagsEXT::VALIDATION;
    let record = debug_callback(0x100, flags.as_raw(), "careful");
    assert_eq!(record.level, LogLevel::Warn);
    assert_eq!(record.text, format!("({:?}) careful", flags));
    assert_eq!(record.text, "(GENERAL | VALIDATION) careful");
}
