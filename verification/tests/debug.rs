use log::{Level, LevelFilter};
use vulkano::instance::debug::MessageTypes;
use vulkanoob::debug::{
    default_messages, message_level, message_text, messages_for_level, DEBUG_REPORT_EXTENSION,
};

fn types(
    error: bool,
    warning: bool,
    performance_warning: bool,
    information: bool,
    debug: bool,
) -> MessageTypes {
    MessageTypes { error, warning, performance_warning, information, debug }
}

#[test]
fn no_messages_where_logging_is_off() {
    assert_eq!(messages_for_level(LevelFilter::Off), MessageTypes::none());
}

#[test]
fn errors_only_at_error_level() {
    assert_eq!(messages_for_level(LevelFilter::Error), MessageTypes::errors());
}

#[test]
fn both_kinds_of_warnings_at_warn_level() {
    assert_eq!(messages_for_level(LevelFilter::Warn), MessageTypes::errors_and_warnings());
}

#[test]
fn information_from_info_level() {
    assert_eq!(messages_for_level(LevelFilter::Info), types(true, true, true, true, false));
}

#[test]
fn everything_from_debug_level() {
    assert_eq!(messages_for_level(LevelFilter::Debug), types(true, true, true, true, true));
    assert_eq!(messages_for_level(LevelFilter::Trace), types(true, true, true, true, true));
}

#[test]
fn default_messages_follow_the_maximum_level() {
    log::set_max_level(LevelFilter::Warn);
    assert_eq!(default_messages(), MessageTypes::errors_and_warnings());
    log::set_max_level(LevelFilter::Off);
    assert_eq!(default_messages(), MessageTypes::none());
    log::set_max_level(LevelFilter::Trace);
    assert_eq!(default_messages(), types(true, true, true, true, true));
}

#[test]
fn most_severe_type_decides_the_level() {
    assert_eq!(message_level(types(true, true, true, true, true)), Level::Error);
    assert_eq!(message_level(types(true, false, false, false, false)), Level::Error);
    assert_eq!(message_level(types(false, true, false, true, true)), Level::Warn);
    assert_eq!(message_level(types(false, false, true, false, false)), Level::Warn);
    assert_eq!(message_level(types(false, false, true, true, true)), Level::Warn);
    assert_eq!(message_level(types(false, false, false, true, true)), Level::Info);
    assert_eq!(message_level(types(false, false, false, false, true)), Level::Debug);
}

#[test]
fn message_line_carries_tags_layer_and_text() {
    assert_eq!(
        message_text(types(true, false, false, false, false), "Loader", "it broke"),
        "VULKAN ERRO @ Loader \t=> it broke"
    );
    assert_eq!(
        message_text(types(false, true, true, false, false), "DS", "slow path"),
        "VULKAN WARN PERF @ DS \t=> slow path"
    );
}

#[test]
fn message_line_lists_all_tags_in_order() {
    assert_eq!(
        message_text(types(true, true, true, true, true), "", ""),
        "VULKAN ERRO WARN PERF INFO DEBG @  \t=> "
    );
    assert_eq!(message_text(MessageTypes::none(), "L", "d"), "VULKAN @ L \t=> d");
}

#[test]
fn debug_report_extension_has_its_registered_name() {
    assert_eq!(DEBUG_REPORT_EXTENSION, "VK_EXT_debug_report");
}

fn all_levels() -> [LevelFilter; 6] {
    [
        LevelFilter::Off,
        LevelFilter::Error,
        LevelFilter::Warn,
        LevelFilter::Info,
        LevelFilter::Debug,
        LevelFilter::Trace,
    ]
}

#[test]
fn message_that_was_asked_for_passes_the_maximum_level() {
    for max_level in all_levels() {
        let asked = messages_for_level(max_level);
        for bits in 1u8..32 {
            let ty =
                types(bits & 1 != 0, bits & 2 != 0, bits & 4 != 0, bits & 8 != 0, bits & 16 != 0);
            let in_common = (ty.error && asked.error)
                || (ty.warning && asked.warning)
                || (ty.performance_warning && asked.performance_warning)
                || (ty.information && asked.information)
                || (ty.debug && asked.debug);
            if in_common {
                assert!(message_level(ty) <= max_level);
            }
        }
    }
}

#[test]
fn higher_maximum_level_asks_for_no_less() {
    let levels = all_levels();
    for low in 0..levels.len() {
        for high in low..levels.len() {
            let fewer = messages_for_level(levels[low]);
            let more = messages_for_level(levels[high]);
            assert!(!fewer.error || more.error);
            assert!(!fewer.warning || more.warning);
            assert!(!fewer.performance_warning || more.performance_warning);
            assert!(!fewer.information || more.information);
            assert!(!fewer.debug || more.debug);
        }
    }
}
