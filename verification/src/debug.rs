//! Which debug messages to ask the driver for, and how a message that comes
//! back is logged.

use crate::native::level_rank;
use crate::native::reaches;
use crate::text::{optional, optional_text};
use log::Level;
use log::LevelFilter;
use vstd::prelude::*;
use vulkano::instance::debug::MessageTypes;

verus! {

/// Name of the extension that debug callbacks need. It has to be enabled on
/// every instance that a callback is registered on.
pub const DEBUG_REPORT_EXTENSION: &'static str = "VK_EXT_debug_report";

/// The message types that a logger with this maximum level has a use for:
/// errors from `Error` up, both kinds of warnings from `Warn` up, information
/// from `Info` up and debug messages from `Debug` up.
pub open spec fn messages_at(max_level: LevelFilter) -> MessageTypes {
    MessageTypes {
        error: level_rank(max_level) >= level_rank(LevelFilter::Error),
        warning: level_rank(max_level) >= level_rank(LevelFilter::Warn),
        performance_warning: level_rank(max_level) >= level_rank(LevelFilter::Warn),
        information: level_rank(max_level) >= level_rank(LevelFilter::Info),
        debug: level_rank(max_level) >= level_rank(LevelFilter::Debug),
    }
}

/// Picks the message types to listen to from the logger's maximum level.
pub fn messages_for_level(max_level: LevelFilter) -> (messages: MessageTypes)
    ensures
        messages == messages_at(max_level),
{
    MessageTypes {
        error: reaches(max_level, LevelFilter::Error),
        warning: reaches(max_level, LevelFilter::Warn),
        performance_warning: reaches(max_level, LevelFilter::Warn),
        information: reaches(max_level, LevelFilter::Info),
        debug: reaches(max_level, LevelFilter::Debug),
    }
}

/// Picks the message types to listen to from the maximum level that the logger
/// is set to at this moment.
pub fn default_messages() -> (messages: MessageTypes)
    ensures
        exists|max_level: LevelFilter| messages == messages_at(max_level),
{
    let max_level = log::max_level();
    messages_for_level(max_level)
}

/// The message carries at least one type.
pub open spec fn typed(ty: MessageTypes) -> bool {
    ty.error || ty.warning || ty.performance_warning || ty.information || ty.debug
}

/// The level at which a message of these types is logged: the most severe of
/// its types counts, and both kinds of warnings are warnings.
pub open spec fn level_of(ty: MessageTypes) -> Level {
    if ty.error {
        Level::Error
    } else if ty.performance_warning || ty.warning {
        Level::Warn
    } else if ty.information {
        Level::Info
    } else {
        Level::Debug
    }
}

/// Picks the level at which a message from the driver is logged.
pub fn message_level(ty: MessageTypes) -> (level: Level)
    requires
        typed(ty),
    ensures
        level == level_of(ty),
{
    if ty.error {
        Level::Error
    } else if ty.performance_warning || ty.warning {
        Level::Warn
    } else if ty.information {
        Level::Info
    } else {
        Level::Debug
    }
}

/// How far down a level is: 1 for errors, 5 for traces.
pub open spec fn depth(level: Level) -> int {
    match level {
        Level::Error => 1,
        Level::Warn => 2,
        Level::Info => 3,
        Level::Debug => 4,
        Level::Trace => 5,
    }
}

/// The message has a type in common with those asked for.
pub open spec fn asked_for(ty: MessageTypes, asked: MessageTypes) -> bool {
    ||| ty.error && asked.error
    ||| ty.warning && asked.warning
    ||| ty.performance_warning && asked.performance_warning
    ||| ty.information && asked.information
    ||| ty.debug && asked.debug
}

/// No message is asked for in vain: a message that has a type in common with
/// those that [`messages_for_level`] picks for a maximum level is logged at a
/// level that this maximum lets through.
pub proof fn lemma_asked_messages_get_through(max_level: LevelFilter, ty: MessageTypes)
    requires
        asked_for(ty, messages_at(max_level)),
    ensures
        typed(ty),
        depth(level_of(ty)) <= level_rank(max_level),
{
}

/// The more the logger lets through, the more is asked of the driver: a type
/// that is picked for one maximum level is picked for every higher one.
pub proof fn lemma_messages_grow_with_level(lower: LevelFilter, higher: LevelFilter)
    requires
        level_rank(lower) <= level_rank(higher),
    ensures
        messages_at(lower).error ==> messages_at(higher).error,
        messages_at(lower).warning ==> messages_at(higher).warning,
        messages_at(lower).performance_warning ==> messages_at(higher).performance_warning,
        messages_at(lower).information ==> messages_at(higher).information,
        messages_at(lower).debug ==> messages_at(higher).debug,
{
}

/// The line that is logged for a message from the driver: the tags of its
/// types, the layer it comes from and what it says.
pub open spec fn message_line(
    ty: MessageTypes,
    layer_prefix: Seq<char>,
    description: Seq<char>,
) -> Seq<char> {
    "VULKAN"@ + optional(ty.error, " ERRO"@) + optional(ty.warning, " WARN"@) + optional(
        ty.performance_warning,
        " PERF"@,
    ) + optional(ty.information, " INFO"@) + optional(ty.debug, " DEBG"@) + " @ "@ + layer_prefix
        + " \t=> "@ + description
}

/// Writes the line that is logged for a message from the driver.
pub fn message_text(ty: MessageTypes, layer_prefix: &str, description: &str) -> (line: String)
    ensures
        line@ == message_line(ty, layer_prefix@, description@),
{
    let mut line = String::from_str("VULKAN");
    line.append(optional_text(ty.error, " ERRO"));
    line.append(optional_text(ty.warning, " WARN"));
    line.append(optional_text(ty.performance_warning, " PERF"));
    line.append(optional_text(ty.information, " INFO"));
    line.append(optional_text(ty.debug, " DEBG"));
    line.append(" @ ");
    line.append(layer_prefix);
    line.append(" \t=> ");
    line.append(description);
    line
}

} // verus!
