//! The commands that the host's frontend can invoke: raw arguments in, and
//! out either the work for the native layer or the message to report.
//!
//! No command fails in any other way than by returning its message.

use crate::haptics::{
    FromRaw, HapticFeedbackPattern, HapticFeedbackPerformanceTime, HapticRequest,
};
use crate::resource_table::ResourceTable;
use crate::{supports_haptics, Platform};
use vstd::prelude::*;

verus! {

/// Reported where the platform has no haptic feedback.
pub const UNSUPPORTED_PLATFORM_MESSAGE: &'static str = "This command is only supported on macOS.";

/// Reported where a pattern or performance time code names nothing.
pub const INVALID_ARGUMENT_MESSAGE: &'static str = "Invalid pattern or performance time value";

/// Reported where no alignment feedback filter has the id given.
pub const INVALID_RESOURCE_MESSAGE: &'static str = "Invalid filter resource ID";

/// Reported where every alignment feedback filter id has been given out.
pub const NO_RESOURCE_ID_MESSAGE: &'static str = "No filter resource ID is left";

/// Why a command did nothing.
#[derive(Clone, Copy, Debug, PartialEq, Eq, Structural)]
pub enum CommandError {
    /// The platform has no haptic feedback.
    UnsupportedPlatform,
    /// A pattern or performance time code names nothing.
    InvalidArgument,
    /// No alignment feedback filter has the id given.
    InvalidResource,
    /// Every alignment feedback filter id has been given out.
    NoResourceId,
}

impl CommandError {
    /// The text under which the error reaches the frontend.
    pub open spec fn text(self) -> Seq<char> {
        match self {
            CommandError::UnsupportedPlatform => UNSUPPORTED_PLATFORM_MESSAGE@,
            CommandError::InvalidArgument => INVALID_ARGUMENT_MESSAGE@,
            CommandError::InvalidResource => INVALID_RESOURCE_MESSAGE@,
            CommandError::NoResourceId => NO_RESOURCE_ID_MESSAGE@,
        }
    }

    /// The text under which the error reaches the frontend.
    pub fn message(&self) -> (r: String)
        ensures
            r@ == self.text(),
    {
        match self {
            CommandError::UnsupportedPlatform => UNSUPPORTED_PLATFORM_MESSAGE.to_owned(),
            CommandError::InvalidArgument => INVALID_ARGUMENT_MESSAGE.to_owned(),
            CommandError::InvalidResource => INVALID_RESOURCE_MESSAGE.to_owned(),
            CommandError::NoResourceId => NO_RESOURCE_ID_MESSAGE.to_owned(),
        }
    }
}

/// A command's answer `r` is `outcome`, with the error as its text.
pub open spec fn reports<T>(r: Result<T, String>, outcome: Result<T, CommandError>) -> bool {
    match r {
        Ok(value) => outcome == Ok::<T, CommandError>(value),
        Err(message) => outcome matches Err(error) && message@ == error.text(),
    }
}

/// Whether `platform` offers haptic feedback.
pub fn is_supported(platform: Platform) -> (r: bool)
    ensures
        r == supports_haptics(platform),
{
    crate::is_supported(platform)
}

/// What `perform` decides: the platform is looked at first, then the two
/// codes; a request is made only where both name something.
pub open spec fn perform_outcome(platform: Platform, pattern: u64, performance_time: u64) -> Result<
    HapticRequest,
    CommandError,
> {
    if !supports_haptics(platform) {
        Err(CommandError::UnsupportedPlatform)
    } else {
        match (
            HapticFeedbackPattern::spec_from_raw(pattern),
            HapticFeedbackPerformanceTime::spec_from_raw(performance_time),
        ) {
            (Some(pattern), Some(performance_time)) => Ok(
                HapticRequest { pattern, performance_time },
            ),
            _ => Err(CommandError::InvalidArgument),
        }
    }
}

/// The one native request to make for the codes `pattern` and
/// `performance_time`, or the message to report, in which case nothing is
/// to be done.
pub fn perform(platform: Platform, pattern: u64, performance_time: u64) -> (r: Result<
    HapticRequest,
    String,
>)
    ensures
        reports(r, perform_outcome(platform, pattern, performance_time)),
{
    if !crate::is_supported(platform) {
        return Err(CommandError::UnsupportedPlatform.message());
    }
    match (
        HapticFeedbackPattern::from_raw(pattern),
        HapticFeedbackPerformanceTime::from_raw(performance_time),
    ) {
        (Some(pattern), Some(performance_time)) => {
            match crate::haptics::perform(platform, pattern, Some(performance_time)) {
                Ok(request) => Ok(request),
                Err(_) => Err(CommandError::UnsupportedPlatform.message()),
            }
        },
        _ => Err(CommandError::InvalidArgument.message()),
    }
}

/// What `create_alignment_feedback_filter` decides for a table whose next
/// id is `next_id`.
pub open spec fn create_outcome(platform: Platform, next_id: u32) -> Result<u32, CommandError> {
    if !supports_haptics(platform) {
        Err(CommandError::UnsupportedPlatform)
    } else if next_id == u32::MAX {
        Err(CommandError::NoResourceId)
    } else {
        Ok(next_id)
    }
}

/// Makes a filter with `make` and puts it into `table`, returning its id.
/// Where the command fails, `make` is not called and the table is left as
/// it was.
pub fn create_alignment_feedback_filter<T, F: FnOnce() -> T>(
    platform: Platform,
    table: &mut ResourceTable<T>,
    make: F,
) -> (r: Result<u32, String>)
    requires
        call_requires(make, ()),
    ensures
        reports(r, create_outcome(platform, old(table).next_id())),
        match r {
            Ok(id) => {
                &&& !old(table)@.contains_key(id)
                &&& final(table)@.contains_key(id)
                &&& call_ensures(make, (), final(table)@[id])
                &&& final(table)@ == old(table)@.insert(id, final(table)@[id])
                &&& final(table).next_id() == id + 1
            },
            Err(_) => {
                &&& final(table)@ == old(table)@
                &&& final(table).next_id() == old(table).next_id()
            },
        },
{
    if !crate::is_supported(platform) {
        return Err(CommandError::UnsupportedPlatform.message());
    }
    if table.full() {
        return Err(CommandError::NoResourceId.message());
    }
    match table.add(make()) {
        Ok(id) => Ok(id),
        Err(_) => Err(CommandError::NoResourceId.message()),
    }
}

/// What `perform_alignment_feedback` decides for a table that holds
/// `filters`.
pub open spec fn alignment_outcome<T>(platform: Platform, filters: Map<u32, T>, rid: u32) -> Result<
    T,
    CommandError,
> {
    if !supports_haptics(platform) {
        Err(CommandError::UnsupportedPlatform)
    } else if filters.contains_key(rid) {
        Ok(filters[rid])
    } else {
        Err(CommandError::InvalidResource)
    }
}

/// The filter under `rid`, on which the native layer is to perform the
/// alignment feedback, or the message to report.
pub fn perform_alignment_feedback<T>(platform: Platform, table: &ResourceTable<T>, rid: u32) -> (r:
    Result<&T, String>)
    ensures
        match r {
            Ok(filter) => alignment_outcome(platform, table@, rid) == Ok::<T, CommandError>(
                *filter,
            ),
            Err(message) => alignment_outcome(platform, table@, rid) matches Err(error)
                && message@ == error.text(),
        },
{
    if !crate::is_supported(platform) {
        return Err(CommandError::UnsupportedPlatform.message());
    }
    match table.get(rid) {
        Some(filter) => Ok(filter),
        None => Err(CommandError::InvalidResource.message()),
    }
}

/// On a platform with haptic feedback, codes that both name something
/// give exactly the request made of the pattern and the time they name.
pub proof fn lemma_valid_codes_give_one_request(
    platform: Platform,
    pattern: u64,
    performance_time: u64,
)
    requires
        supports_haptics(platform),
        pattern <= 2,
        performance_time <= 2,
    ensures
        perform_outcome(platform, pattern, performance_time) matches Ok(request)
            && HapticFeedbackPattern::spec_from_raw(pattern) == Some(request.pattern)
            && HapticFeedbackPerformanceTime::spec_from_raw(performance_time) == Some(
            request.performance_time,
        ) && request.pattern.code() == pattern && request.performance_time.code()
            == performance_time,
{
}

/// On a platform with haptic feedback, a code that names nothing gives
/// the invalid-argument error and no request, whatever the other code is.
pub proof fn lemma_invalid_code_gives_no_request(
    platform: Platform,
    pattern: u64,
    performance_time: u64,
)
    requires
        supports_haptics(platform),
        pattern > 2 || performance_time > 2,
    ensures
        perform_outcome(platform, pattern, performance_time) == Err::<HapticRequest, CommandError>(
            CommandError::InvalidArgument,
        ),
        CommandError::InvalidArgument.text() == INVALID_ARGUMENT_MESSAGE@,
{
}

/// On a platform without haptic feedback every command gives the
/// unsupported-platform error, whatever its arguments are.
pub proof fn lemma_unsupported_platform_refuses_every_command<T>(
    platform: Platform,
    pattern: u64,
    performance_time: u64,
    next_id: u32,
    filters: Map<u32, T>,
    rid: u32,
)
    requires
        !supports_haptics(platform),
    ensures
        perform_outcome(platform, pattern, performance_time) == Err::<HapticRequest, CommandError>(
            CommandError::UnsupportedPlatform,
        ),
        create_outcome(platform, next_id) == Err::<u32, CommandError>(
            CommandError::UnsupportedPlatform,
        ),
        alignment_outcome(platform, filters, rid) == Err::<T, CommandError>(
            CommandError::UnsupportedPlatform,
        ),
        CommandError::UnsupportedPlatform.text() == UNSUPPORTED_PLATFORM_MESSAGE@,
{
}

} // verus!
