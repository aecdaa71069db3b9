//! Warnings about what could not be read.

use crate::probe::ProbeWarning;
use crate::redaction::redact_text;
use vstd::prelude::*;

verus! {

/// What a warning says.
pub struct Notice {
    /// The part of the inventory.
    pub subsystem: Seq<char>,
    /// The kind of warning.
    pub code: Seq<char>,
    /// The redacted message.
    pub message: Seq<char>,
}

impl View for ProbeWarning {
    type V = Notice;

    open spec fn view(&self) -> Notice {
        Notice { subsystem: self.subsystem@, code: self.code@, message: self.message@ }
    }
}

/// What each warning says.
pub open spec fn notices(warnings: Seq<ProbeWarning>) -> Seq<Notice> {
    warnings.map_values(|warning: ProbeWarning| warning@)
}

/// One notice with a redacted message, when something is wrong.
pub open spec fn when(
    wrong: bool,
    subsystem: Seq<char>,
    code: Seq<char>,
    message: Seq<char>,
) -> Seq<Notice> {
    if wrong {
        seq![Notice { subsystem, code, message: crate::redaction::redacted_text(message) }]
    } else {
        seq![]
    }
}

/// Appends a warning with a redacted message.
pub fn warn(warnings: &mut Vec<ProbeWarning>, subsystem: &str, code: &str, message: &str)
    ensures
        notices(final(warnings)@) == notices(old(warnings)@) + when(
            true,
            subsystem@,
            code@,
            message@,
        ),
{
    warnings.push(
        ProbeWarning {
            subsystem: subsystem.to_owned(),
            code: code.to_owned(),
            message: redact_text(message),
        },
    );
    assert(notices(warnings@) =~= notices(old(warnings)@) + when(
        true,
        subsystem@,
        code@,
        message@,
    ));
}

/// A warning is given exactly where something is wrong, one at a time, with its
/// message redacted.
pub proof fn law_warnings_tell_what_is_wrong(
    wrong: bool,
    subsystem: Seq<char>,
    code: Seq<char>,
    message: Seq<char>,
)
    ensures
        !wrong ==> self::when(wrong, subsystem, code, message).len() == 0,
        wrong ==> {
            let list = self::when(wrong, subsystem, code, message);
            let notice = list[0];
            &&& list.len() == 1
            &&& notice.subsystem == subsystem
            &&& notice.code == code
            &&& notice.message == crate::redaction::redacted_text(message)
        },
{
}

} // verus!
