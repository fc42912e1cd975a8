//! Switches that the environment sets.
//!
//! Every function takes the text of one variable, or `None` where it is not
//! set.

use vstd::prelude::*;

use crate::model::requests::same_text;
use crate::text::parse_number;
use crate::text::{
    decimal, law_decimal_reads_back, law_only_numbers_in_range_are_read, parsed_number,
};

verus! {

/// Why a switch cannot be read.
#[derive(Clone, Copy, Debug, PartialEq, Eq, Structural)]
pub enum SwitchError {
    /// The text is none of those that the switch knows.
    InvalidValue,
}

/// Words that switch on.
pub open spec fn is_on_word(s: Seq<char>) -> bool {
    s == "1"@ || s == "true"@ || s == "TRUE"@ || s == "on"@ || s == "ON"@
}

/// Words that switch off.
pub open spec fn is_off_word(s: Seq<char>) -> bool {
    s == "0"@ || s == "false"@ || s == "FALSE"@ || s == "off"@ || s == "OFF"@
}

/// `yes`, in either case.
pub open spec fn is_yes_word(s: Seq<char>) -> bool {
    s == "yes"@ || s == "YES"@
}

/// `no`, in either case.
pub open spec fn is_no_word(s: Seq<char>) -> bool {
    s == "no"@ || s == "NO"@
}

/// No word switches both on and off.
pub proof fn law_on_and_off_differ(s: Seq<char>)
    ensures
        !((is_on_word(s) || is_yes_word(s)) && (is_off_word(s) || is_no_word(s))),
{
    reveal_strlit("1");
    reveal_strlit("true");
    reveal_strlit("TRUE");
    reveal_strlit("on");
    reveal_strlit("ON");
    reveal_strlit("yes");
    reveal_strlit("YES");
    reveal_strlit("0");
    reveal_strlit("false");
    reveal_strlit("FALSE");
    reveal_strlit("off");
    reveal_strlit("OFF");
    reveal_strlit("no");
    reveal_strlit("NO");
    if is_on_word(s) || is_yes_word(s) {
        assert(s[0] == '1' || s[0] == 't' || s[0] == 'T' || s[0] == 'o' || s[0] == 'O' || s[0]
            == 'y' || s[0] == 'Y');
        assert(s.len() == 1 || s.len() == 4 || s.len() == 2 || s.len() == 3);
    }
}

fn on_word(s: &str) -> (on: bool)
    ensures
        on == is_on_word(s@),
{
    same_text(s, "1") || same_text(s, "true") || same_text(s, "TRUE") || same_text(s, "on")
        || same_text(s, "ON")
}

fn off_word(s: &str) -> (off: bool)
    ensures
        off == is_off_word(s@),
{
    same_text(s, "0") || same_text(s, "false") || same_text(s, "FALSE") || same_text(s, "off")
        || same_text(s, "OFF")
}

/// The state of a switch that is off where it is not set.
pub open spec fn switch_state(raw: Option<&str>) -> Result<bool, SwitchError> {
    match raw {
        None => Ok(false),
        Some(s) => if is_on_word(s@) || is_yes_word(s@) {
            Ok(true)
        } else if is_off_word(s@) || is_no_word(s@) {
            Ok(false)
        } else {
            Err(SwitchError::InvalidValue)
        },
    }
}

/// Reads a switch that is off where it is not set: the real reference model,
/// the loading of layer weights, the incremental KV cache.
pub fn switch_enabled(raw: Option<&str>) -> (on: Result<bool, SwitchError>)
    ensures
        on == switch_state(raw),
{
    match raw {
        None => Ok(false),
        Some(s) => {
            if on_word(s) || same_text(s, "yes") || same_text(s, "YES") {
                Ok(true)
            } else if off_word(s) || same_text(s, "no") || same_text(s, "NO") {
                Ok(false)
            } else {
                Err(SwitchError::InvalidValue)
            }
        },
    }
}

/// Whether experts run as one group; off where it is not set.
pub open spec fn grouped_state(raw: Option<&str>) -> Result<bool, SwitchError> {
    match raw {
        None => Ok(false),
        Some(s) => if is_on_word(s@) {
            Ok(true)
        } else if is_off_word(s@) {
            Ok(false)
        } else {
            Err(SwitchError::InvalidValue)
        },
    }
}

/// Reads whether experts run as one group.
pub fn dsv4_grouped_experts_enabled(raw: Option<&str>) -> (on: Result<bool, SwitchError>)
    ensures
        on == grouped_state(raw),
{
    match raw {
        None => Ok(false),
        Some(s) => {
            if on_word(s) {
                Ok(true)
            } else if off_word(s) {
                Ok(false)
            } else {
                Err(SwitchError::InvalidValue)
            }
        },
    }
}

/// Names of the dispatch backend.
pub open spec fn is_dispatch_name(s: Seq<char>) -> bool {
    s == "deepep"@ || s == "DeepEP"@ || s == "dispatch"@ || s == "dispatch_combine"@
}

/// Names of the all-reduce backend.
pub open spec fn is_all_reduce_name(s: Seq<char>) -> bool {
    s == "allreduce"@ || s == "all_reduce"@ || s == "legacy"@ || is_off_word(s)
}

/// Whether tokens are dispatched to the ranks of their experts.
pub open spec fn deepep_state(raw: Option<&str>) -> Result<bool, SwitchError> {
    match raw {
        None => Ok(false),
        Some(s) => if is_dispatch_name(s@) {
            Ok(true)
        } else if is_all_reduce_name(s@) {
            Ok(false)
        } else {
            Err(SwitchError::InvalidValue)
        },
    }
}

/// Reads whether tokens are dispatched to the ranks of their experts.
pub fn dsv4_moe_deepep_enabled(raw: Option<&str>) -> (on: Result<bool, SwitchError>)
    ensures
        on == deepep_state(raw),
{
    match raw {
        None => Ok(false),
        Some(s) => {
            if same_text(s, "deepep") || same_text(s, "DeepEP") || same_text(s, "dispatch")
                || same_text(s, "dispatch_combine") {
                Ok(true)
            } else if same_text(s, "allreduce") || same_text(s, "all_reduce") || same_text(
                s,
                "legacy",
            ) || off_word(s) {
                Ok(false)
            } else {
                Err(SwitchError::InvalidValue)
            }
        },
    }
}

/// Set to anything but a word that switches off: tracing of layers, overlap of
/// the combine step.
pub open spec fn set_and_not_off(raw: Option<&str>) -> bool {
    match raw {
        None => false,
        Some(s) => !is_off_word(s@),
    }
}

/// Reads a switch that every text but an off word turns on.
pub fn enabled_unless_off(raw: Option<&str>) -> (on: bool)
    ensures
        on == set_and_not_off(raw),
{
    match raw {
        None => false,
        Some(s) => !off_word(s),
    }
}

/// A number of layers; none where it is not set.
pub open spec fn layer_limit_value(raw: Option<&str>) -> Result<usize, SwitchError> {
    match raw {
        None => Ok(0),
        Some(s) => match parsed_number(s@, usize::MAX as nat) {
            Some(n) => Ok(n as usize),
            None => Err(SwitchError::InvalidValue),
        },
    }
}

/// Reads how many layers run on the device.
pub fn layer_limit(raw: Option<&str>) -> (limit: Result<usize, SwitchError>)
    ensures
        limit == layer_limit_value(raw),
{
    match raw {
        None => Ok(0),
        Some(s) => match parse_number(s, usize::MAX) {
            Some(n) => Ok(n),
            None => Err(SwitchError::InvalidValue),
        },
    }
}

/// Whether logits see all tokens: as set, else where full layers run.
pub open spec fn contextual_state(raw: Option<&str>, full_layers: Option<&str>) -> Result<
    bool,
    SwitchError,
> {
    match raw {
        None => match layer_limit_value(full_layers) {
            Ok(limit) => Ok(limit > 0),
            Err(e) => Err(e),
        },
        Some(_) => switch_state(raw),
    }
}

/// Reads whether logits see all tokens of a request.
pub fn dsv4_gpu_contextual_logits_enabled(
    raw: Option<&str>,
    full_layers: Option<&str>,
) -> (on: Result<bool, SwitchError>)
    ensures
        on == contextual_state(raw, full_layers),
{
    match raw {
        None => match layer_limit(full_layers) {
            Ok(limit) => Ok(limit > 0),
            Err(e) => Err(e),
        },
        Some(_) => switch_enabled(raw),
    }
}

/// Why the port of a communicator cannot be chosen.
#[derive(Clone, Copy, Debug, PartialEq, Eq, Structural)]
pub enum PortError {
    Missing,
    Invalid,
    Overflow,
}

/// The port of a further communicator: `offset` above the main one.
pub open spec fn offset_port(raw: Option<&str>, offset: u16) -> Result<u16, PortError> {
    match raw {
        None => Err(PortError::Missing),
        Some(s) => match parsed_number(s@, u16::MAX as nat) {
            None => Err(PortError::Invalid),
            Some(port) => if port + offset > u16::MAX {
                Err(PortError::Overflow)
            } else {
                Ok((port + offset) as u16)
            },
        },
    }
}

/// Chooses the port of a further communicator.
pub fn bootstrap_port(raw: Option<&str>, offset: u16) -> (port: Result<u16, PortError>)
    ensures
        port == offset_port(raw, offset),
{
    match raw {
        None => Err(PortError::Missing),
        Some(s) => match parse_number(s, 65535) {
            None => Err(PortError::Invalid),
            Some(port) => match (port as u16).checked_add(offset) {
                None => Err(PortError::Overflow),
                Some(p) => Ok(p),
            },
        },
    }
}

/// How many candidates to log per sampled token, where any.
pub open spec fn logged_candidates(raw: Option<&str>) -> Option<usize> {
    match raw {
        None => None,
        Some(s) => match parsed_number(s@, usize::MAX as nat) {
            Some(n) => if n > 0 {
                Some(n as usize)
            } else {
                None
            },
            None => None,
        },
    }
}

/// Reads how many candidates to log per sampled token.
pub fn log_topk(raw: Option<&str>) -> (k: Option<usize>)
    ensures
        k == logged_candidates(raw),
{
    match raw {
        None => None,
        Some(s) => match parse_number(s, usize::MAX) {
            Some(n) => {
                if n > 0 {
                    Some(n)
                } else {
                    None
                }
            },
            None => None,
        },
    }
}

/// What is not set is off everywhere, and a port has then no offset.
pub proof fn law_unset_switches_are_off(offset: u16)
    ensures
        switch_state(None) == Ok::<bool, SwitchError>(false),
        grouped_state(None) == Ok::<bool, SwitchError>(false),
        deepep_state(None) == Ok::<bool, SwitchError>(false),
        !set_and_not_off(None),
        layer_limit_value(None) == Ok::<usize, SwitchError>(0),
        contextual_state(None, None) == Ok::<bool, SwitchError>(false),
        offset_port(None, offset) == Err::<u16, PortError>(PortError::Missing),
        logged_candidates(None) is None,
{
}

/// A word that switches off does so everywhere, and a word that switches on does so
/// everywhere but for the backend, which goes by names. A text that a switch does
/// not know is refused, except where everything but an off word switches on.
pub proof fn law_words_switch_alike(s: &str)
    ensures
        s@ == "0"@ || s@ == "false"@ || s@ == "FALSE"@ || s@ == "off"@ || s@ == "OFF"@ ==> {
            &&& switch_state(Some(s)) == Ok::<bool, SwitchError>(false)
            &&& grouped_state(Some(s)) == Ok::<bool, SwitchError>(false)
            &&& deepep_state(Some(s)) == Ok::<bool, SwitchError>(false)
            &&& !set_and_not_off(Some(s))
        },
        s@ == "1"@ || s@ == "true"@ || s@ == "TRUE"@ || s@ == "on"@ || s@ == "ON"@ ==> {
            &&& switch_state(Some(s)) == Ok::<bool, SwitchError>(true)
            &&& grouped_state(Some(s)) == Ok::<bool, SwitchError>(true)
            &&& set_and_not_off(Some(s))
        },
        s@ == "yes"@ || s@ == "YES"@ ==> switch_state(Some(s)) == Ok::<bool, SwitchError>(true),
        s@ == "no"@ || s@ == "NO"@ ==> switch_state(Some(s)) == Ok::<bool, SwitchError>(false),
        grouped_state(Some(s)) is Ok ==> switch_state(Some(s)) == grouped_state(Some(s)),
        switch_state(Some(s)) is Ok ==> grouped_state(Some(s)) == switch_state(Some(s)) || s@
            == "yes"@ || s@ == "YES"@ || s@ == "no"@ || s@ == "NO"@,
        switch_state(Some(s)) == Ok::<bool, SwitchError>(true) ==> set_and_not_off(Some(s)),
        !set_and_not_off(Some(s)) ==> switch_state(Some(s)) == Ok::<bool, SwitchError>(false),
        s@ == "deepep"@ || s@ == "DeepEP"@ || s@ == "dispatch"@ || s@ == "dispatch_combine"@
            <==> deepep_state(Some(s)) == Ok::<bool, SwitchError>(true),
        s@ == "allreduce"@ || s@ == "all_reduce"@ || s@ == "legacy"@ ==> deepep_state(Some(s))
            == Ok::<bool, SwitchError>(false),
{
    law_on_and_off_differ(s@);
    reveal_strlit("0");
    reveal_strlit("false");
    reveal_strlit("FALSE");
    reveal_strlit("off");
    reveal_strlit("OFF");
    reveal_strlit("deepep");
    reveal_strlit("DeepEP");
    reveal_strlit("dispatch");
    reveal_strlit("dispatch_combine");
    reveal_strlit("allreduce");
    reveal_strlit("all_reduce");
    reveal_strlit("legacy");
    assert("0"@.len() == 1);
    assert("false"@.len() == 5);
    assert("FALSE"@.len() == 5);
    assert("off"@.len() == 3);
    assert("OFF"@.len() == 3);
    assert("deepep"@.len() == 6);
    assert("DeepEP"@.len() == 6);
    assert("dispatch"@.len() == 8);
    assert("dispatch_combine"@.len() == 16);
    assert("legacy"@.len() == 6 && "legacy"@[0] == 'l');
    assert("allreduce"@.len() == 9);
    assert("all_reduce"@.len() == 10);
    assert("deepep"@[0] == 'd' && "DeepEP"@[0] == 'D');
}

/// A number that is written out is read as that number: layers and candidates as
/// they are, where there is one at least, and a port with its offset as long as it
/// is one.
pub proof fn law_written_numbers_are_read(s: &str, n: nat, offset: u16)
    requires
        s@ == decimal(n),
    ensures
        n <= usize::MAX ==> layer_limit_value(Some(s)) == Ok::<usize, SwitchError>(n as usize),
        n <= usize::MAX && n > 0 ==> logged_candidates(Some(s)) == Some(n as usize),
        n == 0 ==> logged_candidates(Some(s)) is None,
        n <= usize::MAX ==> contextual_state(None, Some(s)) == Ok::<bool, SwitchError>(n > 0),
        n + offset <= u16::MAX ==> offset_port(Some(s), offset) == Ok::<u16, PortError>(
            (n + offset) as u16,
        ),
        n <= u16::MAX < n + offset ==> offset_port(Some(s), offset) == Err::<u16, PortError>(
            PortError::Overflow,
        ),
        n > u16::MAX ==> offset_port(Some(s), offset) == Err::<u16, PortError>(
            PortError::Invalid,
        ),
{
    if n <= usize::MAX {
        law_decimal_reads_back(n, usize::MAX as nat);
    }
    if n <= u16::MAX {
        law_decimal_reads_back(n, u16::MAX as nat);
    }
    law_only_numbers_in_range_are_read(s@, n, u16::MAX as nat);
}

} // verus!
