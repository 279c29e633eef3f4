//! Mono output: whether switching it on or off needs work, and which.
//!
//! Mono output is a remapping sink layered over the physical default sink and
//! made the default output while mono is on.

use vstd::prelude::*;

use crate::text::str_eq;

verus! {

/// The work that switching mono on or off takes.
#[derive(Clone, Debug)]
pub enum MonoAction {
    /// Load the remapping sink over `master` and make it the default output.
    Enable { master: String },
    /// Unload the remapping sink and give the default output back to the
    /// physical sink (see [`restore_default_sink`]).
    Disable,
}

/// Error text when there is no physical default sink to remap.
pub open spec fn no_master_message() -> Seq<char> {
    "no physical default sink for mono"@
}

/// What switching mono to `enable` takes, when it is `current` now and the
/// server's default sink is `default_sink`; `mono_sink` names the remapping
/// sink. Nothing is to be done when mono is already as asked; mono cannot be
/// switched on without a physical default sink.
pub fn mono_plan(current: bool, enable: bool, default_sink: &str, mono_sink: &str) -> (r: Result<Option<MonoAction>, String>)
    ensures
        current == enable ==> r matches Ok(None),
        current != enable && enable && (default_sink@.len() == 0 || default_sink@ == mono_sink@) ==>
            (r matches Err(e) && e@ == no_master_message()),
        current != enable && enable && !(default_sink@.len() == 0 || default_sink@ == mono_sink@) ==>
            (r matches Ok(Some(MonoAction::Enable { master })) && master@ == default_sink@),
        current != enable && !enable ==> r matches Ok(Some(MonoAction::Disable)),
{
    if current == enable {
        return Ok(None);
    }
    if enable {
        if default_sink.is_empty() || str_eq(default_sink, mono_sink) {
            return Err("no physical default sink for mono".to_owned());
        }
        Ok(Some(MonoAction::Enable { master: default_sink.to_owned() }))
    } else {
        Ok(Some(MonoAction::Disable))
    }
}

/// After the remapping sink is unloaded: whether to make `default_sink` the
/// default output again (only a physical, named sink is).
pub fn restore_default_sink(default_sink: &str, mono_sink: &str) -> (r: bool)
    ensures
        r == (default_sink@ != mono_sink@ && default_sink@.len() != 0),
{
    !str_eq(default_sink, mono_sink) && !default_sink.is_empty()
}

} // verus!
