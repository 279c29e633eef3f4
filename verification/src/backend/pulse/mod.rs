//! What the sound server reports and answers.
//!
//! The submodules turn the server's replies (already read from the server and
//! carried here as plain values) into the service's own records and results.

pub mod card;
pub mod event;
pub mod module;
pub mod sink;
pub mod sink_input;
pub mod source;

use vstd::prelude::*;

verus! {

/// A change notification from the sound server.
#[derive(Clone, Debug)]
pub enum PulseEvent {
    SinkAdded { index: u32 },
    SinkRemoved { index: u32 },
    SinkChanged { index: u32 },
    SourceAdded { index: u32 },
    SourceRemoved { index: u32 },
    SourceChanged { index: u32 },
    SinkInputAdded { index: u32 },
    SinkInputRemoved { index: u32 },
    SinkInputChanged { index: u32 },
    CardAdded { index: u32 },
    CardRemoved { index: u32 },
    CardChanged { index: u32 },
    DefaultSinkChanged { name: String },
    DefaultSourceChanged { name: String },
    Server,
}

/// A text the server may leave out, or the empty text.
pub open spec fn text_or_empty(o: Option<String>) -> Seq<char> {
    match o {
        Some(s) => s@,
        None => Seq::empty(),
    }
}

/// A copy of an optional text, empty when absent.
pub fn owned_or_empty(o: &Option<String>) -> (s: String)
    ensures
        s@ == text_or_empty(*o),
{
    match o {
        Some(t) => t.clone(),
        None => String::new(),
    }
}

} // verus!
