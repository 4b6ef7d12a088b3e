//! What the dispatcher hands to the service, and what a receive can end in.

use crate::error::IoError;
use std::fmt::{Debug, Write};
use vstd::string::StringExecFns;
use vstd::prelude::*;

verus! {

/// Why a receive returned no frame.
#[derive(Debug)]
pub enum RecvError<D> {
    /// The keep-alive timer has expired.
    KeepAlive,
    /// Write back-pressure has turned on.
    WriteBackpressure,
    /// The dispatcher is asked to stop.
    Stop,
    /// The decoder failed, which no later input can mend.
    Decoder(D),
    /// The peer is gone, with the error that took it if there was one.
    PeerGone(Option<IoError>),
}

/// What the dispatcher hands to the service: a frame, or news of the
/// connection. `T` is a decoded frame, `D` the decoder's error and `E` the
/// encoder's.
pub enum DispatchItem<T, D, E> {
    /// A decoded frame.
    Item(T),
    /// Write back-pressure has turned on.
    WBackPressureEnabled,
    /// Write back-pressure has turned off.
    WBackPressureDisabled,
    /// The keep-alive timer has expired.
    KeepAliveTimeout,
    /// The decoder failed.
    DecoderError(D),
    /// The encoder failed.
    EncoderError(E),
    /// The connection is gone.
    Disconnect(Option<IoError>),
}

/// `write!` with `{:?}` into a new `String`: the text that the value's
/// `Debug` writes, or `None` where the `Debug` fails.
#[verifier::external_body]
fn debug_text<V: Debug>(value: &V) -> Option<String> {
    let mut text = String::new();
    match write!(text, "{:?}", value) {
        Ok(()) => Some(text),
        Err(_) => None,
    }
}

impl<T, D, E> DispatchItem<T, D, E> {
    /// The variant's name with its path.
    pub open spec fn spec_name(&self) -> Seq<char> {
        match self {
            DispatchItem::Item(_) => "DispatchItem::Item"@,
            DispatchItem::WBackPressureEnabled => "DispatchItem::WBackPressureEnabled"@,
            DispatchItem::WBackPressureDisabled => "DispatchItem::WBackPressureDisabled"@,
            DispatchItem::KeepAliveTimeout => "DispatchItem::KeepAliveTimeout"@,
            DispatchItem::DecoderError(_) => "DispatchItem::DecoderError"@,
            DispatchItem::EncoderError(_) => "DispatchItem::EncoderError"@,
            DispatchItem::Disconnect(_) => "DispatchItem::Disconnect"@,
        }
    }

    /// Whether the variant carries a value.
    pub open spec fn has_payload(&self) -> bool {
        match self {
            DispatchItem::Item(_) => true,
            DispatchItem::DecoderError(_) => true,
            DispatchItem::EncoderError(_) => true,
            DispatchItem::Disconnect(_) => true,
            _ => false,
        }
    }

    /// The text of the item for a given text of its value: the variant's
    /// name with its path, followed by the value's text in round brackets
    /// where the variant carries a value.
    pub open spec fn spec_fmt(&self, payload: Seq<char>) -> Seq<char> {
        if self.has_payload() {
            self.spec_name() + "("@ + payload + ")"@
        } else {
            self.spec_name()
        }
    }

    /// The variant's name with its path.
    pub fn name(&self) -> (r: &'static str)
        ensures
            r@ == self.spec_name(),
    {
        match self {
            DispatchItem::Item(_) => "DispatchItem::Item",
            DispatchItem::WBackPressureEnabled => "DispatchItem::WBackPressureEnabled",
            DispatchItem::WBackPressureDisabled => "DispatchItem::WBackPressureDisabled",
            DispatchItem::KeepAliveTimeout => "DispatchItem::KeepAliveTimeout",
            DispatchItem::DecoderError(_) => "DispatchItem::DecoderError",
            DispatchItem::EncoderError(_) => "DispatchItem::EncoderError",
            DispatchItem::Disconnect(_) => "DispatchItem::Disconnect",
        }
    }

    /// The text of the item, given the text of the value it carries:
    /// see [`DispatchItem::spec_fmt`].
    pub fn fmt_with(&self, payload: &str) -> (r: String)
        ensures
            r@ == self.spec_fmt(payload@),
    {
        let mut r = String::from_str(self.name());
        match self {
            DispatchItem::WBackPressureEnabled
            | DispatchItem::WBackPressureDisabled
            | DispatchItem::KeepAliveTimeout => {},
            _ => {
                r.append("(");
                r.append(payload);
                r.append(")");
            },
        }
        r
    }

    /// The text of the item as a debugger shows it: the variant's name with
    /// its path, followed in round brackets by what `Debug` writes for the
    /// value that the variant carries. An item that carries no value always
    /// has its text; for one that carries a value there is none where the
    /// value's `Debug` fails.
    pub fn fmt_debug(&self) -> (r: Option<String>) where T: Debug, D: Debug, E: Debug
        ensures
            !self.has_payload() ==> r.is_some() && r.unwrap()@ == self.spec_name(),
            r matches Some(text) ==> exists|payload: Seq<char>| text@ == self.spec_fmt(payload),
    {
        let payload = match self {
            DispatchItem::Item(item) => debug_text(item),
            DispatchItem::DecoderError(e) => debug_text(e),
            DispatchItem::EncoderError(e) => debug_text(e),
            DispatchItem::Disconnect(e) => debug_text(e),
            _ => Some(String::new()),
        };
        match payload {
            Some(p) => Some(self.fmt_with(p.as_str())),
            None => None,
        }
    }
}

} // verus!
