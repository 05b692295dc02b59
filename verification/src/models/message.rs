//! Message bodies: not blank, at most 4096 bytes of UTF-8.

use vstd::prelude::*;
use vstd::string::StringExecFns;

use crate::error::{PipelineError, PipelineErrorView};
use crate::text::{chars_of, trim, trim_str, utf8_len, utf8_len_exceeds};

verus! {

/// Most bytes a message may have.
pub const MESSAGE_MAX_BYTES: usize = 4096;

/// Why a blank message is refused.
pub const MESSAGE_EMPTY_MESSAGE: &'static str = "message cannot be empty";

/// Why a long message is refused.
pub const MESSAGE_TOO_LONG_MESSAGE: &'static str = "message exceeds 4096 bytes";

/// What `MessageContent::parse` makes of `raw`: the text unchanged, or the
/// reason it is refused.
pub open spec fn parse_message(raw: Seq<char>) -> Result<Seq<char>, PipelineErrorView> {
    if trim(raw).len() == 0 {
        Err(PipelineErrorView::Validation(MESSAGE_EMPTY_MESSAGE@))
    } else if utf8_len(raw) > MESSAGE_MAX_BYTES {
        Err(PipelineErrorView::Validation(MESSAGE_TOO_LONG_MESSAGE@))
    } else {
        Ok(raw)
    }
}

/// The text of every `MessageContent`.
pub open spec fn message_valid(s: Seq<char>) -> bool {
    trim(s).len() > 0 && utf8_len(s) <= MESSAGE_MAX_BYTES
}

/// The body of a message, checked.
#[derive(Debug, PartialEq, Eq)]
pub struct MessageContent(String);

impl View for MessageContent {
    type V = Seq<char>;

    closed spec fn view(&self) -> Seq<char> {
        self.0@
    }
}

impl MessageContent {
    #[verifier::type_invariant]
    spec fn inv(self) -> bool {
        message_valid(self.0@)
    }

    /// Checks that `raw` is not blank and not longer than 4096 bytes; the
    /// text is kept as given.
    pub fn parse(raw: String) -> (r: Result<MessageContent, PipelineError>)
        ensures
            r matches Ok(m) ==> parse_message(raw@) == Ok::<Seq<char>, PipelineErrorView>(m@),
            r matches Err(e) ==> parse_message(raw@) == Err::<Seq<char>, PipelineErrorView>(e@),
    {
        let t = trim_str(raw.as_str());
        if t.as_str().is_empty() {
            return Err(PipelineError::Validation(String::from_str(MESSAGE_EMPTY_MESSAGE)));
        }
        let v = chars_of(raw.as_str());
        if utf8_len_exceeds(&v, MESSAGE_MAX_BYTES) {
            return Err(PipelineError::Validation(String::from_str(MESSAGE_TOO_LONG_MESSAGE)));
        }
        Ok(MessageContent(raw))
    }

    /// A copy of this message.
    pub fn clone(&self) -> (r: MessageContent)
        ensures
            r@ == self@,
    {
        proof {
            use_type_invariant(self);
        }
        MessageContent(self.0.clone())
    }

    /// The message as text.
    pub fn as_str(&self) -> (r: &str)
        ensures
            r@ == self@,
            message_valid(r@),
    {
        proof {
            use_type_invariant(self);
        }
        self.0.as_str()
    }
}

/// A valid message parses back to itself.
pub proof fn lemma_message_reparse(s: Seq<char>)
    requires
        message_valid(s),
    ensures
        parse_message(s) == Ok::<Seq<char>, PipelineErrorView>(s),
{
}

} // verus!
