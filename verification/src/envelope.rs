use vstd::prelude::*;

verus! {

/// The uniform result envelope returned for every tool invocation outcome.
/// Success and failure share this shape, so callers need no separate error
/// channel: an ordered sequence of text segments and a well-defined error
/// flag.
pub struct ToolCallResult {
    pub content: Vec<String>,
    pub is_error: bool,
}

impl ToolCallResult {
    /// Every envelope this library produces carries exactly one text segment.
    pub open spec fn wf(self) -> bool {
        self.content@.len() == 1
    }

    /// The single text segment of a well-formed envelope.
    pub open spec fn sole_text(self) -> Seq<char> {
        self.content@[0]@
    }

    /// Wrap a message as the envelope of a failed invocation.
    pub fn failure(msg: String) -> (r: ToolCallResult)
        ensures
            r.wf(),
            r.is_error,
            r.sole_text() == msg@,
    {
        let mut content: Vec<String> = Vec::new();
        content.push(msg);
        ToolCallResult { content, is_error: true }
    }

    /// Wrap a message as the envelope of a successful invocation.
    pub fn success(msg: String) -> (r: ToolCallResult)
        ensures
            r.wf(),
            !r.is_error,
            r.sole_text() == msg@,
    {
        let mut content: Vec<String> = Vec::new();
        content.push(msg);
        ToolCallResult { content, is_error: false }
    }
}

} // verus!
