use vstd::prelude::*;
use crate::id::ToolchainError;

verus! {

/// The one underlying failure wrapped by a `UnifiedError`. I/O and
/// deserialization failures are carried as the reporting layer's message
/// text; a domain failure keeps the whole `ToolchainError`, so callers can
/// always tell the three apart and recover what went wrong.
#[derive(Debug)]
pub enum ErrorCause {
    Io { message: String },
    Deserialize { message: String },
    Toolchain { error: ToolchainError },
}

impl ErrorCause {
    /// The text this cause displays as.
    pub open spec fn message_view(self) -> Seq<char> {
        match self {
            ErrorCause::Io { message } => message@,
            ErrorCause::Deserialize { message } => message@,
            ErrorCause::Toolchain { error } => error.message_view(),
        }
    }

    /// Renders the cause's own message, without any attached context.
    pub fn message(&self) -> (r: String)
        ensures
            r@ == self.message_view(),
    {
        match self {
            ErrorCause::Io { message } => message.clone(),
            ErrorCause::Deserialize { message } => message.clone(),
            ErrorCause::Toolchain { error } => error.message(),
        }
    }
}

/// `tail` preceded by every layer of `contexts` in order, each layer
/// separated from what follows it by ": ".
pub open spec fn layered_view(contexts: Seq<Seq<char>>, tail: Seq<char>) -> Seq<char>
    decreases contexts.len(),
{
    if contexts.len() == 0 {
        tail
    } else {
        contexts.first() + ": "@ + layered_view(contexts.drop_first(), tail)
    }
}

/// A single error value able to wrap any failure of the table loader — an
/// I/O failure, a deserialization failure, or a domain failure — together
/// with the human-readable context attached while it propagated upward.
/// Attaching context never alters the cause, so the original failure stays
/// recoverable by matching on `cause` no matter how many layers were added.
#[derive(Debug)]
pub struct UnifiedError {
    /// The original failure.
    pub cause: ErrorCause,
    /// Attached context lines, the most recently attached first.
    pub contexts: Vec<String>,
}

impl UnifiedError {
    /// The context layers as character data, most recently attached first.
    pub open spec fn contexts_view(self) -> Seq<Seq<char>> {
        self.contexts@.map_values(|c: String| c@)
    }

    /// What the error displays as: every context layer, most recently
    /// attached first, then the cause's own message, joined by ": ".
    pub open spec fn display_view(self) -> Seq<char> {
        layered_view(self.contexts_view(), self.cause.message_view())
    }

    /// Wraps a bare cause, with no context attached yet.
    pub fn from_cause(cause: ErrorCause) -> (r: UnifiedError)
        ensures
            r.cause == cause,
            r.contexts@ == Seq::<String>::empty(),
    {
        UnifiedError { cause, contexts: Vec::new() }
    }

    /// Attaches one layer of human-readable context. The wrapped cause is
    /// untouched, and the new layer displays before everything already
    /// attached.
    pub fn context(self, msg: String) -> (r: UnifiedError)
        ensures
            r.cause == self.cause,
            r.contexts_view() == seq![msg@] + self.contexts_view(),
            r.display_view() == msg@ + ": "@ + self.display_view(),
    {
        let ghost orig = self;
        let mut contexts = self.contexts;
        contexts.insert(0, msg);
        let r = UnifiedError { cause: self.cause, contexts };
        proof {
            assert(r.contexts_view() =~= seq![msg@] + orig.contexts_view());
            assert(r.contexts_view().drop_first() =~= orig.contexts_view());
        }
        r
    }

    /// Renders the whole error: each context layer, then the cause message.
    pub fn display(&self) -> (r: String)
        ensures
            r@ == self.display_view(),
    {
        let mut out = String::new();
        let mut i: usize = 0;
        proof {
            assert(self.contexts_view().skip(0) =~= self.contexts_view());
            assert(out@ + self.display_view() =~= self.display_view());
        }
        while i < self.contexts.len()
            invariant
                i <= self.contexts.len(),
                out@ + layered_view(
                    self.contexts_view().skip(i as int),
                    self.cause.message_view(),
                ) == self.display_view(),
            decreases self.contexts.len() - i,
        {
            proof {
                assert(self.contexts_view().skip(i as int).drop_first() =~= self.contexts_view().skip(
                    i as int + 1,
                ));
            }
            out.append(self.contexts[i].as_str());
            out.append(": ");
            i = i + 1;
        }
        proof {
            assert(self.contexts_view().skip(0) =~= self.contexts_view());
        }
        let tail = self.cause.message();
        out.append(tail.as_str());
        out
    }
}

/// Law: attaching context is non-destructive of the cause and layers the
/// display. If `e1` is `e` with context `c1` attached and `e2` is `e1` with
/// context `c2` attached, then `e2` still wraps exactly `e`'s cause, and it
/// displays as `c2`, then `c1`, then `e`'s own display.
pub proof fn lemma_context_layering(
    e: UnifiedError,
    e1: UnifiedError,
    e2: UnifiedError,
    c1: String,
    c2: String,
)
    requires
        e1.cause == e.cause,
        e1.contexts_view() == seq![c1@] + e.contexts_view(),
        e2.cause == e1.cause,
        e2.contexts_view() == seq![c2@] + e1.contexts_view(),
    ensures
        e2.cause == e.cause,
        e2.display_view() == c2@ + ": "@ + (c1@ + ": "@ + e.display_view()),
{
    assert(e1.contexts_view().drop_first() =~= e.contexts_view());
    assert(e2.contexts_view().drop_first() =~= e1.contexts_view());
    assert(e1.contexts_view().first() == c1@);
    assert(e2.contexts_view().first() == c2@);
    assert(e1.display_view() == c1@ + ": "@ + e.display_view());
    assert(e2.display_view() == c2@ + ": "@ + e1.display_view());
}

} // verus!
