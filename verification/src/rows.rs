//! Row emission: text at the boundary to the host.
//!
//! The text of the host ends at its first terminator character, so a string
//! that holds one cannot pass the boundary. That is checked here, for the
//! rows of an invocation and for the path that a call is bound to.

use crate::text::has_char;
use vstd::prelude::*;

verus! {

/// Where a terminator character was found.
#[derive(Clone, Copy, Debug, PartialEq, Eq, Structural)]
pub enum TextEncodingFailure {
    /// In the row with this index; the rows before it hold none.
    Row(usize),
    /// In the path of a call.
    Path,
}

/// `text` holds no terminator character.
pub open spec fn encodable(text: Seq<char>) -> bool {
    !text.contains('\0')
}

/// Every one of `rows` is encodable.
pub open spec fn all_encodable(rows: Seq<Seq<char>>) -> bool {
    forall|i: int| 0 <= i < rows.len() ==> encodable(#[trigger] rows[i])
}

/// Two encodable texts, one after the other, are an encodable text.
pub proof fn lemma_joined_text_is_encodable(head: Seq<char>, tail: Seq<char>)
    requires
        encodable(head),
        encodable(tail),
    ensures
        encodable(head + tail),
{
    let joined = head + tail;
    if joined.contains('\0') {
        let k = choose|k: int| 0 <= k < joined.len() && joined[k] == '\0';
        if k < head.len() {
            assert(head[k] == '\0');
        } else {
            assert(tail[k - head.len()] == '\0');
        }
    }
}

/// The rows of one invocation, every one of them encodable.
pub struct RowBatch {
    rows: Vec<String>,
}

impl View for RowBatch {
    type V = Seq<Seq<char>>;

    closed spec fn view(&self) -> Seq<Seq<char>> {
        self.rows.deep_view()
    }
}

impl RowBatch {
    #[verifier::type_invariant]
    spec fn well_formed(self) -> bool {
        all_encodable(self.rows.deep_view())
    }

    /// The batch that holds `rows`, or the place of the first terminator.
    pub fn encode(rows: Vec<String>) -> (encoded: Result<RowBatch, TextEncodingFailure>)
        ensures
            match encoded {
                Ok(batch) => batch@ == rows.deep_view() && all_encodable(rows.deep_view()),
                Err(failure) => {
                    &&& failure matches TextEncodingFailure::Row(at)
                    &&& at < rows.len()
                    &&& !encodable(rows.deep_view()[at as int])
                    &&& all_encodable(rows.deep_view().take(at as int))
                },
            },
    {
        let mut at: usize = 0;
        while at < rows.len()
            invariant
                at <= rows.len(),
                all_encodable(rows.deep_view().take(at as int)),
            decreases rows.len() - at,
        {
            if has_char(rows[at].as_str(), '\0') {
                return Err(TextEncodingFailure::Row(at));
            }
            at += 1;
        }
        assert(rows.deep_view().take(at as int) =~= rows.deep_view());
        Ok(RowBatch { rows })
    }

    /// Number of rows.
    pub fn len(&self) -> (count: usize)
        ensures
            count == self@.len(),
    {
        self.rows.len()
    }

    /// The rows, in order.
    pub fn rows(&self) -> (rows: &Vec<String>)
        ensures
            rows.deep_view() == self@,
            all_encodable(self@),
    {
        proof {
            use_type_invariant(self);
        }
        &self.rows
    }
}

/// What a call of stop is bound to: the path of the file to write.
pub struct StopParameters {
    path: String,
}

impl View for StopParameters {
    type V = Seq<char>;

    closed spec fn view(&self) -> Seq<char> {
        self.path@
    }
}

impl StopParameters {
    #[verifier::type_invariant]
    spec fn well_formed(self) -> bool {
        encodable(self.path@)
    }

    /// Binds a call to `path`. Any path is taken, an empty one too, but for
    /// one that holds a terminator character.
    pub fn bind(path: String) -> (bound: Result<StopParameters, TextEncodingFailure>)
        ensures
            match bound {
                Ok(parameters) => parameters@ == path@ && encodable(path@),
                Err(failure) => failure == TextEncodingFailure::Path && !encodable(path@),
            },
    {
        if has_char(path.as_str(), '\0') {
            Err(TextEncodingFailure::Path)
        } else {
            Ok(StopParameters { path })
        }
    }

    /// The path.
    pub fn path(&self) -> (path: &str)
        ensures
            path@ == self@,
            encodable(self@),
    {
        proof {
            use_type_invariant(self);
        }
        self.path.as_str()
    }
}

} // verus!
