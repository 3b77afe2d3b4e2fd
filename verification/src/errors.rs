//! The formatter's error taxonomy: one tagged variant per failure kind, each
//! carrying the offending path and, for codec failures, the text of the
//! underlying cause and of its chain of deeper causes.

use vstd::prelude::*;
use vstd::string::*;

verus! {

/// Outcome of a single formatting job that did not succeed.
///
/// `InvalidPath` reports a UFO path that could not be used; `Read` a failed
/// font decode and `Write` a failed font encode, both with the text of the
/// root cause and the texts of its chain of deeper causes, outermost first.
#[derive(Debug)]
pub enum UfoFmtError {
    InvalidPath(String),
    Read(String, String, Vec<String>),
    Write(String, String, Vec<String>),
}

/// One `Caused by:` block per cause text, in order.
pub open spec fn caused_by_blocks(causes: Seq<Seq<char>>) -> Seq<char>
    decreases causes.len(),
{
    if causes.len() == 0 {
        Seq::empty()
    } else {
        caused_by_blocks(causes.drop_last()) + "Caused by:\n\t"@ + causes.last() + "\n"@
    }
}

/// The rendering of a chained error: the root cause's text, a blank line,
/// then one `Caused by:` block per deeper cause.
pub open spec fn chained_error_view(root: Seq<char>, causes: Seq<Seq<char>>) -> Seq<char> {
    root + "\n\n"@ + caused_by_blocks(causes)
}

/// Renders a root cause text and its chain of deeper cause texts, as
/// `chained_error_view` describes.
#[verifier::loop_isolation(false)]
pub fn chained_error_message(root: &str, causes: &Vec<String>) -> (r: String)
    ensures
        r@ == chained_error_view(root@, causes.deep_view()),
{
    let mut msg = String::from_str(root);
    msg.append("\n\n");
    let mut i: usize = 0;
    proof {
        assert(causes.deep_view().subrange(0, 0) =~= Seq::<Seq<char>>::empty());
    }
    while i < causes.len()
        invariant
            i <= causes@.len(),
            msg@ == root@ + "\n\n"@ + caused_by_blocks(causes.deep_view().subrange(0, i as int)),
        decreases causes@.len() - i,
    {
        msg.append("Caused by:\n\t");
        msg.append(causes[i].as_str());
        msg.append("\n");
        proof {
            let prefix_ext = causes.deep_view().subrange(0, i + 1);
            assert(prefix_ext.drop_last() =~= causes.deep_view().subrange(0, i as int));
            assert(prefix_ext.last() == causes@[i as int]@);
            assert(msg@ =~= root@ + "\n\n"@ + caused_by_blocks(prefix_ext));
        }
        i = i + 1;
    }
    proof {
        assert(causes.deep_view().subrange(0, causes@.len() as int) =~= causes.deep_view());
    }
    msg
}

/// The user-facing message of each error variant: the kind's prefix and the
/// offending path, then — for codec failures — the rendered cause chain.
pub open spec fn error_message_view(e: UfoFmtError) -> Seq<char> {
    match e {
        UfoFmtError::InvalidPath(p) => "invalid path error: "@ + p@ + " was not found"@,
        UfoFmtError::Read(p, root, causes) => "norad read error: "@ + p@ + "\n"@
            + chained_error_view(root@, causes.deep_view()),
        UfoFmtError::Write(p, root, causes) => "norad write error: "@ + p@ + "\n"@
            + chained_error_view(root@, causes.deep_view()),
    }
}

impl UfoFmtError {
    /// Renders the error for console reporting.
    pub fn message(&self) -> (r: String)
        ensures
            r@ == error_message_view(*self),
    {
        match self {
            UfoFmtError::InvalidPath(p) => {
                let mut s = String::from_str("invalid path error: ");
                s.append(p.as_str());
                s.append(" was not found");
                proof {
                    assert(s@ =~= error_message_view(*self));
                }
                s
            },
            UfoFmtError::Read(p, root, causes) => {
                let mut s = String::from_str("norad read error: ");
                s.append(p.as_str());
                s.append("\n");
                let chained = chained_error_message(root.as_str(), causes);
                s.append(chained.as_str());
                proof {
                    assert(s@ =~= error_message_view(*self));
                }
                s
            },
            UfoFmtError::Write(p, root, causes) => {
                let mut s = String::from_str("norad write error: ");
                s.append(p.as_str());
                s.append("\n");
                let chained = chained_error_message(root.as_str(), causes);
                s.append(chained.as_str());
                proof {
                    assert(s@ =~= error_message_view(*self));
                }
                s
            },
        }
    }
}

} // verus!
