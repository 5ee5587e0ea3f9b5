use vstd::prelude::*;
use vstd::utf8::{decode_utf8, valid_utf8};

verus! {

/// A request to run a program: what the caller of this crate is asked to
/// launch, and to wait for.
#[derive(Clone, Debug, PartialEq, Eq)]
pub struct Invocation {
    /// The name of the program, looked up on the search path.
    pub program: String,
    /// Its arguments, in order.
    pub arguments: Vec<String>,
}

/// The mathematical value of an [`Invocation`].
pub struct InvocationModel {
    pub program: Seq<char>,
    pub arguments: Seq<Seq<char>>,
}

impl View for Invocation {
    type V = InvocationModel;

    open spec fn view(&self) -> InvocationModel {
        InvocationModel {
            program: self.program@,
            arguments: self.arguments@.map_values(|a: String| a@),
        }
    }
}

/// What became of an [`Invocation`].
#[derive(Clone, Debug, PartialEq, Eq)]
pub enum ToolRun {
    /// The program could not be started; `reason` says why.
    NotStarted { reason: String },
    /// The program ran to its end. `success` tells whether its exit status was
    /// zero; the two streams are what it wrote, byte for byte.
    Exited { success: bool, stdout: Vec<u8>, stderr: Vec<u8> },
}

/// The mathematical value of a [`ToolRun`].
pub enum ToolRunModel {
    NotStarted { reason: Seq<char> },
    Exited { success: bool, stdout: Seq<u8>, stderr: Seq<u8> },
}

impl View for ToolRun {
    type V = ToolRunModel;

    open spec fn view(&self) -> ToolRunModel {
        match self {
            ToolRun::NotStarted { reason } => ToolRunModel::NotStarted { reason: reason@ },
            ToolRun::Exited { success, stdout, stderr } => ToolRunModel::Exited {
                success: *success,
                stdout: stdout@,
                stderr: stderr@,
            },
        }
    }
}

/// The text that `String::from_utf8_lossy` makes of a sequence of bytes.
pub uninterp spec fn utf8_lossy(bytes: Seq<u8>) -> Seq<char>;

/// Reads bytes as text with `String::from_utf8_lossy`.
///
/// Believed of the standard library: the text depends on the bytes alone, and
/// bytes that are well-formed UTF-8 come out as the characters they encode.
/// What is put in the place of ill-formed bytes is not stated here.
#[verifier::external_body]
pub(crate) fn lossy_text(bytes: &[u8]) -> (text: String)
    ensures
        text@ == utf8_lossy(bytes@),
        valid_utf8(bytes@) ==> text@ == decode_utf8(bytes@),
{
    String::from_utf8_lossy(bytes).into_owned()
}

} // verus!
