//! What the transcriber heard in one segment.

use vstd::prelude::*;
use vstd::string::*;

verus! {

/// The text of one segment, with the number of pieces the transcriber
/// delivered it in.
#[derive(Clone, Debug, PartialEq, Eq)]
pub struct Transcript {
    pub text: String,
    pub pieces: usize,
}

/// The pieces written one after another, with nothing between them.
pub open spec fn joined(pieces: Seq<String>) -> Seq<char>
    decreases pieces.len(),
{
    if pieces.len() == 0 {
        Seq::empty()
    } else {
        joined(pieces.drop_last()) + pieces.last()@
    }
}

impl Transcript {
    /// Puts the transcriber's pieces together in the order they came.
    pub fn from_pieces(pieces: &Vec<String>) -> (transcript: Transcript)
        ensures
            transcript.text@ == joined(pieces@),
            transcript.pieces == pieces@.len(),
    {
        let n: usize = pieces.len();
        let mut text: String = String::new();
        let mut i: usize = 0;
        while i < n
            invariant
                i <= n,
                n == pieces@.len(),
                text@ == joined(pieces@.subrange(0, i as int)),
            decreases n - i,
        {
            text.append(pieces[i].as_str());
            proof {
                let upto = pieces@.subrange(0, i as int + 1);
                assert(upto.drop_last() =~= pieces@.subrange(0, i as int));
            }
            i = i + 1;
        }
        assert(pieces@.subrange(0, n as int) =~= pieces@);
        Transcript { text, pieces: n }
    }
}

} // verus!
