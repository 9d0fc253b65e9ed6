//! The decision rule of the interaction loop: how a continuation answer
//! is read. The loop itself — prompts, input, output — stays outside; it
//! normalizes the raw line (trimmed, lowercased) and hands the text here.

use vstd::prelude::*;

verus! {

/// The words that ask for another query.
pub open spec fn means_yes(answer: Seq<char>) -> bool {
    answer == "y"@ || answer == "yes"@
}

/// The words that end the session.
pub open spec fn means_no(answer: Seq<char>) -> bool {
    answer == "n"@ || answer == "no"@
}

/// What a continuation answer asks for: another query, the end of the
/// session, or — for any other text — a new prompt.
#[derive(Clone, Copy, Debug, PartialEq, Eq, Structural)]
pub enum ContinueAnswer {
    Yes,
    No,
    Unrecognized,
}

/// Reads a normalized continuation answer: exactly `y` or `yes` asks for
/// another query, exactly `n` or `no` ends the session, and any other
/// text is unrecognized and must be prompted for again.
pub fn parse_continue_answer(answer: &String) -> (r: ContinueAnswer)
    ensures
        r is Yes <==> means_yes(answer@),
        r is No <==> means_no(answer@),
        r is Unrecognized <==> !means_yes(answer@) && !means_no(answer@),
{
    proof {
        reveal_strlit("y");
        reveal_strlit("yes");
        reveal_strlit("n");
        reveal_strlit("no");
        assert("y"@.len() == 1 && "yes"@.len() == 3 && "n"@.len() == 1 && "no"@.len() == 2);
        assert("y"@[0] == 'y' && "n"@[0] == 'n');
        assert("y"@ != "n"@);
    }
    if *answer == "y".to_owned() || *answer == "yes".to_owned() {
        ContinueAnswer::Yes
    } else if *answer == "n".to_owned() || *answer == "no".to_owned() {
        ContinueAnswer::No
    } else {
        ContinueAnswer::Unrecognized
    }
}

} // verus!
