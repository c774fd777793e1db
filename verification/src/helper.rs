use crate::text::{from_chars, same_chars, string_texts, to_chars};
use vstd::prelude::*;
use vstd::slice::slice_subrange;

verus! {

/// Completes the command that the user is typing.
pub struct CliHelper {
    commands: Vec<String>,
}

/// Whether `text` starts with `prefix`.
pub open spec fn starts_with(text: Seq<char>, prefix: Seq<char>) -> bool {
    prefix.len() <= text.len() && text.take(prefix.len() as int) == prefix
}

/// What is left to type of each of the first `n` commands that start with
/// `prefix`, in the order of the commands.
pub open spec fn remainders(commands: Seq<Seq<char>>, prefix: Seq<char>, n: int) -> Seq<Seq<char>>
    decreases n,
{
    if n <= 0 || n > commands.len() {
        Seq::empty()
    } else if starts_with(commands[n - 1], prefix) {
        remainders(commands, prefix, n - 1).push(commands[n - 1].skip(prefix.len() as int))
    } else {
        remainders(commands, prefix, n - 1)
    }
}

/// Whether all candidates have `n` characters or more and agree on their
/// first `n`.
pub open spec fn agree(candidates: Seq<Seq<char>>, n: int) -> bool {
    forall|i: int|
        0 <= i < candidates.len() ==> n <= (#[trigger] candidates[i]).len() && candidates[i].take(n)
            == candidates[0].take(n)
}

/// Whether `prefix` is the longest text that all candidates start with.
pub open spec fn longest_common(candidates: Seq<Seq<char>>, prefix: Seq<char>) -> bool {
    &&& candidates.len() > 0
    &&& agree(candidates, prefix.len() as int)
    &&& prefix == candidates[0].take(prefix.len() as int)
    &&& !agree(candidates, prefix.len() as int + 1)
}

/// The candidates have one longest common start only.
pub proof fn law_longest_common_is_unique(
    candidates: Seq<Seq<char>>,
    first: Seq<char>,
    second: Seq<char>,
)
    requires
        longest_common(candidates, first),
        longest_common(candidates, second),
    ensures
        first == second,
{
    if first.len() < second.len() {
        let n = first.len() as int;
        assert forall|i: int| 0 <= i < candidates.len() implies n + 1 <= (
        #[trigger] candidates[i]).len() && candidates[i].take(n + 1) == candidates[0].take(
            n + 1,
        ) by {
            assert(candidates[i].take(second.len() as int) == candidates[0].take(
                second.len() as int,
            ));
            assert(candidates[i].take(n + 1) =~= candidates[i].take(second.len() as int).take(
                n + 1,
            ));
            assert(candidates[0].take(n + 1) =~= candidates[0].take(second.len() as int).take(
                n + 1,
            ));
        }
    } else if second.len() < first.len() {
        let n = second.len() as int;
        assert forall|i: int| 0 <= i < candidates.len() implies n + 1 <= (
        #[trigger] candidates[i]).len() && candidates[i].take(n + 1) == candidates[0].take(
            n + 1,
        ) by {
            assert(candidates[i].take(first.len() as int) == candidates[0].take(
                first.len() as int,
            ));
            assert(candidates[i].take(n + 1) =~= candidates[i].take(first.len() as int).take(
                n + 1,
            ));
            assert(candidates[0].take(n + 1) =~= candidates[0].take(first.len() as int).take(
                n + 1,
            ));
        }
    }
}

/// The candidates offered for the text before the cursor, `prefix`. They
/// are what is left to type of the commands that start with it; where
/// these have a start in common, that start is the one candidate.
pub open spec fn offered(candidates: Seq<Seq<char>>, shown: Seq<Seq<char>>) -> bool {
    if candidates.len() >= 2 && agree(candidates, 1) {
        shown.len() == 1 && longest_common(candidates, shown[0])
    } else {
        shown == candidates
    }
}

/// Calls `rustyline::completion::longest_common_prefix` on the candidates.
///
/// The contract is taken on trust, not proved. It states what that
/// function computes, as its source shows it: nothing for no
/// candidate; the candidate itself where there is one; else the longest
/// text that all candidates start with, and nothing where that text is
/// empty. The function compares bytes and then moves back to a character
/// boundary of the first candidate, which for texts in UTF-8 gives the
/// longest common run of whole characters.
#[verifier::external_body]
fn common_prefix(candidates: &Vec<String>) -> (prefix: Option<String>)
    ensures
        candidates@.len() == 0 ==> prefix is None,
        candidates@.len() == 1 ==> prefix is Some && prefix->Some_0@ == candidates@[0]@,
        candidates@.len() >= 2 ==> match prefix {
            Some(p) => p@.len() > 0 && longest_common(string_texts(candidates@), p@),
            None => !agree(string_texts(candidates@), 1),
        },
{
    rustyline::completion::longest_common_prefix(candidates.as_slice()).map(|s| s.to_owned())
}

impl CliHelper {
    /// The commands that the helper completes.
    pub closed spec fn commands(&self) -> Seq<Seq<char>> {
        string_texts(self.commands@)
    }

    /// A helper that completes the given commands.
    pub fn new(commands: Vec<String>) -> (helper: CliHelper)
        ensures
            helper.commands() == string_texts(commands@),
    {
        CliHelper { commands }
    }

    /// The candidates for completing `line` with the cursor after its first
    /// `pos` characters. A cursor beyond the end of the line has no
    /// candidate.
    pub fn complete(&self, line: &str, pos: usize) -> (candidates: Vec<String>)
        ensures
            pos <= line@.len() ==> offered(
                remainders(self.commands(), line@.take(pos as int), self.commands().len() as int),
                string_texts(candidates@),
            ),
            pos > line@.len() ==> candidates@.len() == 0,
    {
        let chars = to_chars(line);
        let mut candidates: Vec<String> = Vec::new();
        if pos > chars.len() {
            return candidates;
        }
        let prefix = slice_subrange(chars.as_slice(), 0, pos);
        assert(prefix@ == line@.take(pos as int));
        let mut i: usize = 0;
        while i < self.commands.len()
            invariant
                i <= self.commands.len(),
                prefix@.len() == pos,
                string_texts(candidates@) == remainders(self.commands(), prefix@, i as int),
            decreases self.commands.len() - i,
        {
            let command = to_chars(self.commands[i].as_str());
            assert(self.commands()[i as int] == command@);
            let ghost before = string_texts(candidates@);
            if pos <= command.len() && same_chars(
                slice_subrange(command.as_slice(), 0, pos),
                prefix,
            ) {
                let rest = from_chars(slice_subrange(command.as_slice(), pos, command.len()));
                candidates.push(rest);
                assert(string_texts(candidates@) =~= before.push(command@.skip(pos as int)));
            }
            i += 1;
        }
        assert(self.commands().len() == self.commands.len());
        let ghost all = string_texts(candidates@);
        match common_prefix(&candidates) {
            Some(common) => {
                if common.as_str().unicode_len() > 0 && candidates.len() >= 2 {
                    proof {
                        assert(agree(all, common@.len() as int));
                        assert forall|k: int| 0 <= k < all.len() implies 1 <= (#[trigger] all[k]).len()
                            && all[k].take(1) == all[0].take(1) by {
                            assert(all[k].take(common@.len() as int) == all[0].take(
                                common@.len() as int,
                            ));
                            assert(all[k].take(1) =~= all[k].take(common@.len() as int).take(1));
                            assert(all[0].take(1) =~= all[0].take(common@.len() as int).take(1));
                        }
                    }
                    let mut single: Vec<String> = Vec::new();
                    single.push(common);
                    assert(string_texts(single@)[0] == single@[0]@);
                    single
                } else {
                    candidates
                }
            },
            None => candidates,
        }
    }
}

} // verus!
