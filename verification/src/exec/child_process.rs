//! Splitting a command line into the program name and its argument list.
//!
//! The command string is cut at every single space character, with no
//! shell-style quoting: the first piece names the program, the remaining
//! pieces are its arguments in order. Consecutive spaces produce empty
//! pieces, and the empty string parses to an empty program name.

use vstd::prelude::*;
use vstd::string::*;

verus! {

/// The pieces of `s` cut at every space character. The result always has
/// at least one element; a string without spaces is one piece, and every
/// space contributes one cut, so `n` spaces yield `n + 1` pieces.
pub open spec fn split_on_space(s: Seq<char>) -> Seq<Seq<char>>
    decreases s.len(),
{
    if s.len() == 0 {
        seq![Seq::<char>::empty()]
    } else if s[0] == ' ' {
        seq![Seq::<char>::empty()] + split_on_space(s.skip(1))
    } else {
        let rest = split_on_space(s.skip(1));
        seq![seq![s[0]] + rest[0]] + rest.skip(1)
    }
}

/// A string without spaces is a single piece: itself.
proof fn lemma_split_no_space(s: Seq<char>)
    requires
        forall|k: int| 0 <= k < s.len() ==> s[k] != ' ',
    ensures
        split_on_space(s) == seq![s],
    decreases s.len(),
{
    if s.len() == 0 {
        assert(s =~= Seq::<char>::empty());
    } else {
        assert(forall|k: int| 0 <= k < s.skip(1).len() ==> #[trigger] s.skip(1)[k] != ' ');
        lemma_split_no_space(s.skip(1));
        assert(seq![s[0]] + s.skip(1) =~= s);
        assert(seq![s.skip(1)].skip(1) =~= Seq::<Seq<char>>::empty());
        assert(split_on_space(s) =~= seq![s]);
    }
}

/// When the first space of `s` stands at `j`, the first piece is what
/// comes before `j` and the remaining pieces split the rest.
proof fn lemma_split_first_space(s: Seq<char>, j: int)
    requires
        0 <= j < s.len(),
        s[j] == ' ',
        forall|k: int| 0 <= k < j ==> s[k] != ' ',
    ensures
        split_on_space(s) == seq![s.take(j)] + split_on_space(s.skip(j + 1)),
    decreases j,
{
    if j == 0 {
        assert(s.take(0) =~= Seq::<char>::empty());
        assert(split_on_space(s) =~= seq![s.take(0)] + split_on_space(s.skip(1)));
    } else {
        assert(forall|k: int| 0 <= k < j - 1 ==> #[trigger] s.skip(1)[k] != ' ');
        lemma_split_first_space(s.skip(1), j - 1);
        let rest = split_on_space(s.skip(1));
        assert(s.skip(1).skip(j) =~= s.skip(j + 1));
        assert(rest == seq![s.skip(1).take(j - 1)] + split_on_space(s.skip(j + 1)));
        assert(rest.skip(1) =~= split_on_space(s.skip(j + 1)));
        assert(seq![s[0]] + s.skip(1).take(j - 1) =~= s.take(j));
        assert(split_on_space(s) =~= seq![s.take(j)] + split_on_space(s.skip(j + 1)));
    }
}

/// The views of a sequence of owned strings.
spec fn views_of(pieces: Seq<String>) -> Seq<Seq<char>> {
    pieces.map_values(|p: String| p@)
}

/// Command-line splitter for the process spawner: turns the configured
/// command string into the program name and the argument list handed to
/// the operating system.
pub struct TokioCmdExecutor;

impl TokioCmdExecutor {
    /// Cuts the command line at every space: the program name first, then
    /// the arguments in order, exactly the pieces of [`split_on_space`].
    #[verifier::loop_isolation(false)]
    pub fn parse(command: &str) -> (r: (String, Vec<String>))
        ensures
            ({
                let parts = split_on_space(command@);
                &&& r.0@ == parts[0]
                &&& r.1@.len() + 1 == parts.len()
                &&& forall|k: int| 0 <= k < r.1@.len() ==> #[trigger] r.1@[k]@ == parts[k + 1]
            }),
    {
        let n = command.unicode_len();
        let mut pieces: Vec<String> = Vec::new();
        let mut start: usize = 0;
        let mut i: usize = 0;
        proof {
            assert(command@.skip(0) =~= command@);
        }
        while i < n
            invariant
                0 <= start <= i <= n,
                forall|k: int| start <= k < i ==> command@[k] != ' ',
                split_on_space(command@) == views_of(pieces@) + split_on_space(
                    command@.skip(start as int),
                ),
            decreases n - i,
        {
            let c = command.get_char(i);
            if c == ' ' {
                let piece = command.substring_char(start, i).to_owned();
                proof {
                    let tail = command@.skip(start as int);
                    assert(forall|k: int| 0 <= k < i - start ==> #[trigger] tail[k] != ' ');
                    lemma_split_first_space(tail, i - start);
                    assert(tail.take(i - start) =~= piece@);
                    assert(tail.skip(i - start + 1) =~= command@.skip(i + 1));
                    assert(views_of(pieces@.push(piece)) =~= views_of(pieces@) + seq![piece@]);
                    assert(views_of(pieces@) + (seq![piece@] + split_on_space(
                        command@.skip(i + 1),
                    )) =~= views_of(pieces@.push(piece)) + split_on_space(command@.skip(i + 1)));
                }
                pieces.push(piece);
                start = i + 1;
            }
            i = i + 1;
        }
        let piece = command.substring_char(start, n).to_owned();
        proof {
            let tail = command@.skip(start as int);
            assert(forall|k: int| 0 <= k < tail.len() ==> #[trigger] tail[k] != ' ');
            lemma_split_no_space(tail);
            assert(tail =~= piece@);
            assert(views_of(pieces@.push(piece)) =~= views_of(pieces@) + seq![piece@]);
        }
        pieces.push(piece);
        proof {
            assert(views_of(pieces@) =~= split_on_space(command@));
        }
        let program = pieces.remove(0);
        proof {
            assert(views_of(pieces@) =~= split_on_space(command@).skip(1));
        }
        (program, pieces)
    }
}

} // verus!
