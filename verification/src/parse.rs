//! Splitting a raw command string into a program name and its arguments.
//!
//! The split is on single-space boundaries, exactly as the stored command
//! text has them: no quoting, no escaping, no shell expansion.  Consecutive
//! spaces produce empty tokens, and the empty string produces a single empty
//! token, so the program name of an empty command is the empty string.

use vstd::prelude::*;

verus! {

/// A command ready to hand to a process spawner: the program to launch and
/// the argument list, every token verbatim.
pub struct CommandSpec {
    pub program: String,
    pub args: Vec<String>,
}

/// Mathematical model of a `CommandSpec`.
pub ghost struct CommandSpecModel {
    pub program: Seq<char>,
    pub args: Seq<Seq<char>>,
}

impl View for CommandSpec {
    type V = CommandSpecModel;

    open spec fn view(&self) -> CommandSpecModel {
        CommandSpecModel { program: self.program@, args: self.args@.map_values(|a: String| a@) }
    }
}

/// The tokens of `s` split on spaces, given that the characters read since
/// the last space are `cur`.  Every span between two spaces becomes a token,
/// including empty spans.
pub open spec fn split_from(s: Seq<char>, cur: Seq<char>) -> Seq<Seq<char>>
    decreases s.len(),
{
    if s.len() == 0 {
        seq![cur]
    } else if s[0] == ' ' {
        seq![cur] + split_from(s.drop_first(), Seq::empty())
    } else {
        split_from(s.drop_first(), cur.push(s[0]))
    }
}

/// The tokens of `s` split on single spaces.  There is always at least one
/// token; the empty string yields one empty token.
pub open spec fn split_spaces(s: Seq<char>) -> Seq<Seq<char>> {
    split_from(s, Seq::empty())
}

/// What parsing a command string denotes: the first token names the program
/// and the remaining tokens are its arguments.
pub open spec fn parsed(s: Seq<char>) -> CommandSpecModel {
    CommandSpecModel { program: split_spaces(s)[0], args: split_spaces(s).drop_first() }
}

/// Splits a raw command string on single spaces into the program name and
/// the argument list, each token verbatim.
pub fn parse_command(cmd: &str) -> (r: CommandSpec)
    ensures
        r@ == parsed(cmd@),
{
    let ghost full = cmd@;
    let n = cmd.unicode_len();
    let mut tokens: Vec<String> = Vec::new();
    let mut start: usize = 0;
    let mut i: usize = 0;
    proof {
        assert(full.skip(0) =~= full);
        assert(full.subrange(0, 0) =~= Seq::<char>::empty());
        assert(tokens@.map_values(|t: String| t@) =~= Seq::<Seq<char>>::empty());
        assert(Seq::<Seq<char>>::empty() + split_from(full, Seq::empty()) =~= split_from(
            full,
            Seq::empty(),
        ));
    }
    while i < n
        invariant
            n == full.len(),
            cmd@ == full,
            start <= i <= n,
            split_spaces(full) == tokens@.map_values(|t: String| t@) + split_from(
                full.skip(i as int),
                full.subrange(start as int, i as int),
            ),
        decreases n - i,
    {
        let ghost cur = full.subrange(start as int, i as int);
        let ghost rest = full.skip(i as int);
        proof {
            assert(rest.drop_first() =~= full.skip(i + 1));
        }
        if cmd.get_char(i) == ' ' {
            let tok = cmd.substring_char(start, i).to_owned();
            let ghost pre = tokens@;
            tokens.push(tok);
            proof {
                assert(split_from(rest, cur) == seq![cur] + split_from(
                    full.skip(i + 1),
                    Seq::empty(),
                ));
                assert(tokens@.map_values(|t: String| t@) =~= pre.map_values(|t: String| t@).push(
                    cur,
                ));
                assert(pre.map_values(|t: String| t@) + (seq![cur] + split_from(
                    full.skip(i + 1),
                    Seq::empty(),
                )) =~= tokens@.map_values(|t: String| t@) + split_from(
                    full.skip(i + 1),
                    Seq::empty(),
                ));
                assert(full.subrange(i + 1, i + 1) =~= Seq::<char>::empty());
            }
            start = i + 1;
        } else {
            proof {
                assert(cur.push(full[i as int]) =~= full.subrange(start as int, i + 1));
                assert(split_from(rest, cur) == split_from(
                    full.skip(i + 1),
                    full.subrange(start as int, i + 1),
                ));
            }
        }
        i = i + 1;
    }
    let last = cmd.substring_char(start, n).to_owned();
    let ghost pre = tokens@;
    tokens.push(last);
    proof {
        assert(full.skip(n as int) =~= Seq::<char>::empty());
        assert(split_from(full.skip(n as int), full.subrange(start as int, n as int)) == seq![
            full.subrange(start as int, n as int),
        ]);
        assert(tokens@.map_values(|t: String| t@) =~= pre.map_values(|t: String| t@) + seq![
            last@,
        ]);
        assert(split_spaces(full) == tokens@.map_values(|t: String| t@));
    }
    let program = tokens.remove(0);
    proof {
        assert(tokens@.map_values(|t: String| t@) =~= split_spaces(full).drop_first());
    }
    CommandSpec { program, args: tokens }
}

} // verus!
