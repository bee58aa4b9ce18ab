//! Reading one line of the remote-helper protocol.
//!
//! git sends one command per line. A line is cut at every single space; the
//! first piece names the command, and for `import` each further piece is the
//! name of one ref.

use vstd::prelude::*;
use vstd::string::*;

verus! {

/// The pieces of `s` between its spaces, in order.
///
/// There is always at least one piece. Two spaces in a row, or a space at
/// either end, give an empty piece.
pub open spec fn split_spaces(s: Seq<char>) -> Seq<Seq<char>>
    decreases s.len(),
{
    if s.len() == 0 {
        seq![Seq::<char>::empty()]
    } else {
        let before = split_spaces(s.drop_last());
        if s.last() == ' ' {
            before.push(Seq::<char>::empty())
        } else {
            before.update(before.len() - 1, before.last().push(s.last()))
        }
    }
}

/// The pieces of `pieces` with one space between each two of them.
pub open spec fn join_spaces(pieces: Seq<Seq<char>>) -> Seq<char>
    decreases pieces.len(),
{
    if pieces.len() == 0 {
        Seq::<char>::empty()
    } else if pieces.len() == 1 {
        pieces[0]
    } else {
        join_spaces(pieces.drop_last()) + seq![' '] + pieces.last()
    }
}

/// What a vector of strings holds, as sequences of characters.
pub open spec fn strings_view(v: Seq<String>) -> Seq<Seq<char>> {
    Seq::new(v.len(), |i: int| v[i]@)
}

/// Splitting never gives nothing, no piece holds a space, and the pieces
/// joined by single spaces are the line again.
pub proof fn lemma_split_spaces(s: Seq<char>)
    ensures
        split_spaces(s).len() >= 1,
        forall|k: int, j: int|
            0 <= k < split_spaces(s).len() && 0 <= j < split_spaces(s)[k].len()
                ==> split_spaces(s)[k][j] != ' ',
        join_spaces(split_spaces(s)) == s,
    decreases s.len(),
{
    if s.len() == 0 {
        assert(join_spaces(split_spaces(s)) =~= s);
    } else {
        let before = split_spaces(s.drop_last());
        lemma_split_spaces(s.drop_last());
        let now = split_spaces(s);
        if s.last() == ' ' {
            assert(now.drop_last() =~= before);
            assert(join_spaces(now) =~= s);
        } else {
            let grown = before.last().push(s.last());
            if before.len() == 1 {
                assert(join_spaces(now) =~= s);
            } else {
                let head = join_spaces(before.drop_last()) + seq![' '];
                assert(now.drop_last() =~= before.drop_last());
                assert(join_spaces(before) == head + before.last());
                assert(join_spaces(now) == head + grown);
                assert(head + grown =~= (head + before.last()).push(s.last()));
                assert(s =~= s.drop_last().push(s.last()));
            }
        }
    }
}

/// Cuts `line` at every single space.
pub fn tokenize(line: &str) -> (tokens: Vec<String>)
    ensures
        strings_view(tokens@) == split_spaces(line@),
        tokens@.len() >= 1,
{
    let n: usize = line.unicode_len();
    let mut tokens: Vec<String> = Vec::new();
    let mut start: usize = 0;
    let mut i: usize = 0;
    assert(line@.take(0) =~= Seq::<char>::empty());
    assert(strings_view(tokens@).push(line@.subrange(0, 0)) =~= split_spaces(line@.take(0)));
    for c in it: line.chars()
        invariant
            n == line@.len(),
            it.seq() == line@,
            i == it.index(),
            start <= i <= line@.len(),
            strings_view(tokens@).push(line@.subrange(start as int, i as int)) == split_spaces(
                line@.take(i as int),
            ),
    {
        let ghost before = split_spaces(line@.take(i as int));
        let ghost done = strings_view(tokens@);
        assert(c == line@[i as int]);
        assert(line@.take(i + 1).drop_last() =~= line@.take(i as int));
        assert(line@.take(i + 1).last() == line@[i as int]);
        if c == ' ' {
            let piece = line.substring_char(start, i).to_owned();
            tokens.push(piece);
            assert(strings_view(tokens@) =~= done.push(line@.subrange(start as int, i as int)));
            start = i + 1;
            assert(line@.subrange(start as int, i + 1) =~= Seq::<char>::empty());
        } else {
            assert(line@.subrange(start as int, i + 1) =~= line@.subrange(
                start as int,
                i as int,
            ).push(line@[i as int]));
            assert(done.push(line@.subrange(start as int, i + 1)) =~= before.update(
                before.len() - 1,
                before.last().push(line@[i as int]),
            ));
        }
        i = i + 1;
    }
    let ghost done = strings_view(tokens@);
    let piece = line.substring_char(start, i).to_owned();
    tokens.push(piece);
    assert(line@.take(i as int) =~= line@);
    assert(strings_view(tokens@) =~= done.push(line@.subrange(start as int, i as int)));
    tokens
}

/// One command of the remote-helper protocol.
#[derive(Debug)]
pub enum Command {
    /// `capabilities`: git asks what the helper can do.
    Capabilities,
    /// `list`: git asks for the refs of the remote.
    List,
    /// `import`: git asks for the history of the refs named on the line, in
    /// the order given.
    Import(Vec<String>),
    /// The empty line that ends the stream of commands.
    Terminate,
    /// Any other first word; the word is kept.
    Unrecognized(String),
}

/// A command, with its strings as sequences of characters.
pub enum CommandView {
    Capabilities,
    List,
    Import(Seq<Seq<char>>),
    Terminate,
    Unrecognized(Seq<char>),
}

impl View for Command {
    type V = CommandView;

    open spec fn view(&self) -> CommandView {
        match self {
            Command::Capabilities => CommandView::Capabilities,
            Command::List => CommandView::List,
            Command::Import(refs) => CommandView::Import(strings_view(refs@)),
            Command::Terminate => CommandView::Terminate,
            Command::Unrecognized(word) => CommandView::Unrecognized(word@),
        }
    }
}

/// The command that a line stands for.
///
/// Only the first word decides. What follows `capabilities` or `list` is
/// not read. Every piece after `import` is a ref, an empty piece too. A line
/// whose first piece is empty, the empty line above all, ends the stream.
pub open spec fn command_of(line: Seq<char>) -> CommandView {
    let pieces = split_spaces(line);
    let word = pieces[0];
    if word == "capabilities"@ {
        CommandView::Capabilities
    } else if word == "list"@ {
        CommandView::List
    } else if word == "import"@ {
        CommandView::Import(pieces.skip(1))
    } else if word.len() == 0 {
        CommandView::Terminate
    } else {
        CommandView::Unrecognized(word)
    }
}

fn is_word(token: &String, word: &str) -> (same: bool)
    ensures
        same == (token@ == word@),
{
    let owned = word.to_owned();
    token.eq(&owned)
}

/// Reads one line as a command.
pub fn parse_command(line: &str) -> (command: Command)
    ensures
        command@ == command_of(line@),
{
    let mut tokens = tokenize(line);
    if is_word(&tokens[0], "capabilities") {
        Command::Capabilities
    } else if is_word(&tokens[0], "list") {
        Command::List
    } else if is_word(&tokens[0], "import") {
        let ghost all = tokens@;
        let refs = tokens.split_off(1);
        assert(strings_view(refs@) =~= strings_view(all).skip(1));
        Command::Import(refs)
    } else if tokens[0].as_str().is_empty() {
        Command::Terminate
    } else {
        Command::Unrecognized(tokens[0].clone())
    }
}

/// The empty line ends the stream of commands.
pub proof fn lemma_empty_line_terminates()
    ensures
        command_of(Seq::<char>::empty()) == CommandView::Terminate,
{
    reveal_strlit("capabilities");
    reveal_strlit("list");
    reveal_strlit("import");
    assert(split_spaces(Seq::<char>::empty())[0].len() == 0);
}

} // verus!
