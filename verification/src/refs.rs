//! One line of the list that a remote gives of its refs.

use vstd::prelude::*;
use vstd::string::*;
use crate::command::{join_spaces, lemma_split_spaces, split_spaces, strings_view};

verus! {

/// A ref of the remote: the id of the object it points to, and its name.
#[derive(Debug)]
pub struct Ref {
    pub object: String,
    pub name: String,
}

/// A ref, with its strings as sequences of characters.
pub struct RefView {
    pub object: Seq<char>,
    pub name: Seq<char>,
}

impl View for Ref {
    type V = RefView;

    open spec fn view(&self) -> RefView {
        RefView { object: self.object@, name: self.name@ }
    }
}

/// `i` is the place of the first space in `s`.
pub open spec fn first_space_at(s: Seq<char>, i: int) -> bool {
    0 <= i < s.len() && s[i] == ' ' && forall|j: int| 0 <= j < i ==> s[j] != ' '
}

/// The ref that a line of the list stands for: the id before the first
/// space, the name after it. A line without a space stands for none.
pub open spec fn ref_of_line(line: Seq<char>) -> Option<RefView> {
    if exists|i: int| first_space_at(line, i) {
        let i = choose|i: int| first_space_at(line, i);
        Some(RefView { object: line.subrange(0, i), name: line.subrange(i + 1, line.len() as int) })
    } else {
        None
    }
}

/// The line of the list that stands for a ref: id, one space, name.
pub open spec fn line_of_ref(r: RefView) -> Seq<char> {
    r.object + seq![' '] + r.name
}

/// An optional ref, as a value of the model.
pub open spec fn option_ref_view(o: Option<Ref>) -> Option<RefView> {
    match o {
        Some(r) => Some(r@),
        None => None,
    }
}

/// A line has one first space at most.
pub proof fn lemma_first_space_unique(s: Seq<char>, i: int, k: int)
    requires
        first_space_at(s, i),
        first_space_at(s, k),
    ensures
        i == k,
{
    if i < k {
        assert(s[i] != ' ');
    } else if k < i {
        assert(s[k] != ' ');
    }
}

impl Ref {
    /// Makes a ref of the pieces of a line that was cut at every space: the
    /// first piece is the id, and the pieces that follow it, with the spaces
    /// between them put back, are the name.
    pub fn from(item: Vec<String>) -> (r: Ref)
        requires
            item@.len() >= 2,
        ensures
            r@ == (RefView {
                object: item@[0]@,
                name: join_spaces(strings_view(item@).skip(1)),
            }),
    {
        let ghost pieces = strings_view(item@);
        let mut name = item[1].clone();
        let mut i: usize = 2;
        assert(pieces.subrange(1, 2) =~= seq![item@[1]@]);
        while i < item.len()
            invariant
                2 <= i <= item@.len(),
                pieces == strings_view(item@),
                name@ == join_spaces(pieces.subrange(1, i as int)),
            decreases item@.len() - i,
        {
            proof {
                reveal_strlit(" ");
                assert(" "@ =~= seq![' ']);
                assert(pieces.subrange(1, i + 1).drop_last() =~= pieces.subrange(1, i as int));
                assert(pieces.subrange(1, i + 1).last() == item@[i as int]@);
            }
            name.append(" ");
            name.append(item[i].as_str());
            i = i + 1;
        }
        assert(pieces.subrange(1, i as int) =~= pieces.skip(1));
        Ref { object: item[0].clone(), name }
    }

    /// Reads a ref from one line of the list, cut at its first space.
    pub fn parse(line: &str) -> (r: Option<Ref>)
        ensures
            option_ref_view(r) == ref_of_line(line@),
    {
        let n: usize = line.unicode_len();
        let mut i: usize = 0;
        for c in it: line.chars()
            invariant
                n == line@.len(),
                it.seq() == line@,
                i == it.index(),
                forall|j: int| 0 <= j < i ==> line@[j] != ' ',
        {
            if c == ' ' {
                let object = line.substring_char(0, i).to_owned();
                let name = line.substring_char(i + 1, n).to_owned();
                proof {
                    assert(first_space_at(line@, i as int));
                    let k = choose|k: int| first_space_at(line@, k);
                    lemma_first_space_unique(line@, i as int, k);
                }
                return Some(Ref { object, name });
            }
            i = i + 1;
        }
        proof {
            if exists|k: int| first_space_at(line@, k) {
                let k = choose|k: int| first_space_at(line@, k);
                assert(line@[k] == ' ');
            }
        }
        None
    }

    /// Writes the ref as a line of the list: id, one space, name.
    pub fn to_string(&self) -> (line: String)
        ensures
            line@ == line_of_ref(self@),
    {
        let mut line = self.object.clone();
        line.append(" ");
        line.append(self.name.as_str());
        proof {
            reveal_strlit(" ");
            assert(" "@ =~= seq![' ']);
        }
        line
    }
}

/// A ref whose id holds no space is read back from the line written for
/// it.
pub proof fn lemma_ref_round_trip(r: RefView)
    requires
        forall|j: int| 0 <= j < r.object.len() ==> r.object[j] != ' ',
    ensures
        ref_of_line(line_of_ref(r)) == Some(r),
{
    let line = line_of_ref(r);
    let i = r.object.len() as int;
    assert(first_space_at(line, i));
    let k = choose|k: int| first_space_at(line, k);
    lemma_first_space_unique(line, i, k);
    assert(line.subrange(0, i) =~= r.object);
    assert(line.subrange(i + 1, line.len() as int) =~= r.name);
}

/// The first space of a line decides the ref that it stands for.
pub proof fn lemma_ref_of_line_at(line: Seq<char>, i: int)
    requires
        first_space_at(line, i),
    ensures
        ref_of_line(line) == Some(
            RefView { object: line.subrange(0, i), name: line.subrange(i + 1, line.len() as int) },
        ),
{
    let k = choose|k: int| first_space_at(line, k);
    lemma_first_space_unique(line, i, k);
}

/// A line that is one piece holds no space, and is that piece.
pub proof fn lemma_single_piece(line: Seq<char>)
    requires
        split_spaces(line).len() == 1,
    ensures
        split_spaces(line)[0] == line,
        forall|j: int| 0 <= j < line.len() ==> line[j] != ' ',
    decreases line.len(),
{
    if line.len() == 0 {
        assert(split_spaces(line)[0] =~= line);
    } else {
        lemma_split_spaces(line.drop_last());
        lemma_single_piece(line.drop_last());
        assert(split_spaces(line)[0] =~= line);
        assert forall|j: int| 0 <= j < line.len() implies line[j] != ' ' by {
            if j < line.len() - 1 {
                assert(line.drop_last()[j] == line[j]);
            }
        }
    }
}

/// Cutting a line at every space and making a ref of the pieces gives the
/// ref that the line stands for: the id is the first piece, the name is
/// all that follows the first space.
pub proof fn lemma_pieces_give_the_ref(line: Seq<char>)
    requires
        split_spaces(line).len() >= 2,
    ensures
        ref_of_line(line) == Some(
            RefView {
                object: split_spaces(line)[0],
                name: join_spaces(split_spaces(line).skip(1)),
            },
        ),
    decreases line.len(),
{
    let n = line.len() as int;
    let front = line.drop_last();
    let before = split_spaces(front);
    let now = split_spaces(line);
    lemma_split_spaces(front);
    if before.len() == 1 {
        lemma_single_piece(front);
        assert(line.last() == ' ');
        assert(first_space_at(line, n - 1)) by {
            assert forall|j: int| 0 <= j < n - 1 implies line[j] != ' ' by {
                assert(front[j] == line[j]);
            }
        }
        lemma_ref_of_line_at(line, n - 1);
        assert(line.subrange(0, n - 1) =~= now[0]);
        assert(now.skip(1) =~= seq![Seq::<char>::empty()]);
        assert(line.subrange(n, n) =~= join_spaces(now.skip(1)));
    } else {
        lemma_pieces_give_the_ref(front);
        let i = choose|i: int| first_space_at(front, i);
        lemma_ref_of_line_at(front, i);
        assert(first_space_at(line, i)) by {
            assert(line[i] == front[i]);
            assert forall|j: int| 0 <= j < i implies line[j] != ' ' by {
                assert(front[j] == line[j]);
            }
        }
        lemma_ref_of_line_at(line, i);
        let old_name = front.subrange(i + 1, n - 1);
        assert(old_name == join_spaces(before.skip(1)));
        assert(line.subrange(0, i) =~= front.subrange(0, i));
        assert(line.subrange(i + 1, n) =~= old_name.push(line.last()));
        let rest = now.skip(1);
        if line.last() == ' ' {
            assert(rest =~= before.skip(1).push(Seq::<char>::empty()));
            assert(rest.drop_last() =~= before.skip(1));
            assert(join_spaces(rest) =~= old_name.push(' '));
        } else {
            let tail = before.skip(1);
            assert(rest =~= tail.update(tail.len() - 1, tail.last().push(line.last())));
            if tail.len() == 1 {
                assert(join_spaces(rest) =~= old_name.push(line.last()));
            } else {
                let head = join_spaces(tail.drop_last()) + seq![' '];
                assert(rest.drop_last() =~= tail.drop_last());
                assert(join_spaces(tail) == head + tail.last());
                assert(join_spaces(rest) == head + tail.last().push(line.last()));
                assert(head + tail.last().push(line.last()) =~= (head + tail.last()).push(
                    line.last(),
                ));
            }
        }
    }
}

} // verus!
