use vstd::prelude::*;

use crate::error::ValidateError;
use crate::registry::texts;

verus! {

/// One changed path of the working tree: its two-character status code and
/// the path.
#[derive(Debug, Clone)]
pub struct StatusEntry {
    pub code: String,
    pub path: String,
}

/// The text split at every newline; the last piece is what follows the last
/// newline (empty where the text ends with one).
pub open spec fn pieces(s: Seq<char>) -> Seq<Seq<char>>
    decreases s.len(),
{
    if s.len() == 0 {
        seq![Seq::empty()]
    } else {
        let r = pieces(s.drop_last());
        if s.last() == '\n' {
            r.push(Seq::empty())
        } else {
            r.update(r.len() - 1, r.last().push(s.last()))
        }
    }
}

proof fn lemma_pieces_not_empty(s: Seq<char>)
    ensures
        pieces(s).len() >= 1,
    decreases s.len(),
{
    if s.len() > 0 {
        lemma_pieces_not_empty(s.drop_last());
    }
}

/// The lines of the text: its pieces, without an empty last one.
pub open spec fn lines_of(s: Seq<char>) -> Seq<Seq<char>> {
    let p = pieces(s);
    if p.last().len() == 0 {
        p.drop_last()
    } else {
        p
    }
}

/// Splits a text into its lines.
pub fn split_lines(s: &str) -> (r: Vec<String>)
    ensures
        texts(r@) == lines_of(s@),
{
    let n = s.unicode_len();
    let mut done: Vec<String> = Vec::new();
    let mut start: usize = 0;
    let mut i: usize = 0;
    while i < n
        invariant
            n == s@.len(),
            start <= i <= n,
            pieces(s@.take(i as int)).len() >= 1,
            texts(done@) == pieces(s@.take(i as int)).drop_last(),
            pieces(s@.take(i as int)).last() == s@.subrange(start as int, i as int),
        decreases n - i,
    {
        let c = s.get_char(i);
        proof {
            assert(s@.take(i + 1).drop_last() =~= s@.take(i as int));
            lemma_pieces_not_empty(s@.take(i + 1));
        }
        let ghost before = done@;
        proof {
            assert(s@.take(i + 1).last() == c);
        }
        if c == '\n' {
            let line = s.substring_char(start, i).to_owned();
            done.push(line);
            start = i + 1;
            proof {
                let p0 = pieces(s@.take(i as int));
                assert(pieces(s@.take(i + 1)) == p0.push(Seq::empty()));
                assert(texts(done@) =~= texts(before).push(line@));
                assert(p0 =~= p0.drop_last().push(p0.last()));
                assert(texts(done@) =~= pieces(s@.take(i + 1)).drop_last());
                assert(pieces(s@.take(i + 1)).last() =~= s@.subrange(start as int, i + 1));
            }
        } else {
            proof {
                assert(texts(done@) =~= pieces(s@.take(i + 1)).drop_last());
                assert(pieces(s@.take(i + 1)).last() =~= s@.subrange(start as int, i + 1));
            }
        }
        i = i + 1;
    }
    assert(s@.take(n as int) =~= s@);
    if start < n {
        let ghost before = done@;
        let line = s.substring_char(start, n).to_owned();
        done.push(line);
        proof {
            let p = pieces(s@);
            assert(p.len() >= 1);
            assert(texts(before) == p.drop_last());
            assert(p.last() == line@);
            assert(done@ == before.push(line));
            assert(texts(done@) =~= texts(before).push(line@));
            assert(p =~= p.drop_last().push(p.last()));
        }
    }
    done
}

/// Whether a line has the shape `XY path`: two code characters, a space and
/// a path that is not empty.
pub open spec fn well_formed_line(line: Seq<char>) -> bool {
    line.len() >= 4 && line[2] == ' '
}

/// Reads one status line.
pub fn parse_status_line(line: &str) -> (r: Option<StatusEntry>)
    ensures
        well_formed_line(line@) <==> r is Some,
        r matches Some(e) ==> e.code@ == line@.subrange(0, 2) && e.path@ == line@.subrange(
            3,
            line@.len() as int,
        ),
{
    let n = line.unicode_len();
    if n < 4 || line.get_char(2) != ' ' {
        return None;
    }
    let code = line.substring_char(0, 2).to_owned();
    let path = line.substring_char(3, n).to_owned();
    Some(StatusEntry { code, path })
}

pub open spec fn entry_of(line: Seq<char>) -> (Seq<char>, Seq<char>) {
    (line.subrange(0, 2), line.subrange(3, line.len() as int))
}

pub open spec fn entries_view(v: Seq<StatusEntry>) -> Seq<(Seq<char>, Seq<char>)> {
    v.map_values(|e: StatusEntry| (e.code@, e.path@))
}

/// Reads the working tree's status output: one entry per line, an error
/// where some line is malformed. No entries means a clean tree.
pub fn parse_status(output: &str) -> (r: Result<Vec<StatusEntry>, ValidateError>)
    ensures
        (forall|j: int| 0 <= j < lines_of(output@).len() ==> well_formed_line(
            #[trigger] lines_of(output@)[j],
        )) ==> (r matches Ok(v) && entries_view(v@) == lines_of(output@).map_values(
            |l: Seq<char>| entry_of(l),
        )),
        !(forall|j: int| 0 <= j < lines_of(output@).len() ==> well_formed_line(
            #[trigger] lines_of(output@)[j],
        )) ==> r == Err::<Vec<StatusEntry>, ValidateError>(ValidateError::MalformedStatus),
{
    let lines = split_lines(output);
    let ghost ls = lines_of(output@);
    let mut r: Vec<StatusEntry> = Vec::new();
    let mut i: usize = 0;
    while i < lines.len()
        invariant
            i <= lines@.len(),
            texts(lines@) == ls,
            ls == lines_of(output@),
            forall|j: int| 0 <= j < i ==> well_formed_line(#[trigger] ls[j]),
            entries_view(r@) == ls.take(i as int).map_values(|l: Seq<char>| entry_of(l)),
        decreases lines@.len() - i,
    {
        assert(ls[i as int] == lines@[i as int]@);
        let ghost before = r@;
        match parse_status_line(lines[i].as_str()) {
            Some(e) => {
                assert((e.code@, e.path@) == entry_of(ls[i as int]));
                r.push(e);
                assert(entries_view(r@) =~= entries_view(before).push(entry_of(ls[i as int])));
                assert(ls.take(i + 1) =~= ls.take(i as int).push(ls[i as int]));
                assert(entries_view(r@) =~= ls.take(i + 1).map_values(
                    |l: Seq<char>| entry_of(l),
                ));
            },
            None => {
                assert(!well_formed_line(lines_of(output@)[i as int]));
                return Err(ValidateError::MalformedStatus);
            },
        }
        i = i + 1;
    }
    assert(ls.take(i as int) =~= ls);
    Ok(r)
}

} // verus!
