//! What the session bus launcher prints: one `NAME=value` per line.

use vstd::prelude::*;
use crate::error::ErrorKind;

verus! {

/// Where the line that begins at `from` ends: at the next line feed, or at
/// the end of `s`.
pub open spec fn line_end(s: Seq<u8>, from: int) -> int
    decreases s.len() - from,
{
    if from >= s.len() {
        s.len() as int
    } else if s[from] == 10 {
        from
    } else {
        line_end(s, from + 1)
    }
}

/// A line without the carriage return before its line feed.
pub open spec fn without_return(line: Seq<u8>) -> Seq<u8> {
    if line.len() > 0 && line.last() == 13 {
        line.drop_last()
    } else {
        line
    }
}

/// The lines of `s` from `from` on. A line ends with a line feed, or with a
/// carriage return and a line feed; the last line may do without. Nothing
/// follows the last line feed.
pub open spec fn lines_from(s: Seq<u8>, from: int) -> Seq<Seq<u8>>
    decreases s.len() - from,
{
    if from < 0 || from >= s.len() {
        Seq::empty()
    } else {
        let end = line_end(s, from);
        if from <= end < s.len() {
            seq![without_return(s.subrange(from, end))] + lines_from(s, end + 1)
        } else {
            seq![s.subrange(from, s.len() as int)]
        }
    }
}

/// Whether `line` holds an `=` at `at`, and none before.
pub open spec fn splits_at(line: Seq<u8>, at: int) -> bool {
    &&& 0 <= at < line.len()
    &&& line[at] == 61
    &&& forall|i: int| 0 <= i < at ==> line[i] != 61
}

/// Name and value of `line`: what stands before its first `=`, and what
/// stands behind it. A line without `=` assigns nothing.
pub open spec fn is_assignment(line: Seq<u8>, r: Option<(Seq<u8>, Seq<u8>)>) -> bool {
    match r {
        Some((name, value)) => exists|at: int|
            {
                &&& #[trigger] splits_at(line, at)
                &&& name == line.subrange(0, at)
                &&& value == line.subrange(at + 1, line.len() as int)
            },
        None => forall|i: int| 0 <= i < line.len() ==> line[i] != 61,
    }
}

/// The contents of a pair of byte vectors.
pub open spec fn pair_view(p: Option<(Vec<u8>, Vec<u8>)>) -> Option<(Seq<u8>, Seq<u8>)> {
    match p {
        Some((name, value)) => Some((name@, value@)),
        None => None,
    }
}

/// The contents of a vector of byte vectors.
pub open spec fn rows(v: Seq<Vec<u8>>) -> Seq<Seq<u8>> {
    Seq::new(v.len(), |i: int| v[i]@)
}

fn copy_range(s: &Vec<u8>, from: usize, to: usize) -> (r: Vec<u8>)
    requires
        from <= to <= s.len(),
    ensures
        r@ == s@.subrange(from as int, to as int),
{
    let mut out: Vec<u8> = Vec::new();
    let mut i = from;
    while i < to
        invariant
            from <= i <= to <= s.len(),
            out@ == s@.subrange(from as int, i as int),
        decreases to - i,
    {
        out.push(s[i]);
        i = i + 1;
        assert(out@ =~= s@.subrange(from as int, i as int));
    }
    assert(out@ =~= s@.subrange(from as int, to as int));
    out
}

proof fn lemma_line_end_skips(s: Seq<u8>, from: int, i: int)
    requires
        0 <= from <= i <= s.len(),
        forall|j: int| from <= j < i ==> s[j] != 10,
    ensures
        line_end(s, from) == line_end(s, i),
    decreases i - from,
{
    if from < i {
        lemma_line_end_skips(s, from + 1, i);
    }
}

/// Splits what a program printed into its lines.
pub fn split_lines(output: &Vec<u8>) -> (lines: Vec<Vec<u8>>)
    ensures
        rows(lines@) == lines_from(output@, 0),
{
    let mut lines: Vec<Vec<u8>> = Vec::new();
    let mut start: usize = 0;
    let mut i: usize = 0;
    assert(rows(lines@) =~= Seq::empty());
    while i < output.len()
        invariant
            start <= i <= output.len(),
            forall|j: int| start <= j < i ==> output@[j] != 10,
            lines_from(output@, 0) == rows(lines@) + lines_from(output@, start as int),
        decreases output.len() - i,
    {
        if output[i] == 10 {
            proof {
                lemma_line_end_skips(output@, start as int, i as int);
            }
            let mut end = i;
            if end > start && output[end - 1] == 13 {
                end = end - 1;
            }
            let line = copy_range(output, start, end);
            assert(line@ =~= without_return(output@.subrange(start as int, i as int)));
            let ghost before = rows(lines@);
            lines.push(line);
            assert(rows(lines@) =~= before.push(line@));
            assert(lines_from(output@, 0) =~= rows(lines@) + lines_from(output@, i + 1));
            start = i + 1;
        }
        i = i + 1;
    }
    if start < output.len() {
        proof {
            lemma_line_end_skips(output@, start as int, output.len() as int);
        }
        let line = copy_range(output, start, output.len());
        let ghost before = rows(lines@);
        lines.push(line);
        assert(rows(lines@) =~= before.push(line@));
        assert(lines_from(output@, 0) =~= rows(lines@));
    } else {
        assert(lines_from(output@, 0) =~= rows(lines@));
    }
    lines
}

/// Splits a line at its first `=` into name and value.
pub fn split_assignment(line: &Vec<u8>) -> (r: Option<(Vec<u8>, Vec<u8>)>)
    ensures
        is_assignment(line@, pair_view(r)),
{
    let mut i: usize = 0;
    while i < line.len()
        invariant
            i <= line.len(),
            forall|j: int| 0 <= j < i ==> line@[j] != 61,
        decreases line.len() - i,
    {
        if line[i] == 61 {
            let name = copy_range(line, 0, i);
            let value = copy_range(line, i + 1, line.len());
            assert(splits_at(line@, i as int));
            return Some((name, value));
        }
        i = i + 1;
    }
    None
}

/// The variables that the launcher's output assigns, in order: `r` is a
/// `DBusError` where a line has no `=`, and else holds name and value of
/// each line.
pub open spec fn is_launch_environment(
    output: Seq<u8>,
    r: Result<Seq<(Seq<u8>, Seq<u8>)>, ErrorKind>,
) -> bool {
    let lines = lines_from(output, 0);
    match r {
        Ok(variables) => {
            &&& variables.len() == lines.len()
            &&& forall|i: int|
                0 <= i < lines.len() ==> is_assignment(lines[i], Some(#[trigger] variables[i]))
        },
        Err(e) => {
            &&& e == ErrorKind::DBusError
            &&& exists|i: int| 0 <= i < lines.len() && is_assignment(#[trigger] lines[i], None)
        },
    }
}

/// The contents of a vector of pairs of byte vectors.
pub open spec fn pairs(v: Seq<(Vec<u8>, Vec<u8>)>) -> Seq<(Seq<u8>, Seq<u8>)> {
    Seq::new(v.len(), |i: int| (v[i].0@, v[i].1@))
}

/// The contents of a result of `start_dbus`.
pub open spec fn environment_view(r: Result<Vec<(Vec<u8>, Vec<u8>)>, ErrorKind>) -> Result<
    Seq<(Seq<u8>, Seq<u8>)>,
    ErrorKind,
> {
    match r {
        Ok(v) => Ok(pairs(v@)),
        Err(e) => Err(e),
    }
}

/// Reads what the session bus launcher printed: the variables to set in the
/// environment, in order, or a `DBusError` where a line assigns nothing.
pub fn start_dbus(output: &Vec<u8>) -> (r: Result<Vec<(Vec<u8>, Vec<u8>)>, ErrorKind>)
    ensures
        is_launch_environment(output@, environment_view(r)),
{
    let lines = split_lines(output);
    let mut variables: Vec<(Vec<u8>, Vec<u8>)> = Vec::new();
    let mut i: usize = 0;
    while i < lines.len()
        invariant
            i <= lines.len(),
            rows(lines@) == lines_from(output@, 0),
            variables.len() == i,
            forall|k: int|
                0 <= k < i ==> is_assignment(rows(lines@)[k], Some(#[trigger] pairs(variables@)[k])),
        decreases lines.len() - i,
    {
        match split_assignment(&lines[i]) {
            Some(pair) => {
                let ghost before = pairs(variables@);
                assert(rows(lines@)[i as int] == lines@[i as int]@);
                variables.push(pair);
                assert(pairs(variables@) =~= before.push((pair.0@, pair.1@)));
            },
            None => {
                assert(rows(lines@)[i as int] == lines@[i as int]@);
                return Err(ErrorKind::DBusError);
            },
        }
        i = i + 1;
    }
    assert(rows(lines@).len() == lines.len());
    Ok(variables)
}

} // verus!
