use vstd::prelude::*;

verus! {

/// Select the line named by a 1-based line number from the lines of a file,
/// already read and split. Returns `None` when `line` is 0 (line numbers
/// start at 1) or greater than the number of lines; a missing line is never
/// an error.
pub fn line_at(lines: &Vec<String>, line: usize) -> (r: Option<String>)
    ensures
        r is Some <==> 1 <= line <= lines@.len(),
        r matches Some(t) ==> t@ == lines@[line - 1]@,
{
    if line == 0 || line > lines.len() {
        None
    } else {
        Some(lines[line - 1].clone())
    }
}

} // verus!
