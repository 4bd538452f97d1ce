use crate::error::ClawError;
use crate::json::codec::{decode, decoded};
use crate::json::JsonValue;
use vstd::prelude::*;

verus! {

/// What the reader makes of one line of the backend's output: an empty line
/// gives nothing; any other line gives one item, the document that the line
/// holds or the error for a line that is no JSON. A line of white space is
/// not empty: it is no JSON, and gives the error.
pub open spec fn framed(line: Seq<char>, item: Option<Result<JsonValue, ClawError>>) -> bool {
    if line.len() == 0 {
        item is None
    } else {
        match decoded(line) {
            Some(document) => item matches Some(Ok(value)) && value@ == document,
            None => item matches Some(Err(ClawError::JsonDecode(_))),
        }
    }
}

/// The lines that give an item: those that are not empty, in their order.
pub open spec fn kept_lines(lines: Seq<Seq<char>>) -> Seq<Seq<char>> {
    lines.filter(|line: Seq<char>| line.len() > 0)
}

/// Reads one line of the backend's output.
pub fn read_line(line: &str) -> (item: Option<Result<JsonValue, ClawError>>)
    ensures
        framed(line@, item),
{
    if line.unicode_len() == 0 {
        return None;
    }
    match decode(line) {
        Ok(value) => Some(Ok(value)),
        Err(error) => Some(Err(ClawError::JsonDecode(error))),
    }
}

/// Reads the lines of the backend's output, first to last. Each line that is
/// not empty gives exactly one item, in the order of the lines; empty lines
/// give none.
pub fn read_lines(lines: &Vec<String>) -> (items: Vec<Result<JsonValue, ClawError>>)
    ensures
        items@.len() == kept_lines(lines.deep_view()).len(),
        forall|k: int|
            0 <= k < items@.len() ==> framed(
                #[trigger] kept_lines(lines.deep_view())[k],
                Some(items@[k]),
            ),
{
    let mut items: Vec<Result<JsonValue, ClawError>> = Vec::new();
    let mut i: usize = 0;
    proof {
        assert(lines.deep_view().take(0) =~= Seq::<Seq<char>>::empty());
    }
    while i < lines.len()
        invariant
            i <= lines@.len(),
            items@.len() == kept_lines(lines.deep_view().take(i as int)).len(),
            forall|k: int|
                0 <= k < items@.len() ==> framed(
                    #[trigger] kept_lines(lines.deep_view().take(i as int))[k],
                    Some(items@[k]),
                ),
        decreases lines@.len() - i,
    {
        proof {
            let before = lines.deep_view().take(i as int);
            let after = lines.deep_view().take(i + 1);
            assert(after.drop_last() =~= before);
            assert(after.last() == lines@[i as int]@);
            reveal(Seq::filter);
            assert(kept_lines(after) == if after.last().len() == 0 {
                kept_lines(before)
            } else {
                kept_lines(before).push(after.last())
            });
        }
        match read_line(lines[i].as_str()) {
            Some(item) => {
                items.push(item);
            },
            None => {},
        }
        i += 1;
    }
    proof {
        assert(lines.deep_view().take(lines@.len() as int) =~= lines.deep_view());
    }
    items
}

} // verus!
