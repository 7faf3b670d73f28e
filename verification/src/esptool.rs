//! What to make of a run of the flashing tool: its exit and its output.

use vstd::prelude::*;
use crate::text::{
    chars_of, contains, find, find_from, lemma_next_index_of, lemma_next_occurrence,
    next_index_of, next_occurrence, occurs_at, occurs_in, slice_of, text_of,
};

verus! {

/// The hardware address of a board, with the output it was read from.
#[derive(Clone, Debug, PartialEq, Eq)]
pub struct ReadMacAddressResult {
    pub mac: String,
    pub log: String,
}

/// The complaint about a tool that did not exit cleanly.
pub open spec fn exit_failure(tool: Seq<char>, output: Seq<char>) -> Seq<char> {
    "`"@ + tool + "` exited with non-zero exit code: "@ + output
}

/// The line of `text` that starts at `from`: it ends before the next
/// newline, and a carriage return before that newline is no part of it.
pub open spec fn line_at(text: Seq<char>, from: int) -> Seq<char> {
    let end = next_index_of(text, '\n', from);
    let raw = text.subrange(from, end);
    if end < text.len() && raw.len() > 0 && raw.last() == '\r' {
        raw.drop_last()
    } else {
        raw
    }
}

/// The first line of `text`, at or after `from`, that holds `mark`.
pub open spec fn tagged_line(text: Seq<char>, mark: Seq<char>, from: int) -> Option<Seq<char>>
    decreases text.len() - from,
{
    let end = next_index_of(text, '\n', from);
    if from < 0 || from >= text.len() {
        None
    } else if occurs_in(line_at(text, from), mark) {
        Some(line_at(text, from))
    } else if end >= text.len() {
        None
    } else {
        proof {
            lemma_next_index_of(text, '\n', from);
        }
        tagged_line(text, mark, end + 1)
    }
}

/// What follows the first `lead` in `line`, up to the next one if there
/// is one.
pub open spec fn tagged_value(line: Seq<char>, lead: Seq<char>) -> Option<Seq<char>> {
    match next_occurrence(line, lead, 0) {
        None => None,
        Some(at) => {
            let rest = line.skip(at + lead.len());
            match next_occurrence(rest, lead, 0) {
                None => Some(rest),
                Some(end) => Some(rest.take(end)),
            }
        },
    }
}

/// The value that the tool's output names: what follows `lead` on the
/// first line that holds `mark`.
pub open spec fn value_in(output: Seq<char>, mark: Seq<char>, lead: Seq<char>) -> Option<
    Seq<char>,
> {
    match tagged_line(output, mark, 0) {
        None => None,
        Some(line) => tagged_value(line, lead),
    }
}

/// The hardware address that the tool's output names.
pub open spec fn mac_in(output: Seq<char>) -> Option<Seq<char>> {
    value_in(output, "MAC:"@, "MAC: "@)
}

/// The chip identifier that the tool's output names.
pub open spec fn chip_id_in(output: Seq<char>) -> Option<Seq<char>> {
    value_in(output, "Chip ID:"@, "Chip ID: "@)
}

/// The outcome of reading the address as plain values: the address, or
/// the complaint.
pub open spec fn mac_outcome(succeeded: bool, output: Seq<char>) -> Result<Seq<char>, Seq<char>> {
    if !succeeded {
        Err(exit_failure("esptool"@, output))
    } else {
        match mac_in(output) {
            Some(mac) => Ok(mac),
            None => Err("No MAC address found"@),
        }
    }
}

/// The complaint about a tool that did not exit cleanly.
pub fn complaint(tool: &str, output: &str) -> (text: String)
    ensures
        text@ == exit_failure(tool@, output@),
{
    let mut text = String::from_str("`");
    text.append(tool);
    text.append("` exited with non-zero exit code: ");
    text.append(output);
    text
}

fn find_tagged_line(text: &Vec<char>, mark: &Vec<char>) -> (r: Option<Vec<char>>)
    ensures
        match r {
            Some(line) => tagged_line(text@, mark@, 0) == Some(line@),
            None => tagged_line(text@, mark@, 0) is None,
        },
{
    let mut from: usize = 0;
    while from < text.len()
        invariant
            tagged_line(text@, mark@, from as int) == tagged_line(text@, mark@, 0),
        decreases text.len() - from,
    {
        let end = find_from(text, '\n', from);
        let mut line = slice_of(text, from, end);
        if end < text.len() && line.len() > 0 && line[line.len() - 1] == '\r' {
            let ghost raw = line@;
            line.pop();
            assert(line@ =~= raw.drop_last());
        }
        assert(line@ == line_at(text@, from as int));
        if contains(&line, mark) {
            return Some(line);
        }
        if end == text.len() {
            return None;
        }
        from = end + 1;
    }
    None
}

fn find_tagged_value(line: &Vec<char>, lead: &Vec<char>) -> (r: Option<Vec<char>>)
    ensures
        match r {
            Some(value) => tagged_value(line@, lead@) == Some(value@),
            None => tagged_value(line@, lead@) is None,
        },
{
    proof {
        lemma_next_occurrence(line@, lead@, 0);
    }
    match find(line, lead) {
        None => None,
        Some(at) => {
            assert(occurs_at(line@, lead@, at as int));
            let len = line.len();
            assert(at + lead.len() <= len);
            let rest = slice_of(line, at + lead.len(), line.len());
            assert(rest@ =~= line@.skip(at + lead@.len()));
            proof {
                lemma_next_occurrence(rest@, lead@, 0);
            }
            match find(&rest, lead) {
                None => Some(rest),
                Some(end) => {
                    let value = slice_of(&rest, 0, end);
                    assert(value@ =~= rest@.take(end as int));
                    Some(value)
                },
            }
        },
    }
}

fn find_value(output: &str, mark: &str, lead: &str) -> (r: Option<String>)
    ensures
        match r {
            Some(value) => value_in(output@, mark@, lead@) == Some(value@),
            None => value_in(output@, mark@, lead@) is None,
        },
{
    let text = chars_of(output);
    match find_tagged_line(&text, &chars_of(mark)) {
        None => None,
        Some(line) => match find_tagged_value(&line, &chars_of(lead)) {
            Some(value) => Some(text_of(&value)),
            None => None,
        },
    }
}

/// Reads the chip identifier from the tool's output, if the output names
/// one.
pub fn read_chip_id(output: &str) -> (r: Option<String>)
    ensures
        match r {
            Some(id) => chip_id_in(output@) == Some(id@),
            None => chip_id_in(output@) is None,
        },
{
    find_value(output, "Chip ID:", "Chip ID: ")
}

/// Reads the board's hardware address from a finished run of the tool. A
/// run that did not exit cleanly is an error that quotes the output; so is
/// an output without an address.
pub fn read_mac_address(succeeded: bool, output: &str) -> (r: Result<ReadMacAddressResult, String>)
    ensures
        match r {
            Ok(found) => mac_outcome(succeeded, output@) == Ok::<Seq<char>, Seq<char>>(found.mac@)
                && found.log@ == output@,
            Err(e) => mac_outcome(succeeded, output@) == Err::<Seq<char>, Seq<char>>(e@),
        },
{
    if !succeeded {
        return Err(complaint("esptool", output));
    }
    match find_value(output, "MAC:", "MAC: ") {
        Some(mac) => Ok(ReadMacAddressResult { mac, log: String::from_str(output) }),
        None => Err(String::from_str("No MAC address found")),
    }
}

/// The outcome of writing the firmware: the tool's output if it exited
/// cleanly, else a complaint that quotes it.
pub fn write_flash(succeeded: bool, output: &str) -> (r: Result<String, String>)
    ensures
        match r {
            Ok(log) => succeeded && log@ == output@,
            Err(e) => !succeeded && e@ == exit_failure("esptool"@, output@),
        },
{
    if succeeded {
        Ok(String::from_str(output))
    } else {
        Err(complaint("esptool", output))
    }
}

} // verus!
