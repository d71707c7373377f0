//! The printer enumerator: the query command, and the reading of its output.

use crate::command::{Command, CommandView, ProcessOutcome, ProcessOutcomeView};
use crate::error::{LabelError, LabelErrorView};
use crate::text::{chars_of, push_text};
use vstd::prelude::*;
use vstd::string::*;

verus! {

/// White space as Unicode defines it: the characters that trimming removes.
pub open spec fn is_whitespace(c: char) -> bool {
    let u = c as u32;
    ||| 0x09 <= u <= 0x0D
    ||| u == 0x20
    ||| u == 0x85
    ||| u == 0xA0
    ||| u == 0x1680
    ||| 0x2000 <= u <= 0x200A
    ||| u == 0x2028
    ||| u == 0x2029
    ||| u == 0x202F
    ||| u == 0x205F
    ||| u == 0x3000
}

/// A text without its leading and trailing white space.
pub open spec fn spec_trim(text: Seq<char>) -> Seq<char>
    decreases text.len(),
{
    if text.len() > 0 && is_whitespace(text[0]) {
        spec_trim(text.drop_first())
    } else if text.len() > 0 && is_whitespace(text.last()) {
        spec_trim(text.drop_last())
    } else {
        text
    }
}

/// The length of the first line of a text: the number of characters before
/// its first line feed, or all of them if it has none.
pub open spec fn line_end(text: Seq<char>) -> nat
    decreases text.len(),
{
    if text.len() == 0 || text[0] == '\n' {
        0
    } else {
        1 + line_end(text.drop_first())
    }
}

/// The printer names in the output of the query: one per line, trimmed, in
/// the order of the output, blank lines left out.
pub open spec fn spec_printer_names(output: Seq<char>) -> Seq<Seq<char>>
    decreases output.len(),
{
    if output.len() == 0 {
        Seq::<Seq<char>>::empty()
    } else {
        let end = line_end(output);
        let name = spec_trim(output.take(end as int));
        let rest = if end < output.len() {
            output.skip(end as int + 1)
        } else {
            Seq::<char>::empty()
        };
        if name.len() > 0 {
            seq![name] + spec_printer_names(rest)
        } else {
            spec_printer_names(rest)
        }
    }
}

/// The command that lists the available printers, networked ones included.
pub open spec fn spec_query_command() -> CommandView {
    CommandView { program: "lpstat"@, args: seq!["-e"@] }
}

/// What the enumerator returns for an outcome of the query: the names on
/// success, which may be none; an error when the query could not be
/// launched or ended with a non-zero status.
pub open spec fn spec_printers(outcome: ProcessOutcomeView) -> Result<
    Seq<Seq<char>>,
    LabelErrorView,
> {
    match outcome {
        ProcessOutcomeView::NotStarted { reason } => Err(
            LabelErrorView::QueryUnavailable { detail: reason },
        ),
        ProcessOutcomeView::Exited { success, stdout, stderr } => if success {
            Ok(spec_printer_names(stdout))
        } else {
            Err(LabelErrorView::QueryRejected)
        },
    }
}

/// The mathematical content of what the enumerator returns.
pub open spec fn printers_view(printers: Result<Vec<String>, LabelError>) -> Result<
    Seq<Seq<char>>,
    LabelErrorView,
> {
    match printers {
        Ok(names) => Ok(names.deep_view()),
        Err(error) => Err(error@),
    }
}

/// The first line feed of a text ends its first line.
pub proof fn lemma_line_end(text: Seq<char>, k: int)
    requires
        0 <= k <= text.len(),
        forall|j: int| 0 <= j < k ==> text[j] != '\n',
        k < text.len() ==> text[k] == '\n',
    ensures
        line_end(text) == k,
    decreases text.len(),
{
    if k > 0 {
        let rest = text.drop_first();
        assert forall|j: int| 0 <= j < k - 1 implies rest[j] != '\n' by {
            assert(rest[j] == text[j + 1]);
        }
        lemma_line_end(rest, k - 1);
    }
}

/// Whether a character is white space.
pub fn is_space(c: char) -> (space: bool)
    ensures
        space == is_whitespace(c),
{
    let u: u32 = c as u32;
    (0x09 <= u && u <= 0x0D) || u == 0x20 || u == 0x85 || u == 0xA0 || u == 0x1680 || (0x2000 <= u
        && u <= 0x200A) || u == 0x2028 || u == 0x2029 || u == 0x202F || u == 0x205F || u == 0x3000
}

/// Finds the trimmed part of `chars[from..to]`: the bounds of what is left
/// of it without leading and trailing white space.
pub(crate) fn trim_range(chars: &Vec<char>, from: usize, to: usize) -> (bounds: (usize, usize))
    requires
        from <= to <= chars.len(),
    ensures
        from <= bounds.0 <= bounds.1 <= to,
        chars@.subrange(bounds.0 as int, bounds.1 as int) == spec_trim(
            chars@.subrange(from as int, to as int),
        ),
{
    let mut a: usize = from;
    while a < to && is_space(chars[a])
        invariant
            from <= a <= to <= chars.len(),
            spec_trim(chars@.subrange(a as int, to as int)) == spec_trim(
                chars@.subrange(from as int, to as int),
            ),
        decreases to - a,
    {
        assert(chars@.subrange(a as int, to as int).drop_first() =~= chars@.subrange(
            a + 1,
            to as int,
        ));
        a = a + 1;
    }
    let mut b: usize = to;
    while a < b && is_space(chars[b - 1])
        invariant
            from <= a <= b <= to <= chars.len(),
            a < to ==> !is_whitespace(chars@[a as int]),
            spec_trim(chars@.subrange(a as int, b as int)) == spec_trim(
                chars@.subrange(from as int, to as int),
            ),
        decreases b - a,
    {
        assert(chars@.subrange(a as int, b as int).drop_last() =~= chars@.subrange(
            a as int,
            b - 1,
        ));
        b = b - 1;
    }
    (a, b)
}

/// Reads the printer names from the output of the query.
pub fn parse_printer_names(output: &str) -> (names: Vec<String>)
    ensures
        names.deep_view() == spec_printer_names(output@),
{
    let chars: Vec<char> = chars_of(output);
    let n: usize = chars.len();
    let mut names: Vec<String> = Vec::new();
    let mut start: usize = 0;
    assert(names.deep_view() =~= Seq::<Seq<char>>::empty());
    assert(output@.skip(0) =~= output@);
    while start < n
        invariant
            start <= n,
            n == chars.len(),
            chars@ == output@,
            spec_printer_names(output@) == names.deep_view() + spec_printer_names(
                output@.skip(start as int),
            ),
        decreases n - start,
    {
        let mut end: usize = start;
        while end < n && chars[end] != '\n'
            invariant
                start <= end <= n,
                n == chars.len(),
                forall|j: int| start <= j < end ==> chars@[j] != '\n',
            decreases n - end,
        {
            end = end + 1;
        }
        let ghost tail = output@.skip(start as int);
        let ghost before = names.deep_view();
        proof {
            lemma_line_end(tail, end - start);
            assert(tail.take(end - start) =~= chars@.subrange(start as int, end as int));
        }
        let (a, b) = trim_range(&chars, start, end);
        if a < b {
            push_text(&mut names, output.substring_char(a, b));
        }
        let next: usize = if end < n {
            end + 1
        } else {
            end
        };
        proof {
            let rest = if end - start < tail.len() {
                tail.skip(end - start + 1)
            } else {
                Seq::<char>::empty()
            };
            assert(rest =~= output@.skip(next as int));
            let name = spec_trim(tail.take(end - start));
            assert(name == chars@.subrange(a as int, b as int));
            if a < b {
                assert(spec_printer_names(tail) == seq![name] + spec_printer_names(rest));
                assert(before + (seq![name] + spec_printer_names(rest)) =~= before.push(name)
                    + spec_printer_names(rest));
            } else {
                assert(spec_printer_names(tail) == spec_printer_names(rest));
            }
        }
        start = next;
    }
    assert(names.deep_view() + Seq::<Seq<char>>::empty() =~= names.deep_view());
    names
}

/// Builds the command that lists the available printers.
pub fn query_command() -> (command: Command)
    ensures
        command@ == spec_query_command(),
{
    let mut args: Vec<String> = Vec::new();
    assert(args.deep_view() =~= Seq::<Seq<char>>::empty());
    push_text(&mut args, "-e");
    Command { program: String::from_str("lpstat"), args }
}

/// Reads the outcome of the query. No configured printer is an empty list,
/// not an error.
pub fn printers_from_outcome(outcome: &ProcessOutcome) -> (printers: Result<
    Vec<String>,
    LabelError,
>)
    ensures
        printers_view(printers) == spec_printers(outcome@),
{
    match outcome {
        ProcessOutcome::NotStarted { reason } => Err(
            LabelError::QueryUnavailable { detail: reason.clone() },
        ),
        ProcessOutcome::Exited { success, stdout, stderr: _ } => {
            if *success {
                Ok(parse_printer_names(stdout.as_str()))
            } else {
                Err(LabelError::QueryRejected)
            }
        },
    }
}

/// What trimming leaves neither begins nor ends with white space.
pub proof fn lemma_trim_is_trimmed(text: Seq<char>)
    ensures
        spec_trim(text).len() > 0 ==> !is_whitespace(spec_trim(text)[0]) && !is_whitespace(
            spec_trim(text).last(),
        ),
    decreases text.len(),
{
    if text.len() > 0 && is_whitespace(text[0]) {
        lemma_trim_is_trimmed(text.drop_first());
    } else if text.len() > 0 && is_whitespace(text.last()) {
        lemma_trim_is_trimmed(text.drop_last());
    }
}

/// Every name that the enumerator returns is a trimmed, non-blank line:
/// it is not empty, and it neither begins nor ends with white space.
pub proof fn law_names_are_trimmed(output: Seq<char>)
    ensures
        forall|i: int|
            0 <= i < spec_printer_names(output).len() ==> {
                let name = #[trigger] spec_printer_names(output)[i];
                name.len() > 0 && !is_whitespace(name[0]) && !is_whitespace(name.last())
            },
    decreases output.len(),
{
    if output.len() > 0 {
        let end = line_end(output);
        let name = spec_trim(output.take(end as int));
        let rest = if end < output.len() {
            output.skip(end as int + 1)
        } else {
            Seq::<char>::empty()
        };
        lemma_trim_is_trimmed(output.take(end as int));
        law_names_are_trimmed(rest);
        assert forall|i: int| 0 <= i < spec_printer_names(output).len() implies {
            let found = #[trigger] spec_printer_names(output)[i];
            found.len() > 0 && !is_whitespace(found[0]) && !is_whitespace(found.last())
        } by {
            if name.len() > 0 {
                if i > 0 {
                    assert(spec_printer_names(output)[i] == spec_printer_names(rest)[i - 1]);
                }
            }
        }
    }
}

} // verus!
