//! Numbered listings of the choices offered to the user.

use core::fmt::Debug;
use vstd::prelude::*;
use vstd::string::StringExecFns;

verus! {

/// Width to which the number in front of each entry is padded.
pub const INDEX_WIDTH: usize = 2;

/// The character that writes the digit `d`.
pub open spec fn digit_char(d: nat) -> char
    recommends
        d < 10,
{
    seq!['0', '1', '2', '3', '4', '5', '6', '7', '8', '9'][d as int]
}

/// The decimal digits of `n`, most significant first, without leading zeros.
pub open spec fn decimal(n: nat) -> Seq<char>
    decreases n,
{
    if n < 10 {
        seq![digit_char(n)]
    } else {
        decimal(n / 10).push(digit_char(n % 10))
    }
}

/// `text` with spaces in front until it is `width` characters long.
pub open spec fn padded(text: Seq<char>, width: nat) -> Seq<char> {
    if text.len() >= width {
        text
    } else {
        Seq::new((width - text.len()) as nat, |i: int| ' ') + text
    }
}

/// One line of a listing: the padded index, a space, the label.
pub open spec fn entry(index: nat, label: Seq<char>) -> Seq<char> {
    padded(decimal(index), INDEX_WIDTH as nat) + seq![' '] + label
}

/// The lines of a listing, one for each label, numbered from zero.
pub open spec fn entries(labels: Seq<Seq<char>>) -> Seq<Seq<char>> {
    Seq::new(labels.len(), |i: int| entry(i as nat, labels[i]))
}

/// `parts` written one after another with `sep` between neighbours.
pub open spec fn joined(parts: Seq<Seq<char>>, sep: Seq<char>) -> Seq<char>
    decreases parts.len(),
{
    if parts.len() == 0 {
        Seq::empty()
    } else if parts.len() == 1 {
        parts[0]
    } else {
        joined(parts.drop_last(), sep) + sep + parts.last()
    }
}

/// The listing of `labels`: their entries, one per line.
pub open spec fn listing(labels: Seq<Seq<char>>) -> Seq<char> {
    joined(entries(labels), seq!['\n'])
}

/// `format!` with `{:?}`: the text that the item's `Debug` impl writes.
/// That impl is the caller's, so nothing is claimed of the text; the call
/// panics only if the impl itself reports a failure.
#[verifier::external_body]
fn debug_text<T: Debug>(item: &T) -> (text: String) {
    format!("{:?}", item)
}

/// `itertools::Itertools::join` over the strings of `parts`: writes each one
/// in order, with `sep` between two neighbours and nothing at either end;
/// the empty string when there are no parts. The separator is kept to one
/// character at most, so that the room the call reserves for separators is
/// a number that fits.
#[verifier::external_body]
fn join(parts: &Vec<String>, sep: &str) -> (text: String)
    requires
        sep@.len() <= 1,
    ensures
        text@ == joined(parts.deep_view(), sep@),
{
    itertools::Itertools::join(&mut parts.iter(), sep)
}

fn digit_str(d: usize) -> (s: &'static str)
    requires
        d < 10,
    ensures
        s@ == seq![digit_char(d as nat)],
{
    proof {
        reveal_strlit("0");
        reveal_strlit("1");
        reveal_strlit("2");
        reveal_strlit("3");
        reveal_strlit("4");
        reveal_strlit("5");
        reveal_strlit("6");
        reveal_strlit("7");
        reveal_strlit("8");
        reveal_strlit("9");
    }
    let s = match d {
        0 => "0",
        1 => "1",
        2 => "2",
        3 => "3",
        4 => "4",
        5 => "5",
        6 => "6",
        7 => "7",
        8 => "8",
        _ => "9",
    };
    s
}

fn write_decimal(n: usize, out: &mut String)
    ensures
        final(out)@ == old(out)@ + decimal(n as nat),
    decreases n,
{
    if n >= 10 {
        write_decimal(n / 10, out);
    }
    out.append(digit_str(n % 10));
}

/// The number in front of an entry: `index` in decimal, padded with spaces
/// on the left to `INDEX_WIDTH` characters.
pub fn index_label(index: usize) -> (label: String)
    ensures
        label@ == padded(decimal(index as nat), INDEX_WIDTH as nat),
{
    let mut label = String::new();
    if index < 10 {
        proof {
            reveal_strlit(" ");
        }
        label.append(" ");
    }
    write_decimal(index, &mut label);
    proof {
        lemma_decimal_len(index as nat);
    }
    label
}

/// A number below ten is written with one digit, any other with at least two.
pub proof fn lemma_decimal_len(n: nat)
    ensures
        n < 10 ==> decimal(n).len() == 1,
        n >= 10 ==> decimal(n).len() >= 2,
    decreases n,
{
    if n >= 10 {
        lemma_decimal_len(n / 10);
    }
}

/// The listing of labels that are already text.
pub fn render_list(labels: &Vec<String>) -> (text: String)
    ensures
        text@ == listing(labels.deep_view()),
{
    let mut lines: Vec<String> = Vec::new();
    let n = labels.len();
    for i in 0..n
        invariant
            n == labels.len(),
            lines.len() == i,
            forall|k: int| 0 <= k < i ==> #[trigger] lines[k]@ == entry(k as nat, labels[k]@),
    {
        let mut line = index_label(i);
        proof {
            reveal_strlit(" ");
        }
        line.append(" ");
        line.append(labels[i].as_str());
        lines.push(line);
    }
    proof {
        reveal_strlit("\n");
        assert(lines.deep_view() =~= entries(labels.deep_view()));
        assert("\n"@ =~= seq!['\n']);
    }
    join(&lines, "\n")
}

/// A numbered listing of `list`, each item written as its `Debug` impl writes it.
pub fn print_list<T: Debug>(list: &Vec<T>) -> (text: String)
    ensures
        exists|labels: Seq<Seq<char>>|
            labels.len() == list.len() && text@ == #[trigger] listing(labels),
{
    let mut labels: Vec<String> = Vec::new();
    let n = list.len();
    for i in 0..n
        invariant
            n == list.len(),
            labels.len() == i,
    {
        labels.push(debug_text(&list[i]));
    }
    render_list(&labels)
}

} // verus!
