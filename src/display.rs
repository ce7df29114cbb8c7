use vstd::prelude::*;

use crate::codec::flag_char;
use crate::list::{models, TodoList};
use crate::task::{TaskModel, TodoItem};

verus! {

/// The decimal digit for `d < 10`.
pub open spec fn digit_char(d: nat) -> char {
    seq!['0', '1', '2', '3', '4', '5', '6', '7', '8', '9'][d as int]
}

/// The decimal writing of `n`, without leading zeros.
pub open spec fn decimal(n: nat) -> Seq<char>
    decreases n,
{
    if n < 10 {
        seq![digit_char(n)]
    } else {
        decimal(n / 10).push(digit_char(n % 10))
    }
}

/// The display line of task `t` at position `i`: `"<i>: [<flag>] - <name>"`.
pub open spec fn line(i: nat, t: TaskModel) -> Seq<char> {
    decimal(i) + seq![':', ' ', '['] + seq![flag_char(t.completed)] + seq![']', ' ', '-', ' ']
        + t.name
}

fn digit_str(d: usize) -> (r: &'static str)
    requires
        d < 10,
    ensures
        r@ == seq![digit_char(d as nat)],
{
    proof {
        reveal_strlit("0");
        reveal_strlit("1");
        reveal_strlit("2");
        reveal_strlit("3");
        reveal_strlit("4");
        reveal_strlit("5");
        reveal_strlit("6");
        reveal_strlit("7");
        reveal_strlit("8");
        reveal_strlit("9");
    }
    let r = match d {
        0 => "0",
        1 => "1",
        2 => "2",
        3 => "3",
        4 => "4",
        5 => "5",
        6 => "6",
        7 => "7",
        8 => "8",
        _ => "9",
    };
    assert(r@ =~= seq![digit_char(d as nat)]);
    r
}

/// Appends the decimal writing of `n` to `out`.
pub fn append_decimal(out: &mut String, n: usize)
    ensures
        final(out)@ == old(out)@ + decimal(n as nat),
    decreases n,
{
    if n >= 10 {
        append_decimal(out, n / 10);
    }
    out.append(digit_str(n % 10));
    assert(final(out)@ =~= old(out)@ + decimal(n as nat));
}

/// The line that shows `item` at position `index`.
pub fn display_line(index: usize, item: &TodoItem) -> (r: String)
    ensures
        r@ == line(index as nat, item@),
{
    proof {
        reveal_strlit(": [");
        reveal_strlit("X");
        reveal_strlit(" ");
        reveal_strlit("] - ");
    }
    let mut out = String::new();
    append_decimal(&mut out, index);
    out.append(": [");
    if item.completed {
        out.append("X");
    } else {
        out.append(" ");
    }
    out.append("] - ");
    out.append(item.name.as_str());
    assert(out@ =~= line(index as nat, item@));
    out
}

impl TodoList {
    /// One display line per task, in list order.
    pub fn display_lines(&self) -> (r: Vec<String>)
        ensures
            r@.len() == self@.len(),
            forall|i: int| 0 <= i < r@.len() ==> (#[trigger] r@[i])@ == line(i as nat, self@[i]),
    {
        let items = self.items();
        let mut out: Vec<String> = Vec::new();
        let mut i: usize = 0;
        while i < items.len()
            invariant
                models(items@) == self@,
                i <= items@.len(),
                out@.len() == i,
                forall|k: int| 0 <= k < i ==> (#[trigger] out@[k])@ == line(k as nat, self@[k]),
            decreases items@.len() - i,
        {
            let l = display_line(i, &items[i]);
            out.push(l);
            i = i + 1;
        }
        out
    }
}

} // verus!
