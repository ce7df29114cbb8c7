use vstd::prelude::*;

use crate::error::TodoError;
use crate::list::{added, cleaned, cleared, removed, toggled, TodoList};

verus! {

/// One command of the command line.
#[derive(Debug, PartialEq, Eq)]
pub enum Command {
    Get,
    Clear,
    Clean,
    Help,
    Add(String),
    Done(usize),
    Remove(usize),
}

/// What the invocation does after a command was applied.
#[derive(Clone, Copy, Debug, PartialEq, Eq, Structural)]
pub enum Outcome {
    /// Print the usage text; nothing is saved.
    ShowHelp,
    /// Print the list; nothing is saved.
    ShowList,
    /// Save the list; print nothing.
    Save,
    /// Save the list, then print it.
    SaveAndShow,
}

/// An ASCII decimal digit.
pub open spec fn is_digit(c: char) -> bool {
    '0' <= c && c <= '9'
}

/// The value of a decimal digit.
pub open spec fn digit_value(c: char) -> int {
    (c as u32) as int - ('0' as u32) as int
}

/// The number that a string of decimal digits writes.
pub open spec fn digits_value(s: Seq<char>) -> int
    decreases s.len(),
{
    if s.len() == 0 {
        0
    } else {
        digits_value(s.drop_last()) * 10 + digit_value(s.last())
    }
}

/// Every character is a decimal digit.
pub open spec fn all_digits(s: Seq<char>) -> bool {
    forall|i: int| 0 <= i < s.len() ==> is_digit(#[trigger] s[i])
}

/// The digits of an index: the text without one leading `+`.
pub open spec fn index_digits(s: Seq<char>) -> Seq<char> {
    if s.len() > 0 && s[0] == '+' {
        s.skip(1)
    } else {
        s
    }
}

/// An index is one or more decimal digits, after an optional `+`, whose
/// value fits in a `usize`.
pub open spec fn valid_index(s: Seq<char>) -> bool {
    let d = index_digits(s);
    d.len() > 0 && all_digits(d) && digits_value(d) <= usize::MAX
}

/// A prefix of a string of digits writes no larger a number.
proof fn lemma_digits_value_prefix(s: Seq<char>, k: int)
    requires
        all_digits(s),
        0 <= k <= s.len(),
    ensures
        0 <= digits_value(s.take(k)) <= digits_value(s),
    decreases s.len(),
{
    if k == s.len() {
        assert(s.take(k) =~= s);
        lemma_digits_value_nonneg(s);
    } else {
        let t = s.drop_last();
        assert(t.take(k) =~= s.take(k));
        lemma_digits_value_prefix(t, k);
        lemma_digits_value_nonneg(t);
    }
}

/// A string of digits writes a number that is not negative.
proof fn lemma_digits_value_nonneg(s: Seq<char>)
    requires
        all_digits(s),
    ensures
        digits_value(s) >= 0,
    decreases s.len(),
{
    if s.len() > 0 {
        lemma_digits_value_nonneg(s.drop_last());
    }
}

/// Reads an index: one or more decimal digits after an optional `+`.
pub fn parse_index(s: &str) -> (r: Result<usize, TodoError>)
    ensures
        r is Ok <==> valid_index(s@),
        r matches Ok(v) ==> v == digits_value(index_digits(s@)),
        r matches Err(e) ==> e == TodoError::Parse,
{
    let n = s.unicode_len();
    let start: usize = if n > 0 && s.get_char(0) == '+' {
        1
    } else {
        0
    };
    let ghost d = index_digits(s@);
    assert(d =~= s@.subrange(start as int, n as int));
    if start == n {
        return Err(TodoError::Parse);
    }
    let mut v: usize = 0;
    let mut i: usize = start;
    while i < n
        invariant
            n == s@.len(),
            start <= i <= n,
            d == index_digits(s@),
            d == s@.subrange(start as int, n as int),
            all_digits(d.take(i - start)),
            v == digits_value(d.take(i - start)),
        decreases n - i,
    {
        let c = s.get_char(i);
        assert(c == d[i - start]);
        if c < '0' || c > '9' {
            assert(!all_digits(d)) by {
                assert(!is_digit(d[i - start]));
            }
            return Err(TodoError::Parse);
        }
        let digit = ((c as u32) - ('0' as u32)) as usize;
        assert(digit == digit_value(c));
        assert(d.take(i - start + 1).drop_last() =~= d.take(i - start));
        assert(d.take(i - start + 1).last() == c);
        assert(digits_value(d.take(i - start + 1)) == v * 10 + digit);
        assert(all_digits(d.take(i - start + 1))) by {
            assert forall|j: int| 0 <= j < i - start + 1 implies is_digit(
                #[trigger] d.take(i - start + 1)[j],
            ) by {
                if j < i - start {
                    assert(d.take(i - start + 1)[j] == d.take(i - start)[j]);
                }
            }
        }
        if v > (usize::MAX - digit) / 10 {
            assert(v * 10 + digit > usize::MAX) by (nonlinear_arith)
                requires
                    v > (usize::MAX - digit) / 10,
                    digit <= 9,
            ;
            proof {
                if all_digits(d) {
                    lemma_digits_value_prefix(d, i - start + 1);
                }
            }
            return Err(TodoError::Parse);
        }
        assert(v * 10 + digit <= usize::MAX) by (nonlinear_arith)
            requires
                v <= (usize::MAX - digit) / 10,
                digit <= 9,
        ;
        v = v * 10 + digit;
        i = i + 1;
    }
    assert(d.take(n - start) =~= d);
    Ok(v)
}

/// Words joined with one space between neighbours.
pub open spec fn joined(words: Seq<Seq<char>>) -> Seq<char>
    decreases words.len(),
{
    if words.len() == 0 {
        Seq::empty()
    } else if words.len() == 1 {
        words[0]
    } else {
        joined(words.drop_last()) + seq![' '] + words.last()
    }
}

/// The texts of a sequence of strings.
pub open spec fn texts(v: Seq<String>) -> Seq<Seq<char>> {
    v.map_values(|s: String| s@)
}

/// The arguments from position `from` on, joined with spaces.
pub fn join_words(args: &Vec<String>, from: usize) -> (r: String)
    requires
        from <= args@.len(),
    ensures
        r@ == joined(texts(args@).skip(from as int)),
{
    let ghost w = texts(args@).skip(from as int);
    let mut out = String::new();
    let mut i: usize = from;
    assert(w.take(0) =~= Seq::<Seq<char>>::empty());
    while i < args.len()
        invariant
            from <= i <= args@.len(),
            w == texts(args@).skip(from as int),
            out@ == joined(w.take(i - from)),
        decreases args@.len() - i,
    {
        assert(w.take(i - from + 1).drop_last() =~= w.take(i - from));
        assert(w.take(i - from + 1).last() == args@[i as int]@);
        proof {
            reveal_strlit(" ");
        }
        if i > from {
            out.append(" ");
        }
        out.append(args[i].as_str());
        if i == from {
            assert(out@ =~= joined(w.take(i - from + 1)));
        } else {
            assert(out@ =~= joined(w.take(i - from + 1)));
        }
        i = i + 1;
    }
    assert(w.take(i - from) =~= w);
    out
}

/// Whether `s` is exactly the word `w`.
fn is_word(s: &String, w: &str) -> (r: bool)
    ensures
        r == (s@ == w@),
{
    *s == String::from_str(w)
}

/// The command that the arguments name; the first argument is the
/// program's name. No command, or one that is not known, asks for help.
pub fn parse_command(args: &Vec<String>) -> (r: Result<Command, TodoError>)
    ensures
        args@.len() < 2 ==> r == Ok::<Command, TodoError>(Command::Help),
        args@.len() >= 2 ==> {
            let w = args@[1]@;
            &&& w == "get"@ ==> r == Ok::<Command, TodoError>(Command::Get)
            &&& w == "clear"@ ==> r == Ok::<Command, TodoError>(Command::Clear)
            &&& w == "clean"@ ==> r == Ok::<Command, TodoError>(Command::Clean)
            &&& w == "add"@ ==> (r matches Ok(Command::Add(t)) && t@ == joined(
                texts(args@).skip(2),
            ))
            &&& (w == "done"@ || w == "remove"@) ==> {
                &&& r is Err <==> (args@.len() < 3 || !valid_index(args@[2]@))
                &&& r matches Err(e) ==> e == TodoError::Parse
                &&& (r matches Ok(c) && w == "done"@) ==> (r matches Ok(Command::Done(v)) && v
                    == digits_value(index_digits(args@[2]@)))
                &&& (r matches Ok(c) && w == "remove"@) ==> (r matches Ok(Command::Remove(v))
                    && v == digits_value(index_digits(args@[2]@)))
            }
            &&& !(w == "get"@ || w == "clear"@ || w == "clean"@ || w == "add"@ || w == "done"@
                || w == "remove"@) ==> r == Ok::<Command, TodoError>(Command::Help)
        },
{
    proof {
        reveal_strlit("get");
        reveal_strlit("clear");
        reveal_strlit("clean");
        reveal_strlit("add");
        reveal_strlit("done");
        reveal_strlit("remove");
        assert("get"@.len() == 3 && "add"@.len() == 3 && "done"@.len() == 4);
        assert("clear"@.len() == 5 && "clean"@.len() == 5 && "remove"@.len() == 6);
        assert("get"@[0] != "add"@[0]);
        assert("clear"@[4] != "clean"@[4]);
    }
    if args.len() < 2 {
        return Ok(Command::Help);
    }
    let word = &args[1];
    if is_word(word, "get") {
        Ok(Command::Get)
    } else if is_word(word, "clear") {
        Ok(Command::Clear)
    } else if is_word(word, "clean") {
        Ok(Command::Clean)
    } else if is_word(word, "add") {
        Ok(Command::Add(join_words(args, 2)))
    } else if is_word(word, "done") || is_word(word, "remove") {
        if args.len() < 3 {
            return Err(TodoError::Parse);
        }
        match parse_index(args[2].as_str()) {
            Ok(index) => if is_word(word, "done") {
                Ok(Command::Done(index))
            } else {
                Ok(Command::Remove(index))
            },
            Err(e) => Err(e),
        }
    } else {
        Ok(Command::Help)
    }
}

impl TodoList {
    /// Applies one command to the list and says what to do next. Only an
    /// index that addresses no task fails, and then the list is unchanged.
    pub fn apply(&mut self, command: Command) -> (r: Result<Outcome, TodoError>)
        ensures
            command is Get ==> r == Ok::<Outcome, TodoError>(Outcome::ShowList) && final(self)@
                == old(self)@,
            command is Help ==> r == Ok::<Outcome, TodoError>(Outcome::ShowHelp) && final(self)@
                == old(self)@,
            command is Clear ==> r == Ok::<Outcome, TodoError>(Outcome::Save) && final(self)@
                == cleared(old(self)@),
            command is Clean ==> r == Ok::<Outcome, TodoError>(Outcome::SaveAndShow)
                && final(self)@ == cleaned(old(self)@),
            command matches Command::Add(t) ==> r == Ok::<Outcome, TodoError>(
                Outcome::SaveAndShow,
            ) && final(self)@ == added(old(self)@, t@),
            command matches Command::Done(i) ==> if i < old(self)@.len() {
                r == Ok::<Outcome, TodoError>(Outcome::SaveAndShow) && final(self)@ == toggled(
                    old(self)@,
                    i as int,
                )
            } else {
                r == Err::<Outcome, TodoError>(TodoError::OutOfRange) && final(self)@ == old(
                    self,
                )@
            },
            command matches Command::Remove(i) ==> if i < old(self)@.len() {
                r == Ok::<Outcome, TodoError>(Outcome::SaveAndShow) && final(self)@ == removed(
                    old(self)@,
                    i as int,
                )
            } else {
                r == Err::<Outcome, TodoError>(TodoError::OutOfRange) && final(self)@ == old(
                    self,
                )@
            },
    {
        match command {
            Command::Get => Ok(Outcome::ShowList),
            Command::Help => Ok(Outcome::ShowHelp),
            Command::Clear => {
                self.clear_list();
                Ok(Outcome::Save)
            },
            Command::Clean => {
                self.clean_completed();
                Ok(Outcome::SaveAndShow)
            },
            Command::Add(task) => {
                self.add_to_list(task);
                Ok(Outcome::SaveAndShow)
            },
            Command::Done(i) => {
                self.toggle_done(i)?;
                Ok(Outcome::SaveAndShow)
            },
            Command::Remove(i) => {
                self.remove_task(i)?;
                Ok(Outcome::SaveAndShow)
            },
        }
    }
}

} // verus!
