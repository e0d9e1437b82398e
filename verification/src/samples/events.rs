//! Events that carry a line of text, and the text their subscribers print:
//! the line trimmed and in upper case, or trimmed and reversed.
use vstd::prelude::*;

use crate::request::Event;
use crate::text::{push_char, to_uppercase, trim, trimmed, uppercase};

verus! {

broadcast use vstd::string::axiom_spec_iter;

/// A line to print in upper case.
#[derive(Clone)]
pub struct UpperTextEvent(pub String);

impl Event for UpperTextEvent {}

/// A line to print reversed.
#[derive(Clone)]
pub struct ReverseTextEvent(pub String);

impl Event for ReverseTextEvent {}

impl UpperTextEvent {
    /// The line, trimmed, in upper case.
    pub fn text(&self) -> (r: String)
        ensures
            r@ == uppercase(trimmed(self.0@)),
    {
        to_uppercase(trim(self.0.as_str()))
    }
}

impl ReverseTextEvent {
    /// The line, trimmed, with its characters in reverse order.
    pub fn text(&self) -> (r: String)
        ensures
            r@ == trimmed(self.0@).reverse(),
    {
        let t = trim(self.0.as_str());
        let mut chars: Vec<char> = Vec::new();
        for c in it: t.chars()
            invariant
                it.seq() == t@,
                chars@ == t@.take(it.index()),
        {
            chars.push(c);
            assert(chars@ =~= t@.take(it.index() + 1));
        }
        assert(chars@ =~= t@);
        let mut out = String::new();
        let mut i: usize = chars.len();
        while i > 0
            invariant
                i <= chars@.len(),
                chars@ == t@,
                out@ == t@.subrange(i as int, t@.len() as int).reverse(),
            decreases i,
        {
            i = i - 1;
            push_char(&mut out, chars[i]);
            assert(t@.subrange(i as int, t@.len() as int).reverse() =~= t@.subrange(
                i + 1,
                t@.len() as int,
            ).reverse().push(t@[i as int]));
        }
        assert(t@.subrange(0, t@.len() as int) =~= t@);
        out
    }
}

/// Reversing a line twice gives it back.
pub proof fn law_reverse_twice(line: Seq<char>)
    ensures
        line.reverse().reverse() == line,
{
    assert(line.reverse().reverse() =~= line);
}

} // verus!
