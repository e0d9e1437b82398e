//! Interceptors of key presses: one that prints in upper case, one that
//! cycles through colors, one that alternates two shades.
use vstd::prelude::*;

use crate::request::Interceptor;
use crate::samples::key_press::{
    KeyPressOutcome, KeyPressRequest, KeyPressResult, StyledText, TextColor, TextStyle,
};
use crate::text::{to_uppercase, uppercase};

verus! {

/// Prints what the handler prints in upper case.
pub struct UpperCaseInterceptor;

/// What printing in upper case makes of an outcome.
pub open spec fn upper_case_outcome(o: KeyPressOutcome) -> KeyPressOutcome {
    match o {
        KeyPressOutcome::Print(style, content) => KeyPressOutcome::Print(style, uppercase(content)),
        _ => o,
    }
}

impl Interceptor<KeyPressRequest, KeyPressResult> for UpperCaseInterceptor {
    fn handle<N: FnOnce(KeyPressRequest) -> KeyPressResult>(
        &mut self,
        req: KeyPressRequest,
        next: N,
    ) -> (r: KeyPressResult)
        ensures
            exists|res: KeyPressResult|
                call_ensures(next, (req,), res) && r@ == upper_case_outcome(res@),
    {
        let res = next(req);
        let ghost seen = res@;
        let upper = |s: &String| -> (u: String)
            ensures
                u@ == uppercase(s@),
            { to_uppercase(s.as_str()) };
        let r = res.map(upper);
        assert(r@ == upper_case_outcome(seen));
        r
    }
}

/// The colors the colored interceptor cycles through, in order.
pub open spec fn cycle_color(i: int) -> TextColor {
    if i == 0 {
        TextColor::Red
    } else if i == 1 {
        TextColor::Green
    } else if i == 2 {
        TextColor::Blue
    } else if i == 3 {
        TextColor::Yellow
    } else if i == 4 {
        TextColor::Magenta
    } else {
        TextColor::Cyan
    }
}

/// The number of colors in the cycle.
pub const COLOR_COUNT: usize = 6;

/// The color at a position of the cycle.
fn color_at(i: usize) -> (c: TextColor)
    requires
        i < COLOR_COUNT,
    ensures
        c == cycle_color(i as int),
{
    if i == 0 {
        TextColor::Red
    } else if i == 1 {
        TextColor::Green
    } else if i == 2 {
        TextColor::Blue
    } else if i == 3 {
        TextColor::Yellow
    } else if i == 4 {
        TextColor::Magenta
    } else {
        TextColor::Cyan
    }
}

/// Prints each printed text in the next color of the cycle.
pub struct ColoredInterceptor {
    next_color: usize,
}

/// The counter after one more text, wrapping around to 0 after the largest.
pub open spec fn next_count(counter: usize) -> usize {
    if counter == usize::MAX {
        0
    } else {
        (counter + 1) as usize
    }
}

/// What the colored interceptor makes of an outcome, with its counter: a
/// printed text takes the color at the counter (modulo the cycle) in place
/// of its style, and the counter moves on; any other outcome passes as it is.
pub open spec fn colored_outcome(counter: usize, o: KeyPressOutcome) -> (usize, KeyPressOutcome) {
    match o {
        KeyPressOutcome::Print(_, content) => (
            next_count(counter),
            KeyPressOutcome::Print(
                TextStyle { color: Some(cycle_color(counter as int % 6)), bold: false },
                content,
            ),
        ),
        _ => (counter, o),
    }
}

impl ColoredInterceptor {
    /// An interceptor that starts at the first color.
    pub fn new() -> (c: ColoredInterceptor)
        ensures
            c.counter() == 0,
    {
        ColoredInterceptor { next_color: 0 }
    }

    /// How many texts this interceptor has colored (wrapping around).
    pub closed spec fn counter(&self) -> usize {
        self.next_color
    }
}

impl Interceptor<KeyPressRequest, KeyPressResult> for ColoredInterceptor {
    fn handle<N: FnOnce(KeyPressRequest) -> KeyPressResult>(
        &mut self,
        req: KeyPressRequest,
        next: N,
    ) -> (r: KeyPressResult)
        ensures
            exists|res: KeyPressResult|
                call_ensures(next, (req,), res) && (final(self).counter(), r@) == colored_outcome(
                    old(self).counter(),
                    res@,
                ) && (!(res@ is Print) ==> r@ == res@ && final(self).counter()
                    == old(self).counter()),
    {
        let res = next(req);
        let ghost seen = res@;
        match res {
            KeyPressResult::Print(styled) => {
                let color_index = self.next_color % COLOR_COUNT;
                self.next_color = if self.next_color == usize::MAX {
                    0
                } else {
                    self.next_color + 1
                };
                let color = color_at(color_index);
                let style = TextStyle { color: Some(color), bold: false };
                KeyPressResult::Print(StyledText { style, content: styled.content })
            },
            _ => res,
        }
    }
}

/// Prints each printed text in white and bold, then in dark grey, by turns.
pub struct MonochromeInterceptor {
    is_even: bool,
}

/// The style of the monochrome interceptor's turn: white and bold on an even
/// turn, dark grey on an odd one.
pub open spec fn monochrome_style(even: bool) -> TextStyle {
    if even {
        TextStyle { color: Some(TextColor::White), bold: true }
    } else {
        TextStyle { color: Some(TextColor::DarkGrey), bold: false }
    }
}

/// What the monochrome interceptor makes of an outcome on its turn: a
/// printed text takes the turn's style and the turn passes; any other
/// outcome passes as it is.
pub open spec fn monochrome_outcome(even: bool, o: KeyPressOutcome) -> (bool, KeyPressOutcome) {
    match o {
        KeyPressOutcome::Print(_, content) => (
            !even,
            KeyPressOutcome::Print(monochrome_style(even), content),
        ),
        _ => (even, o),
    }
}

impl MonochromeInterceptor {
    /// An interceptor whose first turn is odd.
    pub fn new() -> (m: MonochromeInterceptor)
        ensures
            !m.even_turn(),
    {
        MonochromeInterceptor { is_even: false }
    }

    /// Whether the next turn is even.
    pub closed spec fn even_turn(&self) -> bool {
        self.is_even
    }
}

impl Interceptor<KeyPressRequest, KeyPressResult> for MonochromeInterceptor {
    fn handle<N: FnOnce(KeyPressRequest) -> KeyPressResult>(
        &mut self,
        req: KeyPressRequest,
        next: N,
    ) -> (r: KeyPressResult)
        ensures
            exists|res: KeyPressResult|
                call_ensures(next, (req,), res) && (final(self).even_turn(), r@)
                    == monochrome_outcome(old(self).even_turn(), res@) && (!(res@ is Print) ==> r@
                    == res@ && final(self).even_turn() == old(self).even_turn()) && (
                res@ matches KeyPressOutcome::Print(_, content) ==> r@ == KeyPressOutcome::Print(
                    monochrome_style(old(self).even_turn()),
                    content,
                ) && final(self).even_turn() == !old(self).even_turn()),
    {
        let res = next(req);
        let ghost seen = res@;
        match res {
            KeyPressResult::Print(styled) => {
                let is_even = self.is_even;
                self.is_even = !is_even;
                let style = if is_even {
                    TextStyle { color: Some(TextColor::White), bold: true }
                } else {
                    TextStyle { color: Some(TextColor::DarkGrey), bold: false }
                };
                KeyPressResult::Print(StyledText { style, content: styled.content })
            },
            _ => res,
        }
    }
}

/// Two printed texts in a row take the two shades by turns, and the turn
/// comes back to where it was.
pub proof fn law_monochrome_alternates(even: bool, a: Seq<char>, b: Seq<char>, s: TextStyle)
    ensures
        ({
            let (t1, o1) = monochrome_outcome(even, KeyPressOutcome::Print(s, a));
            let (t2, o2) = monochrome_outcome(t1, KeyPressOutcome::Print(s, b));
            &&& t2 == even
            &&& o1 == KeyPressOutcome::Print(monochrome_style(even), a)
            &&& o2 == KeyPressOutcome::Print(monochrome_style(!even), b)
            &&& monochrome_style(even) != monochrome_style(!even)
        }),
{
}

/// The style an outcome is printed in, where it prints.
pub open spec fn style_of(o: KeyPressOutcome) -> Option<TextStyle> {
    match o {
        KeyPressOutcome::Print(style, _) => Some(style),
        _ => None,
    }
}

/// An outcome that prints nothing (a key that moves on, or the end) passes
/// through the monochrome interceptor as it is, and its turn stays where it
/// was; printed text keeps its content and takes the turn's shade.
pub proof fn law_monochrome_passes_what_prints_nothing(even: bool, o: KeyPressOutcome)
    ensures
        !(o is Print) ==> monochrome_outcome(even, o) == (even, o),
        o matches KeyPressOutcome::Print(_, content) ==> monochrome_outcome(even, o).0 == !even
            && printed_content(monochrome_outcome(even, o).1) == content,
{
}

/// The text of a printed outcome.
pub open spec fn printed_content(o: KeyPressOutcome) -> Seq<char> {
    match o {
        KeyPressOutcome::Print(_, content) => content,
        _ => Seq::empty(),
    }
}

/// Only printed text takes a turn: of two printed texts with any number of
/// outcomes that print nothing between them, the second is printed in the
/// other shade than the first.
pub proof fn law_monochrome_turns_only_on_print(
    even: bool,
    first: KeyPressOutcome,
    between: Seq<KeyPressOutcome>,
    second: KeyPressOutcome,
)
    requires
        first is Print,
        second is Print,
        forall|i: int| 0 <= i < between.len() ==> !(#[trigger] between[i] is Print),
    ensures
        ({
            let (t1, o1) = monochrome_outcome(even, first);
            let t = monochrome_run(t1, between);
            let (t2, o2) = monochrome_outcome(t, second);
            &&& t == t1
            &&& style_of(o1) == Some(monochrome_style(even))
            &&& style_of(o2) == Some(monochrome_style(!even))
            &&& style_of(o1) != style_of(o2)
        }),
{
    lemma_monochrome_run_keeps_turn(!even, between);
}

/// The turn of the monochrome interceptor after it has passed `outcomes`.
pub open spec fn monochrome_run(even: bool, outcomes: Seq<KeyPressOutcome>) -> bool
    decreases outcomes.len(),
{
    if outcomes.len() == 0 {
        even
    } else {
        monochrome_outcome(monochrome_run(even, outcomes.drop_last()), outcomes.last()).0
    }
}

/// Outcomes that print nothing leave the turn where it was.
proof fn lemma_monochrome_run_keeps_turn(even: bool, outcomes: Seq<KeyPressOutcome>)
    requires
        forall|i: int| 0 <= i < outcomes.len() ==> !(#[trigger] outcomes[i] is Print),
    ensures
        monochrome_run(even, outcomes) == even,
    decreases outcomes.len(),
{
    if outcomes.len() > 0 {
        assert(!(outcomes[outcomes.len() - 1] is Print));
        lemma_monochrome_run_keeps_turn(even, outcomes.drop_last());
    }
}

/// An outcome that prints nothing passes through the colored interceptor as
/// it is, and its counter stays where it was; printed text keeps its content
/// and moves the counter on.
pub proof fn law_colored_passes_what_prints_nothing(counter: usize, o: KeyPressOutcome)
    ensures
        !(o is Print) ==> colored_outcome(counter, o) == (counter, o),
        o matches KeyPressOutcome::Print(_, content) ==> colored_outcome(counter, o).0
            == next_count(counter) && printed_content(colored_outcome(counter, o).1) == content,
{
}

/// Upper-casing leaves anything but printed text as it is, and keeps the
/// style of printed text.
pub proof fn law_upper_case_keeps_style(o: KeyPressOutcome)
    ensures
        match o {
            KeyPressOutcome::Print(style, content) => upper_case_outcome(o) == KeyPressOutcome::Print(
                style,
                uppercase(content),
            ),
            _ => upper_case_outcome(o) == o,
        },
{
}

} // verus!
