//! Text that is made outside this library: highlighting for the terminal,
//! and the short form of a duration.
//!
//! Nothing in this file is proved: each item states what is taken on trust
//! of one function of `colored`, or of `std`.

use vstd::prelude::*;

verus! {

#[verifier::external_type_specification]
#[verifier::external_body]
pub struct ExColoredString(colored::ColoredString);

/// A colour of the terminal.
pub ghost enum Hue {
    Green,
    Red,
    Yellow,
    Blue,
}

/// A text marked for the terminal, as this library marks one: in one
/// colour, and bold or not.
pub ghost struct MarkView {
    pub text: Seq<char>,
    pub hue: Hue,
    pub bold: bool,
}

/// What `marked` holds, where that is a text in one of the four colours
/// above, without a background, and with no style or the bold one alone;
/// none for any other marked text.
pub uninterp spec fn mark_held(marked: colored::ColoredString) -> Option<MarkView>;

/// What the `Display` form of a marked text with these marks reads while
/// colours are switched on: the text inside the escape sequences for its
/// marks.
pub uninterp spec fn coloured(mark: MarkView) -> Seq<char>;

/// `colored::Colorize::green` on a `&str`: the text, marked to be shown in
/// green and not otherwise.
#[verifier::external_body]
pub(crate) fn green(text: &str) -> (marked: colored::ColoredString)
    ensures
        mark_held(marked) == Some(MarkView { text: text@, hue: Hue::Green, bold: false }),
{
    colored::Colorize::green(text)
}

/// `colored::Colorize::red` on a `&str`: the text, marked to be shown in
/// red and not otherwise.
#[verifier::external_body]
pub(crate) fn red(text: &str) -> (marked: colored::ColoredString)
    ensures
        mark_held(marked) == Some(MarkView { text: text@, hue: Hue::Red, bold: false }),
{
    colored::Colorize::red(text)
}

/// `colored::Colorize::yellow` on a `&str`: the text, marked to be shown in
/// yellow and not otherwise.
#[verifier::external_body]
pub(crate) fn yellow(text: &str) -> (marked: colored::ColoredString)
    ensures
        mark_held(marked) == Some(MarkView { text: text@, hue: Hue::Yellow, bold: false }),
{
    colored::Colorize::yellow(text)
}

/// `colored::Colorize::blue` on a `&str`: the text, marked to be shown in
/// blue and not otherwise.
#[verifier::external_body]
pub(crate) fn blue(text: &str) -> (marked: colored::ColoredString)
    ensures
        mark_held(marked) == Some(MarkView { text: text@, hue: Hue::Blue, bold: false }),
{
    colored::Colorize::blue(text)
}

/// `colored::Colorize::bold` on a marked text: the same text in the same
/// colour, marked bold as well.
#[verifier::external_body]
pub(crate) fn bold(text: colored::ColoredString) -> (marked: colored::ColoredString)
    ensures
        mark_held(text) matches Some(mark) ==> mark_held(marked) == Some(
            MarkView { bold: true, ..mark },
        ),
{
    colored::Colorize::bold(text)
}

/// The `Display` form of a marked text, through `to_string`: the text
/// inside the escape sequences for its marks, or the text alone where
/// colours are switched off. Which of the two depends on the terminal and
/// on what the user has set.
#[verifier::external_body]
pub(crate) fn shown(text: &colored::ColoredString) -> (plain: String)
    ensures
        mark_held(*text) matches Some(mark) ==> plain@ == mark.text || plain@ == coloured(mark),
{
    text.to_string()
}

/// What the `Debug` form of a duration of `secs` seconds and `nanos`
/// nanoseconds reads when two decimal places are asked for, such as
/// `1.50s`.
pub uninterp spec fn elapsed_text(secs: u64, nanos: u32) -> Seq<char>;

/// `std::time::Duration::new`, then the `Debug` form of the duration with
/// two decimal places. With less than a second of nanoseconds nothing is
/// carried over into the seconds, so the duration can be made; its text
/// depends on nothing but the two numbers.
#[verifier::external_body]
pub(crate) fn elapsed_display(secs: u64, nanos: u32) -> (text: String)
    requires
        nanos <= 999_999_999,
    ensures
        text@ == elapsed_text(secs, nanos),
{
    format!("{:.2?}", std::time::Duration::new(secs, nanos))
}

} // verus!
