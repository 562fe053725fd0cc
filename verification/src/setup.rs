//! What can go wrong before a run starts, and how a run ends.

use vstd::prelude::*;
use crate::config::{token_text, ConfigError, RunConfig, RunConfigView, Target};
use crate::summary::RunSummary;

verus! {

/// A failure that ends the program before any request is made.
#[derive(Clone, Copy, Debug, PartialEq, Eq, Structural)]
pub enum SetupError {
    /// The configuration was refused.
    InvalidConfig(ConfigError),
    /// The token was to be read from a file that is missing or unreadable.
    TokenUnavailable,
    /// The HTTP client could not be set up.
    ClientConstruction,
}

/// Where the token of a run comes from.
#[derive(Debug)]
pub enum TokenSource {
    /// No token is sent.
    Absent,
    /// The token was given on the command line.
    Given(String),
    /// The token stands in a file, of which this is the content; `None`
    /// where the file could not be read.
    File(Option<String>),
}

/// Whether `c` is a blank or part of a line break.
pub open spec fn is_blank(c: char) -> bool {
    c == ' ' || c == '\t' || c == '\r' || c == '\n'
}

/// `text` without the blanks and line breaks at its end.
pub open spec fn without_trailing_blanks(text: Seq<char>) -> Seq<char>
    decreases text.len(),
{
    if text.len() > 0 && is_blank(text.last()) {
        without_trailing_blanks(text.drop_last())
    } else {
        text
    }
}

/// The token that `source` yields. The token of a file is its content up
/// to the blanks and line breaks at its end.
pub open spec fn token_of(source: TokenSource) -> Result<Option<Seq<char>>, SetupError> {
    match source {
        TokenSource::Absent => Ok(None),
        TokenSource::Given(token) => Ok(Some(token@)),
        TokenSource::File(Some(content)) => Ok(Some(without_trailing_blanks(content@))),
        TokenSource::File(None) => Err(SetupError::TokenUnavailable),
    }
}

/// What is cut off the end of a text is blank, and what is left does not
/// end in a blank.
pub proof fn lemma_without_trailing_blanks(text: Seq<char>)
    ensures
        without_trailing_blanks(text).len() <= text.len(),
        without_trailing_blanks(text) == text.take(without_trailing_blanks(text).len() as int),
        forall|i: int|
            without_trailing_blanks(text).len() <= i < text.len() ==> is_blank(#[trigger] text[i]),
        without_trailing_blanks(text).len() > 0 ==> !is_blank(without_trailing_blanks(text).last()),
    decreases text.len(),
{
    if text.len() > 0 && is_blank(text.last()) {
        let shorter = text.drop_last();
        lemma_without_trailing_blanks(shorter);
        let kept = without_trailing_blanks(shorter);
        assert forall|i: int| kept.len() <= i < text.len() implies is_blank(
            #[trigger] text[i],
        ) by {
            if i < shorter.len() {
                assert(text[i] == shorter[i]);
            }
        }
    }
}

/// Whether `c` is a blank or part of a line break.
fn blank(c: char) -> (blank: bool)
    ensures
        blank == is_blank(c),
{
    c == ' ' || c == '\t' || c == '\r' || c == '\n'
}

/// `text` without the blanks and line breaks at its end.
pub fn trim_end(text: &str) -> (trimmed: String)
    ensures
        trimmed@ == without_trailing_blanks(text@),
        trimmed@.len() <= text@.len(),
        trimmed@ == text@.take(trimmed@.len() as int),
        forall|i: int| trimmed@.len() <= i < text@.len() ==> is_blank(#[trigger] text@[i]),
        trimmed@.len() > 0 ==> !is_blank(trimmed@.last()),
{
    proof {
        lemma_without_trailing_blanks(text@);
    }
    let mut end = text.unicode_len();
    assert(text@.take(end as int) =~= text@);
    while end > 0 && blank(text.get_char(end - 1))
        invariant
            end <= text@.len(),
            without_trailing_blanks(text@) == without_trailing_blanks(text@.take(end as int)),
        decreases end,
    {
        assert(text@.take(end as int).drop_last() =~= text@.take(end as int - 1));
        end = end - 1;
    }
    String::from_str(text.substring_char(0, end))
}

/// The exit code of the program: 0 for a run that was carried out, whatever
/// became of its requests, and 1 where the run could not be set up.
pub open spec fn exit_code_of(run: Result<RunSummary, SetupError>) -> u8 {
    if run is Ok {
        0
    } else {
        1
    }
}

/// The token of a run. A token file that could not be read is a setup
/// failure.
pub fn resolve_token(source: TokenSource) -> (token: Result<Option<String>, SetupError>)
    ensures
        token matches Ok(found) ==> token_of(source) == Ok::<Option<Seq<char>>, SetupError>(
            token_text(found),
        ),
        token matches Err(error) ==> token_of(source) == Err::<Option<Seq<char>>, SetupError>(
            error,
        ),
{
    match source {
        TokenSource::Absent => Ok(None),
        TokenSource::Given(token) => Ok(Some(token)),
        TokenSource::File(Some(content)) => Ok(Some(trim_end(content.as_str()))),
        TokenSource::File(None) => Err(SetupError::TokenUnavailable),
    }
}

/// The configuration of a run whose token comes from `source`. A token
/// file that could not be read ends the setup before the numbers are looked
/// at; a batch size of zero is refused.
pub fn configure(
    source: TokenSource,
    total_requests: usize,
    batch_size: usize,
    target: Target,
) -> (config: Result<RunConfig, SetupError>)
    ensures
        token_of(source) matches Err(error) ==> (config matches Err(met) && met == error),
        token_of(source) is Ok && batch_size == 0 ==> (config matches Err(met) && met
            == SetupError::InvalidConfig(ConfigError::ZeroBatchSize)),
        token_of(source) matches Ok(token) ==> (batch_size >= 1 ==> (config matches Ok(made)
            && made@ == (RunConfigView {
            total_requests: total_requests as nat,
            batch_size: batch_size as nat,
            target: target@,
            auth_token: token,
        }))),
{
    let token = match resolve_token(source) {
        Ok(token) => token,
        Err(error) => {
            return Err(error);
        },
    };
    match RunConfig::new(total_requests, batch_size, target, token) {
        Ok(made) => Ok(made),
        Err(error) => Err(SetupError::InvalidConfig(error)),
    }
}

/// The exit code of the program.
pub fn exit_code(run: &Result<RunSummary, SetupError>) -> (code: u8)
    ensures
        code == exit_code_of(*run),
{
    match run {
        Ok(_) => 0,
        Err(_) => 1,
    }
}

} // verus!
