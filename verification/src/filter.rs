//! The log filter: which severities the process emits.
//!
//! The filter expression is written in the directive syntax of
//! `tracing_subscriber::EnvFilter`, and that crate alone decides whether an
//! expression is well formed and how verbose a filter built from it can be.
//! This module decides which expression is used and answers, for a severity,
//! whether the chosen filter can let it through.

use vstd::prelude::*;
use vstd::string::*;
use vstd::utf8::is_ascii_chars;

verus! {

/// The severity of a log event or span, most severe first.
#[derive(Clone, Copy, Debug, PartialEq, Eq, Structural)]
pub enum Severity {
    Error,
    Warn,
    Info,
    Debug,
    Trace,
}

impl Severity {
    /// The verbosity of a severity: 1 for `Error`, up to 5 for `Trace`.
    pub open spec fn rank(self) -> nat {
        match self {
            Severity::Error => 1,
            Severity::Warn => 2,
            Severity::Info => 3,
            Severity::Debug => 4,
            Severity::Trace => 5,
        }
    }

    /// The verbosity of a severity, computed.
    pub fn verbosity(self) -> (r: u8)
        ensures
            r == self.rank(),
    {
        match self {
            Severity::Error => 1,
            Severity::Warn => 2,
            Severity::Info => 3,
            Severity::Debug => 4,
            Severity::Trace => 5,
        }
    }
}

/// The most verbose severity within a verbosity bound: none for 0, `Trace`
/// for 5 and for anything above, which stands for no bound at all.
pub open spec fn ceiling_of(bound: nat) -> Option<Severity> {
    if bound == 0 {
        None
    } else if bound == 1 {
        Some(Severity::Error)
    } else if bound == 2 {
        Some(Severity::Warn)
    } else if bound == 3 {
        Some(Severity::Info)
    } else if bound == 4 {
        Some(Severity::Debug)
    } else {
        Some(Severity::Trace)
    }
}

/// The most verbose severity within a verbosity bound, computed.
pub fn ceiling_from_bound(bound: u8) -> (r: Option<Severity>)
    ensures
        r == ceiling_of(bound as nat),
{
    if bound == 0 {
        None
    } else if bound == 1 {
        Some(Severity::Error)
    } else if bound == 2 {
        Some(Severity::Warn)
    } else if bound == 3 {
        Some(Severity::Info)
    } else if bound == 4 {
        Some(Severity::Debug)
    } else {
        Some(Severity::Trace)
    }
}

/// What `tracing_subscriber::EnvFilter` makes of the directive text `dirs`:
/// `None` where it rejects the text, else the verbosity bound of the filter
/// it builds (0 for a filter that enables nothing, 1 for `ERROR`, up to 5
/// for `TRACE`, and 6 for a filter that gives no bound).
pub uninterp spec fn directive_bound(dirs: Seq<char>) -> Option<u8>;

/// Parses `dirs` with `tracing_subscriber::EnvFilter::try_new` and, where
/// that succeeds, asks the filter for `EnvFilter::max_level_hint`.
///
/// Nothing is proved of this function. Its contract only names the outcome:
/// the parser reads nothing but its argument, so the same text always gives
/// the same answer. The body maps a parse error to `None` and the hint to
/// its verbosity as `directive_bound` describes.
///
/// The parser trims each directive and then cuts the untrimmed text at the
/// positions it found, which can fall inside a character that takes more
/// than one byte; it then aborts. ASCII text has no such character.
#[verifier::external_body]
fn probe_directives(dirs: &str) -> (r: Option<u8>)
    requires
        dirs.is_ascii(),
    ensures
        r == directive_bound(dirs@),
{
    match tracing_subscriber::EnvFilter::try_new(dirs) {
        Err(_) => None,
        Ok(filter) => match filter.max_level_hint() {
            None => Some(6),
            Some(hint) => match hint.into_level() {
                None => Some(0),
                Some(tracing::Level::ERROR) => Some(1),
                Some(tracing::Level::WARN) => Some(2),
                Some(tracing::Level::INFO) => Some(3),
                Some(tracing::Level::DEBUG) => Some(4),
                Some(tracing::Level::TRACE) => Some(5),
            },
        },
    }
}

/// The filter in force: the expression it was built from and the most
/// verbose severity that it can let through (`None`: it lets nothing
/// through).
pub struct LogFilter {
    pub expression: String,
    pub ceiling: Option<Severity>,
}

/// The expression used when none is given or the given one is rejected.
pub open spec fn fallback_expression() -> Seq<char> {
    "info"@
}

/// The expression and ceiling that are chosen when `requested` was asked for
/// and the directive parser answered `verdict` on it: the requested
/// expression with its own bound where there is one and it was accepted,
/// else the fallback with ceiling `Info`.
pub open spec fn chosen(requested: Option<Seq<char>>, verdict: Option<u8>) -> (
    Seq<char>,
    Option<Severity>,
) {
    match (requested, verdict) {
        (Some(text), Some(bound)) => (text, ceiling_of(bound as nat)),
        _ => (fallback_expression(), Some(Severity::Info)),
    }
}

/// The view of an optional text.
pub open spec fn text_of(value: Option<&str>) -> Option<Seq<char>> {
    match value {
        Some(text) => Some(text@),
        None => None,
    }
}

/// The parser's answer on an optional text. There is none where there is
/// no text, nor where the text holds a character outside ASCII: such a text
/// is not shown to the parser and counts as rejected.
pub open spec fn verdict_on(requested: Option<Seq<char>>) -> Option<u8> {
    match requested {
        Some(text) => if is_ascii_chars(text) {
            directive_bound(text)
        } else {
            None
        },
        None => None,
    }
}

impl LogFilter {
    /// Whether this filter can let an event of severity `level` through:
    /// the severity is no more verbose than the ceiling.
    pub open spec fn allows(self, level: Severity) -> bool {
        match self.ceiling {
            Some(top) => level.rank() <= top.rank(),
            None => false,
        }
    }

    /// Whether an event of severity `level` can be emitted. An event above
    /// the ceiling never is.
    pub fn should_emit(&self, level: Severity) -> (r: bool)
        ensures
            r == self.allows(level),
    {
        match self.ceiling {
            Some(top) => level.verbosity() <= top.verbosity(),
            None => false,
        }
    }

    /// The filter used when the environment asks for none: `info`.
    pub fn fallback() -> (r: LogFilter)
        ensures
            r.expression@ == fallback_expression(),
            r.ceiling == Some(Severity::Info),
    {
        LogFilter { expression: String::from_str("info"), ceiling: Some(Severity::Info) }
    }

    /// Chooses the filter, given the expression that was asked for and what
    /// the directive parser said of it.
    pub fn decide(requested: Option<&str>, verdict: Option<u8>) -> (r: LogFilter)
        ensures
            (r.expression@, r.ceiling) == chosen(text_of(requested), verdict),
    {
        match requested {
            Some(text) => match verdict {
                Some(bound) => LogFilter {
                    expression: String::from_str(text),
                    ceiling: ceiling_from_bound(bound),
                },
                None => LogFilter::fallback(),
            },
            None => LogFilter::fallback(),
        }
    }

    /// Chooses the filter for the expression found in the environment, if
    /// any: that expression where it is ASCII and the directive parser
    /// accepts it, else the fallback. A rejected expression is never an
    /// error.
    pub fn resolve(requested: Option<&str>) -> (r: LogFilter)
        ensures
            (r.expression@, r.ceiling) == chosen(
                text_of(requested),
                verdict_on(text_of(requested)),
            ),
            requested is None ==> r.allows(Severity::Info) && !r.allows(Severity::Debug),
    {
        match requested {
            Some(text) => {
                let verdict = if text.is_ascii() {
                    probe_directives(text)
                } else {
                    None
                };
                LogFilter::decide(requested, verdict)
            },
            None => LogFilter::decide(requested, None),
        }
    }
}

/// With no expression in the environment the threshold is `info`: events at
/// `Error`, `Warn` and `Info` pass, events at `Debug` and `Trace` do not.
pub proof fn lemma_default_threshold(filter: LogFilter, level: Severity)
    requires
        (filter.expression@, filter.ceiling) == chosen(None, verdict_on(None)),
    ensures
        filter.expression@ == fallback_expression(),
        filter.allows(level) <==> level.rank() <= Severity::Info.rank(),
        filter.allows(Severity::Info),
        !filter.allows(Severity::Debug),
{
}

/// A rejected expression gives the same filter as no expression at all.
pub proof fn lemma_rejected_is_fallback(text: Seq<char>)
    ensures
        chosen(Some(text), None) == chosen(None, None),
{
}

/// A filter lets through every severity that is more severe than one it
/// lets through.
pub proof fn lemma_allows_is_downward_closed(filter: LogFilter, a: Severity, b: Severity)
    requires
        filter.allows(b),
        a.rank() <= b.rank(),
    ensures
        filter.allows(a),
{
}

} // verus!
