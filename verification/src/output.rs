//! Output format selection: the format enum, its flag aliases, and the
//! small decisions the command line front end takes before printing.

use vstd::prelude::*;

verus! {

/// How results are rendered.
#[derive(Debug, PartialEq, Eq, Structural)]
pub enum OutputFormat {
    /// Full human-readable text.
    Text,
    /// JSON with an envelope.
    Json,
    /// One-line text.
    Simple,
    /// Compact JSON, one object per probe.
    JsonShort,
}

impl Clone for OutputFormat {
    fn clone(&self) -> (r: Self)
        ensures
            r == *self,
    {
        *self
    }
}

impl Copy for OutputFormat {

}

impl OutputFormat {
    /// The fixed name of this format.
    pub fn as_str(&self) -> (r: &'static str)
        ensures
            r@ == self.spec_as_str(),
    {
        match self {
            OutputFormat::Text => "text",
            OutputFormat::Json => "json",
            OutputFormat::Simple => "simple",
            OutputFormat::JsonShort => "json-short",
        }
    }

    /// Specification of [`Self::as_str`].
    pub open spec fn spec_as_str(&self) -> Seq<char> {
        match self {
            OutputFormat::Text => "text"@,
            OutputFormat::Json => "json"@,
            OutputFormat::Simple => "simple"@,
            OutputFormat::JsonShort => "json-short"@,
        }
    }
}

/// Resolve the format aliases: `--json` selects JSON, `--short` selects
/// the one-line text, and both together select compact JSON.
pub fn resolve_format(format: OutputFormat, json: bool, short: bool) -> (r: OutputFormat)
    ensures
        r == (if json && short {
            OutputFormat::JsonShort
        } else if short {
            OutputFormat::Simple
        } else if json {
            OutputFormat::Json
        } else {
            format
        }),
{
    if json && short {
        OutputFormat::JsonShort
    } else if short {
        OutputFormat::Simple
    } else if json {
        OutputFormat::Json
    } else {
        format
    }
}

/// Whether colored output is wanted: only for the textual formats, on a
/// terminal, with no opt-out from the environment or the flag.
pub fn want_color(
    format: OutputFormat,
    stdout_is_terminal: bool,
    no_color_env: bool,
    no_color_flag: bool,
) -> (r: bool)
    ensures
        r == ((format == OutputFormat::Text || format == OutputFormat::Simple)
            && stdout_is_terminal && !no_color_env && !no_color_flag),
{
    (matches!(format, OutputFormat::Text) || matches!(format, OutputFormat::Simple))
        && stdout_is_terminal && !no_color_env && !no_color_flag
}

/// Whether `--verbose` is ignored and deserves a warning: the short
/// formats never show the verbose fields.
pub fn verbose_ignored(format: OutputFormat, verbose: bool) -> (r: bool)
    ensures
        r == ((format == OutputFormat::Simple || format == OutputFormat::JsonShort) && verbose),
{
    (matches!(format, OutputFormat::Simple) || matches!(format, OutputFormat::JsonShort))
        && verbose
}

} // verus!
