//! Extracting a report code from a bare code or a report URL.
use vstd::prelude::*;

use crate::errors::AnalysisError;

verus! {

/// A report URL; the `code` group is the report code.
pub const URL_PATTERN: &'static str = r"(?:https?://)?(?:www.)?fflogs\.com/reports/(?P<code>[a-zA-Z0-9]{16})";

/// A bare report code, sixteen letters or digits.
pub const CODE_PATTERN: &'static str = r"(?P<code>[a-zA-Z0-9]{16})";

/// The text that the group `group` of the first match of `pattern` in `text` captures.
pub uninterp spec fn regex_named_capture(
    pattern: Seq<char>,
    group: Seq<char>,
    text: Seq<char>,
) -> Option<Seq<char>>;

/// Relies on regex's `Regex::new`, `Regex::captures`, `Captures::name` and
/// `Match::as_str`: the text the named group captures in the first match, which is
/// a part of the text searched. An invalid pattern gives no match.
#[verifier::external_body]
fn named_capture(pattern: &str, group: &str, text: &str) -> (r: Option<String>)
    ensures
        match r {
            Some(s) => {
                &&& regex_named_capture(pattern@, group@, text@) == Some(s@)
                &&& exists|i: int|
                    0 <= i && i + s@.len() <= text@.len() && #[trigger] text@.subrange(i, i + s@.len()) == s@
            },
            None => regex_named_capture(pattern@, group@, text@) is None,
        },
{
    match regex::Regex::new(pattern) {
        Ok(re) => match re.captures(text) {
            Some(caps) => match caps.name(group) {
                Some(m) => Some(m.as_str().to_string()),
                None => None,
            },
            None => None,
        },
        Err(_) => None,
    }
}

/// The report code, taken from a report URL where there is one, else from a bare
/// code; an error where neither is found.
pub fn choose_report_code(url_code: Option<String>, bare_code: Option<String>) -> (r: Result<
    String,
    AnalysisError,
>)
    ensures
        r == match url_code {
            Some(c) => Ok(c),
            None => match bare_code {
                Some(c) => Ok(c),
                None => Err(AnalysisError::InvalidReportCodeOrUrl),
            },
        },
{
    match url_code {
        Some(c) => Ok(c),
        None => match bare_code {
            Some(c) => Ok(c),
            None => Err(AnalysisError::InvalidReportCodeOrUrl),
        },
    }
}

/// The report code in a report URL or a bare code.
pub fn convert_report_code(code_or_url: &String) -> (r: Result<String, AnalysisError>)
    ensures
        match regex_named_capture(URL_PATTERN@, "code"@, code_or_url@) {
            Some(c) => r matches Ok(s) && s@ == c,
            None => match regex_named_capture(CODE_PATTERN@, "code"@, code_or_url@) {
                Some(c) => r matches Ok(s) && s@ == c,
                None => r == Err::<String, AnalysisError>(AnalysisError::InvalidReportCodeOrUrl),
            },
        },
{
    let url_code = named_capture(URL_PATTERN, "code", code_or_url.as_str());
    let bare_code = named_capture(CODE_PATTERN, "code", code_or_url.as_str());
    choose_report_code(url_code, bare_code)
}

} // verus!
