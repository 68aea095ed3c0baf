//! Source resolution: the user's one optional argument names where the
//! query text comes from. An existing file wins over everything, a URL
//! prefix over literal text, and an absent argument means standard input.

use vstd::prelude::*;

use crate::text::{has_prefix, str_starts_with};

verus! {

/// Where the query text comes from. Chosen once per invocation.
#[derive(Clone, Debug, PartialEq, Eq)]
pub enum QuerySource {
    /// The argument itself is the query text.
    Literal(String),
    /// The argument names an existing local file whose contents are read.
    File(String),
    /// The argument is an address whose response body is fetched.
    Url(String),
    /// No argument was given: standard input is read in full.
    Stdin,
}

/// The resolution order, first match wins: an absent argument reads
/// standard input; an argument naming an existing file is read as a file,
/// whatever else it looks like; otherwise an `http://` or `https://`
/// prefix makes it a fetch; otherwise it is the query text itself.
pub open spec fn classifies(arg: Option<Seq<char>>, is_existing_file: bool, r: QuerySource) -> bool {
    match arg {
        Option::None => r is Stdin,
        Option::Some(a) => {
            if is_existing_file {
                r matches QuerySource::File(p) && p@ == a
            } else if has_prefix(a, "http://"@) || has_prefix(a, "https://"@) {
                r matches QuerySource::Url(u) && u@ == a
            } else {
                r matches QuerySource::Literal(t) && t@ == a
            }
        },
    }
}

/// Chooses the query source for the given argument. The caller reports in
/// `is_existing_file` whether the argument names an existing local path;
/// that test takes precedence over every textual reading of the argument.
pub fn classify_source(arg: Option<&String>, is_existing_file: bool) -> (r: QuerySource)
    ensures
        classifies(arg.deep_view(), is_existing_file, r),
{
    match arg {
        Option::None => QuerySource::Stdin,
        Option::Some(a) => {
            if is_existing_file {
                QuerySource::File(a.clone())
            } else if str_starts_with(a.as_str(), "http://") || str_starts_with(
                a.as_str(),
                "https://",
            ) {
                QuerySource::Url(a.clone())
            } else {
                QuerySource::Literal(a.clone())
            }
        },
    }
}

} // verus!
