//! The page shown in the browser once the callback has been handled.
use vstd::prelude::*;
use vstd::string::StringExecFns;
use crate::response::{BasicErrorResponse, CodeGrantResponse, opt_view};

verus! {

/// Title shown after a successful login.
pub const LOGGED_IN_TITLE: &'static str = "You are now logged in.";
/// Subheader shown after a successful login.
pub const CLOSE_WINDOW_TEXT: &'static str = "Please close the window.";
/// Title shown whenever the login did not succeed.
pub const FAILED_TITLE: &'static str = "Login failed.";
/// Subheader for a callback whose query could not be understood.
pub const INVALID_RESPONSE_TEXT: &'static str = "Received invalid OAuth2 response.";
/// Subheader for a failure of the listener itself.
pub const INTERNAL_ERROR_TEXT: &'static str = "Internal error receiving response.";

/// Markup before the title.
pub const HTML_HEAD: &'static str = "<html>
    <body>
        <div style=\"width: 100%; top: 50%; margin-top: 100px; text-align: center; font-family: sans-serif;\">
            <h1>";
/// Markup between the title and the subheader.
pub const HTML_MIDDLE: &'static str = "</h1>
            <h2>";
/// Markup after the subheader.
pub const HTML_TAIL: &'static str = "</h2>
        </div>
    </body>
</html>";

/// A title and a subheader, as shown in the browser.
pub struct Headings {
    pub title: String,
    pub subheader: String,
}

/// The HTML document that shows `title` as `h1` and `subheader` as `h2`.
pub open spec fn html_page(title: Seq<char>, subheader: Seq<char>) -> Seq<char> {
    HTML_HEAD@ + title + HTML_MIDDLE@ + subheader + HTML_TAIL@
}

/// The subheader for an error response: the error code, then `": "` and the
/// description if there is one, then `" ("`, the URI and `")"` if there is one.
pub open spec fn error_subheader(
    error: Seq<char>,
    description: Option<Seq<char>>,
    uri: Option<Seq<char>>,
) -> Seq<char> {
    let with_description = match description {
        Some(d) => error + ": "@ + d,
        None => error,
    };
    match uri {
        Some(u) => with_description + " ("@ + u + ")"@,
        None => with_description,
    }
}

impl Headings {
    /// Makes headings from a title and a subheader.
    pub fn new(title: &str, subheader: &str) -> (r: Headings)
        ensures
            r.title@ == title@,
            r.subheader@ == subheader@,
    {
        Headings { title: String::from_str(title), subheader: String::from_str(subheader) }
    }

    /// Renders the headings as a small centred HTML document.
    pub fn html(&self) -> (r: String)
        ensures
            r@ == html_page(self.title@, self.subheader@),
    {
        let mut page = String::from_str(HTML_HEAD);
        page.append(self.title.as_str());
        page.append(HTML_MIDDLE);
        page.append(self.subheader.as_str());
        page.append(HTML_TAIL);
        page
    }
}

impl CodeGrantResponse {
    /// The headings shown after a successful login.
    pub fn to_headings(&self) -> (r: Headings)
        ensures
            r.title@ == LOGGED_IN_TITLE@,
            r.subheader@ == CLOSE_WINDOW_TEXT@,
    {
        Headings::new(LOGGED_IN_TITLE, CLOSE_WINDOW_TEXT)
    }
}

impl BasicErrorResponse {
    /// The headings shown after the server reported an error.
    pub fn to_headings(&self) -> (r: Headings)
        ensures
            r.title@ == FAILED_TITLE@,
            r.subheader@ == error_subheader(
                self.error@,
                opt_view(self.error_description),
                opt_view(self.error_uri),
            ),
    {
        let mut subheader = self.error.clone();
        match &self.error_description {
            Some(d) => {
                subheader.append(": ");
                subheader.append(d.as_str());
            },
            None => {},
        }
        match &self.error_uri {
            Some(u) => {
                subheader.append(" (");
                subheader.append(u.as_str());
                subheader.append(")");
            },
            None => {},
        }
        Headings { title: String::from_str(FAILED_TITLE), subheader }
    }
}

/// The four shapes of an error subheader, one for each combination of an
/// optional description and an optional URI; the description always comes
/// before the URI.
pub proof fn lemma_error_subheader_shapes(error: Seq<char>, description: Seq<char>, uri: Seq<char>)
    ensures
        error_subheader(error, None, None) == error,
        error_subheader(error, Some(description), None) == error + ": "@ + description,
        error_subheader(error, None, Some(uri)) == error + " ("@ + uri + ")"@,
        error_subheader(error, Some(description), Some(uri))
            == error + ": "@ + description + " ("@ + uri + ")"@,
{
}

} // verus!
