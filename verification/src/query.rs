//! The query that asks the remote service for one page of a commit's
//! history.

use vstd::prelude::*;
use crate::outcome::SearchError;

verus! {

/// The history query as a Handlebars template over `commit`, the expression
/// that names the commit whose history is asked for, and `cursor`, after
/// which the page starts. With an empty cursor the page starts at the commit
/// itself. A page holds up to 100 commits.
pub const HISTORY_TEMPLATE: &'static str = r#"
{
  repository(owner: "rust-lang", name: "rust") {
    object(expression: "{{commit}}") {
      ... on Commit {
        history(first:100, {{#if cursor}}after: "{{cursor}}"{{/if}}) {
          nodes {
            id
            oid
            committedDate
          }
          pageInfo {
            endCursor
          }
        }
      }
    }
  }
}
"#;

/// `handlebars::RenderError`, why a template did not render: opaque, never
/// read.
#[verifier::external_type_specification]
#[verifier::external_body]
pub struct ExRenderError(handlebars::RenderError);

/// The text that a Handlebars template renders to over two named strings, or
/// `None` where rendering fails.
pub uninterp spec fn rendered_template(
    template: Seq<char>,
    first_name: Seq<char>,
    first_value: Seq<char>,
    second_name: Seq<char>,
    second_value: Seq<char>,
) -> Option<Seq<char>>;

/// `handlebars::Handlebars::render_template` on a registry fresh from
/// `Handlebars::new`, over a map that holds the two named strings. Claimed,
/// for `HISTORY_TEMPLATE` only: the call returns, and its outcome depends on
/// the template and the four strings alone. Other templates are left out: one
/// with an inline partial that includes itself is expanded without end.
#[verifier::external_body]
fn render_template(
    template: &str,
    first_name: &str,
    first_value: &str,
    second_name: &str,
    second_value: &str,
) -> (r: Result<String, handlebars::RenderError>)
    requires
        template@ == HISTORY_TEMPLATE@,
    ensures
        match r {
            Ok(text) => rendered_template(
                template@,
                first_name@,
                first_value@,
                second_name@,
                second_value@,
            ) == Some(text@),
            Err(_) => rendered_template(
                template@,
                first_name@,
                first_value@,
                second_name@,
                second_value@,
            ) is None,
        },
{
    let mut data = std::collections::BTreeMap::new();
    data.insert(first_name, first_value);
    data.insert(second_name, second_value);
    handlebars::Handlebars::new().render_template(template, &data)
}

/// The query for the page of `root`'s history that starts after `cursor`, or
/// `None` where the template does not render.
pub open spec fn history_query_text(root: Seq<char>, cursor: Seq<char>) -> Option<Seq<char>> {
    rendered_template(HISTORY_TEMPLATE@, "cursor"@, cursor, "commit"@, root)
}

/// Writes the query for the page of `root`'s history that starts after
/// `cursor`; an empty cursor asks for the first page.
pub fn history_query(root: &str, cursor: &str) -> (r: Result<String, SearchError>)
    ensures
        match r {
            Ok(query) => history_query_text(root@, cursor@) == Some(query@),
            Err(e) => e == SearchError::Template && history_query_text(root@, cursor@) is None,
        },
{
    match render_template(HISTORY_TEMPLATE, "cursor", cursor, "commit", root) {
        Ok(query) => Ok(query),
        Err(_) => Err(SearchError::Template),
    }
}

} // verus!
