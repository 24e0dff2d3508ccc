use nightly_commit::query::{history_query, HISTORY_TEMPLATE};

const FIRST_PAGE: &str = "
{
  repository(owner: \"rust-lang\", name: \"rust\") {
    object(expression: \"deadbeef\") {
      ... on Commit {
        history(first:100, ) {
          nodes {
            id
            oid
            committedDate
          }
          pageInfo {
            endCursor
          }
        }
      }
    }
  }
}
";

#[test]
fn history_query_for_the_first_page_names_no_cursor() {
    assert_eq!(history_query("deadbeef", ""), Ok(FIRST_PAGE.to_string()));
}

#[test]
fn history_query_for_a_later_page_starts_after_the_cursor() {
    let expected = FIRST_PAGE.replace("first:100, )", "first:100, after: \"deadbeef 99\")");
    assert_eq!(history_query("deadbeef", "deadbeef 99"), Ok(expected));
}

#[test]
fn history_query_puts_the_commit_in_the_expression() {
    let query = history_query("0123456789abcdef0123456789abcdef01234567", "").unwrap();
    assert!(query.contains("object(expression: \"0123456789abcdef0123456789abcdef01234567\")"));
    assert!(!query.contains("after:"));
    assert_ne!(query, HISTORY_TEMPLATE);
}

#[test]
fn history_query_escapes_markup_characters() {
    let query = history_query("a\"b", "x<y").unwrap();
    assert!(query.contains("object(expression: \"a&quot;b\")"));
    assert!(query.contains("after: \"x&lt;y\""));
}

#[test]
fn history_template_asks_for_a_hundred_commits() {
    assert!(HISTORY_TEMPLATE.contains("history(first:100, "));
    assert!(HISTORY_TEMPLATE.contains("repository(owner: \"rust-lang\", name: \"rust\")"));
}
