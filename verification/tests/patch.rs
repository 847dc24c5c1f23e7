use botman::github::action::common::{GitApplyPatch, PatchError};

fn patch(text: &str) -> Result<String, PatchError> {
    GitApplyPatch::try_from(text.to_owned()).map(|p| p.patch)
}

#[test]
fn fenced_patch_is_taken_out() {
    assert_eq!(
        patch("```diff\n--- a/file\n+++ b/file\n@@ -1 +1 @@\n-old\n+new\n```"),
        Ok("--- a/file\n+++ b/file\n@@ -1 +1 @@\n-old\n+new\n".to_owned())
    );
}

#[test]
fn patch_loses_leading_whitespace_and_carriage_returns() {
    assert_eq!(
        patch("\r\n \t```diff\r\n-old\r\n+new\r\n```"),
        Ok("-old\n+new\n".to_owned())
    );
    assert_eq!(patch("```diff\n+a\rb\n```"), Ok("+ab\n".to_owned()));
}

#[test]
fn patch_with_an_empty_block_is_empty() {
    assert_eq!(patch("```diff\n```"), Ok("".to_owned()));
    assert_eq!(patch("```diff"), Ok("".to_owned()));
    assert_eq!(patch("```diff\n"), Ok("".to_owned()));
}

#[test]
fn patch_without_a_closing_fence_is_what_follows_the_header() {
    assert_eq!(patch("```diff\n+a\n+b"), Ok("+a\n+b".to_owned()));
    assert_eq!(patch("```diff\n+a\n+b\n"), Ok("+a\n+b\n".to_owned()));
}

#[test]
fn fence_line_closes_the_block_with_or_without_its_line_feed() {
    assert_eq!(patch("```diff\n+a\n```\n"), Ok("+a\n".to_owned()));
    assert_eq!(patch("```diff\n+a\n```"), Ok("+a\n".to_owned()));
    assert_eq!(patch("```diff\r\n+a\r\n```\r\n"), Ok("+a\n".to_owned()));
    assert_eq!(patch("```diff\n```\n"), Ok("".to_owned()));
}

#[test]
fn what_follows_the_closing_fence_is_left_out() {
    assert_eq!(patch("```diff\n+a\n```\nmore\n```"), Ok("+a\n".to_owned()));
    assert_eq!(patch("```diff\n+a\n```\n\nThanks!\n"), Ok("+a\n".to_owned()));
    assert_eq!(patch("```diff\n+a\n```\n+b\n```\n"), Ok("+a\n".to_owned()));
}

#[test]
fn only_the_fence_alone_closes_the_block() {
    assert_eq!(patch("```diff\n+a\n``` "), Ok("+a\n``` ".to_owned()));
    assert_eq!(patch("```diff\n+a\n ```"), Ok("+a\n ```".to_owned()));
    assert_eq!(patch("```diff\n+a\n``` \n+b\n"), Ok("+a\n``` \n+b\n".to_owned()));
    assert_eq!(patch("```diff\n+a\n````\n"), Ok("+a\n````\n".to_owned()));
    assert_eq!(patch("```diff\n+a\n```diff\n+b\n```"), Ok("+a\n```diff\n+b\n".to_owned()));
}

#[test]
fn block_after_leading_whitespace_and_with_carriage_returns() {
    assert_eq!(
        patch(" \n\t```diff\r\n--- a/x\r\n+++ b/x\r\n```\r\ntrailing"),
        Ok("--- a/x\n+++ b/x\n".to_owned())
    );
}

#[test]
fn header_may_say_more_than_diff() {
    assert_eq!(patch("```diff title\n+a\n```"), Ok("+a\n".to_owned()));
    assert_eq!(patch("```differently\n+a\n```"), Ok("+a\n".to_owned()));
}

#[test]
fn patch_without_text_has_no_header() {
    assert_eq!(patch(""), Err(PatchError::NoHeader));
    assert_eq!(patch(" \n\t\r\n"), Err(PatchError::NoHeader));
    assert_eq!(patch("\r\r"), Err(PatchError::NoHeader));
    assert_eq!(PatchError::NoHeader.message(), "No header.");
}

#[test]
fn patch_without_the_diff_header_is_no_diff() {
    assert_eq!(patch("```\n+a\n```"), Err(PatchError::NotADiff));
    assert_eq!(patch("```dif\nf\n```"), Err(PatchError::NotADiff));
    assert_eq!(patch("+a\n```diff\n+a\n```"), Err(PatchError::NotADiff));
    assert_eq!(patch("``` diff\n+a\n```"), Err(PatchError::NotADiff));
    assert_eq!(patch("x"), Err(PatchError::NotADiff));
    assert_eq!(PatchError::NotADiff.message(), "Not a diff.");
}
