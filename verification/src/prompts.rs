use vstd::prelude::*;

verus! {

// The three fixed instruction templates. They are opaque payloads to the
// chat exchange: it never parses or validates them, it only places them in
// the system message of a request.

pub open spec fn spec_commit_prompt() -> Seq<char> {
    "Generate a commit message from this diff.\nFormat: <type>(<scope>): <description>\nTypes: feat|fix|docs|refactor|test|chore\nRules: lowercase, imperative mood, max 50 chars, no period\nOutput ONLY the message."@
}

pub open spec fn spec_pr_title_prompt() -> Seq<char> {
    "Generate a PR title from this diff.\nFormat: <type>(<scope>): <description>\nTypes: feat|fix|docs|refactor|test|chore\nRules: lowercase, imperative mood, max 50 chars\nOutput ONLY the title."@
}

pub open spec fn spec_pr_body_prompt() -> Seq<char> {
    "Generate a PR description from this diff.\nFormat:\n## Summary\n<1-2 sentences>\n\n## Changes\n<bullet points>\n\nBe concise. Output ONLY the description."@
}

/// Instruction template for a commit message.
pub fn commit_prompt() -> (r: &'static str)
    ensures
        r@ == spec_commit_prompt(),
{
    "Generate a commit message from this diff.\nFormat: <type>(<scope>): <description>\nTypes: feat|fix|docs|refactor|test|chore\nRules: lowercase, imperative mood, max 50 chars, no period\nOutput ONLY the message."
}

/// Instruction template for a pull-request title.
pub fn pr_title_prompt() -> (r: &'static str)
    ensures
        r@ == spec_pr_title_prompt(),
{
    "Generate a PR title from this diff.\nFormat: <type>(<scope>): <description>\nTypes: feat|fix|docs|refactor|test|chore\nRules: lowercase, imperative mood, max 50 chars\nOutput ONLY the title."
}

/// Instruction template for a pull-request description.
pub fn pr_body_prompt() -> (r: &'static str)
    ensures
        r@ == spec_pr_body_prompt(),
{
    "Generate a PR description from this diff.\nFormat:\n## Summary\n<1-2 sentences>\n\n## Changes\n<bullet points>\n\nBe concise. Output ONLY the description."
}

} // verus!
