use git_relax::prompts;

#[test]
fn commit_prompt_states_format_and_tags() {
    let p = prompts::commit_prompt();
    assert!(p.contains("commit message"));
    assert!(p.contains("<type>(<scope>): <description>"));
    assert!(p.contains("feat|fix|docs|refactor|test|chore"));
    assert!(p.contains("lowercase, imperative mood, max 50 chars, no period"));
    assert!(p.contains("Output ONLY the message."));
}

#[test]
fn pr_title_prompt_states_format_and_tags() {
    let p = prompts::pr_title_prompt();
    assert!(p.contains("PR title"));
    assert!(p.contains("<type>(<scope>): <description>"));
    assert!(p.contains("feat|fix|docs|refactor|test|chore"));
    assert!(p.contains("lowercase, imperative mood, max 50 chars"));
    assert!(p.contains("Output ONLY the title."));
}

#[test]
fn pr_body_prompt_asks_for_summary_and_changes() {
    let p = prompts::pr_body_prompt();
    assert!(p.contains("PR description"));
    assert!(p.contains("## Summary"));
    assert!(p.contains("## Changes"));
    assert!(p.contains("Output ONLY the description."));
}

#[test]
fn the_three_prompts_differ() {
    assert_ne!(prompts::commit_prompt(), prompts::pr_title_prompt());
    assert_ne!(prompts::commit_prompt(), prompts::pr_body_prompt());
    assert_ne!(prompts::pr_title_prompt(), prompts::pr_body_prompt());
}
