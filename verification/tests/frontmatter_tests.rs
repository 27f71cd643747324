use agent_sessions::frontmatter::{parse_frontmatter, skill_from_markdown};
use agent_sessions::usage::TokenUsage;

#[test]
fn frontmatter_name_and_description() {
    let content = "---\nname: greeter\ndescription: Says hello\n---\n# Title\nBody text\n";
    let (name, desc) = parse_frontmatter(content, "fallback");
    assert_eq!(name, "greeter");
    assert_eq!(desc, "Says hello");
}

#[test]
fn frontmatter_quoted_values_are_unwrapped() {
    let content = "---\nname: \"quoted name\"\ndescription: 'single'\n---\n";
    let (name, desc) = parse_frontmatter(content, "fallback");
    assert_eq!(name, "quoted name");
    assert_eq!(desc, "single");
}

#[test]
fn missing_description_falls_back_to_first_content_line() {
    let content = "---\nname: thing\n---\n# Heading\n\nThe real first line.\nMore.\n";
    let (name, desc) = parse_frontmatter(content, "fallback");
    assert_eq!(name, "thing");
    assert_eq!(desc, "The real first line.");
}

#[test]
fn no_frontmatter_uses_default_name_and_first_line() {
    let content = "# Big title\nIt does things.\n";
    let (name, desc) = parse_frontmatter(content, "my-skill");
    assert_eq!(name, "my-skill");
    assert_eq!(desc, "It does things.");
}

#[test]
fn unclosed_frontmatter_keeps_defaults() {
    let (name, desc) = parse_frontmatter("---\nname: half\n", "fallback");
    assert_eq!(name, "fallback");
    assert_eq!(desc, "Custom skill: fallback");
}

#[test]
fn empty_file_synthesizes_description() {
    let (name, desc) = parse_frontmatter("", "bare");
    assert_eq!(name, "bare");
    assert_eq!(desc, "Custom skill: bare");
}

#[test]
fn empty_frontmatter_value_is_ignored() {
    let content = "---\nname:\ndescription: kept\n---\n";
    let (name, desc) = parse_frontmatter(content, "fallback");
    assert_eq!(name, "fallback");
    assert_eq!(desc, "kept");
}

#[test]
fn skill_entry_carries_source_and_path() {
    let content = "---\nname: s\ndescription: d\n---\n";
    let skill = skill_from_markdown(
        content,
        "dir-name",
        "personal".to_string(),
        "/home/u/skills/s/SKILL.md".to_string(),
    );
    assert_eq!(skill.name, "s");
    assert_eq!(skill.description, "d");
    assert_eq!(skill.source, "personal");
    assert_eq!(skill.file_path, "/home/u/skills/s/SKILL.md");
}

#[test]
fn token_usage_fields_default_to_none() {
    let u = TokenUsage {
        input_tokens: Some(1),
        output_tokens: None,
        cache_creation_input_tokens: None,
        cache_read_input_tokens: Some(2),
    };
    assert_eq!(u.input_tokens, Some(1));
    assert_eq!(u.output_tokens, None);
    assert_eq!(u.cache_read_input_tokens, Some(2));
}
