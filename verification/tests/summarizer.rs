use daily::clock::Timestamp;
use daily::config::Config;
use daily::summarizer::engine::{
    extract_markdown_from_response, extract_summary_from_markdown, sanitize_topic,
    DailySummaryResponse, SessionSummaryResponse,
};
use daily::summarizer::{Prompts, SummarizerEngine, TemplateEngine};
use daily::transcript::TranscriptParser;

fn engine() -> SummarizerEngine {
    SummarizerEngine::new(Config::fresh(Some("/home/user"), "agent"))
}

fn pair(key: &str, value: &str) -> (String, String) {
    (key.to_string(), value.to_string())
}

#[test]
fn test_extract_summary_from_markdown() {
    let content = "# Test\n\n## Summary\n\nThis is the summary.\n\n## Next Section\n\nMore content.\n";
    let summary = extract_summary_from_markdown(content);
    assert!(summary.contains("This is the summary"));
}

#[test]
fn test_extract_markdown_from_response() {
    let response =
        "Here is the skill:\n\n```markdown\n---\nname: test-skill\n---\n# Test\n```\n\nDone!";
    let md = extract_markdown_from_response(response);
    assert!(md.contains("name: test-skill"));
}

#[test]
fn test_session_summary_prompt() {
    let prompt = Prompts::session_summary(
        "User: Help me fix a bug\nAssistant: I'll help you.",
        "/home/user/project",
        Some("main"),
    );

    assert!(prompt.contains("Working Directory: /home/user/project"));
    assert!(prompt.contains("Git Branch: main"));
}

#[test]
fn test_daily_summary_prompt() {
    let prompt = Prompts::daily_summary(
        "[{\"title\": \"test\", \"summary\": \"test summary\"}]",
        "2026-01-16",
        None,
    );

    assert!(prompt.contains("2026-01-16"));
}

#[test]
fn test_daily_summary_prompt_with_existing() {
    let prompt = Prompts::daily_summary(
        "[{\"title\": \"new\", \"summary\": \"new summary\"}]",
        "2026-01-16",
        Some("Previous overview content"),
    );

    assert!(prompt.contains("2026-01-16"));
    assert!(prompt.contains("Previous overview content"));
    assert!(prompt.contains("Existing Daily Summary"));
}

#[test]
fn test_render_simple() {
    let vars = vec![pair("name", "World")];

    let result = TemplateEngine::render("Hello, {{name}}!", &vars);
    assert_eq!(result, "Hello, World!");
}

#[test]
fn test_render_multiple_variables() {
    let vars = vec![
        pair("transcript", "User: Hello\nAssistant: Hi there!"),
        pair("cwd", "/home/user/project"),
        pair("language", "en"),
    ];

    let template = "Transcript:\n{{transcript}}\n\nDirectory: {{cwd}}\nLanguage: {{language}}";
    let result = TemplateEngine::render(template, &vars);

    assert!(result.contains("User: Hello"));
    assert!(result.contains("/home/user/project"));
    assert!(result.contains("Language: en"));
}

#[test]
fn test_render_missing_variable() {
    let vars = Vec::new();
    let result = TemplateEngine::render("Hello, {{name}}!", &vars);
    assert_eq!(result, "Hello, {{name}}!");
}

#[test]
fn test_render_repeated_variable() {
    let vars = vec![pair("x", "A")];

    let result = TemplateEngine::render("{{x}} and {{x}}", &vars);
    assert_eq!(result, "A and A");
}

#[test]
fn test_extract_variables() {
    let template = "Hello {{name}}, your {{item}} is ready. {{name}} again.";
    let vars = TemplateEngine::extract_variables(template);

    assert_eq!(vars.len(), 2);
    assert!(vars.contains(&"name".to_string()));
    assert!(vars.contains(&"item".to_string()));
}

#[test]
fn test_extract_variables_empty() {
    let template = "No variables here";
    let vars = TemplateEngine::extract_variables(template);
    assert!(vars.is_empty());
}

#[test]
fn render_applies_the_variables_in_order() {
    let vars = vec![pair("a", "{{b}}"), pair("b", "done")];
    assert_eq!(TemplateEngine::render("{{a}}", &vars), "done");
    let vars = vec![pair("b", "done"), pair("a", "{{b}}")];
    assert_eq!(TemplateEngine::render("{{a}}", &vars), "{{b}}");
    assert_eq!(TemplateEngine::render("", &vars), "");
    assert_eq!(TemplateEngine::render("{{", &vars), "{{");
}

#[test]
fn extract_variables_edge_cases() {
    assert_eq!(TemplateEngine::extract_variables("{{a}}{{b}}{{a}}"), vec!["a", "b"]);
    assert!(TemplateEngine::extract_variables("{{}}").is_empty());
    assert!(TemplateEngine::extract_variables("{{open").is_empty());
    assert_eq!(TemplateEngine::extract_variables("{{a}b}}"), vec!["ab"]);
    assert_eq!(TemplateEngine::extract_variables("{{{x}}"), vec!["{x"]);
    assert_eq!(TemplateEngine::extract_variables("{ {x}} {{y}}"), vec!["y"]);
    assert!(TemplateEngine::extract_variables("").is_empty());
}

#[test]
fn extract_json_from_fence_braces_or_whole() {
    let e = engine();
    assert_eq!(
        e.extract_json("Sure:\n```json\n{\"a\": 1}\n```\nbye"),
        "{\"a\": 1}"
    );
    assert_eq!(e.extract_json("```json\n{\"a\": 1}\n```"), "{\"a\": 1}");
    assert_eq!(e.extract_json("noise {\"a\": {\"b\": 2}} tail"), "{\"a\": {\"b\": 2}}");
    assert_eq!(e.extract_json("no json here"), "no json here");
    assert_eq!(e.extract_json("} before {"), "} before {");
    assert_eq!(e.extract_json("```json"), "```json");
    assert_eq!(e.extract_json(""), "");
}

#[test]
fn sanitize_topic_examples() {
    assert_eq!(sanitize_topic("Fix Auth Bug"), "fix-auth-bug");
    assert_eq!(sanitize_topic("  add_dark  mode!! "), "add-dark-mode");
    assert_eq!(sanitize_topic("---"), "session");
    assert_eq!(sanitize_topic(""), "session");
    assert_eq!(sanitize_topic("--a--b--"), "a-b");
    let long = "a".repeat(49) + "-bcd";
    assert_eq!(sanitize_topic(&long), "a".repeat(49));
    let longer = "ab".repeat(40);
    assert_eq!(sanitize_topic(&longer), "ab".repeat(25));
}

#[test]
fn summary_section_examples() {
    assert_eq!(
        extract_summary_from_markdown("## Summary\n\nOnly section.\n"),
        "Only section."
    );
    assert_eq!(
        extract_summary_from_markdown("x\n## Summary\nA\n## Next\nB"),
        "A"
    );
    let plain = "p".repeat(600);
    assert_eq!(extract_summary_from_markdown(&plain), "p".repeat(500));
    assert_eq!(extract_summary_from_markdown("short"), "short");
    assert_eq!(extract_summary_from_markdown("## Summary"), "");
}

#[test]
fn markdown_of_response_examples() {
    assert_eq!(
        extract_markdown_from_response("```markdown\n# A\n```"),
        "# A"
    );
    assert_eq!(extract_markdown_from_response("```md\n# B\n```"), "# B");
    assert_eq!(extract_markdown_from_response("  plain  "), "plain");
    assert_eq!(extract_markdown_from_response("```"), "```");
    assert_eq!(extract_markdown_from_response("```markdown\nopen"), "```markdown\nopen");
    assert_eq!(extract_markdown_from_response(""), "");
}

#[test]
fn session_prompt_without_branch() {
    let prompt = Prompts::session_summary("T", "/c", None);
    assert!(prompt.contains("- Git Branch: N/A\n"));
    assert!(prompt.contains("\n\nTranscript:\nT\n\nGenerate a JSON response"));
    assert!(prompt.ends_with("Output ONLY the JSON block, no additional text."));
    assert!(prompt.contains("## Skill Quality Gate (沉淀三问)\n"));
    assert!(prompt.contains("1. **踩过坑吗？** Did debugging"));
    assert!(prompt.contains("2. **下次还会遇到吗？** Is this a recurring problem"));
    assert!(prompt.contains("3. **能说清楚吗？** Can the solution"));
}

#[test]
fn daily_prompt_modes() {
    let evening = Timestamp::new(1_700_000_000, 0, 0).unwrap();
    let merged = Prompts::daily_summary_at("[1]", "2026-01-16", Some("OLD"), &evening);
    assert!(merged.starts_with(
        "You are analyzing coding-assistant sessions from 2026-01-16. Generate a daily summary."
    ));
    assert!(merged.contains("- Current time: 22:13 (晚上)\n"));
    assert!(merged.contains("## Existing Daily Summary (from previous digest)"));
    assert!(merged.contains("```\nOLD\n```"));
    assert!(merged.contains("## Sessions (JSON format):\n[1]"));

    let regenerated = Prompts::daily_summary_at(" [] ", "2026-01-16", Some("OLD"), &evening);
    assert!(regenerated.contains("## REGENERATE MODE"));
    assert!(!regenerated.contains("## Sessions (JSON format):"));

    let fresh = Prompts::daily_summary_at("[]", "2026-01-16", None, &evening);
    assert!(!fresh.contains("REGENERATE MODE"));
    assert!(!fresh.contains("Existing Daily Summary"));
    assert!(fresh.contains("## Sessions (JSON format):\n[]"));
}

#[test]
fn daily_prompt_names_the_part_of_the_day() {
    let at_hour = |h: i64| Timestamp::new(1_699_920_000 + h * 3600, 0, 0).unwrap();
    let period = |h: i64| {
        let p = Prompts::daily_summary_at("[1]", "d", None, &at_hour(h));
        let start = p.find("- Current time: ").unwrap();
        let line = p[start..].lines().next().unwrap().to_string();
        line
    };
    assert_eq!(period(0), "- Current time: 00:00 (凌晨)");
    assert_eq!(period(5), "- Current time: 05:00 (凌晨)");
    assert_eq!(period(6), "- Current time: 06:00 (早上)");
    assert_eq!(period(11), "- Current time: 11:00 (早上)");
    assert_eq!(period(12), "- Current time: 12:00 (下午)");
    assert_eq!(period(17), "- Current time: 17:00 (下午)");
    assert_eq!(period(18), "- Current time: 18:00 (晚上)");
    assert_eq!(period(23), "- Current time: 23:00 (晚上)");
}

#[test]
fn skill_and_command_prompts() {
    let now = Timestamp::new(1_700_000_000, 0, 0).unwrap();
    let skill = Prompts::extract_skill_at("SUM", None, &now);
    assert!(skill.contains("## Session Summary:\nSUM\n\nSkill Hint: Based on patterns in the session"));
    assert!(skill.contains("origin: \"2023-11-14/session-name\""));
    assert!(skill.contains("1. **踩过坑吗？** Was there trial-and-error"));
    assert!(skill.contains("2. **下次还会遇到吗？** Is this"));
    assert!(skill.contains("3. **能说清楚吗？** Can the solution"));
    let hinted = Prompts::extract_skill_at("SUM", Some("HINT"), &now);
    assert!(hinted.contains("Skill Hint: HINT\n"));
    assert!(Prompts::extract_skill("SUM", None).contains("SUM"));

    let command = Prompts::extract_command("SUM", Some("HINT"));
    assert!(command.contains("Session Summary:\nSUM\n\nCommand Hint: HINT\n"));
    let unhinted = Prompts::extract_command("SUM", None);
    assert!(unhinted.contains("Command Hint: Based on patterns in the session"));
}

#[test]
fn summarizer_arguments() {
    assert_eq!(
        engine().invoke_args(),
        vec![
            "--model",
            "sonnet",
            "--print",
            "-p",
            "--settings",
            "{\"hooks\":{}}",
            "--no-session-persistence",
            "--strict-mcp-config"
        ]
    );
    assert_eq!(engine().settings().summarization.model, "sonnet");
}

#[test]
fn archive_of_a_summarized_session() {
    let response = SessionSummaryResponse {
        topic: "Fix Auth Bug".into(),
        summary: "S".into(),
        decisions: "D".into(),
        learnings: "L".into(),
        skill_hints: "H".into(),
    };
    let data = TranscriptParser::parse(Vec::new());
    let now = Timestamp::new(1_700_000_000, 0, 0).unwrap();
    let archive = engine().summarize_session_at(
        "/p/x/abc123.jsonl",
        "/work",
        Some("main".to_string()),
        &data,
        response,
        &now,
    );
    assert_eq!(archive.title, "22_13-fix-auth-bug");
    assert_eq!(archive.date, "2023-11-14");
    assert_eq!(archive.session_id, "abc123");
    assert_eq!(archive.cwd, "/work");
    assert_eq!(archive.git_branch, Some("main".to_string()));
    assert_eq!(archive.transcript_path, Some("/p/x/abc123.jsonl".to_string()));
    assert_eq!(archive.code_changes, "_No files modified._");
    assert_eq!(archive.summary, "S");
}

#[test]
fn daily_summary_of_a_response() {
    assert!(!SummarizerEngine::has_material(0, false));
    assert!(SummarizerEngine::has_material(1, false));
    assert!(SummarizerEngine::has_material(0, true));
    let response = DailySummaryResponse {
        overview: "O".into(),
        session_details: "D".into(),
        insights: "I".into(),
        skills: "S".into(),
        commands: "C".into(),
        reflections: "R".into(),
        tomorrow_focus: "T".into(),
    };
    let summary =
        SummarizerEngine::update_daily_summary("2026-01-16", vec!["a".to_string()], response);
    assert_eq!(summary.date, "2026-01-16");
    assert_eq!(summary.sessions, vec!["a"]);
    assert_eq!(summary.overview, "O");
    assert_eq!(summary.tomorrow_focus, "T");
}
