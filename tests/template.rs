use wikipedia_extractor::template::parse_template_invocation;
use wikipedia_extractor::TemplateInvocation;

#[test]
fn test_parse_simple_template() {
    let input = "{{TemplateName}}";
    let invocation = parse_template_invocation(input).unwrap();
    assert_eq!(invocation.name, "TemplateName");
    assert!(invocation.params.is_empty());
}

#[test]
fn test_parse_template_with_params() {
    let input = "{{TemplateName|param1=value1|value2}}";
    let invocation = parse_template_invocation(input).unwrap();
    assert_eq!(invocation.name, "TemplateName");
    assert_eq!(invocation.params, vec!["param1=value1".to_string(), "value2".to_string()]);
}

#[test]
fn test_parse_invalid_template() {
    let input = "{TemplateName}";
    assert!(parse_template_invocation(input).is_none());
}

#[test]
fn template_call_inside_text() {
    let invocation = parse_template_invocation("see {{Cite|url=x}} here").unwrap();
    assert_eq!(
        invocation,
        TemplateInvocation { name: "Cite".to_string(), params: vec!["url=x".to_string()] }
    );
}

#[test]
fn template_with_empty_parameter_text() {
    let invocation = parse_template_invocation("{{A|}}").unwrap();
    assert_eq!(invocation.name, "A");
    assert!(invocation.params.is_empty());
    let invocation = parse_template_invocation("{{A|x||y}}").unwrap();
    assert_eq!(invocation.params, vec!["x".to_string(), String::new(), "y".to_string()]);
}

#[test]
fn template_name_runs_to_last_closing_braces() {
    let invocation = parse_template_invocation("{{A}} and {{B}}").unwrap();
    assert_eq!(invocation.name, "A}} and {{B");
    assert!(invocation.params.is_empty());
}

#[test]
fn template_without_name_or_close_is_rejected() {
    assert!(parse_template_invocation("{{}}").is_none());
    assert!(parse_template_invocation("{{|x}}").is_none());
    assert!(parse_template_invocation("{{Open").is_none());
    assert!(parse_template_invocation("").is_none());
}

#[test]
fn template_parameters_stop_at_line_end() {
    assert!(parse_template_invocation("{{A|x\n}}").is_none());
    let invocation = parse_template_invocation("{{A\nB}}").unwrap();
    assert_eq!(invocation.name, "A\nB");
}
