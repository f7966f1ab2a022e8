use game_night::templating::{render_template, template_texts, TemplateValue};

fn text(s: &str) -> TemplateValue {
    TemplateValue::Text(s.to_string())
}

fn notification() -> TemplateValue {
    TemplateValue::Object(vec![
        ("title".to_string(), text("Hi {{ name }}")),
        ("silent".to_string(), TemplateValue::Bool(false)),
        ("ttl".to_string(), TemplateValue::Number("60".to_string())),
        (
            "actions".to_string(),
            TemplateValue::Array(vec![
                TemplateValue::Object(vec![("title".to_string(), text("Open {{ poll }}"))]),
                TemplateValue::Null,
            ]),
        ),
        ("body".to_string(), text("Bye")),
    ])
}

#[test]
fn texts_are_listed_in_order() {
    assert_eq!(vec!["Hi {{ name }}", "Open {{ poll }}", "Bye"], template_texts(&notification()));
    assert!(template_texts(&TemplateValue::Number("1".to_string())).is_empty());
}

#[test]
fn rendering_replaces_only_the_texts() {
    let rendered = vec!["Hi Ada".to_string(), "Open poll 3".to_string(), "Bye".to_string()];
    let result = render_template(&notification(), &rendered).unwrap();
    assert_eq!(rendered, template_texts(&result));
    match result {
        TemplateValue::Object(entries) => {
            let keys: Vec<&str> = entries.iter().map(|(k, _)| k.as_str()).collect();
            assert_eq!(vec!["title", "silent", "ttl", "actions", "body"], keys);
            assert!(matches!(entries[1].1, TemplateValue::Bool(false)));
            assert!(matches!(&entries[2].1, TemplateValue::Number(n) if n == "60"));
            assert!(matches!(&entries[3].1, TemplateValue::Array(items) if items.len() == 2));
        }
        other => panic!("unexpected {other:?}"),
    }
}

#[test]
fn rendered_texts_must_match_in_number() {
    assert!(render_template(&notification(), &["x".to_string()]).is_none());
    assert!(render_template(&TemplateValue::Null, &[]).is_some());
}
