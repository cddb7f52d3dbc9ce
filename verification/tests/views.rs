use modo::templates::view::ViewTemplates;

#[test]
fn simple_view_has_no_dual_template() {
    let view = ViewTemplates::new("test.html", None);
    assert!(!view.has_dual_template());
}

#[test]
fn dual_view_has_dual_template() {
    let view = ViewTemplates::new("page.html", Some("partial.html"));
    assert!(view.has_dual_template());
}

#[test]
fn dual_view_picks_partial_for_htmx() {
    let view = ViewTemplates::new("page.html", Some("partial.html"));
    assert_eq!(view.template_for(false), "page.html");
    assert_eq!(view.template_for(true), "partial.html");
    let single = ViewTemplates::new("test.html", None);
    assert_eq!(single.template_for(true), "test.html");
}
