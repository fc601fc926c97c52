use llm_agent::tool::ToolBox;
use llm_agent::tool::ToolDescriptor;

fn descriptor(name: &str, schema: &str) -> ToolDescriptor {
    ToolDescriptor {
        name: name.to_string(),
        description: None,
        parameters: schema.to_string(),
        strict: false,
    }
}

#[test]
fn lookup_resolves_registered_tool() {
    let mut b = ToolBox::new();
    b.add_tool(descriptor("read_file", "{\"type\":\"object\"}"));
    let d = b.lookup("read_file").expect("registered tool resolves");
    assert_eq!(d.parameters, "{\"type\":\"object\"}");
    assert!(b.lookup("list_dir").is_none());
}

#[test]
fn duplicate_registration_last_wins() {
    let mut b = ToolBox::new();
    b.add_tool(descriptor("t", "first schema"));
    b.add_tool(descriptor("t", "second schema"));
    let d = b.lookup("t").expect("name still resolves");
    assert_eq!(d.parameters, "second schema");
    // The registry holds one entry per name.
    assert_eq!(b.tools.len(), 1);
}

#[test]
fn overwrite_keeps_other_names() {
    let mut b = ToolBox::new();
    b.add_tool(descriptor("a", "sa"));
    b.add_tool(descriptor("b", "sb"));
    b.add_tool(descriptor("a", "sa2"));
    assert_eq!(b.lookup("a").unwrap().parameters, "sa2");
    assert_eq!(b.lookup("b").unwrap().parameters, "sb");
    assert_eq!(b.tools.len(), 2);
}

#[test]
fn catalog_copies_every_descriptor() {
    let mut b = ToolBox::new();
    b.add_tool(descriptor("a", "sa"));
    b.add_tool(descriptor("b", "sb"));
    let catalog = b.openai_objects();
    assert_eq!(catalog.len(), 2);
    let names: Vec<&str> = catalog.iter().map(|d| d.name.as_str()).collect();
    assert!(names.contains(&"a"));
    assert!(names.contains(&"b"));
}

#[test]
fn empty_registry_resolves_nothing() {
    let b = ToolBox::new();
    assert!(b.lookup("").is_none());
    assert!(b.lookup("anything").is_none());
    assert_eq!(b.openai_objects().len(), 0);
}
