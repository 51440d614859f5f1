use module_bridge::{Binding, BridgeError, Field, InfoPayload, Library, ModuleInfo, SchemaFault};

fn payload() -> InfoPayload {
    let loader = Library::load(b"libdemo.so").unwrap();
    let mut resolver = loader.image(Ok(())).unwrap();
    let library = loop {
        match resolver.bind(Ok(64)).unwrap() {
            Binding::Pending(next) => resolver = next,
            Binding::Complete(library) => break library,
        }
    };
    library.info("tests").unwrap().reply(0).unwrap()
}

fn foo() -> ModuleInfo {
    ModuleInfo {
        name: "Foo".to_string(),
        description: "Bar".to_string(),
        manufacturer: "Baz".to_string(),
        components: vec!["a".to_string(), "b".to_string()],
    }
}

fn member_fault(field: Field) -> BridgeError {
    BridgeError::Schema { fault: SchemaFault::Member { field } }
}

fn is_syntax_fault(r: Result<ModuleInfo, BridgeError>) -> bool {
    match r {
        Err(BridgeError::Schema { fault: SchemaFault::Syntax { message } }) => !message.is_empty(),
        _ => false,
    }
}

#[test]
fn info_payload_round_trip() {
    let bytes = br#"{"Name":"Foo","Description":"Bar","Manufacturer":"Baz","Components":["a","b"]}"#;
    let info = payload().decode(bytes).unwrap();
    assert_eq!(info.name, "Foo");
    assert_eq!(info.description, "Bar");
    assert_eq!(info.manufacturer, "Baz");
    assert_eq!(info.components, vec!["a".to_string(), "b".to_string()]);
    assert_eq!(info, foo());
}

#[test]
fn member_order_and_whitespace_do_not_matter() {
    let text = " {\n \"Components\" : [ \"a\" , \"b\" ],\n \"Manufacturer\":\"Baz\", \"Name\":\"Foo\",\t\"Description\":\"Bar\" }\n";
    assert_eq!(ModuleInfo::from_json(text), Ok(foo()));
}

#[test]
fn other_members_are_ignored() {
    let text = r#"{"Version":[1,2,{"x":null}],"Name":"Foo","Description":"Bar","Manufacturer":"Baz","Components":["a","b"],"name":7}"#;
    assert_eq!(ModuleInfo::from_json(text), Ok(foo()));
}

#[test]
fn empty_components_and_empty_texts_are_a_descriptor() {
    let text = r#"{"Name":"","Description":"","Manufacturer":"","Components":[]}"#;
    let info = ModuleInfo::from_json(text).unwrap();
    assert_eq!(info.name, "");
    assert!(info.components.is_empty());
}

#[test]
fn escapes_are_decoded() {
    let text = r#"{"Name":"Föo\n","Description":"\"Bar\"","Manufacturer":"B\\z","Components":["€"]}"#;
    let info = ModuleInfo::from_json(text).unwrap();
    assert_eq!(info.name, "F\u{f6}o\n");
    assert_eq!(info.description, "\"Bar\"");
    assert_eq!(info.manufacturer, "B\\z");
    assert_eq!(info.components, vec!["\u{20ac}".to_string()]);
}

#[test]
fn text_that_is_not_json_is_a_syntax_fault() {
    for text in ["", "not json", "{", "{\"Name\":\"Foo\"", "{\"Name\":\"Foo\",}", "[1,2", "{} trailing", "{'Name':'Foo'}"] {
        assert!(is_syntax_fault(ModuleInfo::from_json(text)), "{text}");
    }
    assert!(is_syntax_fault(payload().decode(b"\xff\xfe")));
    assert!(is_syntax_fault(payload().decode(b"")));
}

#[test]
fn missing_member_is_a_member_fault() {
    let cases = [
        (r#"{"Description":"Bar","Manufacturer":"Baz","Components":[]}"#, Field::Name),
        (r#"{"Name":"Foo","Manufacturer":"Baz","Components":[]}"#, Field::Description),
        (r#"{"Name":"Foo","Description":"Bar","Components":[]}"#, Field::Manufacturer),
        (r#"{"Name":"Foo","Description":"Bar","Manufacturer":"Baz"}"#, Field::Components),
        (r#"{}"#, Field::Name),
        (r#"{"Name":"Foo"}"#, Field::Description),
    ];
    for (text, field) in cases {
        assert_eq!(ModuleInfo::from_json(text), Err(member_fault(field)), "{text}");
        assert_eq!(payload().decode(text.as_bytes()), Err(member_fault(field)), "{text}");
    }
}

#[test]
fn member_names_are_case_sensitive() {
    let text = r#"{"name":"Foo","description":"Bar","manufacturer":"Baz","components":["a","b"]}"#;
    assert_eq!(ModuleInfo::from_json(text), Err(member_fault(Field::Name)));
    let text = r#"{"Name":"Foo","Description":"Bar","Manufacturer":"Baz","COMPONENTS":["a","b"]}"#;
    assert_eq!(ModuleInfo::from_json(text), Err(member_fault(Field::Components)));
}

#[test]
fn member_of_the_wrong_type_is_a_member_fault() {
    let cases = [
        (r#"{"Name":1,"Description":"Bar","Manufacturer":"Baz","Components":[]}"#, Field::Name),
        (r#"{"Name":"Foo","Description":null,"Manufacturer":"Baz","Components":[]}"#, Field::Description),
        (r#"{"Name":"Foo","Description":"Bar","Manufacturer":["Baz"],"Components":[]}"#, Field::Manufacturer),
        (r#"{"Name":"Foo","Description":"Bar","Manufacturer":"Baz","Components":"a"}"#, Field::Components),
        (r#"{"Name":"Foo","Description":"Bar","Manufacturer":"Baz","Components":{"a":"b"}}"#, Field::Components),
        (r#"{"Name":"Foo","Description":"Bar","Manufacturer":"Baz","Components":["a",2]}"#, Field::Components),
        (r#"{"Name":"Foo","Description":"Bar","Manufacturer":"Baz","Components":[["a"]]}"#, Field::Components),
    ];
    for (text, field) in cases {
        assert_eq!(ModuleInfo::from_json(text), Err(member_fault(field)), "{text}");
    }
}

#[test]
fn document_that_is_no_object_is_a_member_fault() {
    for text in ["null", "true", "3", "\"Name\"", "[]", r#"["Foo","Bar","Baz",["a","b"]]"#] {
        assert_eq!(ModuleInfo::from_json(text), Err(member_fault(Field::Name)), "{text}");
    }
}

#[test]
fn first_faulty_member_is_reported() {
    let text = r#"{"Name":"Foo","Description":2,"Manufacturer":3,"Components":4}"#;
    assert_eq!(ModuleInfo::from_json(text), Err(member_fault(Field::Description)));
}

#[test]
fn invalid_utf8_in_a_payload_is_replaced() {
    let mut bytes = br#"{"Name":"F"#.to_vec();
    bytes.push(0xff);
    bytes.extend_from_slice(br#"o","Description":"Bar","Manufacturer":"Baz","Components":[]}"#);
    let info = payload().decode(&bytes).unwrap();
    assert_eq!(info.name, "F\u{fffd}o");
}

#[test]
fn from_document_reads_a_built_value() {
    let mut object = serde_json::Map::new();
    object.insert("Name".to_string(), serde_json::Value::String("Foo".to_string()));
    object.insert("Description".to_string(), serde_json::Value::String("Bar".to_string()));
    object.insert("Manufacturer".to_string(), serde_json::Value::String("Baz".to_string()));
    object.insert(
        "Components".to_string(),
        serde_json::Value::Array(vec![
            serde_json::Value::String("a".to_string()),
            serde_json::Value::String("b".to_string()),
        ]),
    );
    let mut document = serde_json::Value::Object(object.clone());
    assert_eq!(ModuleInfo::from_document(&document), Ok(foo()));

    object.insert("Manufacturer".to_string(), serde_json::Value::Bool(true));
    document = serde_json::Value::Object(object.clone());
    assert_eq!(ModuleInfo::from_document(&document), Err(member_fault(Field::Manufacturer)));

    object.remove("Name");
    document = serde_json::Value::Object(object);
    assert_eq!(ModuleInfo::from_document(&document), Err(member_fault(Field::Name)));
    assert_eq!(
        ModuleInfo::from_document(&serde_json::Value::Null),
        Err(member_fault(Field::Name))
    );
}

#[test]
fn from_members_names_the_first_absent_member() {
    let s = |t: &str| Some(t.to_string());
    let list = || Some(vec!["a".to_string(), "b".to_string()]);
    assert_eq!(ModuleInfo::from_members(s("Foo"), s("Bar"), s("Baz"), list()), Ok(foo()));
    assert_eq!(ModuleInfo::from_members(None, None, None, None), Err(member_fault(Field::Name)));
    assert_eq!(
        ModuleInfo::from_members(s("Foo"), None, s("Baz"), None),
        Err(member_fault(Field::Description))
    );
    assert_eq!(
        ModuleInfo::from_members(s("Foo"), s("Bar"), None, list()),
        Err(member_fault(Field::Manufacturer))
    );
    assert_eq!(
        ModuleInfo::from_members(s("Foo"), s("Bar"), s("Baz"), None),
        Err(member_fault(Field::Components))
    );
}

#[test]
fn field_names_are_the_json_keys() {
    assert_eq!(Field::Name.name(), "Name");
    assert_eq!(Field::Description.name(), "Description");
    assert_eq!(Field::Manufacturer.name(), "Manufacturer");
    assert_eq!(Field::Components.name(), "Components");
}
