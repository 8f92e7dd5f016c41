use lyserver::metadata::{
    LYServerManifestError, LYServerManifestField, LYServerManifestValue, LYServerPluginMetadata,
    LYServerPluginMetadataBuilder,
};

#[test]
fn builder_starts_empty() {
    let metadata = LYServerPluginMetadata::builder().build();
    assert_eq!(metadata, LYServerPluginMetadata::default());
    assert_eq!(metadata.id, "");
    assert_eq!(metadata.name, "");
    assert_eq!(metadata.description, "");
    assert_eq!(metadata.version, "");
    assert_eq!(metadata.author, "");
    assert_eq!(metadata.wasm_entry_point, None);
    assert_eq!(LYServerPluginMetadataBuilder::default().build(), metadata);
}

#[test]
fn builder_sets_each_field() {
    let metadata = LYServerPluginMetadata::builder()
        .id("hello@lyserver.local")
        .name("Hello")
        .description("Says hello")
        .version("1.2.3")
        .author("Somebody")
        .wasm_entry_point("hello.wasm")
        .build();
    assert_eq!(metadata.id, "hello@lyserver.local");
    assert_eq!(metadata.name, "Hello");
    assert_eq!(metadata.description, "Says hello");
    assert_eq!(metadata.version, "1.2.3");
    assert_eq!(metadata.author, "Somebody");
    assert_eq!(metadata.wasm_entry_point, Some("hello.wasm".to_string()));
    assert_eq!(metadata.clone(), metadata);
}

#[test]
fn builder_keeps_the_last_value() {
    let metadata = LYServerPluginMetadata::builder().id("a").id("b").name("n").build();
    assert_eq!(metadata.id, "b");
    assert_eq!(metadata.name, "n");
}

const MANIFEST: &str = r#"
id = "hello@lyserver.local"
name = "Hello"
description = "Says hello"
version = "0.1.0"
author = "Somebody"
wasm_entry_point = "hello.wasm"
homepage = "https://example.invalid"
weight = 3

[extra]
key = "value"
"#;

#[test]
fn manifest_is_read() {
    let metadata = LYServerPluginMetadata::from_manifest(MANIFEST).unwrap();
    assert_eq!(metadata.id, "hello@lyserver.local");
    assert_eq!(metadata.name, "Hello");
    assert_eq!(metadata.description, "Says hello");
    assert_eq!(metadata.version, "0.1.0");
    assert_eq!(metadata.author, "Somebody");
    assert_eq!(metadata.wasm_entry_point, Some("hello.wasm".to_string()));
}

#[test]
fn manifest_without_entry_point() {
    let text = "id = \"a\"\nname = \"b\"\ndescription = \"c\"\nversion = \"d\"\nauthor = \"e\"\n";
    let metadata = LYServerPluginMetadata::from_manifest(text).unwrap();
    assert_eq!(metadata.wasm_entry_point, None);
    assert_eq!(metadata.author, "e");
}

#[test]
fn manifest_that_is_no_toml() {
    assert_eq!(
        LYServerPluginMetadata::from_manifest("id = "),
        Err(LYServerManifestError::Syntax)
    );
    assert_eq!(
        LYServerPluginMetadata::from_manifest("id = \"a\"\nid = \"b\"\n"),
        Err(LYServerManifestError::Syntax)
    );
}

#[test]
fn manifest_needs_an_id() {
    assert_eq!(
        LYServerPluginMetadata::from_manifest(""),
        Err(LYServerManifestError::Missing(LYServerManifestField::Id))
    );
    assert_eq!(
        LYServerPluginMetadata::from_manifest("name = \"b\"\nwasm_entry_point = \"p.wasm\"\n"),
        Err(LYServerManifestError::Missing(LYServerManifestField::Id))
    );
}

#[test]
fn manifest_fields_other_than_the_id_may_be_missing() {
    let metadata = LYServerPluginMetadata::from_manifest("id = \"a\"\n").unwrap();
    assert_eq!(metadata.id, "a");
    assert_eq!(metadata.name, "");
    assert_eq!(metadata.description, "");
    assert_eq!(metadata.version, "");
    assert_eq!(metadata.author, "");
    assert_eq!(metadata.wasm_entry_point, None);
    let metadata =
        LYServerPluginMetadata::from_manifest("id = \"a\"\nversion = \"2\"\nauthor = \"e\"\n").unwrap();
    assert_eq!(metadata.name, "");
    assert_eq!(metadata.version, "2");
    assert_eq!(metadata.author, "e");
}

#[test]
fn manifest_with_fields_that_are_no_text() {
    assert_eq!(
        LYServerPluginMetadata::from_manifest("id = 1\n"),
        Err(LYServerManifestError::NotText(LYServerManifestField::Id))
    );
    assert_eq!(
        LYServerPluginMetadata::from_manifest(
            "id = \"a\"\nname = \"b\"\ndescription = \"c\"\nversion = 1.5\nauthor = \"e\"\n"
        ),
        Err(LYServerManifestError::NotText(LYServerManifestField::Version))
    );
    assert_eq!(
        LYServerPluginMetadata::from_manifest(
            "id = \"a\"\nname = \"b\"\ndescription = \"c\"\nversion = \"d\"\nauthor = \"e\"\nwasm_entry_point = true\n"
        ),
        Err(LYServerManifestError::NotText(LYServerManifestField::WasmEntryPoint))
    );
}

#[test]
fn manifest_entries() {
    let entries = vec![
        ("author".to_string(), LYServerManifestValue::Text("e".to_string())),
        ("unknown".to_string(), LYServerManifestValue::Table),
        ("version".to_string(), LYServerManifestValue::Text("d".to_string())),
        ("description".to_string(), LYServerManifestValue::Text("c".to_string())),
        ("name".to_string(), LYServerManifestValue::Text("b".to_string())),
        ("id".to_string(), LYServerManifestValue::Text("a".to_string())),
    ];
    let metadata = LYServerPluginMetadata::from_entries(&entries).unwrap();
    assert_eq!(metadata.id, "a");
    assert_eq!(metadata.name, "b");
    assert_eq!(metadata.description, "c");
    assert_eq!(metadata.version, "d");
    assert_eq!(metadata.author, "e");
    assert_eq!(metadata.wasm_entry_point, None);
    let wrong = vec![
        ("id".to_string(), LYServerManifestValue::Array),
    ];
    assert_eq!(
        LYServerPluginMetadata::from_entries(&wrong),
        Err(LYServerManifestError::NotText(LYServerManifestField::Id))
    );
    let kinds = vec![
        ("id".to_string(), LYServerManifestValue::Text("a".to_string())),
        ("name".to_string(), LYServerManifestValue::Integer),
    ];
    assert_eq!(
        LYServerPluginMetadata::from_entries(&kinds),
        Err(LYServerManifestError::NotText(LYServerManifestField::Name))
    );
}

#[test]
fn manifest_field_keys() {
    assert_eq!(LYServerManifestField::Id.key_text(), "id");
    assert_eq!(LYServerManifestField::Name.key_text(), "name");
    assert_eq!(LYServerManifestField::Description.key_text(), "description");
    assert_eq!(LYServerManifestField::Version.key_text(), "version");
    assert_eq!(LYServerManifestField::Author.key_text(), "author");
    assert_eq!(LYServerManifestField::WasmEntryPoint.key_text(), "wasm_entry_point");
}
