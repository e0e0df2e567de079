use jsproject::error::ParseError;
use jsproject::json::JsonKind;
use jsproject::package::{
    Bug, ManReference, Package, Person, PersonReference, Pnpm, Repository, RepositoryReference,
};
use serde_json::Value;

fn value(text: &str) -> Value {
    serde_json::from_str(text).unwrap()
}

fn pairs(entries: &[(&str, &str)]) -> Vec<(String, String)> {
    entries.iter().map(|(k, v)| (k.to_string(), v.to_string())).collect()
}

fn mismatch(r: Result<Package, ParseError>) -> (String, Vec<JsonKind>, JsonKind) {
    match r {
        Err(ParseError::ShapeMismatch { field_path, expected_kinds, actual_kind }) => {
            (field_path, expected_kinds, actual_kind)
        }
        other => panic!("expected a shape mismatch, got {:?}", other),
    }
}

const FULL: &str = r#"{
    "name": "demo",
    "x-first": {"a": [1, 2.5, null]},
    "version": "1.2.3",
    "description": "A demo",
    "keywords": ["a", "b"],
    "homepage": "https://demo.dev",
    "bugs": {"email": "bugs@demo.dev", "url": "https://demo.dev/bugs"},
    "license": "MIT",
    "author": "Jane Doe <jane@doe.dev>",
    "contributors": ["John <john@doe.dev>", {"name": "Ann", "url": "https://ann.dev"}],
    "files": ["dist/*"],
    "main": "index.js",
    "browser": "browser.js",
    "bin": {"demo": "bin/demo.js"},
    "man": ["man/a.1", "man/b.1"],
    "repository": {"type": "git", "url": "https://git.demo.dev/demo.git", "directory": "pkg"},
    "scripts": {"test": "jest", "build": "tsc"},
    "dependencies": {"left-pad": "^1.0.0"},
    "devDependencies": {"typescript": "^4"},
    "peerDependencies": {"react": "*"},
    "bundledDependencies": {"b": "1"},
    "optionalDependencies": {"o": "2"},
    "engines": {"node": ">=12"},
    "private": true,
    "os": ["linux"],
    "cpu": ["x64"],
    "config": {"level": 3},
    "pnpm": {"overrides": {"foo": "1.0.0"}},
    "zeta": null,
    "alpha": "last"
}"#;

#[test]
fn reads_every_field() {
    let p = Package::parse(FULL).unwrap();
    assert_eq!(p.name.as_deref(), Some("demo"));
    assert_eq!(p.version.as_deref(), Some("1.2.3"));
    assert_eq!(p.description.as_deref(), Some("A demo"));
    assert_eq!(p.keywords, vec!["a".to_string(), "b".to_string()]);
    assert_eq!(p.homepage.as_deref(), Some("https://demo.dev"));
    assert_eq!(
        p.bugs,
        Some(Bug {
            email: Some("bugs@demo.dev".to_string()),
            url: Some("https://demo.dev/bugs".to_string())
        })
    );
    assert_eq!(p.license.as_deref(), Some("MIT"));
    assert_eq!(p.author, Some(PersonReference::Short("Jane Doe <jane@doe.dev>".to_string())));
    assert_eq!(
        p.contributors,
        vec![
            PersonReference::Short("John <john@doe.dev>".to_string()),
            PersonReference::Full(Person {
                name: "Ann".to_string(),
                email: None,
                url: Some("https://ann.dev".to_string())
            }),
        ]
    );
    assert_eq!(p.files, vec!["dist/*".to_string()]);
    assert_eq!(p.main.as_deref(), Some("index.js"));
    assert_eq!(p.browser.as_deref(), Some("browser.js"));
    assert_eq!(p.bin, pairs(&[("demo", "bin/demo.js")]));
    assert_eq!(
        p.man,
        Some(ManReference::Multiple(vec!["man/a.1".to_string(), "man/b.1".to_string()]))
    );
    assert_eq!(
        p.repository,
        Some(RepositoryReference::Full(Repository {
            kind: "git".to_string(),
            url: "https://git.demo.dev/demo.git".to_string(),
            directory: Some("pkg".to_string())
        }))
    );
    assert_eq!(p.scripts, pairs(&[("test", "jest"), ("build", "tsc")]));
    assert_eq!(p.dependencies, pairs(&[("left-pad", "^1.0.0")]));
    assert_eq!(p.dev_dependencies, pairs(&[("typescript", "^4")]));
    assert_eq!(p.peer_dependencies, pairs(&[("react", "*")]));
    assert_eq!(p.bundled_dependencies, pairs(&[("b", "1")]));
    assert_eq!(p.optional_dependencies, pairs(&[("o", "2")]));
    assert_eq!(p.engines, pairs(&[("node", ">=12")]));
    assert_eq!(p.private, Some(true));
    assert_eq!(p.os, vec!["linux".to_string()]);
    assert_eq!(p.cpu, vec!["x64".to_string()]);
    assert_eq!(p.config, Some(value(r#"{"level": 3}"#)));
    assert_eq!(p.pnpm, Some(Pnpm { overrides: Some(pairs(&[("foo", "1.0.0")])) }));
    assert_eq!(
        p.others,
        vec![
            ("x-first".to_string(), value(r#"{"a": [1, 2.5, null]}"#)),
            ("zeta".to_string(), Value::Null),
            ("alpha".to_string(), value(r#""last""#)),
        ]
    );
}

#[test]
fn reading_writing_and_reading_again_gives_the_same_manifest() {
    let first = Package::parse(FULL).unwrap();
    let second = Package::parse(&first.serialize()).unwrap();
    assert_eq!(first, second);
    let third = Package::from_value(&second.to_value()).unwrap();
    assert_eq!(first, third);
}

#[test]
fn unknown_members_survive_in_their_order() {
    let p = Package::parse(r#"{"zz": 1, "name": "n", "aa": [true], "mm": {"k": "v"}}"#).unwrap();
    let keys: Vec<&str> = p.others.iter().map(|(k, _)| k.as_str()).collect();
    assert_eq!(keys, vec!["zz", "aa", "mm"]);
    assert_eq!(p.serialize(), r#"{"name":"n","zz":1,"aa":[true],"mm":{"k":"v"}}"#);
}

#[test]
fn no_field_is_kept_among_the_other_members() {
    let p = Package::parse(FULL).unwrap();
    for (key, _) in &p.others {
        assert!(!jsproject::package::names_package_field(key));
    }
    assert!(jsproject::package::names_package_field("devDependencies"));
    assert!(jsproject::package::names_package_field("pnpm"));
    assert!(!jsproject::package::names_package_field("dev_dependencies"));
    assert!(!jsproject::package::names_package_field("Name"));
}

#[test]
fn fields_are_written_in_declared_order() {
    let p = Package::parse(
        r#"{"extra": 0, "pnpm": {}, "cpu": ["x64"], "private": false, "version": "1", "name": "n"}"#,
    )
    .unwrap();
    assert_eq!(
        p.serialize(),
        r#"{"name":"n","version":"1","private":false,"cpu":["x64"],"pnpm":{},"extra":0}"#
    );
}

#[test]
fn absent_private_is_not_written() {
    let p = Package::parse(r#"{"name": "n"}"#).unwrap();
    assert_eq!(p.private, None);
    let out = p.to_value();
    assert!(out.get("private").is_none());
    assert_eq!(p.serialize(), r#"{"name":"n"}"#);
}

#[test]
fn false_private_is_written() {
    let p = Package::parse(r#"{"private": false}"#).unwrap();
    assert_eq!(p.private, Some(false));
    assert_eq!(p.to_value().get("private"), Some(&Value::Bool(false)));
    assert_eq!(p.serialize(), r#"{"private":false}"#);
}

#[test]
fn empty_manifest_writes_an_empty_object() {
    let p = Package::parse("{}").unwrap();
    assert_eq!(p, Package::default());
    assert_eq!(p.serialize(), "{}");
    assert_eq!(Package::default().to_value(), value("{}"));
}

#[test]
fn empty_collections_are_not_written() {
    let p = Package::parse(
        r#"{"keywords": [], "files": [], "os": [], "cpu": [], "contributors": [], "bin": {},
            "scripts": {}, "dependencies": {}, "devDependencies": {}, "peerDependencies": {},
            "bundledDependencies": {}, "optionalDependencies": {}, "engines": {}}"#,
    )
    .unwrap();
    assert_eq!(p, Package::default());
    assert_eq!(p.serialize(), "{}");
}

#[test]
fn set_fields_are_written_even_when_empty_inside() {
    let p = Package::parse(r#"{"bugs": {}, "man": [], "pnpm": {"overrides": {}}, "name": ""}"#)
        .unwrap();
    assert_eq!(p.bugs, Some(Bug::default()));
    assert_eq!(p.man, Some(ManReference::Multiple(vec![])));
    assert_eq!(p.pnpm, Some(Pnpm { overrides: Some(vec![]) }));
    assert_eq!(p.name.as_deref(), Some(""));
    assert_eq!(p.serialize(), r#"{"name":"","bugs":{},"man":[],"pnpm":{"overrides":{}}}"#);
}

#[test]
fn null_unsets_an_optional_field() {
    let p = Package::parse(
        r#"{"name": null, "bugs": null, "author": null, "man": null, "repository": null,
            "private": null, "config": null, "pnpm": null}"#,
    )
    .unwrap();
    assert_eq!(p, Package::default());
}

#[test]
fn null_is_no_list_and_no_mapping() {
    let (path, expected, actual) = mismatch(Package::parse(r#"{"keywords": null}"#));
    assert_eq!(path, "keywords");
    assert_eq!(expected, vec![JsonKind::Array]);
    assert_eq!(actual, JsonKind::Null);
    let (path, expected, actual) = mismatch(Package::parse(r#"{"scripts": null}"#));
    assert_eq!(path, "scripts");
    assert_eq!(expected, vec![JsonKind::Object]);
    assert_eq!(actual, JsonKind::Null);
}

#[test]
fn author_as_a_string_is_the_short_shape() {
    let p = Package::parse(r#"{"author": "Jane Doe <jane@doe.dev>"}"#).unwrap();
    assert_eq!(p.author, Some(PersonReference::Short("Jane Doe <jane@doe.dev>".to_string())));
    assert_eq!(p.serialize(), r#"{"author":"Jane Doe <jane@doe.dev>"}"#);
}

#[test]
fn author_as_an_object_is_the_full_shape() {
    let p = Package::parse(r#"{"author": {"name": "Jane Doe"}}"#).unwrap();
    assert_eq!(
        p.author,
        Some(PersonReference::Full(Person {
            name: "Jane Doe".to_string(),
            email: None,
            url: None
        }))
    );
    assert_eq!(p.serialize(), r#"{"author":{"name":"Jane Doe"}}"#);
}

#[test]
fn author_as_a_number_is_a_shape_mismatch() {
    let (path, expected, actual) = mismatch(Package::parse(r#"{"author": 42}"#));
    assert_eq!(path, "author");
    assert_eq!(expected, vec![JsonKind::String, JsonKind::Object]);
    assert_eq!(actual, JsonKind::Number);
}

#[test]
fn a_person_without_a_name_is_a_shape_mismatch() {
    let (path, expected, actual) = mismatch(Package::parse(r#"{"author": {"email": "a@b.c"}}"#));
    assert_eq!(path, "author.name");
    assert_eq!(expected, vec![JsonKind::String]);
    assert_eq!(actual, JsonKind::Null);
}

#[test]
fn repository_as_a_string_is_the_short_shape() {
    let p = Package::parse(r#"{"repository": "github:user/repo"}"#).unwrap();
    assert_eq!(p.repository, Some(RepositoryReference::Short("github:user/repo".to_string())));
}

#[test]
fn repository_as_an_object_is_the_full_shape() {
    let p = Package::parse(r#"{"repository": {"type": "git", "url": "..."}}"#).unwrap();
    assert_eq!(
        p.repository,
        Some(RepositoryReference::Full(Repository {
            kind: "git".to_string(),
            url: "...".to_string(),
            directory: None
        }))
    );
    assert_eq!(p.serialize(), r#"{"repository":{"type":"git","url":"..."}}"#);
}

#[test]
fn repository_of_another_kind_is_a_shape_mismatch() {
    let (path, expected, actual) = mismatch(Package::parse(r#"{"repository": ["x"]}"#));
    assert_eq!(path, "repository");
    assert_eq!(expected, vec![JsonKind::String, JsonKind::Object]);
    assert_eq!(actual, JsonKind::Array);
    let (path, _, actual) = mismatch(Package::parse(r#"{"repository": {"type": "git"}}"#));
    assert_eq!(path, "repository.url");
    assert_eq!(actual, JsonKind::Null);
}

#[test]
fn man_as_a_string_or_a_list() {
    let p = Package::parse(r#"{"man": "man/a.1"}"#).unwrap();
    assert_eq!(p.man, Some(ManReference::Single("man/a.1".to_string())));
    assert_eq!(p.serialize(), r#"{"man":"man/a.1"}"#);
    let (path, expected, actual) = mismatch(Package::parse(r#"{"man": true}"#));
    assert_eq!(path, "man");
    assert_eq!(expected, vec![JsonKind::String, JsonKind::Array]);
    assert_eq!(actual, JsonKind::Bool);
    let (path, expected, actual) = mismatch(Package::parse(r#"{"man": ["a", 1]}"#));
    assert_eq!(path, "man[]");
    assert_eq!(expected, vec![JsonKind::String]);
    assert_eq!(actual, JsonKind::Number);
}

#[test]
fn a_plain_field_of_the_wrong_kind_is_a_shape_mismatch() {
    let (path, expected, actual) = mismatch(Package::parse(r#"{"name": 42}"#));
    assert_eq!(path, "name");
    assert_eq!(expected, vec![JsonKind::String]);
    assert_eq!(actual, JsonKind::Number);
    let (path, expected, actual) = mismatch(Package::parse(r#"{"private": "yes"}"#));
    assert_eq!(path, "private");
    assert_eq!(expected, vec![JsonKind::Bool]);
    assert_eq!(actual, JsonKind::String);
    let (path, expected, actual) = mismatch(Package::parse(r#"{"bugs": "x"}"#));
    assert_eq!(path, "bugs");
    assert_eq!(expected, vec![JsonKind::Object]);
    assert_eq!(actual, JsonKind::String);
}

#[test]
fn errors_inside_lists_and_mappings_name_the_place() {
    let (path, expected, actual) = mismatch(Package::parse(r#"{"keywords": ["a", {}]}"#));
    assert_eq!(path, "keywords[]");
    assert_eq!(expected, vec![JsonKind::String]);
    assert_eq!(actual, JsonKind::Object);
    let (path, expected, actual) = mismatch(Package::parse(r#"{"scripts": {"a": "x", "b": 1}}"#));
    assert_eq!(path, "scripts.b");
    assert_eq!(expected, vec![JsonKind::String]);
    assert_eq!(actual, JsonKind::Number);
    let (path, _, actual) = mismatch(Package::parse(r#"{"contributors": ["x", {"url": "u"}]}"#));
    assert_eq!(path, "contributors[].name");
    assert_eq!(actual, JsonKind::Null);
    let (path, expected, actual) = mismatch(Package::parse(r#"{"contributors": [7]}"#));
    assert_eq!(path, "contributors[]");
    assert_eq!(expected, vec![JsonKind::String, JsonKind::Object]);
    assert_eq!(actual, JsonKind::Number);
    let (path, _, actual) = mismatch(Package::parse(r#"{"pnpm": {"overrides": {"a": []}}}"#));
    assert_eq!(path, "pnpm.overrides.a");
    assert_eq!(actual, JsonKind::Array);
    let (path, _, _) = mismatch(Package::parse(r#"{"bugs": {"email": 1}}"#));
    assert_eq!(path, "bugs.email");
}

#[test]
fn the_first_field_in_declared_order_gives_the_error() {
    let (path, _, _) = mismatch(Package::parse(r#"{"cpu": 1, "version": 2, "os": 3}"#));
    assert_eq!(path, "version");
}

#[test]
fn a_document_that_is_no_object_is_rejected() {
    for text in ["[]", "1", "\"x\"", "true", "null"] {
        assert!(matches!(Package::parse(text), Err(ParseError::NotAnObject)));
    }
    assert!(matches!(Package::from_value(&Value::Null), Err(ParseError::NotAnObject)));
}

#[test]
fn text_that_is_no_json_is_rejected() {
    for text in ["", "{", "{\"name\": }", "{\"a\": 1} x", "{'a': 1}"] {
        match Package::parse(text) {
            Err(ParseError::MalformedJson(e)) => {
                let expected = serde_json::from_str::<Value>(text).unwrap_err();
                assert_eq!(e.to_string(), expected.to_string());
            }
            other => panic!("expected malformed JSON, got {:?}", other),
        }
    }
}

#[test]
fn unknown_members_inside_nested_objects_are_passed_over() {
    let p = Package::parse(r#"{"bugs": {"email": "e", "phone": "1"}}"#).unwrap();
    assert_eq!(p.bugs, Some(Bug { email: Some("e".to_string()), url: None }));
    assert_eq!(p.serialize(), r#"{"bugs":{"email":"e"}}"#);
}

#[test]
fn nested_values_are_written_as_objects() {
    let bug = Bug { email: None, url: Some("u".to_string()) };
    assert_eq!(bug.to_value(), value(r#"{"url": "u"}"#));
    let person = Person { name: "n".to_string(), email: Some("e".to_string()), url: None };
    assert_eq!(person.to_value().to_string(), r#"{"name":"n","email":"e"}"#);
    let repo = Repository { kind: "git".to_string(), url: "u".to_string(), directory: None };
    assert_eq!(repo.to_value().to_string(), r#"{"type":"git","url":"u"}"#);
    assert_eq!(PersonReference::Short("s".to_string()).to_value(), value(r#""s""#));
    assert_eq!(ManReference::Multiple(vec!["a".to_string()]).to_value(), value(r#"["a"]"#));
}

#[test]
fn nested_values_are_read_at_a_path() {
    assert_eq!(Bug::from_value(&value("{}"), "bugs").unwrap(), Bug::default());
    match Person::from_value(&value("[]"), "who") {
        Err(ParseError::ShapeMismatch { field_path, expected_kinds, actual_kind }) => {
            assert_eq!(field_path, "who");
            assert_eq!(expected_kinds, vec![JsonKind::Object]);
            assert_eq!(actual_kind, JsonKind::Array);
        }
        other => panic!("expected a shape mismatch, got {:?}", other),
    }
    assert_eq!(
        RepositoryReference::from_value(&value(r#""github:a/b""#), "repository").unwrap(),
        RepositoryReference::Short("github:a/b".to_string())
    );
}

#[test]
fn pnpm_is_empty_without_overrides() {
    assert!(Pnpm::default().is_empty());
    assert!(Pnpm { overrides: None }.is_empty());
    assert!(!Pnpm { overrides: Some(vec![]) }.is_empty());
    assert!(!Pnpm { overrides: Some(pairs(&[("a", "1")])) }.is_empty());
}

#[test]
fn a_manifest_built_by_hand_is_written() {
    let mut p = Package::default();
    p.name = Some("hand".to_string());
    p.scripts = pairs(&[("b", "2"), ("a", "1")]);
    p.private = Some(false);
    p.config = Some(value("[1]"));
    p.others = vec![("x".to_string(), value("1.5"))];
    assert_eq!(
        p.serialize(),
        r#"{"name":"hand","scripts":{"b":"2","a":"1"},"private":false,"config":[1],"x":1.5}"#
    );
    assert_eq!(Package::from_value(&p.to_value()).unwrap(), p);
}

#[test]
fn a_repeated_key_keeps_its_first_place_and_its_last_value() {
    let mut p = Package::default();
    p.scripts = pairs(&[("a", "1"), ("b", "2"), ("a", "3")]);
    assert_eq!(p.serialize(), r#"{"scripts":{"a":"3","b":"2"}}"#);
    p.scripts = vec![];
    p.name = Some("n".to_string());
    p.others = vec![("name".to_string(), value("1")), ("k".to_string(), value("2"))];
    assert_eq!(p.serialize(), r#"{"name":1,"k":2}"#);
}

#[test]
fn numbers_in_free_form_values_are_kept() {
    let text = r#"{"config":{"a":-1,"b":1.5,"c":18446744073709551615,"d":1e+300},"n":-0.0}"#;
    let p = Package::parse(text).unwrap();
    assert_eq!(p.serialize(), text);
}

#[test]
fn what_the_reader_gave_is_read_or_passed_on() {
    let reading = serde_json::from_str::<Value>("{\"name\": \"n\"");
    let message = reading.as_ref().unwrap_err().to_string();
    match Package::from_reading(reading) {
        Err(ParseError::MalformedJson(e)) => assert_eq!(e.to_string(), message),
        other => panic!("expected malformed JSON, got {:?}", other),
    }
    let p = Package::from_reading(Ok(value(r#"{"name": "n"}"#))).unwrap();
    assert_eq!(p.name.as_deref(), Some("n"));
    assert!(matches!(Package::from_reading(Ok(value("7"))), Err(ParseError::NotAnObject)));
}
