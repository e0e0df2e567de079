use jsproject::error::ParseError;
use jsproject::json::JsonKind;
use jsproject::names::{Jsx, Lib, Module, ModuleResolutionMode, Target};
use jsproject::options::CompilerOptions;
use jsproject::tsconfig::{Reference, References, TsConfig, TypeAcquisition};
use serde_json::Value;

fn json_value(text: &str) -> Value {
    serde_json::from_str(text).unwrap()
}

fn config_mismatch(r: Result<TsConfig, ParseError>) -> (String, Vec<JsonKind>, JsonKind) {
    match r {
        Err(ParseError::ShapeMismatch { field_path, expected_kinds, actual_kind }) => {
            (field_path, expected_kinds, actual_kind)
        }
        other => panic!("expected a shape mismatch, got {:?}", other),
    }
}

#[test]
fn references_as_a_boolean() {
    let c = TsConfig::parse(r#"{"references": true}"#).unwrap();
    assert_eq!(c.references, Some(References::Bool(true)));
    assert_eq!(c.serialize(), r#"{"references":true}"#);
}

#[test]
fn references_as_a_list() {
    let c = TsConfig::parse(r#"{"references": [{"path": "./lib"}]}"#).unwrap();
    assert_eq!(
        c.references,
        Some(References::References(vec![Reference { path: "./lib".to_string(), prepend: None }]))
    );
    assert_eq!(c.serialize(), r#"{"references":[{"path":"./lib"}]}"#);
    let c = TsConfig::parse(r#"{"references": [{"path": "a", "prepend": false}, {"path": "b"}]}"#)
        .unwrap();
    assert_eq!(
        c.references,
        Some(References::References(vec![
            Reference { path: "a".to_string(), prepend: Some(false) },
            Reference { path: "b".to_string(), prepend: None },
        ]))
    );
}

#[test]
fn references_as_a_string_is_a_shape_mismatch() {
    let (path, expected, actual) = config_mismatch(TsConfig::parse(r#"{"references": "x"}"#));
    assert_eq!(path, "references");
    assert_eq!(expected, vec![JsonKind::Bool, JsonKind::Array]);
    assert_eq!(actual, JsonKind::String);
}

#[test]
fn a_reference_without_a_path_is_a_shape_mismatch() {
    let (path, expected, actual) = config_mismatch(TsConfig::parse(r#"{"references": [{}]}"#));
    assert_eq!(path, "references[].path");
    assert_eq!(expected, vec![JsonKind::String]);
    assert_eq!(actual, JsonKind::Null);
    let (path, expected, actual) = config_mismatch(TsConfig::parse(r#"{"references": [1]}"#));
    assert_eq!(path, "references[]");
    assert_eq!(expected, vec![JsonKind::Object]);
    assert_eq!(actual, JsonKind::Number);
}

#[test]
fn unknown_lib_is_kept_and_the_document_is_read() {
    let c = TsConfig::parse(r#"{"compilerOptions": {"lib": ["dom", "es2099"]}}"#).unwrap();
    let options = c.compiler_options.unwrap();
    assert_eq!(options.lib, Some(vec![Lib::Dom, Lib::Other("ES2099".to_string())]));
}

#[test]
fn type_acquisition_in_both_shapes() {
    let c = TsConfig::parse(r#"{"typeAcquisition": false}"#).unwrap();
    assert_eq!(c.type_acquisition, Some(TypeAcquisition::Bool(false)));
    let c = TsConfig::parse(
        r#"{"typeAcquisition": {"enable": true, "include": ["jquery"],
            "disableFilenameBasedTypeAcquisition": true}}"#,
    )
    .unwrap();
    assert_eq!(
        c.type_acquisition,
        Some(TypeAcquisition::Object {
            enable: true,
            includes: Some(vec!["jquery".to_string()]),
            exclude: None,
            disable_filename_based_type_acquisition: Some(true),
        })
    );
    assert_eq!(
        c.serialize(),
        r#"{"typeAcquisition":{"enable":true,"include":["jquery"],"disableFilenameBasedTypeAcquisition":true}}"#
    );
    let (path, expected, actual) = config_mismatch(TsConfig::parse(r#"{"typeAcquisition": []}"#));
    assert_eq!(path, "typeAcquisition");
    assert_eq!(expected, vec![JsonKind::Bool, JsonKind::Object]);
    assert_eq!(actual, JsonKind::Array);
    let (path, expected, actual) = config_mismatch(TsConfig::parse(r#"{"typeAcquisition": {}}"#));
    assert_eq!(path, "typeAcquisition.enable");
    assert_eq!(expected, vec![JsonKind::Bool]);
    assert_eq!(actual, JsonKind::Null);
}

#[test]
fn reads_the_fields_of_a_configuration() {
    let c = TsConfig::parse(
        r#"{
            "extends": "./base.json",
            "files": ["a.ts"],
            "include": ["src/**/*"],
            "exclude": [],
            "unknown": 1,
            "compilerOptions": {
                "target": "es2017",
                "module": "CommonJS",
                "moduleResolution": "node",
                "jsx": "react-jsx",
                "lib": ["es2015.promise", "DOM.Iterable"],
                "strict": true,
                "noEmit": false,
                "emitBOM": true,
                "outDir": "dist",
                "maxNodeModuleJsDepth": 3,
                "rootDirs": ["a", "b"],
                "paths": {"@/*": ["src/*"], "lib": []},
                "tsBuildInfoFile": ".tsbuildinfo",
                "esModuleInterop": true,
                "watchFile": "useFsEvents",
                "somethingNew": [1]
            }
        }"#,
    )
    .unwrap();
    assert_eq!(c.extends.as_deref(), Some("./base.json"));
    assert_eq!(c.files, Some(vec!["a.ts".to_string()]));
    assert_eq!(c.includes, Some(vec!["src/**/*".to_string()]));
    assert_eq!(c.exclude, Some(vec![]));
    assert_eq!(c.references, None);
    assert_eq!(c.type_acquisition, None);
    assert_eq!(c.others, vec![("unknown".to_string(), json_value("1"))]);
    let o = c.compiler_options.clone().unwrap();
    assert_eq!(o.target, Some(Target::Es2017));
    assert_eq!(o.module, Some(Module::CommonJs));
    assert_eq!(o.module_resolution, Some(ModuleResolutionMode::Node));
    assert_eq!(o.jsx, Some(Jsx::ReactJsx));
    assert_eq!(o.lib, Some(vec![Lib::Es2015Promise, Lib::DomIterable]));
    assert_eq!(o.strict, Some(true));
    assert_eq!(o.no_emit, Some(false));
    assert_eq!(o.emit_bom, Some(true));
    assert_eq!(o.out_dir.as_deref(), Some("dist"));
    assert_eq!(o.max_node_module_js_depth, Some(3));
    assert_eq!(o.root_dirs, Some(vec!["a".to_string(), "b".to_string()]));
    assert_eq!(
        o.paths,
        Some(vec![
            ("@/*".to_string(), vec!["src/*".to_string()]),
            ("lib".to_string(), vec![]),
        ])
    );
    assert_eq!(o.ts_build_info_file.as_deref(), Some(".tsbuildinfo"));
    assert_eq!(o.es_module_interop, Some(true));
    assert_eq!(o.watch_file.as_deref(), Some("useFsEvents"));
    assert_eq!(o.allow_js, None);
    assert_eq!(
        c.serialize(),
        concat_parts(&[
            r#"{"exclude":[],"extends":"./base.json","files":["a.ts"],"include":["src/**/*"],"#,
            r#""compilerOptions":{"jsx":"REACT-JSX","lib":["ES2015.PROMISE","DOM.ITERABLE"],"#,
            r#""module":"COMMONJS","noEmit":false,"outDir":"dist","target":"ES2017","#,
            r#""tsBuildInfoFile":".tsbuildinfo","strict":true,"esModuleInterop":true,"#,
            r#""moduleResolution":"NODE","paths":{"@/*":["src/*"],"lib":[]},"rootDirs":["a","b"],"#,
            r#""emitBOM":true,"maxNodeModuleJsDepth":3,"watchFile":"useFsEvents"},"unknown":1}"#,
        ])
    );
    let again = TsConfig::parse(&c.serialize()).unwrap();
    assert_eq!(again, c);
}

fn concat_parts(parts: &[&str]) -> String {
    parts.iter().map(|p| p.to_string()).collect()
}

#[test]
fn a_configuration_without_fields() {
    let c = TsConfig::parse("{}").unwrap();
    assert_eq!(c.compiler_options, None);
    assert_eq!(c.serialize(), "{}");
    let c = TsConfig::parse(r#"{"compilerOptions": {}}"#).unwrap();
    assert_eq!(c.compiler_options, Some(CompilerOptions::unset()));
    assert_eq!(c.serialize(), r#"{"compilerOptions":{}}"#);
    let c = TsConfig::parse(r#"{"compilerOptions": null, "extends": null}"#).unwrap();
    assert_eq!(c.compiler_options, None);
    assert_eq!(c.extends, None);
}

#[test]
fn a_false_flag_is_written() {
    let mut options = CompilerOptions::unset();
    options.strict = Some(false);
    options.pretty = Some(true);
    assert_eq!(options.to_value().to_string(), r#"{"strict":false,"pretty":true}"#);
    assert_eq!(CompilerOptions::unset().to_value(), json_value("{}"));
}

#[test]
fn the_depth_is_an_unsigned_integer_of_32_bits() {
    let c = TsConfig::parse(r#"{"compilerOptions": {"maxNodeModuleJsDepth": 4294967295}}"#).unwrap();
    assert_eq!(c.compiler_options.unwrap().max_node_module_js_depth, Some(4294967295));
    for text in [
        r#"{"compilerOptions": {"maxNodeModuleJsDepth": 4294967296}}"#,
        r#"{"compilerOptions": {"maxNodeModuleJsDepth": -1}}"#,
        r#"{"compilerOptions": {"maxNodeModuleJsDepth": 1.5}}"#,
    ] {
        let (path, expected, actual) = config_mismatch(TsConfig::parse(text));
        assert_eq!(path, "compilerOptions.maxNodeModuleJsDepth");
        assert_eq!(expected, vec![JsonKind::Number]);
        assert_eq!(actual, JsonKind::Number);
    }
    let (_, _, actual) =
        config_mismatch(TsConfig::parse(r#"{"compilerOptions": {"maxNodeModuleJsDepth": "3"}}"#));
    assert_eq!(actual, JsonKind::String);
}

#[test]
fn options_of_the_wrong_kind_are_shape_mismatches() {
    let (path, expected, actual) = config_mismatch(TsConfig::parse(r#"{"compilerOptions": []}"#));
    assert_eq!(path, "compilerOptions");
    assert_eq!(expected, vec![JsonKind::Object]);
    assert_eq!(actual, JsonKind::Array);
    let (path, expected, actual) =
        config_mismatch(TsConfig::parse(r#"{"compilerOptions": {"strict": "yes"}}"#));
    assert_eq!(path, "compilerOptions.strict");
    assert_eq!(expected, vec![JsonKind::Bool]);
    assert_eq!(actual, JsonKind::String);
    let (path, expected, actual) =
        config_mismatch(TsConfig::parse(r#"{"compilerOptions": {"target": 5}}"#));
    assert_eq!(path, "compilerOptions.target");
    assert_eq!(expected, vec![JsonKind::String]);
    assert_eq!(actual, JsonKind::Number);
    let (path, _, actual) = config_mismatch(TsConfig::parse(r#"{"compilerOptions": {"lib": ["dom", 1]}}"#));
    assert_eq!(path, "compilerOptions.lib[]");
    assert_eq!(actual, JsonKind::Number);
    let (path, expected, actual) =
        config_mismatch(TsConfig::parse(r#"{"compilerOptions": {"paths": {"a": "b"}}}"#));
    assert_eq!(path, "compilerOptions.paths.a");
    assert_eq!(expected, vec![JsonKind::Array]);
    assert_eq!(actual, JsonKind::String);
    let (path, _, _) =
        config_mismatch(TsConfig::parse(r#"{"compilerOptions": {"paths": {"a": ["x", 2]}}}"#));
    assert_eq!(path, "compilerOptions.paths.a[]");
    let (path, _, _) = config_mismatch(TsConfig::parse(r#"{"files": "a.ts"}"#));
    assert_eq!(path, "files");
}

#[test]
fn the_first_option_in_declared_order_gives_the_error() {
    let (path, _, _) = config_mismatch(TsConfig::parse(
        r#"{"compilerOptions": {"watchFile": 1, "pretty": 2, "strict": 3, "checkJs": 4}}"#,
    ));
    assert_eq!(path, "compilerOptions.checkJs");
    let (path, _, _) = config_mismatch(TsConfig::parse(
        r#"{"compilerOptions": {"watchFile": 1, "pretty": 2}, "exclude": 1}"#,
    ));
    assert_eq!(path, "exclude");
}

#[test]
fn unknown_names_do_not_fail_the_document() {
    let c = TsConfig::parse(
        r#"{"compilerOptions": {"target": "es2099", "module": "node16",
            "moduleResolution": "bundler", "jsx": "solid"}}"#,
    )
    .unwrap();
    let o = c.compiler_options.clone().unwrap();
    assert_eq!(o.target, Some(Target::Other("ES2099".to_string())));
    assert_eq!(o.module, Some(Module::Other("NODE16".to_string())));
    assert_eq!(o.module_resolution, Some(ModuleResolutionMode::Other("BUNDLER".to_string())));
    assert_eq!(o.jsx, Some(Jsx::Other("SOLID".to_string())));
    assert_eq!(TsConfig::parse(&c.serialize()).unwrap(), c);
}

#[test]
fn a_configuration_that_is_no_object_or_no_json_is_rejected() {
    assert!(matches!(TsConfig::parse("[]"), Err(ParseError::NotAnObject)));
    assert!(matches!(TsConfig::from_value(&json_value("3")), Err(ParseError::NotAnObject)));
    assert!(matches!(TsConfig::parse("{,}"), Err(ParseError::MalformedJson(_))));
}

#[test]
fn every_option_has_its_key() {
    let text = r#"{"allowJs":true,"checkJs":true,"composite":true,"declaration":true,"declarationMap":true,"downlevelIteration":true,"importHelpers":true,"incremental":true,"isolatedModules":true,"jsx":"PRESERVE","lib":[],"module":"UMD","noEmit":true,"outDir":"a","outFile":"b","removeComments":true,"rootDir":"c","sourceMap":true,"target":"ES3","tsBuildInfoFile":"d","alwaysStrict":true,"noImplicitAny":true,"noImplicitThis":true,"strict":true,"strictBindCallApply":true,"strictFunctionTypes":true,"strictNullChecks":true,"strictPropertyInitialization":true,"allowSyntheticDefaultImports":true,"allowUmdGlobalAccess":true,"baseUrl":"e","esModuleInterop":true,"moduleResolution":"CLASSIC","paths":{},"preserveSymlinks":true,"rootDirs":[],"typeRoots":[],"types":[],"inlineSourceMap":true,"inlineSources":true,"mapRoot":"f","sourceRoot":"g","noFallthroughCasesInSwitch":true,"noImplicitReturns":true,"noPropertyAccessFromIndexSignature":true,"noUncheckedIndexedAccess":true,"noUnusedLocals":true,"emitDecoratorMetadata":true,"experimentalDecorators":true,"allowUnreachableCode":true,"allowUnusedLabels":true,"assumeChangesOnlyAffectDirectDependencies":true,"charset":"h","declarationDir":"i","diagnostics":true,"disableReferencedProjectLoad":true,"disableSizeLimit":true,"disableSolutionSearching":true,"disableSourceOfProjectReferenceRedirect":true,"emitBOM":true,"emitDeclarationOnly":true,"explainFiles":true,"extendedDiagnostics":true,"forceConsistentCasingInFileNames":true,"generateCpuProfile":true,"importsNotUsedAsValues":"j","jsxFactory":"k","jsxFragmentFactory":"l","jsxImportSource":"m","keyofStringsOnly":true,"listEmittedFiles":true,"listFiles":true,"maxNodeModuleJsDepth":0,"noEmitHelpers":true,"noEmitOnError":true,"noErrorTruncation":true,"noImplicitUseStrict":true,"noLib":true,"noResolve":true,"noStrictGenericChecks":true,"out":"n","preserveConstEnums":true,"reactNamespace":"o","resolveJsonModule":true,"skipDefaultLibCheck":true,"skipLibCheck":true,"stripInternal":true,"suppressExcessPropertyErrors":true,"suppressImplicitAnyIndexErrors":true,"traceResolution":true,"useDefineForClassFields":true,"preserveWatchOutput":true,"pretty":true,"fallbackPolling":"p","watchDirectory":"q","watchFile":"r"}"#;
    let options = CompilerOptions::from_value(&json_value(text), "compilerOptions").unwrap();
    assert_eq!(options.to_value().to_string(), text);
    assert_eq!(options.target, Some(Target::Es3));
    assert_eq!(options.max_node_module_js_depth, Some(0));
    assert_eq!(options.out.as_deref(), Some("n"));
}

#[test]
fn unknown_members_of_a_configuration_survive_in_their_order() {
    let text = r#"{"watchOptions":{"watchFile":"x"},"files":[],"compileOnSave":true,"$schema":null}"#;
    let c = TsConfig::parse(text).unwrap();
    let keys: Vec<&str> = c.others.iter().map(|(k, _)| k.as_str()).collect();
    assert_eq!(keys, vec!["watchOptions", "compileOnSave", "$schema"]);
    assert_eq!(
        c.serialize(),
        r#"{"files":[],"watchOptions":{"watchFile":"x"},"compileOnSave":true,"$schema":null}"#
    );
    assert_eq!(TsConfig::parse(&c.serialize()).unwrap(), c);
    for key in ["exclude", "extends", "files", "include", "references", "typeAcquisition",
        "compilerOptions"]
    {
        assert!(jsproject::tsconfig::names_tsconfig_field(key));
    }
    assert!(!jsproject::tsconfig::names_tsconfig_field("compileroptions"));
    assert!(!jsproject::tsconfig::names_tsconfig_field("includes"));
}

#[test]
fn unknown_members_inside_the_options_are_passed_over() {
    let c = TsConfig::parse(r#"{"compilerOptions": {"strict": true, "newOption": 1}}"#).unwrap();
    assert_eq!(c.serialize(), r#"{"compilerOptions":{"strict":true}}"#);
}

#[test]
fn an_error_of_the_reader_is_passed_on() {
    let reading = serde_json::from_str::<Value>("{\"a\": tru}");
    let message = reading.as_ref().unwrap_err().to_string();
    match TsConfig::from_reading(reading) {
        Err(ParseError::MalformedJson(e)) => assert_eq!(e.to_string(), message),
        other => panic!("expected malformed JSON, got {:?}", other),
    }
    let c = TsConfig::from_reading(Ok(json_value(r#"{"extends": "b"}"#))).unwrap();
    assert_eq!(c.extends.as_deref(), Some("b"));
}

#[test]
fn the_references_setting_is_written_in_its_shape() {
    assert_eq!(References::Bool(false).to_value(), json_value("false"));
    let list = References::References(vec![Reference { path: "p".to_string(), prepend: Some(true) }]);
    assert_eq!(list.to_value().to_string(), r#"[{"path":"p","prepend":true}]"#);
    assert_eq!(References::from_value(&list.to_value(), "references").unwrap(), list);
    assert_eq!(TypeAcquisition::Bool(true).to_value(), json_value("true"));
}
