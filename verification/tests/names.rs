use jsproject::names::{Jsx, Lib, Module, ModuleResolutionMode, Target};

#[test]
fn target_is_found_in_any_casing() {
    assert_eq!(Target::from_name("es2020"), Target::Es2020);
    assert_eq!(Target::from_name("ES2020"), Target::Es2020);
    assert_eq!(Target::from_name("Es2020"), Target::Es2020);
}

#[test]
fn every_known_target_is_found() {
    let table = [
        ("es3", Target::Es3),
        ("es5", Target::Es5),
        ("es2015", Target::Es2015),
        ("es6", Target::Es6),
        ("es2016", Target::Es2016),
        ("es7", Target::Es7),
        ("es2017", Target::Es2017),
        ("es2018", Target::Es2018),
        ("es2019", Target::Es2019),
        ("es2020", Target::Es2020),
        ("esnext", Target::EsNext),
    ];
    for (name, target) in table {
        assert_eq!(Target::from_name(name), target);
        assert_eq!(Target::from_key(&target.name()), target);
    }
}

#[test]
fn unknown_target_is_kept_in_upper_case() {
    assert_eq!(Target::from_name("es2099"), Target::Other("ES2099".to_string()));
    assert_eq!(Target::from_name(""), Target::Other(String::new()));
}

#[test]
fn lookup_by_key_is_exact() {
    assert_eq!(Target::from_key("ES5"), Target::Es5);
    assert_eq!(Target::from_key("es5"), Target::Other("es5".to_string()));
    assert_eq!(Target::from_key("ES5 "), Target::Other("ES5 ".to_string()));
    assert_eq!(Target::from_key("ES"), Target::Other("ES".to_string()));
}

#[test]
fn names_are_put_in_upper_case_beyond_ascii() {
    assert_eq!(Target::from_name("straße"), Target::Other("STRASSE".to_string()));
    assert_eq!(Lib::from_name("scr\u{131}pthost"), Lib::ScriptHost);
}

#[test]
fn module_names() {
    assert_eq!(Module::from_name("commonjs"), Module::CommonJs);
    assert_eq!(Module::from_name("CommonJS"), Module::CommonJs);
    assert_eq!(Module::from_name("es6"), Module::Es6);
    assert_eq!(Module::from_name("es2015"), Module::Es2015);
    assert_eq!(Module::from_name("es2020"), Module::Es2020);
    assert_eq!(Module::from_name("none"), Module::NoModule);
    assert_eq!(Module::from_name("umd"), Module::Umd);
    assert_eq!(Module::from_name("amd"), Module::Amd);
    assert_eq!(Module::from_name("system"), Module::System);
    assert_eq!(Module::from_name("esnext"), Module::EsNext);
    assert_eq!(Module::from_name("node16"), Module::Other("NODE16".to_string()));
    assert_eq!(Module::NoModule.name(), "NONE");
}

#[test]
fn lib_names_with_separators() {
    assert_eq!(Lib::from_name("dom"), Lib::Dom);
    assert_eq!(Lib::from_name("dom.iterable"), Lib::DomIterable);
    assert_eq!(Lib::from_name("DOM.Iterable"), Lib::DomIterable);
    assert_eq!(Lib::from_name("es2015.symbol"), Lib::Es2015Symbol);
    assert_eq!(Lib::from_name("es2015.symbol.wellknown"), Lib::Es2015SymbolWellKnown);
    assert_eq!(Lib::from_name("es2020.symbol.wellknown"), Lib::Es2020SymbolWellknown);
    assert_eq!(Lib::from_name("esnext.asynciterable"), Lib::EsNextAsyncIterable);
    assert_eq!(Lib::from_name("webworker"), Lib::WebWorker);
    assert_eq!(Lib::from_name("esnext"), Lib::EsNext);
    assert_eq!(Lib::from_name("dom.iterables"), Lib::Other("DOM.ITERABLES".to_string()));
    assert_eq!(Lib::from_name("dom."), Lib::Other("DOM.".to_string()));
}

#[test]
fn unknown_lib_is_kept_in_upper_case() {
    assert_eq!(Lib::from_name("es2099"), Lib::Other("ES2099".to_string()));
}

#[test]
fn every_lib_is_found_by_its_name() {
    let libs = [
        Lib::Es5,
        Lib::Es2015,
        Lib::Es6,
        Lib::Es2016,
        Lib::Es7,
        Lib::Es2017,
        Lib::Es2018,
        Lib::Es2019,
        Lib::Es2020,
        Lib::EsNext,
        Lib::Dom,
        Lib::WebWorker,
        Lib::ScriptHost,
        Lib::DomIterable,
        Lib::Es2015Core,
        Lib::Es2015Generator,
        Lib::Es2015Iterable,
        Lib::Es2015Promise,
        Lib::Es2015Proxy,
        Lib::Es2015Reflect,
        Lib::Es2015Symbol,
        Lib::Es2015SymbolWellKnown,
        Lib::Es2016ArrayInclude,
        Lib::Es2017Object,
        Lib::Es2017Intl,
        Lib::Es2017SharedMemory,
        Lib::Es2017String,
        Lib::Es2017TypedArrays,
        Lib::Es2018Intl,
        Lib::Es2018Promise,
        Lib::Es2018RegExp,
        Lib::Es2019Array,
        Lib::Es2019Object,
        Lib::Es2019String,
        Lib::Es2019Symbol,
        Lib::Es2020String,
        Lib::Es2020SymbolWellknown,
        Lib::EsNextAsyncIterable,
        Lib::EsNextArray,
        Lib::EsNextIntl,
        Lib::EsNextSymbol,
    ];
    for lib in libs {
        let name = lib.name();
        assert_eq!(Lib::from_key(&name), lib);
        assert_eq!(Lib::from_name(&name.to_lowercase()), lib);
    }
}

#[test]
fn lib_table_keys() {
    assert_eq!(Lib::Es2016ArrayInclude.name(), "ES2016.ARRAY.INCLUDE");
    assert_eq!(Lib::Es2017Object.name(), "ES2017.OBJECT");
    assert_eq!(Lib::Es2017Intl.name(), "ES2017.INTL");
    assert_eq!(Lib::Es2017SharedMemory.name(), "ES2017.SHAREDMEMORY");
    assert_eq!(Lib::from_name("es2017.object"), Lib::Es2017Object);
    assert_eq!(Lib::from_name("es2017.intl"), Lib::Es2017Intl);
    assert_eq!(Lib::from_name("Es2016.Array.Include"), Lib::Es2016ArrayInclude);
    assert_eq!(Lib::from_name("ES2017.SharedMemory"), Lib::Es2017SharedMemory);
    assert_eq!(Lib::from_name("es2017intl"), Lib::Other("ES2017INTL".to_string()));
}

#[test]
fn resolution_names() {
    assert_eq!(ModuleResolutionMode::from_name("node"), ModuleResolutionMode::Node);
    assert_eq!(ModuleResolutionMode::from_name("Classic"), ModuleResolutionMode::Classic);
    assert_eq!(
        ModuleResolutionMode::from_name("bundler"),
        ModuleResolutionMode::Other("BUNDLER".to_string())
    );
    assert_eq!(ModuleResolutionMode::Node.name(), "NODE");
}

#[test]
fn jsx_names() {
    assert_eq!(Jsx::from_name("react"), Jsx::React);
    assert_eq!(Jsx::from_name("react-jsx"), Jsx::ReactJsx);
    assert_eq!(Jsx::from_name("react-jsxdev"), Jsx::ReactJsxdev);
    assert_eq!(Jsx::from_name("react-native"), Jsx::ReactNative);
    assert_eq!(Jsx::from_name("Preserve"), Jsx::Preserve);
    assert_eq!(Jsx::from_name("react_jsx"), Jsx::Other("REACT_JSX".to_string()));
    assert_eq!(Jsx::ReactJsx.name(), "REACT-JSX");
}

#[test]
fn the_name_of_an_unknown_value_is_what_it_carries() {
    assert_eq!(Target::Other("ES2099".to_string()).name(), "ES2099");
    assert_eq!(Target::from_key(&Target::from_name("es2099").name()), Target::from_name("es2099"));
}
