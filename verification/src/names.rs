//! The open enumerations of the compiler options: closed sets of known
//! names, each with a variant that keeps a name that is not known.
//!
//! A name is normalized by putting it in upper case, and the normalized
//! name is looked up by exact equality in the table of its enumeration.
//! The mapping never fails: a name that the table lacks gives the variant
//! `Other`, which carries the normalized name. The casing in which an
//! unknown name was given is therefore not kept; writing the value gives
//! the name in upper case.

use vstd::prelude::*;
use crate::text::{same_text, to_upper, uppercase_of};

verus! {

/// The language version that the compiler emits.
#[derive(Debug, Clone, PartialEq)]
pub enum Target {
    Es3,
    Es5,
    Es2015,
    Es6,
    Es2016,
    Es7,
    Es2017,
    Es2018,
    Es2019,
    Es2020,
    EsNext,
    /// A name that is none of the known ones, in normalized form.
    Other(String),
}

/// The mathematical model of a `Target`.
pub enum TargetModel {
    Es3,
    Es5,
    Es2015,
    Es6,
    Es2016,
    Es7,
    Es2017,
    Es2018,
    Es2019,
    Es2020,
    EsNext,
    Other(Seq<char>),
}

impl DeepView for Target {
    type V = TargetModel;

    open spec fn deep_view(&self) -> TargetModel {
        match self {
            Target::Es3 => TargetModel::Es3,
            Target::Es5 => TargetModel::Es5,
            Target::Es2015 => TargetModel::Es2015,
            Target::Es6 => TargetModel::Es6,
            Target::Es2016 => TargetModel::Es2016,
            Target::Es7 => TargetModel::Es7,
            Target::Es2017 => TargetModel::Es2017,
            Target::Es2018 => TargetModel::Es2018,
            Target::Es2019 => TargetModel::Es2019,
            Target::Es2020 => TargetModel::Es2020,
            Target::EsNext => TargetModel::EsNext,
            Target::Other(s) => TargetModel::Other(s@),
        }
    }
}

/// Whether a normalized name is in the table of known targets.
pub open spec fn is_target_key(key: Seq<char>) -> bool {
    key == "ES3"@
    || key == "ES5"@
    || key == "ES2015"@
    || key == "ES6"@
    || key == "ES2016"@
    || key == "ES7"@
    || key == "ES2017"@
    || key == "ES2018"@
    || key == "ES2019"@
    || key == "ES2020"@
    || key == "ESNEXT"@
}

/// The value that a normalized name stands for: the known one whose key
/// equals the name, else the name itself as an unknown one.
pub open spec fn target_of_key(key: Seq<char>) -> TargetModel {
    if key == "ES3"@ {
        TargetModel::Es3
    } else if key == "ES5"@ {
        TargetModel::Es5
    } else if key == "ES2015"@ {
        TargetModel::Es2015
    } else if key == "ES6"@ {
        TargetModel::Es6
    } else if key == "ES2016"@ {
        TargetModel::Es2016
    } else if key == "ES7"@ {
        TargetModel::Es7
    } else if key == "ES2017"@ {
        TargetModel::Es2017
    } else if key == "ES2018"@ {
        TargetModel::Es2018
    } else if key == "ES2019"@ {
        TargetModel::Es2019
    } else if key == "ES2020"@ {
        TargetModel::Es2020
    } else if key == "ESNEXT"@ {
        TargetModel::EsNext
    } else {
        TargetModel::Other(key)
    }
}

/// The normalized name of a value.
pub open spec fn target_key(value: TargetModel) -> Seq<char> {
    match value {
        TargetModel::Es3 => "ES3"@,
        TargetModel::Es5 => "ES5"@,
        TargetModel::Es2015 => "ES2015"@,
        TargetModel::Es6 => "ES6"@,
        TargetModel::Es2016 => "ES2016"@,
        TargetModel::Es7 => "ES7"@,
        TargetModel::Es2017 => "ES2017"@,
        TargetModel::Es2018 => "ES2018"@,
        TargetModel::Es2019 => "ES2019"@,
        TargetModel::Es2020 => "ES2020"@,
        TargetModel::EsNext => "ESNEXT"@,
        TargetModel::Other(s) => s,
    }
}

/// Whether a value is one that reading its own name gives back: putting
/// its name in upper case changes nothing, and an unknown value carries no
/// known name.
pub open spec fn target_is_normal(value: TargetModel) -> bool {
    uppercase_of(target_key(value)) == target_key(value) && !(value is Other && is_target_key(value->Other_0))
}

/// The value that a name in any casing stands for.
pub open spec fn target_of_name(raw: Seq<char>) -> TargetModel {
    target_of_key(uppercase_of(raw))
}

impl Target {
    /// Looks a normalized name up in the table of known targets, by
    /// exact equality. A name that is not in the table is kept as it is.
    pub fn from_key(key: &str) -> (r: Target)
        ensures
            r.deep_view() == target_of_key(key@),
            !is_target_key(key@) ==> r.deep_view() == TargetModel::Other(key@),
    {
        if same_text(key, "ES3") {
            Target::Es3
        } else if same_text(key, "ES5") {
            Target::Es5
        } else if same_text(key, "ES2015") {
            Target::Es2015
        } else if same_text(key, "ES6") {
            Target::Es6
        } else if same_text(key, "ES2016") {
            Target::Es2016
        } else if same_text(key, "ES7") {
            Target::Es7
        } else if same_text(key, "ES2017") {
            Target::Es2017
        } else if same_text(key, "ES2018") {
            Target::Es2018
        } else if same_text(key, "ES2019") {
            Target::Es2019
        } else if same_text(key, "ES2020") {
            Target::Es2020
        } else if same_text(key, "ESNEXT") {
            Target::EsNext
        } else {
            Target::Other(key.to_owned())
        }
    }

    /// Maps a name in any casing: the name is put in upper case and looked
    /// up. An unknown name is kept in upper case.
    pub fn from_name(raw: &str) -> (r: Target)
        ensures
            r.deep_view() == target_of_name(raw@),
            !is_target_key(uppercase_of(raw@)) ==> r.deep_view() == TargetModel::Other(uppercase_of(raw@)),
    {
        let key = to_upper(raw);
        Target::from_key(key.as_str())
    }

    /// The normalized name of the value.
    pub fn name(&self) -> (r: String)
        ensures
            r@ == target_key(self.deep_view()),
    {
        match self {
            Target::Es3 => "ES3".to_owned(),
            Target::Es5 => "ES5".to_owned(),
            Target::Es2015 => "ES2015".to_owned(),
            Target::Es6 => "ES6".to_owned(),
            Target::Es2016 => "ES2016".to_owned(),
            Target::Es7 => "ES7".to_owned(),
            Target::Es2017 => "ES2017".to_owned(),
            Target::Es2018 => "ES2018".to_owned(),
            Target::Es2019 => "ES2019".to_owned(),
            Target::Es2020 => "ES2020".to_owned(),
            Target::EsNext => "ESNEXT".to_owned(),
            Target::Other(s) => s.clone(),
        }
    }
}

/// The module system of the emitted program.
#[derive(Debug, Clone, PartialEq)]
pub enum Module {
    CommonJs,
    Es6,
    Es2015,
    Es2020,
    NoModule,
    Umd,
    Amd,
    System,
    EsNext,
    /// A name that is none of the known ones, in normalized form.
    Other(String),
}

/// The mathematical model of a `Module`.
pub enum ModuleModel {
    CommonJs,
    Es6,
    Es2015,
    Es2020,
    NoModule,
    Umd,
    Amd,
    System,
    EsNext,
    Other(Seq<char>),
}

impl DeepView for Module {
    type V = ModuleModel;

    open spec fn deep_view(&self) -> ModuleModel {
        match self {
            Module::CommonJs => ModuleModel::CommonJs,
            Module::Es6 => ModuleModel::Es6,
            Module::Es2015 => ModuleModel::Es2015,
            Module::Es2020 => ModuleModel::Es2020,
            Module::NoModule => ModuleModel::NoModule,
            Module::Umd => ModuleModel::Umd,
            Module::Amd => ModuleModel::Amd,
            Module::System => ModuleModel::System,
            Module::EsNext => ModuleModel::EsNext,
            Module::Other(s) => ModuleModel::Other(s@),
        }
    }
}

/// Whether a normalized name is in the table of known module systems.
pub open spec fn is_module_key(key: Seq<char>) -> bool {
    key == "COMMONJS"@
    || key == "ES6"@
    || key == "ES2015"@
    || key == "ES2020"@
    || key == "NONE"@
    || key == "UMD"@
    || key == "AMD"@
    || key == "SYSTEM"@
    || key == "ESNEXT"@
}

/// The value that a normalized name stands for: the known one whose key
/// equals the name, else the name itself as an unknown one.
pub open spec fn module_of_key(key: Seq<char>) -> ModuleModel {
    if key == "COMMONJS"@ {
        ModuleModel::CommonJs
    } else if key == "ES6"@ {
        ModuleModel::Es6
    } else if key == "ES2015"@ {
        ModuleModel::Es2015
    } else if key == "ES2020"@ {
        ModuleModel::Es2020
    } else if key == "NONE"@ {
        ModuleModel::NoModule
    } else if key == "UMD"@ {
        ModuleModel::Umd
    } else if key == "AMD"@ {
        ModuleModel::Amd
    } else if key == "SYSTEM"@ {
        ModuleModel::System
    } else if key == "ESNEXT"@ {
        ModuleModel::EsNext
    } else {
        ModuleModel::Other(key)
    }
}

/// The normalized name of a value.
pub open spec fn module_key(value: ModuleModel) -> Seq<char> {
    match value {
        ModuleModel::CommonJs => "COMMONJS"@,
        ModuleModel::Es6 => "ES6"@,
        ModuleModel::Es2015 => "ES2015"@,
        ModuleModel::Es2020 => "ES2020"@,
        ModuleModel::NoModule => "NONE"@,
        ModuleModel::Umd => "UMD"@,
        ModuleModel::Amd => "AMD"@,
        ModuleModel::System => "SYSTEM"@,
        ModuleModel::EsNext => "ESNEXT"@,
        ModuleModel::Other(s) => s,
    }
}

/// Whether a value is one that reading its own name gives back: putting
/// its name in upper case changes nothing, and an unknown value carries no
/// known name.
pub open spec fn module_is_normal(value: ModuleModel) -> bool {
    uppercase_of(module_key(value)) == module_key(value) && !(value is Other && is_module_key(value->Other_0))
}

/// The value that a name in any casing stands for.
pub open spec fn module_of_name(raw: Seq<char>) -> ModuleModel {
    module_of_key(uppercase_of(raw))
}

impl Module {
    /// Looks a normalized name up in the table of known module systems, by
    /// exact equality. A name that is not in the table is kept as it is.
    pub fn from_key(key: &str) -> (r: Module)
        ensures
            r.deep_view() == module_of_key(key@),
            !is_module_key(key@) ==> r.deep_view() == ModuleModel::Other(key@),
    {
        if same_text(key, "COMMONJS") {
            Module::CommonJs
        } else if same_text(key, "ES6") {
            Module::Es6
        } else if same_text(key, "ES2015") {
            Module::Es2015
        } else if same_text(key, "ES2020") {
            Module::Es2020
        } else if same_text(key, "NONE") {
            Module::NoModule
        } else if same_text(key, "UMD") {
            Module::Umd
        } else if same_text(key, "AMD") {
            Module::Amd
        } else if same_text(key, "SYSTEM") {
            Module::System
        } else if same_text(key, "ESNEXT") {
            Module::EsNext
        } else {
            Module::Other(key.to_owned())
        }
    }

    /// Maps a name in any casing: the name is put in upper case and looked
    /// up. An unknown name is kept in upper case.
    pub fn from_name(raw: &str) -> (r: Module)
        ensures
            r.deep_view() == module_of_name(raw@),
            !is_module_key(uppercase_of(raw@)) ==> r.deep_view() == ModuleModel::Other(uppercase_of(raw@)),
    {
        let key = to_upper(raw);
        Module::from_key(key.as_str())
    }

    /// The normalized name of the value.
    pub fn name(&self) -> (r: String)
        ensures
            r@ == module_key(self.deep_view()),
    {
        match self {
            Module::CommonJs => "COMMONJS".to_owned(),
            Module::Es6 => "ES6".to_owned(),
            Module::Es2015 => "ES2015".to_owned(),
            Module::Es2020 => "ES2020".to_owned(),
            Module::NoModule => "NONE".to_owned(),
            Module::Umd => "UMD".to_owned(),
            Module::Amd => "AMD".to_owned(),
            Module::System => "SYSTEM".to_owned(),
            Module::EsNext => "ESNEXT".to_owned(),
            Module::Other(s) => s.clone(),
        }
    }
}

/// A library of declarations that the compilation includes.
#[derive(Debug, Clone, PartialEq)]
pub enum Lib {
    Es5,
    Es2015,
    Es6,
    Es2016,
    Es7,
    Es2017,
    Es2018,
    Es2019,
    Es2020,
    EsNext,
    Dom,
    WebWorker,
    ScriptHost,
    DomIterable,
    Es2015Core,
    Es2015Generator,
    Es2015Iterable,
    Es2015Promise,
    Es2015Proxy,
    Es2015Reflect,
    Es2015Symbol,
    Es2015SymbolWellKnown,
    Es2016ArrayInclude,
    Es2017Object,
    Es2017Intl,
    Es2017SharedMemory,
    Es2017String,
    Es2017TypedArrays,
    Es2018Intl,
    Es2018Promise,
    Es2018RegExp,
    Es2019Array,
    Es2019Object,
    Es2019String,
    Es2019Symbol,
    Es2020String,
    Es2020SymbolWellknown,
    EsNextAsyncIterable,
    EsNextArray,
    EsNextIntl,
    EsNextSymbol,
    /// A name that is none of the known ones, in normalized form.
    Other(String),
}

/// The mathematical model of a `Lib`.
pub enum LibModel {
    Es5,
    Es2015,
    Es6,
    Es2016,
    Es7,
    Es2017,
    Es2018,
    Es2019,
    Es2020,
    EsNext,
    Dom,
    WebWorker,
    ScriptHost,
    DomIterable,
    Es2015Core,
    Es2015Generator,
    Es2015Iterable,
    Es2015Promise,
    Es2015Proxy,
    Es2015Reflect,
    Es2015Symbol,
    Es2015SymbolWellKnown,
    Es2016ArrayInclude,
    Es2017Object,
    Es2017Intl,
    Es2017SharedMemory,
    Es2017String,
    Es2017TypedArrays,
    Es2018Intl,
    Es2018Promise,
    Es2018RegExp,
    Es2019Array,
    Es2019Object,
    Es2019String,
    Es2019Symbol,
    Es2020String,
    Es2020SymbolWellknown,
    EsNextAsyncIterable,
    EsNextArray,
    EsNextIntl,
    EsNextSymbol,
    Other(Seq<char>),
}

impl DeepView for Lib {
    type V = LibModel;

    open spec fn deep_view(&self) -> LibModel {
        match self {
            Lib::Es5 => LibModel::Es5,
            Lib::Es2015 => LibModel::Es2015,
            Lib::Es6 => LibModel::Es6,
            Lib::Es2016 => LibModel::Es2016,
            Lib::Es7 => LibModel::Es7,
            Lib::Es2017 => LibModel::Es2017,
            Lib::Es2018 => LibModel::Es2018,
            Lib::Es2019 => LibModel::Es2019,
            Lib::Es2020 => LibModel::Es2020,
            Lib::EsNext => LibModel::EsNext,
            Lib::Dom => LibModel::Dom,
            Lib::WebWorker => LibModel::WebWorker,
            Lib::ScriptHost => LibModel::ScriptHost,
            Lib::DomIterable => LibModel::DomIterable,
            Lib::Es2015Core => LibModel::Es2015Core,
            Lib::Es2015Generator => LibModel::Es2015Generator,
            Lib::Es2015Iterable => LibModel::Es2015Iterable,
            Lib::Es2015Promise => LibModel::Es2015Promise,
            Lib::Es2015Proxy => LibModel::Es2015Proxy,
            Lib::Es2015Reflect => LibModel::Es2015Reflect,
            Lib::Es2015Symbol => LibModel::Es2015Symbol,
            Lib::Es2015SymbolWellKnown => LibModel::Es2015SymbolWellKnown,
            Lib::Es2016ArrayInclude => LibModel::Es2016ArrayInclude,
            Lib::Es2017Object => LibModel::Es2017Object,
            Lib::Es2017Intl => LibModel::Es2017Intl,
            Lib::Es2017SharedMemory => LibModel::Es2017SharedMemory,
            Lib::Es2017String => LibModel::Es2017String,
            Lib::Es2017TypedArrays => LibModel::Es2017TypedArrays,
            Lib::Es2018Intl => LibModel::Es2018Intl,
            Lib::Es2018Promise => LibModel::Es2018Promise,
            Lib::Es2018RegExp => LibModel::Es2018RegExp,
            Lib::Es2019Array => LibModel::Es2019Array,
            Lib::Es2019Object => LibModel::Es2019Object,
            Lib::Es2019String => LibModel::Es2019String,
            Lib::Es2019Symbol => LibModel::Es2019Symbol,
            Lib::Es2020String => LibModel::Es2020String,
            Lib::Es2020SymbolWellknown => LibModel::Es2020SymbolWellknown,
            Lib::EsNextAsyncIterable => LibModel::EsNextAsyncIterable,
            Lib::EsNextArray => LibModel::EsNextArray,
            Lib::EsNextIntl => LibModel::EsNextIntl,
            Lib::EsNextSymbol => LibModel::EsNextSymbol,
            Lib::Other(s) => LibModel::Other(s@),
        }
    }
}

/// Whether a normalized name is in the table of known libraries.
pub open spec fn is_lib_key(key: Seq<char>) -> bool {
    key == "ES5"@
    || key == "ES2015"@
    || key == "ES6"@
    || key == "ES2016"@
    || key == "ES7"@
    || key == "ES2017"@
    || key == "ES2018"@
    || key == "ES2019"@
    || key == "ES2020"@
    || key == "ESNEXT"@
    || key == "DOM"@
    || key == "WEBWORKER"@
    || key == "SCRIPTHOST"@
    || key == "DOM.ITERABLE"@
    || key == "ES2015.CORE"@
    || key == "ES2015.GENERATOR"@
    || key == "ES2015.ITERABLE"@
    || key == "ES2015.PROMISE"@
    || key == "ES2015.PROXY"@
    || key == "ES2015.REFLECT"@
    || key == "ES2015.SYMBOL"@
    || key == "ES2015.SYMBOL.WELLKNOWN"@
    || key == "ES2016.ARRAY.INCLUDE"@
    || key == "ES2017.OBJECT"@
    || key == "ES2017.INTL"@
    || key == "ES2017.SHAREDMEMORY"@
    || key == "ES2017.STRING"@
    || key == "ES2017.TYPEDARRAYS"@
    || key == "ES2018.INTL"@
    || key == "ES2018.PROMISE"@
    || key == "ES2018.REGEXP"@
    || key == "ES2019.ARRAY"@
    || key == "ES2019.OBJECT"@
    || key == "ES2019.STRING"@
    || key == "ES2019.SYMBOL"@
    || key == "ES2020.STRING"@
    || key == "ES2020.SYMBOL.WELLKNOWN"@
    || key == "ESNEXT.ASYNCITERABLE"@
    || key == "ESNEXT.ARRAY"@
    || key == "ESNEXT.INTL"@
    || key == "ESNEXT.SYMBOL"@
}

/// The value that a normalized name stands for: the known one whose key
/// equals the name, else the name itself as an unknown one.
pub open spec fn lib_of_key(key: Seq<char>) -> LibModel {
    if key == "ES5"@ {
        LibModel::Es5
    } else if key == "ES2015"@ {
        LibModel::Es2015
    } else if key == "ES6"@ {
        LibModel::Es6
    } else if key == "ES2016"@ {
        LibModel::Es2016
    } else if key == "ES7"@ {
        LibModel::Es7
    } else if key == "ES2017"@ {
        LibModel::Es2017
    } else if key == "ES2018"@ {
        LibModel::Es2018
    } else if key == "ES2019"@ {
        LibModel::Es2019
    } else if key == "ES2020"@ {
        LibModel::Es2020
    } else if key == "ESNEXT"@ {
        LibModel::EsNext
    } else if key == "DOM"@ {
        LibModel::Dom
    } else if key == "WEBWORKER"@ {
        LibModel::WebWorker
    } else if key == "SCRIPTHOST"@ {
        LibModel::ScriptHost
    } else if key == "DOM.ITERABLE"@ {
        LibModel::DomIterable
    } else if key == "ES2015.CORE"@ {
        LibModel::Es2015Core
    } else if key == "ES2015.GENERATOR"@ {
        LibModel::Es2015Generator
    } else if key == "ES2015.ITERABLE"@ {
        LibModel::Es2015Iterable
    } else if key == "ES2015.PROMISE"@ {
        LibModel::Es2015Promise
    } else if key == "ES2015.PROXY"@ {
        LibModel::Es2015Proxy
    } else if key == "ES2015.REFLECT"@ {
        LibModel::Es2015Reflect
    } else if key == "ES2015.SYMBOL"@ {
        LibModel::Es2015Symbol
    } else if key == "ES2015.SYMBOL.WELLKNOWN"@ {
        LibModel::Es2015SymbolWellKnown
    } else if key == "ES2016.ARRAY.INCLUDE"@ {
        LibModel::Es2016ArrayInclude
    } else if key == "ES2017.OBJECT"@ {
        LibModel::Es2017Object
    } else if key == "ES2017.INTL"@ {
        LibModel::Es2017Intl
    } else if key == "ES2017.SHAREDMEMORY"@ {
        LibModel::Es2017SharedMemory
    } else if key == "ES2017.STRING"@ {
        LibModel::Es2017String
    } else if key == "ES2017.TYPEDARRAYS"@ {
        LibModel::Es2017TypedArrays
    } else if key == "ES2018.INTL"@ {
        LibModel::Es2018Intl
    } else if key == "ES2018.PROMISE"@ {
        LibModel::Es2018Promise
    } else if key == "ES2018.REGEXP"@ {
        LibModel::Es2018RegExp
    } else if key == "ES2019.ARRAY"@ {
        LibModel::Es2019Array
    } else if key == "ES2019.OBJECT"@ {
        LibModel::Es2019Object
    } else if key == "ES2019.STRING"@ {
        LibModel::Es2019String
    } else if key == "ES2019.SYMBOL"@ {
        LibModel::Es2019Symbol
    } else if key == "ES2020.STRING"@ {
        LibModel::Es2020String
    } else if key == "ES2020.SYMBOL.WELLKNOWN"@ {
        LibModel::Es2020SymbolWellknown
    } else if key == "ESNEXT.ASYNCITERABLE"@ {
        LibModel::EsNextAsyncIterable
    } else if key == "ESNEXT.ARRAY"@ {
        LibModel::EsNextArray
    } else if key == "ESNEXT.INTL"@ {
        LibModel::EsNextIntl
    } else if key == "ESNEXT.SYMBOL"@ {
        LibModel::EsNextSymbol
    } else {
        LibModel::Other(key)
    }
}

/// The normalized name of a value.
pub open spec fn lib_key(value: LibModel) -> Seq<char> {
    match value {
        LibModel::Es5 => "ES5"@,
        LibModel::Es2015 => "ES2015"@,
        LibModel::Es6 => "ES6"@,
        LibModel::Es2016 => "ES2016"@,
        LibModel::Es7 => "ES7"@,
        LibModel::Es2017 => "ES2017"@,
        LibModel::Es2018 => "ES2018"@,
        LibModel::Es2019 => "ES2019"@,
        LibModel::Es2020 => "ES2020"@,
        LibModel::EsNext => "ESNEXT"@,
        LibModel::Dom => "DOM"@,
        LibModel::WebWorker => "WEBWORKER"@,
        LibModel::ScriptHost => "SCRIPTHOST"@,
        LibModel::DomIterable => "DOM.ITERABLE"@,
        LibModel::Es2015Core => "ES2015.CORE"@,
        LibModel::Es2015Generator => "ES2015.GENERATOR"@,
        LibModel::Es2015Iterable => "ES2015.ITERABLE"@,
        LibModel::Es2015Promise => "ES2015.PROMISE"@,
        LibModel::Es2015Proxy => "ES2015.PROXY"@,
        LibModel::Es2015Reflect => "ES2015.REFLECT"@,
        LibModel::Es2015Symbol => "ES2015.SYMBOL"@,
        LibModel::Es2015SymbolWellKnown => "ES2015.SYMBOL.WELLKNOWN"@,
        LibModel::Es2016ArrayInclude => "ES2016.ARRAY.INCLUDE"@,
        LibModel::Es2017Object => "ES2017.OBJECT"@,
        LibModel::Es2017Intl => "ES2017.INTL"@,
        LibModel::Es2017SharedMemory => "ES2017.SHAREDMEMORY"@,
        LibModel::Es2017String => "ES2017.STRING"@,
        LibModel::Es2017TypedArrays => "ES2017.TYPEDARRAYS"@,
        LibModel::Es2018Intl => "ES2018.INTL"@,
        LibModel::Es2018Promise => "ES2018.PROMISE"@,
        LibModel::Es2018RegExp => "ES2018.REGEXP"@,
        LibModel::Es2019Array => "ES2019.ARRAY"@,
        LibModel::Es2019Object => "ES2019.OBJECT"@,
        LibModel::Es2019String => "ES2019.STRING"@,
        LibModel::Es2019Symbol => "ES2019.SYMBOL"@,
        LibModel::Es2020String => "ES2020.STRING"@,
        LibModel::Es2020SymbolWellknown => "ES2020.SYMBOL.WELLKNOWN"@,
        LibModel::EsNextAsyncIterable => "ESNEXT.ASYNCITERABLE"@,
        LibModel::EsNextArray => "ESNEXT.ARRAY"@,
        LibModel::EsNextIntl => "ESNEXT.INTL"@,
        LibModel::EsNextSymbol => "ESNEXT.SYMBOL"@,
        LibModel::Other(s) => s,
    }
}

/// Whether a value is one that reading its own name gives back: putting
/// its name in upper case changes nothing, and an unknown value carries no
/// known name.
pub open spec fn lib_is_normal(value: LibModel) -> bool {
    uppercase_of(lib_key(value)) == lib_key(value) && !(value is Other && is_lib_key(value->Other_0))
}

/// The value that a name in any casing stands for.
pub open spec fn lib_of_name(raw: Seq<char>) -> LibModel {
    lib_of_key(uppercase_of(raw))
}

impl Lib {
    /// Looks a normalized name up in the table of known libraries, by
    /// exact equality. A name that is not in the table is kept as it is.
    pub fn from_key(key: &str) -> (r: Lib)
        ensures
            r.deep_view() == lib_of_key(key@),
            !is_lib_key(key@) ==> r.deep_view() == LibModel::Other(key@),
    {
        if same_text(key, "ES5") {
            Lib::Es5
        } else if same_text(key, "ES2015") {
            Lib::Es2015
        } else if same_text(key, "ES6") {
            Lib::Es6
        } else if same_text(key, "ES2016") {
            Lib::Es2016
        } else if same_text(key, "ES7") {
            Lib::Es7
        } else if same_text(key, "ES2017") {
            Lib::Es2017
        } else if same_text(key, "ES2018") {
            Lib::Es2018
        } else if same_text(key, "ES2019") {
            Lib::Es2019
        } else if same_text(key, "ES2020") {
            Lib::Es2020
        } else if same_text(key, "ESNEXT") {
            Lib::EsNext
        } else if same_text(key, "DOM") {
            Lib::Dom
        } else if same_text(key, "WEBWORKER") {
            Lib::WebWorker
        } else if same_text(key, "SCRIPTHOST") {
            Lib::ScriptHost
        } else if same_text(key, "DOM.ITERABLE") {
            Lib::DomIterable
        } else if same_text(key, "ES2015.CORE") {
            Lib::Es2015Core
        } else if same_text(key, "ES2015.GENERATOR") {
            Lib::Es2015Generator
        } else if same_text(key, "ES2015.ITERABLE") {
            Lib::Es2015Iterable
        } else if same_text(key, "ES2015.PROMISE") {
            Lib::Es2015Promise
        } else if same_text(key, "ES2015.PROXY") {
            Lib::Es2015Proxy
        } else if same_text(key, "ES2015.REFLECT") {
            Lib::Es2015Reflect
        } else if same_text(key, "ES2015.SYMBOL") {
            Lib::Es2015Symbol
        } else if same_text(key, "ES2015.SYMBOL.WELLKNOWN") {
            Lib::Es2015SymbolWellKnown
        } else if same_text(key, "ES2016.ARRAY.INCLUDE") {
            Lib::Es2016ArrayInclude
        } else if same_text(key, "ES2017.OBJECT") {
            Lib::Es2017Object
        } else if same_text(key, "ES2017.INTL") {
            Lib::Es2017Intl
        } else if same_text(key, "ES2017.SHAREDMEMORY") {
            Lib::Es2017SharedMemory
        } else if same_text(key, "ES2017.STRING") {
            Lib::Es2017String
        } else if same_text(key, "ES2017.TYPEDARRAYS") {
            Lib::Es2017TypedArrays
        } else if same_text(key, "ES2018.INTL") {
            Lib::Es2018Intl
        } else if same_text(key, "ES2018.PROMISE") {
            Lib::Es2018Promise
        } else if same_text(key, "ES2018.REGEXP") {
            Lib::Es2018RegExp
        } else if same_text(key, "ES2019.ARRAY") {
            Lib::Es2019Array
        } else if same_text(key, "ES2019.OBJECT") {
            Lib::Es2019Object
        } else if same_text(key, "ES2019.STRING") {
            Lib::Es2019String
        } else if same_text(key, "ES2019.SYMBOL") {
            Lib::Es2019Symbol
        } else if same_text(key, "ES2020.STRING") {
            Lib::Es2020String
        } else if same_text(key, "ES2020.SYMBOL.WELLKNOWN") {
            Lib::Es2020SymbolWellknown
        } else if same_text(key, "ESNEXT.ASYNCITERABLE") {
            Lib::EsNextAsyncIterable
        } else if same_text(key, "ESNEXT.ARRAY") {
            Lib::EsNextArray
        } else if same_text(key, "ESNEXT.INTL") {
            Lib::EsNextIntl
        } else if same_text(key, "ESNEXT.SYMBOL") {
            Lib::EsNextSymbol
        } else {
            Lib::Other(key.to_owned())
        }
    }

    /// Maps a name in any casing: the name is put in upper case and looked
    /// up. An unknown name is kept in upper case.
    pub fn from_name(raw: &str) -> (r: Lib)
        ensures
            r.deep_view() == lib_of_name(raw@),
            !is_lib_key(uppercase_of(raw@)) ==> r.deep_view() == LibModel::Other(uppercase_of(raw@)),
    {
        let key = to_upper(raw);
        Lib::from_key(key.as_str())
    }

    /// The normalized name of the value.
    pub fn name(&self) -> (r: String)
        ensures
            r@ == lib_key(self.deep_view()),
    {
        match self {
            Lib::Es5 => "ES5".to_owned(),
            Lib::Es2015 => "ES2015".to_owned(),
            Lib::Es6 => "ES6".to_owned(),
            Lib::Es2016 => "ES2016".to_owned(),
            Lib::Es7 => "ES7".to_owned(),
            Lib::Es2017 => "ES2017".to_owned(),
            Lib::Es2018 => "ES2018".to_owned(),
            Lib::Es2019 => "ES2019".to_owned(),
            Lib::Es2020 => "ES2020".to_owned(),
            Lib::EsNext => "ESNEXT".to_owned(),
            Lib::Dom => "DOM".to_owned(),
            Lib::WebWorker => "WEBWORKER".to_owned(),
            Lib::ScriptHost => "SCRIPTHOST".to_owned(),
            Lib::DomIterable => "DOM.ITERABLE".to_owned(),
            Lib::Es2015Core => "ES2015.CORE".to_owned(),
            Lib::Es2015Generator => "ES2015.GENERATOR".to_owned(),
            Lib::Es2015Iterable => "ES2015.ITERABLE".to_owned(),
            Lib::Es2015Promise => "ES2015.PROMISE".to_owned(),
            Lib::Es2015Proxy => "ES2015.PROXY".to_owned(),
            Lib::Es2015Reflect => "ES2015.REFLECT".to_owned(),
            Lib::Es2015Symbol => "ES2015.SYMBOL".to_owned(),
            Lib::Es2015SymbolWellKnown => "ES2015.SYMBOL.WELLKNOWN".to_owned(),
            Lib::Es2016ArrayInclude => "ES2016.ARRAY.INCLUDE".to_owned(),
            Lib::Es2017Object => "ES2017.OBJECT".to_owned(),
            Lib::Es2017Intl => "ES2017.INTL".to_owned(),
            Lib::Es2017SharedMemory => "ES2017.SHAREDMEMORY".to_owned(),
            Lib::Es2017String => "ES2017.STRING".to_owned(),
            Lib::Es2017TypedArrays => "ES2017.TYPEDARRAYS".to_owned(),
            Lib::Es2018Intl => "ES2018.INTL".to_owned(),
            Lib::Es2018Promise => "ES2018.PROMISE".to_owned(),
            Lib::Es2018RegExp => "ES2018.REGEXP".to_owned(),
            Lib::Es2019Array => "ES2019.ARRAY".to_owned(),
            Lib::Es2019Object => "ES2019.OBJECT".to_owned(),
            Lib::Es2019String => "ES2019.STRING".to_owned(),
            Lib::Es2019Symbol => "ES2019.SYMBOL".to_owned(),
            Lib::Es2020String => "ES2020.STRING".to_owned(),
            Lib::Es2020SymbolWellknown => "ES2020.SYMBOL.WELLKNOWN".to_owned(),
            Lib::EsNextAsyncIterable => "ESNEXT.ASYNCITERABLE".to_owned(),
            Lib::EsNextArray => "ESNEXT.ARRAY".to_owned(),
            Lib::EsNextIntl => "ESNEXT.INTL".to_owned(),
            Lib::EsNextSymbol => "ESNEXT.SYMBOL".to_owned(),
            Lib::Other(s) => s.clone(),
        }
    }
}

/// The strategy by which the compiler resolves modules: that of Node.js, or
/// the classic one of early compilers.
#[derive(Debug, Clone, PartialEq)]
pub enum ModuleResolutionMode {
    Node,
    Classic,
    /// A name that is none of the known ones, in normalized form.
    Other(String),
}

/// The mathematical model of a `ModuleResolutionMode`.
pub enum ModuleResolutionModeModel {
    Node,
    Classic,
    Other(Seq<char>),
}

impl DeepView for ModuleResolutionMode {
    type V = ModuleResolutionModeModel;

    open spec fn deep_view(&self) -> ModuleResolutionModeModel {
        match self {
            ModuleResolutionMode::Node => ModuleResolutionModeModel::Node,
            ModuleResolutionMode::Classic => ModuleResolutionModeModel::Classic,
            ModuleResolutionMode::Other(s) => ModuleResolutionModeModel::Other(s@),
        }
    }
}

/// Whether a normalized name is in the table of known resolution strategies.
pub open spec fn is_resolution_key(key: Seq<char>) -> bool {
    key == "NODE"@
    || key == "CLASSIC"@
}

/// The value that a normalized name stands for: the known one whose key
/// equals the name, else the name itself as an unknown one.
pub open spec fn resolution_of_key(key: Seq<char>) -> ModuleResolutionModeModel {
    if key == "NODE"@ {
        ModuleResolutionModeModel::Node
    } else if key == "CLASSIC"@ {
        ModuleResolutionModeModel::Classic
    } else {
        ModuleResolutionModeModel::Other(key)
    }
}

/// The normalized name of a value.
pub open spec fn resolution_key(value: ModuleResolutionModeModel) -> Seq<char> {
    match value {
        ModuleResolutionModeModel::Node => "NODE"@,
        ModuleResolutionModeModel::Classic => "CLASSIC"@,
        ModuleResolutionModeModel::Other(s) => s,
    }
}

/// Whether a value is one that reading its own name gives back: putting
/// its name in upper case changes nothing, and an unknown value carries no
/// known name.
pub open spec fn resolution_is_normal(value: ModuleResolutionModeModel) -> bool {
    uppercase_of(resolution_key(value)) == resolution_key(value) && !(value is Other && is_resolution_key(value->Other_0))
}

/// The value that a name in any casing stands for.
pub open spec fn resolution_of_name(raw: Seq<char>) -> ModuleResolutionModeModel {
    resolution_of_key(uppercase_of(raw))
}

impl ModuleResolutionMode {
    /// Looks a normalized name up in the table of known resolution strategies, by
    /// exact equality. A name that is not in the table is kept as it is.
    pub fn from_key(key: &str) -> (r: ModuleResolutionMode)
        ensures
            r.deep_view() == resolution_of_key(key@),
            !is_resolution_key(key@) ==> r.deep_view() == ModuleResolutionModeModel::Other(key@),
    {
        if same_text(key, "NODE") {
            ModuleResolutionMode::Node
        } else if same_text(key, "CLASSIC") {
            ModuleResolutionMode::Classic
        } else {
            ModuleResolutionMode::Other(key.to_owned())
        }
    }

    /// Maps a name in any casing: the name is put in upper case and looked
    /// up. An unknown name is kept in upper case.
    pub fn from_name(raw: &str) -> (r: ModuleResolutionMode)
        ensures
            r.deep_view() == resolution_of_name(raw@),
            !is_resolution_key(uppercase_of(raw@)) ==> r.deep_view() == ModuleResolutionModeModel::Other(uppercase_of(raw@)),
    {
        let key = to_upper(raw);
        ModuleResolutionMode::from_key(key.as_str())
    }

    /// The normalized name of the value.
    pub fn name(&self) -> (r: String)
        ensures
            r@ == resolution_key(self.deep_view()),
    {
        match self {
            ModuleResolutionMode::Node => "NODE".to_owned(),
            ModuleResolutionMode::Classic => "CLASSIC".to_owned(),
            ModuleResolutionMode::Other(s) => s.clone(),
        }
    }
}

/// How the compiler emits JSX.
#[derive(Debug, Clone, PartialEq)]
pub enum Jsx {
    /// Emit .js files with JSX changed to the equivalent React.createElement calls
    React,
    /// Emit .js files with the JSX changed to _jsx calls
    ReactJsx,
    /// Emit .js files with the JSX to _jsx calls
    ReactJsxdev,
    /// Emit .js files with the JSX unchanged
    ReactNative,
    /// Emit .jsx files with the JSX unchanged
    Preserve,
    /// A name that is none of the known ones, in normalized form.
    Other(String),
}

/// The mathematical model of a `Jsx`.
pub enum JsxModel {
    React,
    ReactJsx,
    ReactJsxdev,
    ReactNative,
    Preserve,
    Other(Seq<char>),
}

impl DeepView for Jsx {
    type V = JsxModel;

    open spec fn deep_view(&self) -> JsxModel {
        match self {
            Jsx::React => JsxModel::React,
            Jsx::ReactJsx => JsxModel::ReactJsx,
            Jsx::ReactJsxdev => JsxModel::ReactJsxdev,
            Jsx::ReactNative => JsxModel::ReactNative,
            Jsx::Preserve => JsxModel::Preserve,
            Jsx::Other(s) => JsxModel::Other(s@),
        }
    }
}

/// Whether a normalized name is in the table of known JSX modes.
pub open spec fn is_jsx_key(key: Seq<char>) -> bool {
    key == "REACT"@
    || key == "REACT-JSX"@
    || key == "REACT-JSXDEV"@
    || key == "REACT-NATIVE"@
    || key == "PRESERVE"@
}

/// The value that a normalized name stands for: the known one whose key
/// equals the name, else the name itself as an unknown one.
pub open spec fn jsx_of_key(key: Seq<char>) -> JsxModel {
    if key == "REACT"@ {
        JsxModel::React
    } else if key == "REACT-JSX"@ {
        JsxModel::ReactJsx
    } else if key == "REACT-JSXDEV"@ {
        JsxModel::ReactJsxdev
    } else if key == "REACT-NATIVE"@ {
        JsxModel::ReactNative
    } else if key == "PRESERVE"@ {
        JsxModel::Preserve
    } else {
        JsxModel::Other(key)
    }
}

/// The normalized name of a value.
pub open spec fn jsx_key(value: JsxModel) -> Seq<char> {
    match value {
        JsxModel::React => "REACT"@,
        JsxModel::ReactJsx => "REACT-JSX"@,
        JsxModel::ReactJsxdev => "REACT-JSXDEV"@,
        JsxModel::ReactNative => "REACT-NATIVE"@,
        JsxModel::Preserve => "PRESERVE"@,
        JsxModel::Other(s) => s,
    }
}

/// Whether a value is one that reading its own name gives back: putting
/// its name in upper case changes nothing, and an unknown value carries no
/// known name.
pub open spec fn jsx_is_normal(value: JsxModel) -> bool {
    uppercase_of(jsx_key(value)) == jsx_key(value) && !(value is Other && is_jsx_key(value->Other_0))
}

/// The value that a name in any casing stands for.
pub open spec fn jsx_of_name(raw: Seq<char>) -> JsxModel {
    jsx_of_key(uppercase_of(raw))
}

impl Jsx {
    /// Looks a normalized name up in the table of known JSX modes, by
    /// exact equality. A name that is not in the table is kept as it is.
    pub fn from_key(key: &str) -> (r: Jsx)
        ensures
            r.deep_view() == jsx_of_key(key@),
            !is_jsx_key(key@) ==> r.deep_view() == JsxModel::Other(key@),
    {
        if same_text(key, "REACT") {
            Jsx::React
        } else if same_text(key, "REACT-JSX") {
            Jsx::ReactJsx
        } else if same_text(key, "REACT-JSXDEV") {
            Jsx::ReactJsxdev
        } else if same_text(key, "REACT-NATIVE") {
            Jsx::ReactNative
        } else if same_text(key, "PRESERVE") {
            Jsx::Preserve
        } else {
            Jsx::Other(key.to_owned())
        }
    }

    /// Maps a name in any casing: the name is put in upper case and looked
    /// up. An unknown name is kept in upper case.
    pub fn from_name(raw: &str) -> (r: Jsx)
        ensures
            r.deep_view() == jsx_of_name(raw@),
            !is_jsx_key(uppercase_of(raw@)) ==> r.deep_view() == JsxModel::Other(uppercase_of(raw@)),
    {
        let key = to_upper(raw);
        Jsx::from_key(key.as_str())
    }

    /// The normalized name of the value.
    pub fn name(&self) -> (r: String)
        ensures
            r@ == jsx_key(self.deep_view()),
    {
        match self {
            Jsx::React => "REACT".to_owned(),
            Jsx::ReactJsx => "REACT-JSX".to_owned(),
            Jsx::ReactJsxdev => "REACT-JSXDEV".to_owned(),
            Jsx::ReactNative => "REACT-NATIVE".to_owned(),
            Jsx::Preserve => "PRESERVE".to_owned(),
            Jsx::Other(s) => s.clone(),
        }
    }
}

} // verus!
