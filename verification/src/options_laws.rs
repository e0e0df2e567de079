//! What holds of reading and writing compiler options.

use vstd::prelude::*;
use crate::error::{ParseErrorModel, path_of};
use crate::field_laws::{
    lemma_count_field, lemma_flag_field, lemma_opt_texts_field, lemma_text_field,
    lemma_texts_round_trip,
};
use crate::fields::{count_field, distinct_names, flag_field, opt_texts_field, text_field};
use crate::json::{JsonModel, Members, distinct_keys, member};
use crate::members::{joined, lemma_joined, lemma_upsert_all_distinct, part_of_key, part_value};
use crate::name_laws::{
    lemma_jsx_reread, lemma_lib_reread, lemma_module_reread, lemma_resolution_reread,
    lemma_target_reread,
};
use crate::names::{
    JsxModel, LibModel, ModuleModel, ModuleResolutionModeModel, TargetModel, jsx_is_normal,
    lib_is_normal, module_is_normal, resolution_is_normal, target_is_normal,
};
use crate::options::{
    CompilerOptionsModel, PathsModel, advanced_failure, experimental_failure, further_failure,
    jsx_field, libs_field, libs_json, libs_upto, lint_failure, module_field, opt_jsx_in,
    opt_libs_in, opt_module_in, opt_paths_in, opt_resolution_in, opt_target_in, options_json,
    options_members, options_of, options_read, paths_field, paths_members, paths_upto,
    project_failure, resolution_failure, resolution_field, source_map_failure, strict_failure,
    target_field, watch_failure,
};

verus! {

/// One of the targets that is normal reads back from what was written
/// for it.
pub proof fn lemma_target_field(
    m: Members,
    prefix: Seq<char>,
    key: Seq<char>,
    value: Option<TargetModel>,
)
    requires
        member(m, key) == part_value(target_field(key, value)),
        value is Some ==> target_is_normal(value->0),
    ensures
        opt_target_in(m, prefix, key) == Ok::<Option<TargetModel>, ParseErrorModel>(value),
{
    reveal(opt_target_in);
    if value is Some {
        lemma_target_reread(value->0);
    }
}

/// One of the module systems that is normal reads back from what was written
/// for it.
pub proof fn lemma_module_field(
    m: Members,
    prefix: Seq<char>,
    key: Seq<char>,
    value: Option<ModuleModel>,
)
    requires
        member(m, key) == part_value(module_field(key, value)),
        value is Some ==> module_is_normal(value->0),
    ensures
        opt_module_in(m, prefix, key) == Ok::<Option<ModuleModel>, ParseErrorModel>(value),
{
    reveal(opt_module_in);
    if value is Some {
        lemma_module_reread(value->0);
    }
}

/// One of the resolution strategies that is normal reads back from what was written
/// for it.
pub proof fn lemma_resolution_field(
    m: Members,
    prefix: Seq<char>,
    key: Seq<char>,
    value: Option<ModuleResolutionModeModel>,
)
    requires
        member(m, key) == part_value(resolution_field(key, value)),
        value is Some ==> resolution_is_normal(value->0),
    ensures
        opt_resolution_in(m, prefix, key) == Ok::<Option<ModuleResolutionModeModel>, ParseErrorModel>(value),
{
    reveal(opt_resolution_in);
    if value is Some {
        lemma_resolution_reread(value->0);
    }
}

/// One of the JSX modes that is normal reads back from what was written
/// for it.
pub proof fn lemma_jsx_field(m: Members, prefix: Seq<char>, key: Seq<char>, value: Option<JsxModel>)
    requires
        member(m, key) == part_value(jsx_field(key, value)),
        value is Some ==> jsx_is_normal(value->0),
    ensures
        opt_jsx_in(m, prefix, key) == Ok::<Option<JsxModel>, ParseErrorModel>(value),
{
    reveal(opt_jsx_in);
    if value is Some {
        lemma_jsx_reread(value->0);
    }
}

/// Every library of the list is normal.
pub open spec fn libs_are_normal(libs: Seq<LibModel>) -> bool {
    forall|i: int| 0 <= i < libs.len() ==> lib_is_normal(#[trigger] libs[i])
}

/// The first `n` names written for a list of normal libraries read back
/// as the first `n` libraries.
pub proof fn lemma_libs_upto(libs: Seq<LibModel>, path: Seq<char>, n: int)
    requires
        0 <= n <= libs.len(),
        libs_are_normal(libs),
    ensures
        libs_upto(libs_json(libs)->Array_0, path, n) == Ok::<Seq<LibModel>, ParseErrorModel>(
            libs.take(n),
        ),
    decreases n,
{
    if n > 0 {
        lemma_libs_upto(libs, path, n - 1);
        lemma_lib_reread(libs[n - 1]);
        assert(libs.take(n - 1).push(libs[n - 1]) =~= libs.take(n));
    } else {
        assert(libs.take(0) =~= Seq::empty());
    }
}

/// A list of normal libraries reads back from what was written for it.
pub proof fn lemma_libs_field(
    m: Members,
    prefix: Seq<char>,
    key: Seq<char>,
    value: Option<Seq<LibModel>>,
)
    requires
        member(m, key) == part_value(libs_field(key, value)),
        value is Some ==> libs_are_normal(value->0),
    ensures
        opt_libs_in(m, prefix, key) == Ok::<Option<Seq<LibModel>>, ParseErrorModel>(value),
{
    reveal(opt_libs_in);
    if value is Some {
        let libs = value->0;
        lemma_libs_upto(libs, path_of(prefix, key), libs.len() as int);
        assert(libs.take(libs.len() as int) =~= libs);
    }
}

/// The first `n` members written for a mapping of paths read back as its
/// first `n` entries.
pub proof fn lemma_paths_upto(entries: PathsModel, path: Seq<char>, n: int)
    requires
        0 <= n <= entries.len(),
    ensures
        paths_upto(paths_members(entries), path, n) == Ok::<PathsModel, ParseErrorModel>(
            entries.take(n),
        ),
    decreases n,
{
    if n > 0 {
        lemma_paths_upto(entries, path, n - 1);
        lemma_texts_round_trip(entries[n - 1].1, path_of(path, entries[n - 1].0));
        assert(entries.take(n - 1).push(entries[n - 1]) =~= entries.take(n));
    } else {
        assert(entries.take(0) =~= Seq::empty());
    }
}

/// A mapping of paths that holds no pattern twice reads back from what was
/// written for it.
pub proof fn lemma_paths_field(
    m: Members,
    prefix: Seq<char>,
    key: Seq<char>,
    value: Option<PathsModel>,
)
    requires
        member(m, key) == part_value(paths_field(key, value)),
        value is Some ==> distinct_names(value->0),
    ensures
        opt_paths_in(m, prefix, key) == Ok::<Option<PathsModel>, ParseErrorModel>(value),
{
    reveal(opt_paths_in);
    if value is Some {
        let entries = value->0;
        assert(distinct_keys(paths_members(entries)));
        lemma_upsert_all_distinct(paths_members(entries));
        lemma_paths_upto(entries, path_of(prefix, key), entries.len() as int);
        assert(entries.take(entries.len() as int) =~= entries);
    }
}

impl CompilerOptionsModel {
    /// Every name among the options is normal: reading it gives back the
    /// value that wrote it.
    pub open spec fn names_are_normal(self) -> bool {
        &&& self.jsx is Some ==> jsx_is_normal(self.jsx->0)
        &&& self.lib is Some ==> libs_are_normal(self.lib->0)
        &&& self.module is Some ==> module_is_normal(self.module->0)
        &&& self.target is Some ==> target_is_normal(self.target->0)
        &&& self.module_resolution is Some ==> resolution_is_normal(self.module_resolution->0)
    }
}

/// The number of compiler options.
pub open spec fn options_count() -> int {
    96
}

/// The key of the option at a position in declared order.
pub open spec fn options_key(i: int) -> Seq<char> {
    if i == 0 {
        "allowJs"@
    } else if i == 1 {
        "checkJs"@
    } else if i == 2 {
        "composite"@
    } else if i == 3 {
        "declaration"@
    } else if i == 4 {
        "declarationMap"@
    } else if i == 5 {
        "downlevelIteration"@
    } else if i == 6 {
        "importHelpers"@
    } else if i == 7 {
        "incremental"@
    } else if i == 8 {
        "isolatedModules"@
    } else if i == 9 {
        "jsx"@
    } else if i == 10 {
        "lib"@
    } else if i == 11 {
        "module"@
    } else if i == 12 {
        "noEmit"@
    } else if i == 13 {
        "outDir"@
    } else if i == 14 {
        "outFile"@
    } else if i == 15 {
        "removeComments"@
    } else if i == 16 {
        "rootDir"@
    } else if i == 17 {
        "sourceMap"@
    } else if i == 18 {
        "target"@
    } else if i == 19 {
        "tsBuildInfoFile"@
    } else if i == 20 {
        "alwaysStrict"@
    } else if i == 21 {
        "noImplicitAny"@
    } else if i == 22 {
        "noImplicitThis"@
    } else if i == 23 {
        "strict"@
    } else if i == 24 {
        "strictBindCallApply"@
    } else if i == 25 {
        "strictFunctionTypes"@
    } else if i == 26 {
        "strictNullChecks"@
    } else if i == 27 {
        "strictPropertyInitialization"@
    } else if i == 28 {
        "allowSyntheticDefaultImports"@
    } else if i == 29 {
        "allowUmdGlobalAccess"@
    } else if i == 30 {
        "baseUrl"@
    } else if i == 31 {
        "esModuleInterop"@
    } else if i == 32 {
        "moduleResolution"@
    } else if i == 33 {
        "paths"@
    } else if i == 34 {
        "preserveSymlinks"@
    } else if i == 35 {
        "rootDirs"@
    } else if i == 36 {
        "typeRoots"@
    } else if i == 37 {
        "types"@
    } else if i == 38 {
        "inlineSourceMap"@
    } else if i == 39 {
        "inlineSources"@
    } else if i == 40 {
        "mapRoot"@
    } else if i == 41 {
        "sourceRoot"@
    } else if i == 42 {
        "noFallthroughCasesInSwitch"@
    } else if i == 43 {
        "noImplicitReturns"@
    } else if i == 44 {
        "noPropertyAccessFromIndexSignature"@
    } else if i == 45 {
        "noUncheckedIndexedAccess"@
    } else if i == 46 {
        "noUnusedLocals"@
    } else if i == 47 {
        "emitDecoratorMetadata"@
    } else if i == 48 {
        "experimentalDecorators"@
    } else if i == 49 {
        "allowUnreachableCode"@
    } else if i == 50 {
        "allowUnusedLabels"@
    } else if i == 51 {
        "assumeChangesOnlyAffectDirectDependencies"@
    } else if i == 52 {
        "charset"@
    } else if i == 53 {
        "declarationDir"@
    } else if i == 54 {
        "diagnostics"@
    } else if i == 55 {
        "disableReferencedProjectLoad"@
    } else if i == 56 {
        "disableSizeLimit"@
    } else if i == 57 {
        "disableSolutionSearching"@
    } else if i == 58 {
        "disableSourceOfProjectReferenceRedirect"@
    } else if i == 59 {
        "emitBOM"@
    } else if i == 60 {
        "emitDeclarationOnly"@
    } else if i == 61 {
        "explainFiles"@
    } else if i == 62 {
        "extendedDiagnostics"@
    } else if i == 63 {
        "forceConsistentCasingInFileNames"@
    } else if i == 64 {
        "generateCpuProfile"@
    } else if i == 65 {
        "importsNotUsedAsValues"@
    } else if i == 66 {
        "jsxFactory"@
    } else if i == 67 {
        "jsxFragmentFactory"@
    } else if i == 68 {
        "jsxImportSource"@
    } else if i == 69 {
        "keyofStringsOnly"@
    } else if i == 70 {
        "listEmittedFiles"@
    } else if i == 71 {
        "listFiles"@
    } else if i == 72 {
        "maxNodeModuleJsDepth"@
    } else if i == 73 {
        "noEmitHelpers"@
    } else if i == 74 {
        "noEmitOnError"@
    } else if i == 75 {
        "noErrorTruncation"@
    } else if i == 76 {
        "noImplicitUseStrict"@
    } else if i == 77 {
        "noLib"@
    } else if i == 78 {
        "noResolve"@
    } else if i == 79 {
        "noStrictGenericChecks"@
    } else if i == 80 {
        "out"@
    } else if i == 81 {
        "preserveConstEnums"@
    } else if i == 82 {
        "reactNamespace"@
    } else if i == 83 {
        "resolveJsonModule"@
    } else if i == 84 {
        "skipDefaultLibCheck"@
    } else if i == 85 {
        "skipLibCheck"@
    } else if i == 86 {
        "stripInternal"@
    } else if i == 87 {
        "suppressExcessPropertyErrors"@
    } else if i == 88 {
        "suppressImplicitAnyIndexErrors"@
    } else if i == 89 {
        "traceResolution"@
    } else if i == 90 {
        "useDefineForClassFields"@
    } else if i == 91 {
        "preserveWatchOutput"@
    } else if i == 92 {
        "pretty"@
    } else if i == 93 {
        "fallbackPolling"@
    } else if i == 94 {
        "watchDirectory"@
    } else {
        "watchFile"@
    }
}

/// The position in declared order of the option with a key.
pub open spec fn options_key_position(key: Seq<char>) -> int {
    if key == "allowJs"@ {
        0
    } else if key == "checkJs"@ {
        1
    } else if key == "composite"@ {
        2
    } else if key == "declaration"@ {
        3
    } else if key == "declarationMap"@ {
        4
    } else if key == "downlevelIteration"@ {
        5
    } else if key == "importHelpers"@ {
        6
    } else if key == "incremental"@ {
        7
    } else if key == "isolatedModules"@ {
        8
    } else if key == "jsx"@ {
        9
    } else if key == "lib"@ {
        10
    } else if key == "module"@ {
        11
    } else if key == "noEmit"@ {
        12
    } else if key == "outDir"@ {
        13
    } else if key == "outFile"@ {
        14
    } else if key == "removeComments"@ {
        15
    } else if key == "rootDir"@ {
        16
    } else if key == "sourceMap"@ {
        17
    } else if key == "target"@ {
        18
    } else if key == "tsBuildInfoFile"@ {
        19
    } else if key == "alwaysStrict"@ {
        20
    } else if key == "noImplicitAny"@ {
        21
    } else if key == "noImplicitThis"@ {
        22
    } else if key == "strict"@ {
        23
    } else if key == "strictBindCallApply"@ {
        24
    } else if key == "strictFunctionTypes"@ {
        25
    } else if key == "strictNullChecks"@ {
        26
    } else if key == "strictPropertyInitialization"@ {
        27
    } else if key == "allowSyntheticDefaultImports"@ {
        28
    } else if key == "allowUmdGlobalAccess"@ {
        29
    } else if key == "baseUrl"@ {
        30
    } else if key == "esModuleInterop"@ {
        31
    } else if key == "moduleResolution"@ {
        32
    } else if key == "paths"@ {
        33
    } else if key == "preserveSymlinks"@ {
        34
    } else if key == "rootDirs"@ {
        35
    } else if key == "typeRoots"@ {
        36
    } else if key == "types"@ {
        37
    } else if key == "inlineSourceMap"@ {
        38
    } else if key == "inlineSources"@ {
        39
    } else if key == "mapRoot"@ {
        40
    } else if key == "sourceRoot"@ {
        41
    } else if key == "noFallthroughCasesInSwitch"@ {
        42
    } else if key == "noImplicitReturns"@ {
        43
    } else if key == "noPropertyAccessFromIndexSignature"@ {
        44
    } else if key == "noUncheckedIndexedAccess"@ {
        45
    } else if key == "noUnusedLocals"@ {
        46
    } else if key == "emitDecoratorMetadata"@ {
        47
    } else if key == "experimentalDecorators"@ {
        48
    } else if key == "allowUnreachableCode"@ {
        49
    } else if key == "allowUnusedLabels"@ {
        50
    } else if key == "assumeChangesOnlyAffectDirectDependencies"@ {
        51
    } else if key == "charset"@ {
        52
    } else if key == "declarationDir"@ {
        53
    } else if key == "diagnostics"@ {
        54
    } else if key == "disableReferencedProjectLoad"@ {
        55
    } else if key == "disableSizeLimit"@ {
        56
    } else if key == "disableSolutionSearching"@ {
        57
    } else if key == "disableSourceOfProjectReferenceRedirect"@ {
        58
    } else if key == "emitBOM"@ {
        59
    } else if key == "emitDeclarationOnly"@ {
        60
    } else if key == "explainFiles"@ {
        61
    } else if key == "extendedDiagnostics"@ {
        62
    } else if key == "forceConsistentCasingInFileNames"@ {
        63
    } else if key == "generateCpuProfile"@ {
        64
    } else if key == "importsNotUsedAsValues"@ {
        65
    } else if key == "jsxFactory"@ {
        66
    } else if key == "jsxFragmentFactory"@ {
        67
    } else if key == "jsxImportSource"@ {
        68
    } else if key == "keyofStringsOnly"@ {
        69
    } else if key == "listEmittedFiles"@ {
        70
    } else if key == "listFiles"@ {
        71
    } else if key == "maxNodeModuleJsDepth"@ {
        72
    } else if key == "noEmitHelpers"@ {
        73
    } else if key == "noEmitOnError"@ {
        74
    } else if key == "noErrorTruncation"@ {
        75
    } else if key == "noImplicitUseStrict"@ {
        76
    } else if key == "noLib"@ {
        77
    } else if key == "noResolve"@ {
        78
    } else if key == "noStrictGenericChecks"@ {
        79
    } else if key == "out"@ {
        80
    } else if key == "preserveConstEnums"@ {
        81
    } else if key == "reactNamespace"@ {
        82
    } else if key == "resolveJsonModule"@ {
        83
    } else if key == "skipDefaultLibCheck"@ {
        84
    } else if key == "skipLibCheck"@ {
        85
    } else if key == "stripInternal"@ {
        86
    } else if key == "suppressExcessPropertyErrors"@ {
        87
    } else if key == "suppressImplicitAnyIndexErrors"@ {
        88
    } else if key == "traceResolution"@ {
        89
    } else if key == "useDefineForClassFields"@ {
        90
    } else if key == "preserveWatchOutput"@ {
        91
    } else if key == "pretty"@ {
        92
    } else if key == "fallbackPolling"@ {
        93
    } else if key == "watchDirectory"@ {
        94
    } else if key == "watchFile"@ {
        95
    } else {
        96
    }
}

/// What is written for the option at a position in declared order.
pub open spec fn options_part(c: CompilerOptionsModel, i: int) -> Members {
    if i == 0 {
        flag_field("allowJs"@, c.allow_js)
    } else if i == 1 {
        flag_field("checkJs"@, c.check_js)
    } else if i == 2 {
        flag_field("composite"@, c.composite)
    } else if i == 3 {
        flag_field("declaration"@, c.declaration)
    } else if i == 4 {
        flag_field("declarationMap"@, c.declaration_map)
    } else if i == 5 {
        flag_field("downlevelIteration"@, c.downlevel_iteration)
    } else if i == 6 {
        flag_field("importHelpers"@, c.import_helpers)
    } else if i == 7 {
        flag_field("incremental"@, c.incremental)
    } else if i == 8 {
        flag_field("isolatedModules"@, c.isolated_modules)
    } else if i == 9 {
        jsx_field("jsx"@, c.jsx)
    } else if i == 10 {
        libs_field("lib"@, c.lib)
    } else if i == 11 {
        module_field("module"@, c.module)
    } else if i == 12 {
        flag_field("noEmit"@, c.no_emit)
    } else if i == 13 {
        text_field("outDir"@, c.out_dir)
    } else if i == 14 {
        text_field("outFile"@, c.out_file)
    } else if i == 15 {
        flag_field("removeComments"@, c.remove_comments)
    } else if i == 16 {
        text_field("rootDir"@, c.root_dir)
    } else if i == 17 {
        flag_field("sourceMap"@, c.source_map)
    } else if i == 18 {
        target_field("target"@, c.target)
    } else if i == 19 {
        text_field("tsBuildInfoFile"@, c.ts_build_info_file)
    } else if i == 20 {
        flag_field("alwaysStrict"@, c.always_strict)
    } else if i == 21 {
        flag_field("noImplicitAny"@, c.no_implicit_any)
    } else if i == 22 {
        flag_field("noImplicitThis"@, c.no_implicit_this)
    } else if i == 23 {
        flag_field("strict"@, c.strict)
    } else if i == 24 {
        flag_field("strictBindCallApply"@, c.strict_bind_call_apply)
    } else if i == 25 {
        flag_field("strictFunctionTypes"@, c.strict_function_types)
    } else if i == 26 {
        flag_field("strictNullChecks"@, c.strict_null_checks)
    } else if i == 27 {
        flag_field("strictPropertyInitialization"@, c.strict_property_initialization)
    } else if i == 28 {
        flag_field("allowSyntheticDefaultImports"@, c.allow_synthetic_default_imports)
    } else if i == 29 {
        flag_field("allowUmdGlobalAccess"@, c.allow_umd_global_access)
    } else if i == 30 {
        text_field("baseUrl"@, c.base_url)
    } else if i == 31 {
        flag_field("esModuleInterop"@, c.es_module_interop)
    } else if i == 32 {
        resolution_field("moduleResolution"@, c.module_resolution)
    } else if i == 33 {
        paths_field("paths"@, c.paths)
    } else if i == 34 {
        flag_field("preserveSymlinks"@, c.preserve_symlinks)
    } else if i == 35 {
        opt_texts_field("rootDirs"@, c.root_dirs)
    } else if i == 36 {
        opt_texts_field("typeRoots"@, c.type_roots)
    } else if i == 37 {
        opt_texts_field("types"@, c.types)
    } else if i == 38 {
        flag_field("inlineSourceMap"@, c.inline_source_map)
    } else if i == 39 {
        flag_field("inlineSources"@, c.inline_sources)
    } else if i == 40 {
        text_field("mapRoot"@, c.map_root)
    } else if i == 41 {
        text_field("sourceRoot"@, c.source_root)
    } else if i == 42 {
        flag_field("noFallthroughCasesInSwitch"@, c.no_fallthrough_cases_in_switch)
    } else if i == 43 {
        flag_field("noImplicitReturns"@, c.no_implicit_returns)
    } else if i == 44 {
        flag_field("noPropertyAccessFromIndexSignature"@, c.no_property_access_from_index_signature)
    } else if i == 45 {
        flag_field("noUncheckedIndexedAccess"@, c.no_unchecked_indexed_access)
    } else if i == 46 {
        flag_field("noUnusedLocals"@, c.no_unused_locals)
    } else if i == 47 {
        flag_field("emitDecoratorMetadata"@, c.emit_decorator_metadata)
    } else if i == 48 {
        flag_field("experimentalDecorators"@, c.experimental_decorators)
    } else if i == 49 {
        flag_field("allowUnreachableCode"@, c.allow_unreachable_code)
    } else if i == 50 {
        flag_field("allowUnusedLabels"@, c.allow_unused_labels)
    } else if i == 51 {
        flag_field("assumeChangesOnlyAffectDirectDependencies"@, c.assume_changes_only_affect_direct_dependencies)
    } else if i == 52 {
        text_field("charset"@, c.charset)
    } else if i == 53 {
        text_field("declarationDir"@, c.declaration_dir)
    } else if i == 54 {
        flag_field("diagnostics"@, c.diagnostics)
    } else if i == 55 {
        flag_field("disableReferencedProjectLoad"@, c.disable_referenced_project_load)
    } else if i == 56 {
        flag_field("disableSizeLimit"@, c.disable_size_limit)
    } else if i == 57 {
        flag_field("disableSolutionSearching"@, c.disable_solution_searching)
    } else if i == 58 {
        flag_field("disableSourceOfProjectReferenceRedirect"@, c.disable_source_of_project_reference_redirect)
    } else if i == 59 {
        flag_field("emitBOM"@, c.emit_bom)
    } else if i == 60 {
        flag_field("emitDeclarationOnly"@, c.emit_declaration_only)
    } else if i == 61 {
        flag_field("explainFiles"@, c.explain_files)
    } else if i == 62 {
        flag_field("extendedDiagnostics"@, c.extended_diagnostics)
    } else if i == 63 {
        flag_field("forceConsistentCasingInFileNames"@, c.force_consistent_casing_in_file_names)
    } else if i == 64 {
        flag_field("generateCpuProfile"@, c.generate_cpu_profile)
    } else if i == 65 {
        text_field("importsNotUsedAsValues"@, c.imports_not_used_as_values)
    } else if i == 66 {
        text_field("jsxFactory"@, c.jsx_factory)
    } else if i == 67 {
        text_field("jsxFragmentFactory"@, c.jsx_fragment_factory)
    } else if i == 68 {
        text_field("jsxImportSource"@, c.jsx_import_source)
    } else if i == 69 {
        flag_field("keyofStringsOnly"@, c.keyof_strings_only)
    } else if i == 70 {
        flag_field("listEmittedFiles"@, c.list_emitted_files)
    } else if i == 71 {
        flag_field("listFiles"@, c.list_files)
    } else if i == 72 {
        count_field("maxNodeModuleJsDepth"@, c.max_node_module_js_depth)
    } else if i == 73 {
        flag_field("noEmitHelpers"@, c.no_emit_helpers)
    } else if i == 74 {
        flag_field("noEmitOnError"@, c.no_emit_on_error)
    } else if i == 75 {
        flag_field("noErrorTruncation"@, c.no_error_truncation)
    } else if i == 76 {
        flag_field("noImplicitUseStrict"@, c.no_implicit_use_strict)
    } else if i == 77 {
        flag_field("noLib"@, c.no_lib)
    } else if i == 78 {
        flag_field("noResolve"@, c.no_resolve)
    } else if i == 79 {
        flag_field("noStrictGenericChecks"@, c.no_strict_generic_checks)
    } else if i == 80 {
        text_field("out"@, c.out)
    } else if i == 81 {
        flag_field("preserveConstEnums"@, c.preserve_const_enums)
    } else if i == 82 {
        text_field("reactNamespace"@, c.react_namespace)
    } else if i == 83 {
        flag_field("resolveJsonModule"@, c.resolve_json_module)
    } else if i == 84 {
        flag_field("skipDefaultLibCheck"@, c.skip_default_lib_check)
    } else if i == 85 {
        flag_field("skipLibCheck"@, c.skip_lib_check)
    } else if i == 86 {
        flag_field("stripInternal"@, c.strip_internal)
    } else if i == 87 {
        flag_field("suppressExcessPropertyErrors"@, c.suppress_excess_property_errors)
    } else if i == 88 {
        flag_field("suppressImplicitAnyIndexErrors"@, c.suppress_implicit_any_index_errors)
    } else if i == 89 {
        flag_field("traceResolution"@, c.trace_resolution)
    } else if i == 90 {
        flag_field("useDefineForClassFields"@, c.use_define_for_class_fields)
    } else if i == 91 {
        flag_field("preserveWatchOutput"@, c.preserve_watch_output)
    } else if i == 92 {
        flag_field("pretty"@, c.pretty)
    } else if i == 93 {
        text_field("fallbackPolling"@, c.fallback_polling)
    } else if i == 94 {
        text_field("watchDirectory"@, c.watch_directory)
    } else if i == 95 {
        text_field("watchFile"@, c.watch_file)
    } else {
        Seq::empty()
    }
}

/// What is written for each option, by position in declared order.
pub open spec fn options_parts(c: CompilerOptionsModel) -> spec_fn(int) -> Members {
    |i: int| options_part(c, i)
}

/// The key of each option, by position in declared order.
pub open spec fn options_keys() -> spec_fn(int) -> Seq<char> {
    |i: int| options_key(i)
}

/// The keys of the options differ from each other.
pub proof fn lemma_options_keys()
    ensures
        forall|i: int|
            0 <= i < options_count() ==> options_key_position(#[trigger] options_key(i)) == i,
{
    reveal_strlit("allowJs");
    assert("allowJs"@.len() == 7 && "allowJs"@[0] == 'a' && "allowJs"@[2] == 'l');
    reveal_strlit("checkJs");
    assert("checkJs"@.len() == 7 && "checkJs"@[0] == 'c' && "checkJs"@[2] == 'e');
    reveal_strlit("composite");
    assert("composite"@.len() == 9 && "composite"@[0] == 'c' && "composite"@[2] == 'm');
    reveal_strlit("declaration");
    assert("declaration"@.len() == 11 && "declaration"@[0] == 'd' && "declaration"@[2] == 'c');
    reveal_strlit("declarationMap");
    assert("declarationMap"@.len() == 14 && "declarationMap"@[0] == 'd'
        && "declarationMap"@[2] == 'c' && "declarationMap"@[11] == 'M');
    reveal_strlit("downlevelIteration");
    assert("downlevelIteration"@.len() == 18 && "downlevelIteration"@[0] == 'd'
        && "downlevelIteration"@[2] == 'w' && "downlevelIteration"@[11] == 'e');
    reveal_strlit("importHelpers");
    assert("importHelpers"@.len() == 13 && "importHelpers"@[0] == 'i'
        && "importHelpers"@[2] == 'p' && "importHelpers"@[11] == 'r');
    reveal_strlit("incremental");
    assert("incremental"@.len() == 11 && "incremental"@[0] == 'i' && "incremental"@[2] == 'c');
    reveal_strlit("isolatedModules");
    assert("isolatedModules"@.len() == 15 && "isolatedModules"@[0] == 'i'
        && "isolatedModules"@[2] == 'o' && "isolatedModules"@[11] == 'u');
    reveal_strlit("jsx");
    assert("jsx"@.len() == 3 && "jsx"@[0] == 'j' && "jsx"@[2] == 'x');
    reveal_strlit("lib");
    assert("lib"@.len() == 3 && "lib"@[0] == 'l' && "lib"@[2] == 'b');
    reveal_strlit("module");
    assert("module"@.len() == 6 && "module"@[0] == 'm' && "module"@[2] == 'd');
    reveal_strlit("noEmit");
    assert("noEmit"@.len() == 6 && "noEmit"@[0] == 'n' && "noEmit"@[2] == 'E');
    reveal_strlit("outDir");
    assert("outDir"@.len() == 6 && "outDir"@[0] == 'o' && "outDir"@[2] == 't');
    reveal_strlit("outFile");
    assert("outFile"@.len() == 7 && "outFile"@[0] == 'o' && "outFile"@[2] == 't');
    reveal_strlit("removeComments");
    assert("removeComments"@.len() == 14 && "removeComments"@[0] == 'r'
        && "removeComments"@[2] == 'm' && "removeComments"@[11] == 'n');
    reveal_strlit("rootDir");
    assert("rootDir"@.len() == 7 && "rootDir"@[0] == 'r' && "rootDir"@[2] == 'o');
    reveal_strlit("sourceMap");
    assert("sourceMap"@.len() == 9 && "sourceMap"@[0] == 's' && "sourceMap"@[2] == 'u');
    reveal_strlit("target");
    assert("target"@.len() == 6 && "target"@[0] == 't' && "target"@[2] == 'r');
    reveal_strlit("tsBuildInfoFile");
    assert("tsBuildInfoFile"@.len() == 15 && "tsBuildInfoFile"@[0] == 't'
        && "tsBuildInfoFile"@[2] == 'B' && "tsBuildInfoFile"@[11] == 'F');
    reveal_strlit("alwaysStrict");
    assert("alwaysStrict"@.len() == 12 && "alwaysStrict"@[0] == 'a' && "alwaysStrict"@[2] == 'w'
        && "alwaysStrict"@[11] == 't');
    reveal_strlit("noImplicitAny");
    assert("noImplicitAny"@.len() == 13 && "noImplicitAny"@[0] == 'n'
        && "noImplicitAny"@[2] == 'I' && "noImplicitAny"@[11] == 'n');
    reveal_strlit("noImplicitThis");
    assert("noImplicitThis"@.len() == 14 && "noImplicitThis"@[0] == 'n'
        && "noImplicitThis"@[2] == 'I' && "noImplicitThis"@[11] == 'h');
    reveal_strlit("strict");
    assert("strict"@.len() == 6 && "strict"@[0] == 's' && "strict"@[2] == 'r');
    reveal_strlit("strictBindCallApply");
    assert("strictBindCallApply"@.len() == 19 && "strictBindCallApply"@[0] == 's'
        && "strictBindCallApply"@[2] == 'r' && "strictBindCallApply"@[11] == 'a');
    reveal_strlit("strictFunctionTypes");
    assert("strictFunctionTypes"@.len() == 19 && "strictFunctionTypes"@[0] == 's'
        && "strictFunctionTypes"@[2] == 'r' && "strictFunctionTypes"@[11] == 'i');
    reveal_strlit("strictNullChecks");
    assert("strictNullChecks"@.len() == 16 && "strictNullChecks"@[0] == 's'
        && "strictNullChecks"@[2] == 'r' && "strictNullChecks"@[11] == 'h');
    reveal_strlit("strictPropertyInitialization");
    assert("strictPropertyInitialization"@.len() == 28
        && "strictPropertyInitialization"@[0] == 's' && "strictPropertyInitialization"@[2] == 'r'
        && "strictPropertyInitialization"@[11] == 'r');
    reveal_strlit("allowSyntheticDefaultImports");
    assert("allowSyntheticDefaultImports"@.len() == 28
        && "allowSyntheticDefaultImports"@[0] == 'a' && "allowSyntheticDefaultImports"@[2] == 'l'
        && "allowSyntheticDefaultImports"@[11] == 't');
    reveal_strlit("allowUmdGlobalAccess");
    assert("allowUmdGlobalAccess"@.len() == 20 && "allowUmdGlobalAccess"@[0] == 'a'
        && "allowUmdGlobalAccess"@[2] == 'l' && "allowUmdGlobalAccess"@[11] == 'b');
    reveal_strlit("baseUrl");
    assert("baseUrl"@.len() == 7 && "baseUrl"@[0] == 'b' && "baseUrl"@[2] == 's');
    reveal_strlit("esModuleInterop");
    assert("esModuleInterop"@.len() == 15 && "esModuleInterop"@[0] == 'e'
        && "esModuleInterop"@[2] == 'M' && "esModuleInterop"@[11] == 'e');
    reveal_strlit("moduleResolution");
    assert("moduleResolution"@.len() == 16 && "moduleResolution"@[0] == 'm'
        && "moduleResolution"@[2] == 'd' && "moduleResolution"@[11] == 'u');
    reveal_strlit("paths");
    assert("paths"@.len() == 5 && "paths"@[0] == 'p' && "paths"@[2] == 't');
    reveal_strlit("preserveSymlinks");
    assert("preserveSymlinks"@.len() == 16 && "preserveSymlinks"@[0] == 'p'
        && "preserveSymlinks"@[2] == 'e' && "preserveSymlinks"@[11] == 'l');
    reveal_strlit("rootDirs");
    assert("rootDirs"@.len() == 8 && "rootDirs"@[0] == 'r' && "rootDirs"@[2] == 'o');
    reveal_strlit("typeRoots");
    assert("typeRoots"@.len() == 9 && "typeRoots"@[0] == 't' && "typeRoots"@[2] == 'p');
    reveal_strlit("types");
    assert("types"@.len() == 5 && "types"@[0] == 't' && "types"@[2] == 'p');
    reveal_strlit("inlineSourceMap");
    assert("inlineSourceMap"@.len() == 15 && "inlineSourceMap"@[0] == 'i'
        && "inlineSourceMap"@[2] == 'l' && "inlineSourceMap"@[11] == 'e');
    reveal_strlit("inlineSources");
    assert("inlineSources"@.len() == 13 && "inlineSources"@[0] == 'i'
        && "inlineSources"@[2] == 'l' && "inlineSources"@[11] == 'e');
    reveal_strlit("mapRoot");
    assert("mapRoot"@.len() == 7 && "mapRoot"@[0] == 'm' && "mapRoot"@[2] == 'p');
    reveal_strlit("sourceRoot");
    assert("sourceRoot"@.len() == 10 && "sourceRoot"@[0] == 's' && "sourceRoot"@[2] == 'u');
    reveal_strlit("noFallthroughCasesInSwitch");
    assert("noFallthroughCasesInSwitch"@.len() == 26 && "noFallthroughCasesInSwitch"@[0] == 'n'
        && "noFallthroughCasesInSwitch"@[2] == 'F' && "noFallthroughCasesInSwitch"@[11] == 'g');
    reveal_strlit("noImplicitReturns");
    assert("noImplicitReturns"@.len() == 17 && "noImplicitReturns"@[0] == 'n'
        && "noImplicitReturns"@[2] == 'I' && "noImplicitReturns"@[11] == 'e');
    reveal_strlit("noPropertyAccessFromIndexSignature");
    assert("noPropertyAccessFromIndexSignature"@.len() == 34
        && "noPropertyAccessFromIndexSignature"@[0] == 'n'
        && "noPropertyAccessFromIndexSignature"@[2] == 'P'
        && "noPropertyAccessFromIndexSignature"@[11] == 'c');
    reveal_strlit("noUncheckedIndexedAccess");
    assert("noUncheckedIndexedAccess"@.len() == 24 && "noUncheckedIndexedAccess"@[0] == 'n'
        && "noUncheckedIndexedAccess"@[2] == 'U' && "noUncheckedIndexedAccess"@[11] == 'I');
    reveal_strlit("noUnusedLocals");
    assert("noUnusedLocals"@.len() == 14 && "noUnusedLocals"@[0] == 'n'
        && "noUnusedLocals"@[2] == 'U' && "noUnusedLocals"@[11] == 'a');
    reveal_strlit("emitDecoratorMetadata");
    assert("emitDecoratorMetadata"@.len() == 21 && "emitDecoratorMetadata"@[0] == 'e'
        && "emitDecoratorMetadata"@[2] == 'i' && "emitDecoratorMetadata"@[11] == 'o');
    reveal_strlit("experimentalDecorators");
    assert("experimentalDecorators"@.len() == 22 && "experimentalDecorators"@[0] == 'e'
        && "experimentalDecorators"@[2] == 'p' && "experimentalDecorators"@[11] == 'l');
    reveal_strlit("allowUnreachableCode");
    assert("allowUnreachableCode"@.len() == 20 && "allowUnreachableCode"@[0] == 'a'
        && "allowUnreachableCode"@[2] == 'l' && "allowUnreachableCode"@[11] == 'h');
    reveal_strlit("allowUnusedLabels");
    assert("allowUnusedLabels"@.len() == 17 && "allowUnusedLabels"@[0] == 'a'
        && "allowUnusedLabels"@[2] == 'l' && "allowUnusedLabels"@[11] == 'L');
    reveal_strlit("assumeChangesOnlyAffectDirectDependencies");
    assert("assumeChangesOnlyAffectDirectDependencies"@.len() == 41
        && "assumeChangesOnlyAffectDirectDependencies"@[0] == 'a'
        && "assumeChangesOnlyAffectDirectDependencies"@[2] == 's'
        && "assumeChangesOnlyAffectDirectDependencies"@[11] == 'e');
    reveal_strlit("charset");
    assert("charset"@.len() == 7 && "charset"@[0] == 'c' && "charset"@[2] == 'a');
    reveal_strlit("declarationDir");
    assert("declarationDir"@.len() == 14 && "declarationDir"@[0] == 'd'
        && "declarationDir"@[2] == 'c' && "declarationDir"@[11] == 'D');
    reveal_strlit("diagnostics");
    assert("diagnostics"@.len() == 11 && "diagnostics"@[0] == 'd' && "diagnostics"@[2] == 'a');
    reveal_strlit("disableReferencedProjectLoad");
    assert("disableReferencedProjectLoad"@.len() == 28
        && "disableReferencedProjectLoad"@[0] == 'd' && "disableReferencedProjectLoad"@[2] == 's'
        && "disableReferencedProjectLoad"@[11] == 'r');
    reveal_strlit("disableSizeLimit");
    assert("disableSizeLimit"@.len() == 16 && "disableSizeLimit"@[0] == 'd'
        && "disableSizeLimit"@[2] == 's' && "disableSizeLimit"@[11] == 'L');
    reveal_strlit("disableSolutionSearching");
    assert("disableSolutionSearching"@.len() == 24 && "disableSolutionSearching"@[0] == 'd'
        && "disableSolutionSearching"@[2] == 's' && "disableSolutionSearching"@[11] == 't');
    reveal_strlit("disableSourceOfProjectReferenceRedirect");
    assert("disableSourceOfProjectReferenceRedirect"@.len() == 39
        && "disableSourceOfProjectReferenceRedirect"@[0] == 'd'
        && "disableSourceOfProjectReferenceRedirect"@[2] == 's'
        && "disableSourceOfProjectReferenceRedirect"@[11] == 'c');
    reveal_strlit("emitBOM");
    assert("emitBOM"@.len() == 7 && "emitBOM"@[0] == 'e' && "emitBOM"@[2] == 'i');
    reveal_strlit("emitDeclarationOnly");
    assert("emitDeclarationOnly"@.len() == 19 && "emitDeclarationOnly"@[0] == 'e'
        && "emitDeclarationOnly"@[2] == 'i' && "emitDeclarationOnly"@[11] == 't');
    reveal_strlit("explainFiles");
    assert("explainFiles"@.len() == 12 && "explainFiles"@[0] == 'e' && "explainFiles"@[2] == 'p'
        && "explainFiles"@[11] == 's');
    reveal_strlit("extendedDiagnostics");
    assert("extendedDiagnostics"@.len() == 19 && "extendedDiagnostics"@[0] == 'e'
        && "extendedDiagnostics"@[2] == 't' && "extendedDiagnostics"@[11] == 'g');
    reveal_strlit("forceConsistentCasingInFileNames");
    assert("forceConsistentCasingInFileNames"@.len() == 32
        && "forceConsistentCasingInFileNames"@[0] == 'f'
        && "forceConsistentCasingInFileNames"@[2] == 'r'
        && "forceConsistentCasingInFileNames"@[11] == 't');
    reveal_strlit("generateCpuProfile");
    assert("generateCpuProfile"@.len() == 18 && "generateCpuProfile"@[0] == 'g'
        && "generateCpuProfile"@[2] == 'n' && "generateCpuProfile"@[11] == 'P');
    reveal_strlit("importsNotUsedAsValues");
    assert("importsNotUsedAsValues"@.len() == 22 && "importsNotUsedAsValues"@[0] == 'i'
        && "importsNotUsedAsValues"@[2] == 'p' && "importsNotUsedAsValues"@[11] == 's');
    reveal_strlit("jsxFactory");
    assert("jsxFactory"@.len() == 10 && "jsxFactory"@[0] == 'j' && "jsxFactory"@[2] == 'x');
    reveal_strlit("jsxFragmentFactory");
    assert("jsxFragmentFactory"@.len() == 18 && "jsxFragmentFactory"@[0] == 'j'
        && "jsxFragmentFactory"@[2] == 'x' && "jsxFragmentFactory"@[11] == 'F');
    reveal_strlit("jsxImportSource");
    assert("jsxImportSource"@.len() == 15 && "jsxImportSource"@[0] == 'j'
        && "jsxImportSource"@[2] == 'x' && "jsxImportSource"@[11] == 'u');
    reveal_strlit("keyofStringsOnly");
    assert("keyofStringsOnly"@.len() == 16 && "keyofStringsOnly"@[0] == 'k'
        && "keyofStringsOnly"@[2] == 'y' && "keyofStringsOnly"@[11] == 's');
    reveal_strlit("listEmittedFiles");
    assert("listEmittedFiles"@.len() == 16 && "listEmittedFiles"@[0] == 'l'
        && "listEmittedFiles"@[2] == 's' && "listEmittedFiles"@[11] == 'F');
    reveal_strlit("listFiles");
    assert("listFiles"@.len() == 9 && "listFiles"@[0] == 'l' && "listFiles"@[2] == 's');
    reveal_strlit("maxNodeModuleJsDepth");
    assert("maxNodeModuleJsDepth"@.len() == 20 && "maxNodeModuleJsDepth"@[0] == 'm'
        && "maxNodeModuleJsDepth"@[2] == 'x' && "maxNodeModuleJsDepth"@[11] == 'l');
    reveal_strlit("noEmitHelpers");
    assert("noEmitHelpers"@.len() == 13 && "noEmitHelpers"@[0] == 'n'
        && "noEmitHelpers"@[2] == 'E' && "noEmitHelpers"@[11] == 'r');
    reveal_strlit("noEmitOnError");
    assert("noEmitOnError"@.len() == 13 && "noEmitOnError"@[0] == 'n'
        && "noEmitOnError"@[2] == 'E' && "noEmitOnError"@[11] == 'o');
    reveal_strlit("noErrorTruncation");
    assert("noErrorTruncation"@.len() == 17 && "noErrorTruncation"@[0] == 'n'
        && "noErrorTruncation"@[2] == 'E' && "noErrorTruncation"@[11] == 'c');
    reveal_strlit("noImplicitUseStrict");
    assert("noImplicitUseStrict"@.len() == 19 && "noImplicitUseStrict"@[0] == 'n'
        && "noImplicitUseStrict"@[2] == 'I' && "noImplicitUseStrict"@[11] == 's');
    reveal_strlit("noLib");
    assert("noLib"@.len() == 5 && "noLib"@[0] == 'n' && "noLib"@[2] == 'L');
    reveal_strlit("noResolve");
    assert("noResolve"@.len() == 9 && "noResolve"@[0] == 'n' && "noResolve"@[2] == 'R');
    reveal_strlit("noStrictGenericChecks");
    assert("noStrictGenericChecks"@.len() == 21 && "noStrictGenericChecks"@[0] == 'n'
        && "noStrictGenericChecks"@[2] == 'S' && "noStrictGenericChecks"@[11] == 'e');
    reveal_strlit("out");
    assert("out"@.len() == 3 && "out"@[0] == 'o' && "out"@[2] == 't');
    reveal_strlit("preserveConstEnums");
    assert("preserveConstEnums"@.len() == 18 && "preserveConstEnums"@[0] == 'p'
        && "preserveConstEnums"@[2] == 'e' && "preserveConstEnums"@[11] == 's');
    reveal_strlit("reactNamespace");
    assert("reactNamespace"@.len() == 14 && "reactNamespace"@[0] == 'r'
        && "reactNamespace"@[2] == 'a' && "reactNamespace"@[11] == 'a');
    reveal_strlit("resolveJsonModule");
    assert("resolveJsonModule"@.len() == 17 && "resolveJsonModule"@[0] == 'r'
        && "resolveJsonModule"@[2] == 's' && "resolveJsonModule"@[11] == 'M');
    reveal_strlit("skipDefaultLibCheck");
    assert("skipDefaultLibCheck"@.len() == 19 && "skipDefaultLibCheck"@[0] == 's'
        && "skipDefaultLibCheck"@[2] == 'i' && "skipDefaultLibCheck"@[11] == 'L');
    reveal_strlit("skipLibCheck");
    assert("skipLibCheck"@.len() == 12 && "skipLibCheck"@[0] == 's' && "skipLibCheck"@[2] == 'i'
        && "skipLibCheck"@[11] == 'k');
    reveal_strlit("stripInternal");
    assert("stripInternal"@.len() == 13 && "stripInternal"@[0] == 's'
        && "stripInternal"@[2] == 'r' && "stripInternal"@[11] == 'a');
    reveal_strlit("suppressExcessPropertyErrors");
    assert("suppressExcessPropertyErrors"@.len() == 28
        && "suppressExcessPropertyErrors"@[0] == 's' && "suppressExcessPropertyErrors"@[2] == 'p'
        && "suppressExcessPropertyErrors"@[11] == 'e');
    reveal_strlit("suppressImplicitAnyIndexErrors");
    assert("suppressImplicitAnyIndexErrors"@.len() == 30
        && "suppressImplicitAnyIndexErrors"@[0] == 's'
        && "suppressImplicitAnyIndexErrors"@[2] == 'p'
        && "suppressImplicitAnyIndexErrors"@[11] == 'l');
    reveal_strlit("traceResolution");
    assert("traceResolution"@.len() == 15 && "traceResolution"@[0] == 't'
        && "traceResolution"@[2] == 'a' && "traceResolution"@[11] == 't');
    reveal_strlit("useDefineForClassFields");
    assert("useDefineForClassFields"@.len() == 23 && "useDefineForClassFields"@[0] == 'u'
        && "useDefineForClassFields"@[2] == 'e' && "useDefineForClassFields"@[11] == 'r');
    reveal_strlit("preserveWatchOutput");
    assert("preserveWatchOutput"@.len() == 19 && "preserveWatchOutput"@[0] == 'p'
        && "preserveWatchOutput"@[2] == 'e' && "preserveWatchOutput"@[11] == 'c');
    reveal_strlit("pretty");
    assert("pretty"@.len() == 6 && "pretty"@[0] == 'p' && "pretty"@[2] == 'e');
    reveal_strlit("fallbackPolling");
    assert("fallbackPolling"@.len() == 15 && "fallbackPolling"@[0] == 'f'
        && "fallbackPolling"@[2] == 'l' && "fallbackPolling"@[11] == 'l');
    reveal_strlit("watchDirectory");
    assert("watchDirectory"@.len() == 14 && "watchDirectory"@[0] == 'w'
        && "watchDirectory"@[2] == 't' && "watchDirectory"@[11] == 'o');
    reveal_strlit("watchFile");
    assert("watchFile"@.len() == 9 && "watchFile"@[0] == 'w' && "watchFile"@[2] == 't');
}

/// The parts of the options up to position 12, one after the other.
pub proof fn lemma_options_joined_12(c: CompilerOptionsModel)
    ensures
        joined(options_parts(c), 12) == flag_field("allowJs"@, c.allow_js)
            + flag_field("checkJs"@, c.check_js)
            + flag_field("composite"@, c.composite)
            + flag_field("declaration"@, c.declaration)
            + flag_field("declarationMap"@, c.declaration_map)
            + flag_field("downlevelIteration"@, c.downlevel_iteration)
            + flag_field("importHelpers"@, c.import_helpers)
            + flag_field("incremental"@, c.incremental)
            + flag_field("isolatedModules"@, c.isolated_modules)
            + jsx_field("jsx"@, c.jsx)
            + libs_field("lib"@, c.lib)
            + module_field("module"@, c.module),
{
    reveal_with_fuel(joined, 13);
}

/// The parts of the options up to position 24, one after the other.
pub proof fn lemma_options_joined_24(c: CompilerOptionsModel)
    ensures
        joined(options_parts(c), 24) == joined(options_parts(c), 12)
            + flag_field("noEmit"@, c.no_emit)
            + text_field("outDir"@, c.out_dir)
            + text_field("outFile"@, c.out_file)
            + flag_field("removeComments"@, c.remove_comments)
            + text_field("rootDir"@, c.root_dir)
            + flag_field("sourceMap"@, c.source_map)
            + target_field("target"@, c.target)
            + text_field("tsBuildInfoFile"@, c.ts_build_info_file)
            + flag_field("alwaysStrict"@, c.always_strict)
            + flag_field("noImplicitAny"@, c.no_implicit_any)
            + flag_field("noImplicitThis"@, c.no_implicit_this)
            + flag_field("strict"@, c.strict),
{
    reveal_with_fuel(joined, 13);
}

/// The parts of the options up to position 36, one after the other.
pub proof fn lemma_options_joined_36(c: CompilerOptionsModel)
    ensures
        joined(options_parts(c), 36) == joined(options_parts(c), 24)
            + flag_field("strictBindCallApply"@, c.strict_bind_call_apply)
            + flag_field("strictFunctionTypes"@, c.strict_function_types)
            + flag_field("strictNullChecks"@, c.strict_null_checks)
            + flag_field("strictPropertyInitialization"@, c.strict_property_initialization)
            + flag_field("allowSyntheticDefaultImports"@, c.allow_synthetic_default_imports)
            + flag_field("allowUmdGlobalAccess"@, c.allow_umd_global_access)
            + text_field("baseUrl"@, c.base_url)
            + flag_field("esModuleInterop"@, c.es_module_interop)
            + resolution_field("moduleResolution"@, c.module_resolution)
            + paths_field("paths"@, c.paths)
            + flag_field("preserveSymlinks"@, c.preserve_symlinks)
            + opt_texts_field("rootDirs"@, c.root_dirs),
{
    reveal_with_fuel(joined, 13);
}

/// The parts of the options up to position 48, one after the other.
pub proof fn lemma_options_joined_48(c: CompilerOptionsModel)
    ensures
        joined(options_parts(c), 48) == joined(options_parts(c), 36)
            + opt_texts_field("typeRoots"@, c.type_roots)
            + opt_texts_field("types"@, c.types)
            + flag_field("inlineSourceMap"@, c.inline_source_map)
            + flag_field("inlineSources"@, c.inline_sources)
            + text_field("mapRoot"@, c.map_root)
            + text_field("sourceRoot"@, c.source_root)
            + flag_field("noFallthroughCasesInSwitch"@, c.no_fallthrough_cases_in_switch)
            + flag_field("noImplicitReturns"@, c.no_implicit_returns)
            + flag_field("noPropertyAccessFromIndexSignature"@, c.no_property_access_from_index_signature)
            + flag_field("noUncheckedIndexedAccess"@, c.no_unchecked_indexed_access)
            + flag_field("noUnusedLocals"@, c.no_unused_locals)
            + flag_field("emitDecoratorMetadata"@, c.emit_decorator_metadata),
{
    reveal_with_fuel(joined, 13);
}

/// The parts of the options up to position 60, one after the other.
pub proof fn lemma_options_joined_60(c: CompilerOptionsModel)
    ensures
        joined(options_parts(c), 60) == joined(options_parts(c), 48)
            + flag_field("experimentalDecorators"@, c.experimental_decorators)
            + flag_field("allowUnreachableCode"@, c.allow_unreachable_code)
            + flag_field("allowUnusedLabels"@, c.allow_unused_labels)
            + flag_field("assumeChangesOnlyAffectDirectDependencies"@, c.assume_changes_only_affect_direct_dependencies)
            + text_field("charset"@, c.charset)
            + text_field("declarationDir"@, c.declaration_dir)
            + flag_field("diagnostics"@, c.diagnostics)
            + flag_field("disableReferencedProjectLoad"@, c.disable_referenced_project_load)
            + flag_field("disableSizeLimit"@, c.disable_size_limit)
            + flag_field("disableSolutionSearching"@, c.disable_solution_searching)
            + flag_field("disableSourceOfProjectReferenceRedirect"@, c.disable_source_of_project_reference_redirect)
            + flag_field("emitBOM"@, c.emit_bom),
{
    reveal_with_fuel(joined, 13);
}

/// The parts of the options up to position 72, one after the other.
pub proof fn lemma_options_joined_72(c: CompilerOptionsModel)
    ensures
        joined(options_parts(c), 72) == joined(options_parts(c), 60)
            + flag_field("emitDeclarationOnly"@, c.emit_declaration_only)
            + flag_field("explainFiles"@, c.explain_files)
            + flag_field("extendedDiagnostics"@, c.extended_diagnostics)
            + flag_field("forceConsistentCasingInFileNames"@, c.force_consistent_casing_in_file_names)
            + flag_field("generateCpuProfile"@, c.generate_cpu_profile)
            + text_field("importsNotUsedAsValues"@, c.imports_not_used_as_values)
            + text_field("jsxFactory"@, c.jsx_factory)
            + text_field("jsxFragmentFactory"@, c.jsx_fragment_factory)
            + text_field("jsxImportSource"@, c.jsx_import_source)
            + flag_field("keyofStringsOnly"@, c.keyof_strings_only)
            + flag_field("listEmittedFiles"@, c.list_emitted_files)
            + flag_field("listFiles"@, c.list_files),
{
    reveal_with_fuel(joined, 13);
}

/// The parts of the options up to position 84, one after the other.
pub proof fn lemma_options_joined_84(c: CompilerOptionsModel)
    ensures
        joined(options_parts(c), 84) == joined(options_parts(c), 72)
            + count_field("maxNodeModuleJsDepth"@, c.max_node_module_js_depth)
            + flag_field("noEmitHelpers"@, c.no_emit_helpers)
            + flag_field("noEmitOnError"@, c.no_emit_on_error)
            + flag_field("noErrorTruncation"@, c.no_error_truncation)
            + flag_field("noImplicitUseStrict"@, c.no_implicit_use_strict)
            + flag_field("noLib"@, c.no_lib)
            + flag_field("noResolve"@, c.no_resolve)
            + flag_field("noStrictGenericChecks"@, c.no_strict_generic_checks)
            + text_field("out"@, c.out)
            + flag_field("preserveConstEnums"@, c.preserve_const_enums)
            + text_field("reactNamespace"@, c.react_namespace)
            + flag_field("resolveJsonModule"@, c.resolve_json_module),
{
    reveal_with_fuel(joined, 13);
}

/// The parts of the options up to position 96, one after the other.
pub proof fn lemma_options_joined_96(c: CompilerOptionsModel)
    ensures
        joined(options_parts(c), 96) == joined(options_parts(c), 84)
            + flag_field("skipDefaultLibCheck"@, c.skip_default_lib_check)
            + flag_field("skipLibCheck"@, c.skip_lib_check)
            + flag_field("stripInternal"@, c.strip_internal)
            + flag_field("suppressExcessPropertyErrors"@, c.suppress_excess_property_errors)
            + flag_field("suppressImplicitAnyIndexErrors"@, c.suppress_implicit_any_index_errors)
            + flag_field("traceResolution"@, c.trace_resolution)
            + flag_field("useDefineForClassFields"@, c.use_define_for_class_fields)
            + flag_field("preserveWatchOutput"@, c.preserve_watch_output)
            + flag_field("pretty"@, c.pretty)
            + text_field("fallbackPolling"@, c.fallback_polling)
            + text_field("watchDirectory"@, c.watch_directory)
            + text_field("watchFile"@, c.watch_file),
{
    reveal_with_fuel(joined, 13);
}

/// The members written for compiler options are their parts in declared
/// order.
pub proof fn lemma_options_members(c: CompilerOptionsModel)
    ensures
        options_members(c) == joined(options_parts(c), options_count()),
{
    reveal(options_members);
    lemma_options_joined_12(c);
    lemma_options_joined_24(c);
    lemma_options_joined_36(c);
    lemma_options_joined_48(c);
    lemma_options_joined_60(c);
    lemma_options_joined_72(c);
    lemma_options_joined_84(c);
    lemma_options_joined_96(c);
}

/// What is written for an option is nothing, or one member with the key of
/// the option.
pub proof fn lemma_options_parts(c: CompilerOptionsModel)
    ensures
        forall|i: int|
            0 <= i < options_count() ==> part_of_key(
                #[trigger] options_parts(c)(i),
                options_keys()(i),
            ),
{
}

/// In what is written for compiler options no key occurs twice, and the
/// key of each option leads to what was written for the option: nothing
/// where the option is unset.
pub proof fn lemma_options_written(c: CompilerOptionsModel)
    ensures
        distinct_keys(options_members(c)),
        options_json(c) == JsonModel::Object(options_members(c)),
        forall|i: int|
            0 <= i < options_count() ==> member(options_members(c), #[trigger] options_key(i))
                == part_value(options_part(c, i)),
{
    let parts = options_parts(c);
    let keys = options_keys();
    let n = options_count();
    lemma_options_members(c);
    lemma_options_keys();
    lemma_options_parts(c);
    assert forall|i: int, j: int| 0 <= i < j < n implies #[trigger] keys(i) != #[trigger] keys(j) by {
        assert(options_key_position(options_key(i)) == i);
        assert(options_key_position(options_key(j)) == j);
    }
    lemma_joined(parts, keys, n);
    lemma_upsert_all_distinct(options_members(c));
    assert forall|i: int| 0 <= i < n implies member(options_members(c), #[trigger] options_key(i))
        == part_value(options_part(c, i)) by {
        assert(keys(i) == options_key(i));
        assert(parts(i) == options_part(c, i));
    }
}

/// Each of the project options reads back from what was written for the options.
pub proof fn lemma_project_read(c: CompilerOptionsModel, path: Seq<char>)
    requires
        c.wf(),
        c.names_are_normal(),
    ensures
        project_failure(options_members(c), path) is None,
        options_read(options_members(c), path).allow_js == c.allow_js,
        options_read(options_members(c), path).check_js == c.check_js,
        options_read(options_members(c), path).composite == c.composite,
        options_read(options_members(c), path).declaration == c.declaration,
        options_read(options_members(c), path).declaration_map == c.declaration_map,
        options_read(options_members(c), path).downlevel_iteration == c.downlevel_iteration,
        options_read(options_members(c), path).import_helpers == c.import_helpers,
        options_read(options_members(c), path).incremental == c.incremental,
        options_read(options_members(c), path).isolated_modules == c.isolated_modules,
        options_read(options_members(c), path).jsx == c.jsx,
        options_read(options_members(c), path).lib == c.lib,
        options_read(options_members(c), path).module == c.module,
        options_read(options_members(c), path).no_emit == c.no_emit,
        options_read(options_members(c), path).out_dir == c.out_dir,
        options_read(options_members(c), path).out_file == c.out_file,
        options_read(options_members(c), path).remove_comments == c.remove_comments,
        options_read(options_members(c), path).root_dir == c.root_dir,
        options_read(options_members(c), path).source_map == c.source_map,
        options_read(options_members(c), path).target == c.target,
        options_read(options_members(c), path).ts_build_info_file == c.ts_build_info_file,
{
    let m = options_members(c);
    lemma_options_written(c);
    assert(options_key(0) == "allowJs"@);
    lemma_flag_field(m, path, "allowJs"@, c.allow_js);
    assert(options_key(1) == "checkJs"@);
    lemma_flag_field(m, path, "checkJs"@, c.check_js);
    assert(options_key(2) == "composite"@);
    lemma_flag_field(m, path, "composite"@, c.composite);
    assert(options_key(3) == "declaration"@);
    lemma_flag_field(m, path, "declaration"@, c.declaration);
    assert(options_key(4) == "declarationMap"@);
    lemma_flag_field(m, path, "declarationMap"@, c.declaration_map);
    assert(options_key(5) == "downlevelIteration"@);
    lemma_flag_field(m, path, "downlevelIteration"@, c.downlevel_iteration);
    assert(options_key(6) == "importHelpers"@);
    lemma_flag_field(m, path, "importHelpers"@, c.import_helpers);
    assert(options_key(7) == "incremental"@);
    lemma_flag_field(m, path, "incremental"@, c.incremental);
    assert(options_key(8) == "isolatedModules"@);
    lemma_flag_field(m, path, "isolatedModules"@, c.isolated_modules);
    assert(options_key(9) == "jsx"@);
    lemma_jsx_field(m, path, "jsx"@, c.jsx);
    assert(options_key(10) == "lib"@);
    lemma_libs_field(m, path, "lib"@, c.lib);
    assert(options_key(11) == "module"@);
    lemma_module_field(m, path, "module"@, c.module);
    assert(options_key(12) == "noEmit"@);
    lemma_flag_field(m, path, "noEmit"@, c.no_emit);
    assert(options_key(13) == "outDir"@);
    lemma_text_field(m, path, "outDir"@, c.out_dir);
    assert(options_key(14) == "outFile"@);
    lemma_text_field(m, path, "outFile"@, c.out_file);
    assert(options_key(15) == "removeComments"@);
    lemma_flag_field(m, path, "removeComments"@, c.remove_comments);
    assert(options_key(16) == "rootDir"@);
    lemma_text_field(m, path, "rootDir"@, c.root_dir);
    assert(options_key(17) == "sourceMap"@);
    lemma_flag_field(m, path, "sourceMap"@, c.source_map);
    assert(options_key(18) == "target"@);
    lemma_target_field(m, path, "target"@, c.target);
    assert(options_key(19) == "tsBuildInfoFile"@);
    lemma_text_field(m, path, "tsBuildInfoFile"@, c.ts_build_info_file);
}

/// Each of the strict checks reads back from what was written for the options.
pub proof fn lemma_strict_read(c: CompilerOptionsModel, path: Seq<char>)
    requires
        c.wf(),
        c.names_are_normal(),
    ensures
        strict_failure(options_members(c), path) is None,
        options_read(options_members(c), path).always_strict == c.always_strict,
        options_read(options_members(c), path).no_implicit_any == c.no_implicit_any,
        options_read(options_members(c), path).no_implicit_this == c.no_implicit_this,
        options_read(options_members(c), path).strict == c.strict,
        options_read(options_members(c), path).strict_bind_call_apply == c.strict_bind_call_apply,
        options_read(options_members(c), path).strict_function_types == c.strict_function_types,
        options_read(options_members(c), path).strict_null_checks == c.strict_null_checks,
        options_read(options_members(c), path).strict_property_initialization == c.strict_property_initialization,
{
    let m = options_members(c);
    lemma_options_written(c);
    assert(options_key(20) == "alwaysStrict"@);
    lemma_flag_field(m, path, "alwaysStrict"@, c.always_strict);
    assert(options_key(21) == "noImplicitAny"@);
    lemma_flag_field(m, path, "noImplicitAny"@, c.no_implicit_any);
    assert(options_key(22) == "noImplicitThis"@);
    lemma_flag_field(m, path, "noImplicitThis"@, c.no_implicit_this);
    assert(options_key(23) == "strict"@);
    lemma_flag_field(m, path, "strict"@, c.strict);
    assert(options_key(24) == "strictBindCallApply"@);
    lemma_flag_field(m, path, "strictBindCallApply"@, c.strict_bind_call_apply);
    assert(options_key(25) == "strictFunctionTypes"@);
    lemma_flag_field(m, path, "strictFunctionTypes"@, c.strict_function_types);
    assert(options_key(26) == "strictNullChecks"@);
    lemma_flag_field(m, path, "strictNullChecks"@, c.strict_null_checks);
    assert(options_key(27) == "strictPropertyInitialization"@);
    lemma_flag_field(m, path, "strictPropertyInitialization"@, c.strict_property_initialization);
}

/// Each of the options of module resolution reads back from what was written for the options.
pub proof fn lemma_resolution_read(c: CompilerOptionsModel, path: Seq<char>)
    requires
        c.wf(),
        c.names_are_normal(),
    ensures
        resolution_failure(options_members(c), path) is None,
        options_read(options_members(c), path).allow_synthetic_default_imports == c.allow_synthetic_default_imports,
        options_read(options_members(c), path).allow_umd_global_access == c.allow_umd_global_access,
        options_read(options_members(c), path).base_url == c.base_url,
        options_read(options_members(c), path).es_module_interop == c.es_module_interop,
        options_read(options_members(c), path).module_resolution == c.module_resolution,
        options_read(options_members(c), path).paths == c.paths,
        options_read(options_members(c), path).preserve_symlinks == c.preserve_symlinks,
        options_read(options_members(c), path).root_dirs == c.root_dirs,
        options_read(options_members(c), path).type_roots == c.type_roots,
        options_read(options_members(c), path).types == c.types,
{
    let m = options_members(c);
    lemma_options_written(c);
    assert(options_key(28) == "allowSyntheticDefaultImports"@);
    lemma_flag_field(m, path, "allowSyntheticDefaultImports"@, c.allow_synthetic_default_imports);
    assert(options_key(29) == "allowUmdGlobalAccess"@);
    lemma_flag_field(m, path, "allowUmdGlobalAccess"@, c.allow_umd_global_access);
    assert(options_key(30) == "baseUrl"@);
    lemma_text_field(m, path, "baseUrl"@, c.base_url);
    assert(options_key(31) == "esModuleInterop"@);
    lemma_flag_field(m, path, "esModuleInterop"@, c.es_module_interop);
    assert(options_key(32) == "moduleResolution"@);
    lemma_resolution_field(m, path, "moduleResolution"@, c.module_resolution);
    assert(options_key(33) == "paths"@);
    lemma_paths_field(m, path, "paths"@, c.paths);
    assert(options_key(34) == "preserveSymlinks"@);
    lemma_flag_field(m, path, "preserveSymlinks"@, c.preserve_symlinks);
    assert(options_key(35) == "rootDirs"@);
    lemma_opt_texts_field(m, path, "rootDirs"@, c.root_dirs);
    assert(options_key(36) == "typeRoots"@);
    lemma_opt_texts_field(m, path, "typeRoots"@, c.type_roots);
    assert(options_key(37) == "types"@);
    lemma_opt_texts_field(m, path, "types"@, c.types);
}

/// Each of the options of source maps reads back from what was written for the options.
pub proof fn lemma_source_map_read(c: CompilerOptionsModel, path: Seq<char>)
    requires
        c.wf(),
        c.names_are_normal(),
    ensures
        source_map_failure(options_members(c), path) is None,
        options_read(options_members(c), path).inline_source_map == c.inline_source_map,
        options_read(options_members(c), path).inline_sources == c.inline_sources,
        options_read(options_members(c), path).map_root == c.map_root,
        options_read(options_members(c), path).source_root == c.source_root,
{
    let m = options_members(c);
    lemma_options_written(c);
    assert(options_key(38) == "inlineSourceMap"@);
    lemma_flag_field(m, path, "inlineSourceMap"@, c.inline_source_map);
    assert(options_key(39) == "inlineSources"@);
    lemma_flag_field(m, path, "inlineSources"@, c.inline_sources);
    assert(options_key(40) == "mapRoot"@);
    lemma_text_field(m, path, "mapRoot"@, c.map_root);
    assert(options_key(41) == "sourceRoot"@);
    lemma_text_field(m, path, "sourceRoot"@, c.source_root);
}

/// Each of the linter checks reads back from what was written for the options.
pub proof fn lemma_lint_read(c: CompilerOptionsModel, path: Seq<char>)
    requires
        c.wf(),
        c.names_are_normal(),
    ensures
        lint_failure(options_members(c), path) is None,
        options_read(options_members(c), path).no_fallthrough_cases_in_switch == c.no_fallthrough_cases_in_switch,
        options_read(options_members(c), path).no_implicit_returns == c.no_implicit_returns,
        options_read(options_members(c), path).no_property_access_from_index_signature == c.no_property_access_from_index_signature,
        options_read(options_members(c), path).no_unchecked_indexed_access == c.no_unchecked_indexed_access,
        options_read(options_members(c), path).no_unused_locals == c.no_unused_locals,
{
    let m = options_members(c);
    lemma_options_written(c);
    assert(options_key(42) == "noFallthroughCasesInSwitch"@);
    lemma_flag_field(m, path, "noFallthroughCasesInSwitch"@, c.no_fallthrough_cases_in_switch);
    assert(options_key(43) == "noImplicitReturns"@);
    lemma_flag_field(m, path, "noImplicitReturns"@, c.no_implicit_returns);
    assert(options_key(44) == "noPropertyAccessFromIndexSignature"@);
    lemma_flag_field(m, path, "noPropertyAccessFromIndexSignature"@, c.no_property_access_from_index_signature);
    assert(options_key(45) == "noUncheckedIndexedAccess"@);
    lemma_flag_field(m, path, "noUncheckedIndexedAccess"@, c.no_unchecked_indexed_access);
    assert(options_key(46) == "noUnusedLocals"@);
    lemma_flag_field(m, path, "noUnusedLocals"@, c.no_unused_locals);
}

/// Each of the experimental options reads back from what was written for the options.
pub proof fn lemma_experimental_read(c: CompilerOptionsModel, path: Seq<char>)
    requires
        c.wf(),
        c.names_are_normal(),
    ensures
        experimental_failure(options_members(c), path) is None,
        options_read(options_members(c), path).emit_decorator_metadata == c.emit_decorator_metadata,
        options_read(options_members(c), path).experimental_decorators == c.experimental_decorators,
{
    let m = options_members(c);
    lemma_options_written(c);
    assert(options_key(47) == "emitDecoratorMetadata"@);
    lemma_flag_field(m, path, "emitDecoratorMetadata"@, c.emit_decorator_metadata);
    assert(options_key(48) == "experimentalDecorators"@);
    lemma_flag_field(m, path, "experimentalDecorators"@, c.experimental_decorators);
}

/// Each of the advanced options reads back from what was written for the options.
pub proof fn lemma_advanced_read(c: CompilerOptionsModel, path: Seq<char>)
    requires
        c.wf(),
        c.names_are_normal(),
    ensures
        advanced_failure(options_members(c), path) is None,
        options_read(options_members(c), path).allow_unreachable_code == c.allow_unreachable_code,
        options_read(options_members(c), path).allow_unused_labels == c.allow_unused_labels,
        options_read(options_members(c), path).assume_changes_only_affect_direct_dependencies == c.assume_changes_only_affect_direct_dependencies,
        options_read(options_members(c), path).charset == c.charset,
        options_read(options_members(c), path).declaration_dir == c.declaration_dir,
        options_read(options_members(c), path).diagnostics == c.diagnostics,
        options_read(options_members(c), path).disable_referenced_project_load == c.disable_referenced_project_load,
        options_read(options_members(c), path).disable_size_limit == c.disable_size_limit,
        options_read(options_members(c), path).disable_solution_searching == c.disable_solution_searching,
        options_read(options_members(c), path).disable_source_of_project_reference_redirect == c.disable_source_of_project_reference_redirect,
        options_read(options_members(c), path).emit_bom == c.emit_bom,
        options_read(options_members(c), path).emit_declaration_only == c.emit_declaration_only,
        options_read(options_members(c), path).explain_files == c.explain_files,
        options_read(options_members(c), path).extended_diagnostics == c.extended_diagnostics,
        options_read(options_members(c), path).force_consistent_casing_in_file_names == c.force_consistent_casing_in_file_names,
        options_read(options_members(c), path).generate_cpu_profile == c.generate_cpu_profile,
        options_read(options_members(c), path).imports_not_used_as_values == c.imports_not_used_as_values,
        options_read(options_members(c), path).jsx_factory == c.jsx_factory,
        options_read(options_members(c), path).jsx_fragment_factory == c.jsx_fragment_factory,
        options_read(options_members(c), path).jsx_import_source == c.jsx_import_source,
{
    let m = options_members(c);
    lemma_options_written(c);
    assert(options_key(49) == "allowUnreachableCode"@);
    lemma_flag_field(m, path, "allowUnreachableCode"@, c.allow_unreachable_code);
    assert(options_key(50) == "allowUnusedLabels"@);
    lemma_flag_field(m, path, "allowUnusedLabels"@, c.allow_unused_labels);
    assert(options_key(51) == "assumeChangesOnlyAffectDirectDependencies"@);
    lemma_flag_field(m, path, "assumeChangesOnlyAffectDirectDependencies"@, c.assume_changes_only_affect_direct_dependencies);
    assert(options_key(52) == "charset"@);
    lemma_text_field(m, path, "charset"@, c.charset);
    assert(options_key(53) == "declarationDir"@);
    lemma_text_field(m, path, "declarationDir"@, c.declaration_dir);
    assert(options_key(54) == "diagnostics"@);
    lemma_flag_field(m, path, "diagnostics"@, c.diagnostics);
    assert(options_key(55) == "disableReferencedProjectLoad"@);
    lemma_flag_field(m, path, "disableReferencedProjectLoad"@, c.disable_referenced_project_load);
    assert(options_key(56) == "disableSizeLimit"@);
    lemma_flag_field(m, path, "disableSizeLimit"@, c.disable_size_limit);
    assert(options_key(57) == "disableSolutionSearching"@);
    lemma_flag_field(m, path, "disableSolutionSearching"@, c.disable_solution_searching);
    assert(options_key(58) == "disableSourceOfProjectReferenceRedirect"@);
    lemma_flag_field(m, path, "disableSourceOfProjectReferenceRedirect"@, c.disable_source_of_project_reference_redirect);
    assert(options_key(59) == "emitBOM"@);
    lemma_flag_field(m, path, "emitBOM"@, c.emit_bom);
    assert(options_key(60) == "emitDeclarationOnly"@);
    lemma_flag_field(m, path, "emitDeclarationOnly"@, c.emit_declaration_only);
    assert(options_key(61) == "explainFiles"@);
    lemma_flag_field(m, path, "explainFiles"@, c.explain_files);
    assert(options_key(62) == "extendedDiagnostics"@);
    lemma_flag_field(m, path, "extendedDiagnostics"@, c.extended_diagnostics);
    assert(options_key(63) == "forceConsistentCasingInFileNames"@);
    lemma_flag_field(m, path, "forceConsistentCasingInFileNames"@, c.force_consistent_casing_in_file_names);
    assert(options_key(64) == "generateCpuProfile"@);
    lemma_flag_field(m, path, "generateCpuProfile"@, c.generate_cpu_profile);
    assert(options_key(65) == "importsNotUsedAsValues"@);
    lemma_text_field(m, path, "importsNotUsedAsValues"@, c.imports_not_used_as_values);
    assert(options_key(66) == "jsxFactory"@);
    lemma_text_field(m, path, "jsxFactory"@, c.jsx_factory);
    assert(options_key(67) == "jsxFragmentFactory"@);
    lemma_text_field(m, path, "jsxFragmentFactory"@, c.jsx_fragment_factory);
    assert(options_key(68) == "jsxImportSource"@);
    lemma_text_field(m, path, "jsxImportSource"@, c.jsx_import_source);
}

/// Each of the further advanced options reads back from what was written for the options.
pub proof fn lemma_further_read(c: CompilerOptionsModel, path: Seq<char>)
    requires
        c.wf(),
        c.names_are_normal(),
    ensures
        further_failure(options_members(c), path) is None,
        options_read(options_members(c), path).keyof_strings_only == c.keyof_strings_only,
        options_read(options_members(c), path).list_emitted_files == c.list_emitted_files,
        options_read(options_members(c), path).list_files == c.list_files,
        options_read(options_members(c), path).max_node_module_js_depth == c.max_node_module_js_depth,
        options_read(options_members(c), path).no_emit_helpers == c.no_emit_helpers,
        options_read(options_members(c), path).no_emit_on_error == c.no_emit_on_error,
        options_read(options_members(c), path).no_error_truncation == c.no_error_truncation,
        options_read(options_members(c), path).no_implicit_use_strict == c.no_implicit_use_strict,
        options_read(options_members(c), path).no_lib == c.no_lib,
        options_read(options_members(c), path).no_resolve == c.no_resolve,
        options_read(options_members(c), path).no_strict_generic_checks == c.no_strict_generic_checks,
        options_read(options_members(c), path).out == c.out,
        options_read(options_members(c), path).preserve_const_enums == c.preserve_const_enums,
        options_read(options_members(c), path).react_namespace == c.react_namespace,
        options_read(options_members(c), path).resolve_json_module == c.resolve_json_module,
        options_read(options_members(c), path).skip_default_lib_check == c.skip_default_lib_check,
        options_read(options_members(c), path).skip_lib_check == c.skip_lib_check,
        options_read(options_members(c), path).strip_internal == c.strip_internal,
        options_read(options_members(c), path).suppress_excess_property_errors == c.suppress_excess_property_errors,
        options_read(options_members(c), path).suppress_implicit_any_index_errors == c.suppress_implicit_any_index_errors,
        options_read(options_members(c), path).trace_resolution == c.trace_resolution,
        options_read(options_members(c), path).use_define_for_class_fields == c.use_define_for_class_fields,
{
    let m = options_members(c);
    lemma_options_written(c);
    assert(options_key(69) == "keyofStringsOnly"@);
    lemma_flag_field(m, path, "keyofStringsOnly"@, c.keyof_strings_only);
    assert(options_key(70) == "listEmittedFiles"@);
    lemma_flag_field(m, path, "listEmittedFiles"@, c.list_emitted_files);
    assert(options_key(71) == "listFiles"@);
    lemma_flag_field(m, path, "listFiles"@, c.list_files);
    assert(options_key(72) == "maxNodeModuleJsDepth"@);
    lemma_count_field(m, path, "maxNodeModuleJsDepth"@, c.max_node_module_js_depth);
    assert(options_key(73) == "noEmitHelpers"@);
    lemma_flag_field(m, path, "noEmitHelpers"@, c.no_emit_helpers);
    assert(options_key(74) == "noEmitOnError"@);
    lemma_flag_field(m, path, "noEmitOnError"@, c.no_emit_on_error);
    assert(options_key(75) == "noErrorTruncation"@);
    lemma_flag_field(m, path, "noErrorTruncation"@, c.no_error_truncation);
    assert(options_key(76) == "noImplicitUseStrict"@);
    lemma_flag_field(m, path, "noImplicitUseStrict"@, c.no_implicit_use_strict);
    assert(options_key(77) == "noLib"@);
    lemma_flag_field(m, path, "noLib"@, c.no_lib);
    assert(options_key(78) == "noResolve"@);
    lemma_flag_field(m, path, "noResolve"@, c.no_resolve);
    assert(options_key(79) == "noStrictGenericChecks"@);
    lemma_flag_field(m, path, "noStrictGenericChecks"@, c.no_strict_generic_checks);
    assert(options_key(80) == "out"@);
    lemma_text_field(m, path, "out"@, c.out);
    assert(options_key(81) == "preserveConstEnums"@);
    lemma_flag_field(m, path, "preserveConstEnums"@, c.preserve_const_enums);
    assert(options_key(82) == "reactNamespace"@);
    lemma_text_field(m, path, "reactNamespace"@, c.react_namespace);
    assert(options_key(83) == "resolveJsonModule"@);
    lemma_flag_field(m, path, "resolveJsonModule"@, c.resolve_json_module);
    assert(options_key(84) == "skipDefaultLibCheck"@);
    lemma_flag_field(m, path, "skipDefaultLibCheck"@, c.skip_default_lib_check);
    assert(options_key(85) == "skipLibCheck"@);
    lemma_flag_field(m, path, "skipLibCheck"@, c.skip_lib_check);
    assert(options_key(86) == "stripInternal"@);
    lemma_flag_field(m, path, "stripInternal"@, c.strip_internal);
    assert(options_key(87) == "suppressExcessPropertyErrors"@);
    lemma_flag_field(m, path, "suppressExcessPropertyErrors"@, c.suppress_excess_property_errors);
    assert(options_key(88) == "suppressImplicitAnyIndexErrors"@);
    lemma_flag_field(m, path, "suppressImplicitAnyIndexErrors"@, c.suppress_implicit_any_index_errors);
    assert(options_key(89) == "traceResolution"@);
    lemma_flag_field(m, path, "traceResolution"@, c.trace_resolution);
    assert(options_key(90) == "useDefineForClassFields"@);
    lemma_flag_field(m, path, "useDefineForClassFields"@, c.use_define_for_class_fields);
}

/// Each of the options of the command line and of watching reads back from what was written for the options.
pub proof fn lemma_watch_read(c: CompilerOptionsModel, path: Seq<char>)
    requires
        c.wf(),
        c.names_are_normal(),
    ensures
        watch_failure(options_members(c), path) is None,
        options_read(options_members(c), path).preserve_watch_output == c.preserve_watch_output,
        options_read(options_members(c), path).pretty == c.pretty,
        options_read(options_members(c), path).fallback_polling == c.fallback_polling,
        options_read(options_members(c), path).watch_directory == c.watch_directory,
        options_read(options_members(c), path).watch_file == c.watch_file,
{
    let m = options_members(c);
    lemma_options_written(c);
    assert(options_key(91) == "preserveWatchOutput"@);
    lemma_flag_field(m, path, "preserveWatchOutput"@, c.preserve_watch_output);
    assert(options_key(92) == "pretty"@);
    lemma_flag_field(m, path, "pretty"@, c.pretty);
    assert(options_key(93) == "fallbackPolling"@);
    lemma_text_field(m, path, "fallbackPolling"@, c.fallback_polling);
    assert(options_key(94) == "watchDirectory"@);
    lemma_text_field(m, path, "watchDirectory"@, c.watch_directory);
    assert(options_key(95) == "watchFile"@);
    lemma_text_field(m, path, "watchFile"@, c.watch_file);
}

/// Reading what was written. The object written for well-formed compiler
/// options whose names are normal reads back as those options.
pub proof fn lemma_options_round_trip(c: CompilerOptionsModel, path: Seq<char>)
    requires
        c.wf(),
        c.names_are_normal(),
    ensures
        options_of(options_json(c), path) == Ok::<CompilerOptionsModel, ParseErrorModel>(c),
{
    lemma_options_written(c);
    lemma_project_read(c, path);
    lemma_strict_read(c, path);
    lemma_resolution_read(c, path);
    lemma_source_map_read(c, path);
    lemma_lint_read(c, path);
    lemma_experimental_read(c, path);
    lemma_advanced_read(c, path);
    lemma_further_read(c, path);
    lemma_watch_read(c, path);
}

} // verus!
