//! The compiler options.

use vstd::prelude::*;
use serde_json::Value;
use crate::error::{
    ParseError, ParseErrorModel, item_path, join_path, list_item_path, mismatch, outcome, path_of,
};
use crate::fields::{
    count_field, distinct_names, flag_field, object_json, opt_count, opt_count_in, opt_flag,
    opt_flag_in, opt_text, opt_text_in, opt_texts, opt_texts_field, opt_texts_in, optional, present,
    put, put_count, put_flag, put_opt_texts, put_text, shape_error, text_field, texts_at,
    texts_json, texts_of, texts_value,
};
use crate::json::{
    JsonKind, JsonModel, Members, array_value, borrowed_model, distinct_keys, find, items_model,
    kind, member, members, members_model, object_value, text_value, value_model,
};
use crate::names::{
    Jsx, JsxModel, Lib, LibModel, Module, ModuleModel, ModuleResolutionMode,
    ModuleResolutionModeModel, Target, TargetModel, jsx_key, jsx_of_name, lib_key, lib_of_name,
    module_key, module_of_name, resolution_key, resolution_of_name, target_key, target_of_name,
};

verus! {

/// The model of a mapping from path patterns to lists of substitutions.
pub type PathsModel = Seq<(Seq<char>, Seq<Seq<char>>)>;

/// One of the targets is read from a string, by its name in any casing.
pub open spec fn target_of(j: JsonModel, path: Seq<char>) -> Result<TargetModel, ParseErrorModel> {
    match j {
        JsonModel::String(s) => Ok(target_of_name(s)),
        _ => Err(mismatch(path, seq![JsonKind::String], j)),
    }
}

/// The member `key` of the object at `prefix`, read as a target that may be
/// unset.
#[verifier::opaque]
pub open spec fn opt_target_in(m: Members, prefix: Seq<char>, key: Seq<char>) -> Result<
    Option<TargetModel>,
    ParseErrorModel,
> {
    optional(member(m, key), target_of(present(member(m, key)), path_of(prefix, key)))
}

/// What is written for one of the targets: its normalized name.
pub open spec fn target_field(key: Seq<char>, value: Option<TargetModel>) -> Members {
    match value {
        Some(v) => seq![(key, JsonModel::String(target_key(v)))],
        None => Seq::empty(),
    }
}

pub(crate) fn target_at(v: &Value, prefix: &str, key: &str) -> (r: Result<Target, ParseError>)
    ensures
        outcome(r) == target_of(value_model(*v), path_of(prefix@, key@)),
{
    match v.as_str() {
        Some(s) => Ok(Target::from_name(s)),
        None => Err(shape_error(join_path(prefix, key), JsonKind::String, v)),
    }
}

pub(crate) fn opt_target(entries: &Vec<(&String, &Value)>, prefix: &str, key: &str) -> (r: Result<
    Option<Target>,
    ParseError,
>)
    ensures
        outcome(r) == opt_target_in(borrowed_model(entries@), prefix@, key@),
{
    proof {
        reveal(opt_target_in);
    }
    match find(entries, key) {
        Some(v) => {
            if kind(v) == JsonKind::Null {
                Ok(None)
            } else {
                match target_at(v, prefix, key) {
                    Ok(x) => Ok(Some(x)),
                    Err(e) => Err(e),
                }
            }
        },
        None => Ok(None),
    }
}

pub(crate) fn put_target(entries: &mut Vec<(String, Value)>, key: &str, value: &Option<Target>)
    ensures
        members_model(final(entries)@) == members_model(old(entries)@) + target_field(
            key@,
            value.deep_view(),
        ),
{
    match value {
        Some(x) => put(entries, key, text_value(x.name().as_str())),
        None => {
            assert(members_model(entries@) =~= members_model(entries@) + Seq::empty());
        },
    }
}

/// One of the module systems is read from a string, by its name in any casing.
pub open spec fn module_of(j: JsonModel, path: Seq<char>) -> Result<ModuleModel, ParseErrorModel> {
    match j {
        JsonModel::String(s) => Ok(module_of_name(s)),
        _ => Err(mismatch(path, seq![JsonKind::String], j)),
    }
}

/// The member `key` of the object at `prefix`, read as a module system that may be
/// unset.
#[verifier::opaque]
pub open spec fn opt_module_in(m: Members, prefix: Seq<char>, key: Seq<char>) -> Result<
    Option<ModuleModel>,
    ParseErrorModel,
> {
    optional(member(m, key), module_of(present(member(m, key)), path_of(prefix, key)))
}

/// What is written for one of the module systems: its normalized name.
pub open spec fn module_field(key: Seq<char>, value: Option<ModuleModel>) -> Members {
    match value {
        Some(v) => seq![(key, JsonModel::String(module_key(v)))],
        None => Seq::empty(),
    }
}

pub(crate) fn module_at(v: &Value, prefix: &str, key: &str) -> (r: Result<Module, ParseError>)
    ensures
        outcome(r) == module_of(value_model(*v), path_of(prefix@, key@)),
{
    match v.as_str() {
        Some(s) => Ok(Module::from_name(s)),
        None => Err(shape_error(join_path(prefix, key), JsonKind::String, v)),
    }
}

pub(crate) fn opt_module(entries: &Vec<(&String, &Value)>, prefix: &str, key: &str) -> (r: Result<
    Option<Module>,
    ParseError,
>)
    ensures
        outcome(r) == opt_module_in(borrowed_model(entries@), prefix@, key@),
{
    proof {
        reveal(opt_module_in);
    }
    match find(entries, key) {
        Some(v) => {
            if kind(v) == JsonKind::Null {
                Ok(None)
            } else {
                match module_at(v, prefix, key) {
                    Ok(x) => Ok(Some(x)),
                    Err(e) => Err(e),
                }
            }
        },
        None => Ok(None),
    }
}

pub(crate) fn put_module(entries: &mut Vec<(String, Value)>, key: &str, value: &Option<Module>)
    ensures
        members_model(final(entries)@) == members_model(old(entries)@) + module_field(
            key@,
            value.deep_view(),
        ),
{
    match value {
        Some(x) => put(entries, key, text_value(x.name().as_str())),
        None => {
            assert(members_model(entries@) =~= members_model(entries@) + Seq::empty());
        },
    }
}

/// One of the libraries is read from a string, by its name in any casing.
pub open spec fn lib_of(j: JsonModel, path: Seq<char>) -> Result<LibModel, ParseErrorModel> {
    match j {
        JsonModel::String(s) => Ok(lib_of_name(s)),
        _ => Err(mismatch(path, seq![JsonKind::String], j)),
    }
}

/// One of the resolution strategies is read from a string, by its name in any casing.
pub open spec fn resolution_of(
    j: JsonModel,
    path: Seq<char>,
) -> Result<ModuleResolutionModeModel, ParseErrorModel> {
    match j {
        JsonModel::String(s) => Ok(resolution_of_name(s)),
        _ => Err(mismatch(path, seq![JsonKind::String], j)),
    }
}

/// The member `key` of the object at `prefix`, read as a resolution strategy that may be
/// unset.
#[verifier::opaque]
pub open spec fn opt_resolution_in(m: Members, prefix: Seq<char>, key: Seq<char>) -> Result<
    Option<ModuleResolutionModeModel>,
    ParseErrorModel,
> {
    optional(member(m, key), resolution_of(present(member(m, key)), path_of(prefix, key)))
}

/// What is written for one of the resolution strategies: its normalized name.
pub open spec fn resolution_field(
    key: Seq<char>,
    value: Option<ModuleResolutionModeModel>,
) -> Members {
    match value {
        Some(v) => seq![(key, JsonModel::String(resolution_key(v)))],
        None => Seq::empty(),
    }
}

pub(crate) fn resolution_at(v: &Value, prefix: &str, key: &str) -> (r: Result<
    ModuleResolutionMode,
    ParseError,
>)
    ensures
        outcome(r) == resolution_of(value_model(*v), path_of(prefix@, key@)),
{
    match v.as_str() {
        Some(s) => Ok(ModuleResolutionMode::from_name(s)),
        None => Err(shape_error(join_path(prefix, key), JsonKind::String, v)),
    }
}

pub(crate) fn opt_resolution(
    entries: &Vec<(&String, &Value)>,
    prefix: &str,
    key: &str,
) -> (r: Result<
    Option<ModuleResolutionMode>,
    ParseError,
>)
    ensures
        outcome(r) == opt_resolution_in(borrowed_model(entries@), prefix@, key@),
{
    proof {
        reveal(opt_resolution_in);
    }
    match find(entries, key) {
        Some(v) => {
            if kind(v) == JsonKind::Null {
                Ok(None)
            } else {
                match resolution_at(v, prefix, key) {
                    Ok(x) => Ok(Some(x)),
                    Err(e) => Err(e),
                }
            }
        },
        None => Ok(None),
    }
}

pub(crate) fn put_resolution(
    entries: &mut Vec<(String, Value)>,
    key: &str,
    value: &Option<ModuleResolutionMode>,
)
    ensures
        members_model(final(entries)@) == members_model(old(entries)@) + resolution_field(
            key@,
            value.deep_view(),
        ),
{
    match value {
        Some(x) => put(entries, key, text_value(x.name().as_str())),
        None => {
            assert(members_model(entries@) =~= members_model(entries@) + Seq::empty());
        },
    }
}

/// One of the JSX modes is read from a string, by its name in any casing.
pub open spec fn jsx_of(j: JsonModel, path: Seq<char>) -> Result<JsxModel, ParseErrorModel> {
    match j {
        JsonModel::String(s) => Ok(jsx_of_name(s)),
        _ => Err(mismatch(path, seq![JsonKind::String], j)),
    }
}

/// The member `key` of the object at `prefix`, read as a JSX mode that may be
/// unset.
#[verifier::opaque]
pub open spec fn opt_jsx_in(m: Members, prefix: Seq<char>, key: Seq<char>) -> Result<
    Option<JsxModel>,
    ParseErrorModel,
> {
    optional(member(m, key), jsx_of(present(member(m, key)), path_of(prefix, key)))
}

/// What is written for one of the JSX modes: its normalized name.
pub open spec fn jsx_field(key: Seq<char>, value: Option<JsxModel>) -> Members {
    match value {
        Some(v) => seq![(key, JsonModel::String(jsx_key(v)))],
        None => Seq::empty(),
    }
}

pub(crate) fn jsx_at(v: &Value, prefix: &str, key: &str) -> (r: Result<Jsx, ParseError>)
    ensures
        outcome(r) == jsx_of(value_model(*v), path_of(prefix@, key@)),
{
    match v.as_str() {
        Some(s) => Ok(Jsx::from_name(s)),
        None => Err(shape_error(join_path(prefix, key), JsonKind::String, v)),
    }
}

pub(crate) fn opt_jsx(entries: &Vec<(&String, &Value)>, prefix: &str, key: &str) -> (r: Result<
    Option<Jsx>,
    ParseError,
>)
    ensures
        outcome(r) == opt_jsx_in(borrowed_model(entries@), prefix@, key@),
{
    proof {
        reveal(opt_jsx_in);
    }
    match find(entries, key) {
        Some(v) => {
            if kind(v) == JsonKind::Null {
                Ok(None)
            } else {
                match jsx_at(v, prefix, key) {
                    Ok(x) => Ok(Some(x)),
                    Err(e) => Err(e),
                }
            }
        },
        None => Ok(None),
    }
}

pub(crate) fn put_jsx(entries: &mut Vec<(String, Value)>, key: &str, value: &Option<Jsx>)
    ensures
        members_model(final(entries)@) == members_model(old(entries)@) + jsx_field(
            key@,
            value.deep_view(),
        ),
{
    match value {
        Some(x) => put(entries, key, text_value(x.name().as_str())),
        None => {
            assert(members_model(entries@) =~= members_model(entries@) + Seq::empty());
        },
    }
}

/// The libraries read from the first `n` items, or the error of the first
/// item that is no string.
pub open spec fn libs_upto(items: Seq<JsonModel>, path: Seq<char>, n: int) -> Result<
    Seq<LibModel>,
    ParseErrorModel,
>
    decreases n,
{
    if n <= 0 {
        Ok(Seq::empty())
    } else {
        match libs_upto(items, path, n - 1) {
            Err(e) => Err(e),
            Ok(front) => match lib_of(items[n - 1], item_path(path)) {
                Ok(x) => Ok(front.push(x)),
                Err(e) => Err(e),
            },
        }
    }
}

/// A list of libraries is read from an array of strings.
pub open spec fn libs_of(j: JsonModel, path: Seq<char>) -> Result<Seq<LibModel>, ParseErrorModel> {
    match j {
        JsonModel::Array(items) => libs_upto(items, path, items.len() as int),
        _ => Err(mismatch(path, seq![JsonKind::Array], j)),
    }
}

/// The member `key` of the object at `prefix`, read as a list of libraries that may be
/// unset.
#[verifier::opaque]
pub open spec fn opt_libs_in(m: Members, prefix: Seq<char>, key: Seq<char>) -> Result<
    Option<Seq<LibModel>>,
    ParseErrorModel,
> {
    optional(member(m, key), libs_of(present(member(m, key)), path_of(prefix, key)))
}

/// The array of names that stands for a list of libraries.
pub open spec fn libs_json(libs: Seq<LibModel>) -> JsonModel {
    JsonModel::Array(Seq::new(libs.len(), |i: int| JsonModel::String(lib_key(libs[i]))))
}

/// What is written under `key` for a list of libraries: nothing where it is unset.
pub open spec fn libs_field(key: Seq<char>, value: Option<Seq<LibModel>>) -> Members {
    match value {
        Some(libs) => seq![(key, libs_json(libs))],
        None => Seq::empty(),
    }
}

/// Once an item has failed, reading further items gives the same error.
pub proof fn lemma_libs_error_stays(items: Seq<JsonModel>, path: Seq<char>, k: int, n: int)
    requires
        k <= n,
        libs_upto(items, path, k) is Err,
    ensures
        libs_upto(items, path, n) == libs_upto(items, path, k),
    decreases n - k,
{
    if k < n {
        lemma_libs_error_stays(items, path, k, n - 1);
    }
}

pub(crate) fn libs_at(v: &Value, prefix: &str, key: &str) -> (r: Result<Vec<Lib>, ParseError>)
    ensures
        outcome(r) == libs_of(value_model(*v), path_of(prefix@, key@)),
{
    let items = match v.as_array() {
        Some(items) => items,
        None => {
            return Err(shape_error(join_path(prefix, key), JsonKind::Array, v));
        },
    };
    let ghost ms = items_model(items@);
    let ghost path = path_of(prefix@, key@);
    let mut out: Vec<Lib> = Vec::new();
    let mut i: usize = 0;
    assert(out.deep_view() =~= Seq::<LibModel>::empty());
    while i < items.len()
        invariant
            i <= items.len(),
            ms == items_model(items@),
            value_model(*v) == JsonModel::Array(ms),
            path == path_of(prefix@, key@),
            libs_upto(ms, path, i as int) == Ok::<Seq<LibModel>, ParseErrorModel>(out.deep_view()),
        decreases items.len() - i,
    {
        let item = &items[i];
        assert(ms[i as int] == value_model(*item));
        match item.as_str() {
            Some(s) => {
                let ghost before = out.deep_view();
                let lib = Lib::from_name(s);
                out.push(lib);
                assert(out.deep_view() =~= before.push(lib.deep_view()));
            },
            None => {
                let e = shape_error(
                    list_item_path(join_path(prefix, key).as_str()),
                    JsonKind::String,
                    item,
                );
                proof {
                    assert(ms.len() == items.len());
                    lemma_libs_error_stays(ms, path, i + 1, ms.len() as int);
                }
                return Err(e);
            },
        }
        i += 1;
    }
    Ok(out)
}

pub(crate) fn opt_libs(entries: &Vec<(&String, &Value)>, prefix: &str, key: &str) -> (r: Result<
    Option<Vec<Lib>>,
    ParseError,
>)
    ensures
        outcome(r) == opt_libs_in(borrowed_model(entries@), prefix@, key@),
{
    proof {
        reveal(opt_libs_in);
    }
    match find(entries, key) {
        Some(v) => {
            if kind(v) == JsonKind::Null {
                Ok(None)
            } else {
                match libs_at(v, prefix, key) {
                    Ok(x) => Ok(Some(x)),
                    Err(e) => Err(e),
                }
            }
        },
        None => Ok(None),
    }
}

pub(crate) fn libs_value(libs: &Vec<Lib>) -> (r: Value)
    ensures
        value_model(r) == libs_json(libs.deep_view()),
{
    let mut out: Vec<Value> = Vec::new();
    let mut i: usize = 0;
    while i < libs.len()
        invariant
            i <= libs.len(),
            out.len() == i,
            forall|k: int|
                0 <= k < i ==> value_model(#[trigger] out[k]) == JsonModel::String(
                    lib_key(libs[k].deep_view()),
                ),
        decreases libs.len() - i,
    {
        out.push(text_value(libs[i].name().as_str()));
        i += 1;
    }
    assert(items_model(out@) =~= libs_json(libs.deep_view())->Array_0);
    array_value(out)
}

pub(crate) fn put_libs(entries: &mut Vec<(String, Value)>, key: &str, value: &Option<Vec<Lib>>)
    ensures
        members_model(final(entries)@) == members_model(old(entries)@) + libs_field(
            key@,
            value.deep_view(),
        ),
{
    match value {
        Some(libs) => put(entries, key, libs_value(libs)),
        None => {
            assert(members_model(entries@) =~= members_model(entries@) + Seq::empty());
        },
    }
}

/// The entries of the first `n` members, or the error of the first member
/// whose value is no array of strings.
pub open spec fn paths_upto(
    m: Members,
    path: Seq<char>,
    n: int,
) -> Result<PathsModel, ParseErrorModel>
    decreases n,
{
    if n <= 0 {
        Ok(Seq::empty())
    } else {
        match paths_upto(m, path, n - 1) {
            Err(e) => Err(e),
            Ok(front) => match texts_of(m[n - 1].1, path_of(path, m[n - 1].0)) {
                Ok(items) => Ok(front.push((m[n - 1].0, items))),
                Err(e) => Err(e),
            },
        }
    }
}

/// A mapping from path patterns to lists of substitutions is read from an
/// object whose values are arrays of strings, in the order of its members.
pub open spec fn paths_of(j: JsonModel, path: Seq<char>) -> Result<PathsModel, ParseErrorModel> {
    match j {
        JsonModel::Object(m) => paths_upto(m, path, m.len() as int),
        _ => Err(mismatch(path, seq![JsonKind::Object], j)),
    }
}

/// The member `key` of the object at `prefix`, read as a mapping of paths that may be
/// unset.
#[verifier::opaque]
pub open spec fn opt_paths_in(m: Members, prefix: Seq<char>, key: Seq<char>) -> Result<
    Option<PathsModel>,
    ParseErrorModel,
> {
    optional(member(m, key), paths_of(present(member(m, key)), path_of(prefix, key)))
}

/// The members that stand for the entries of a mapping of paths.
pub open spec fn paths_members(entries: PathsModel) -> Members {
    Seq::new(entries.len(), |i: int| (entries[i].0, texts_json(entries[i].1)))
}

/// The object that stands for a mapping of paths.
pub open spec fn paths_json(entries: PathsModel) -> JsonModel {
    object_json(paths_members(entries))
}

/// What is written under `key` for a mapping of paths: nothing where it is unset.
pub open spec fn paths_field(key: Seq<char>, value: Option<PathsModel>) -> Members {
    match value {
        Some(entries) => seq![(key, paths_json(entries))],
        None => Seq::empty(),
    }
}

/// Once a member has failed, reading further members gives the same error.
pub proof fn lemma_paths_error_stays(m: Members, path: Seq<char>, k: int, n: int)
    requires
        k <= n,
        paths_upto(m, path, k) is Err,
    ensures
        paths_upto(m, path, n) == paths_upto(m, path, k),
    decreases n - k,
{
    if k < n {
        lemma_paths_error_stays(m, path, k, n - 1);
    }
}

pub(crate) fn paths_at(v: &Value, prefix: &str, key: &str) -> (r: Result<
    Vec<(String, Vec<String>)>,
    ParseError,
>)
    ensures
        outcome(r) == paths_of(value_model(*v), path_of(prefix@, key@)),
        r is Ok ==> distinct_names(r->Ok_0.deep_view()),
{
    let entries = match members(v) {
        Some(entries) => entries,
        None => {
            return Err(shape_error(join_path(prefix, key), JsonKind::Object, v));
        },
    };
    let ghost m = borrowed_model(entries@);
    let ghost path = path_of(prefix@, key@);
    let here = join_path(prefix, key);
    let mut out: Vec<(String, Vec<String>)> = Vec::new();
    let mut i: usize = 0;
    assert(out.deep_view() =~= Seq::<(Seq<char>, Seq<Seq<char>>)>::empty());
    while i < entries.len()
        invariant
            i <= entries.len(),
            m == borrowed_model(entries@),
            value_model(*v) == JsonModel::Object(m),
            distinct_keys(m),
            path == path_of(prefix@, key@),
            here@ == path,
            paths_upto(m, path, i as int) == Ok::<PathsModel, ParseErrorModel>(out.deep_view()),
            out.deep_view().len() == i,
            forall|k: int| 0 <= k < i ==> (#[trigger] out.deep_view()[k]).0 == m[k].0,
        decreases entries.len() - i,
    {
        let name = entries[i].0;
        let item = entries[i].1;
        assert(m[i as int] == ((*name)@, value_model(*item)));
        match texts_at(item, here.as_str(), name.as_str()) {
            Ok(items) => {
                let ghost before = out.deep_view();
                out.push((name.clone(), items));
                assert(out.deep_view() =~= before.push((name@, items.deep_view())));
            },
            Err(e) => {
                proof {
                    assert(m.len() == entries.len());
                    lemma_paths_error_stays(m, path, i + 1, m.len() as int);
                }
                return Err(e);
            },
        }
        i += 1;
    }
    Ok(out)
}

pub(crate) fn opt_paths(entries: &Vec<(&String, &Value)>, prefix: &str, key: &str) -> (r: Result<
    Option<Vec<(String, Vec<String>)>>,
    ParseError,
>)
    ensures
        outcome(r) == opt_paths_in(borrowed_model(entries@), prefix@, key@),
        r is Ok && r->Ok_0 is Some ==> distinct_names(r->Ok_0->0.deep_view()),
{
    proof {
        reveal(opt_paths_in);
    }
    match find(entries, key) {
        Some(v) => {
            if kind(v) == JsonKind::Null {
                Ok(None)
            } else {
                match paths_at(v, prefix, key) {
                    Ok(x) => Ok(Some(x)),
                    Err(e) => Err(e),
                }
            }
        },
        None => Ok(None),
    }
}

pub(crate) fn paths_value(entries: &Vec<(String, Vec<String>)>) -> (r: Value)
    ensures
        value_model(r) == paths_json(entries.deep_view()),
{
    let mut out: Vec<(String, Value)> = Vec::new();
    let mut i: usize = 0;
    while i < entries.len()
        invariant
            i <= entries.len(),
            out.len() == i,
            forall|k: int|
                0 <= k < i ==> (#[trigger] out[k]).0@ == entries[k].0@ && value_model(out[k].1)
                    == texts_json(entries[k].1.deep_view()),
        decreases entries.len() - i,
    {
        out.push((entries[i].0.clone(), texts_value(&entries[i].1)));
        i += 1;
    }
    assert(members_model(out@) =~= paths_members(entries.deep_view()));
    object_value(out)
}

pub(crate) fn put_paths(
    entries: &mut Vec<(String, Value)>,
    key: &str,
    value: &Option<Vec<(String, Vec<String>)>>,
)
    ensures
        members_model(final(entries)@) == members_model(old(entries)@) + paths_field(
            key@,
            value.deep_view(),
        ),
{
    match value {
        Some(x) => put(entries, key, paths_value(x)),
        None => {
            assert(members_model(entries@) =~= members_model(entries@) + Seq::empty());
        },
    }
}

/// The compiler options: how the language works and what is emitted. Every
/// option is optional and independent of the others.
#[derive(Debug, Clone, PartialEq)]
pub struct CompilerOptions {
    pub allow_js: Option<bool>,
    pub check_js: Option<bool>,
    pub composite: Option<bool>,
    pub declaration: Option<bool>,
    pub declaration_map: Option<bool>,
    pub downlevel_iteration: Option<bool>,
    pub import_helpers: Option<bool>,
    pub incremental: Option<bool>,
    pub isolated_modules: Option<bool>,
    pub jsx: Option<Jsx>,
    pub lib: Option<Vec<Lib>>,
    pub module: Option<Module>,
    pub no_emit: Option<bool>,
    pub out_dir: Option<String>,
    pub out_file: Option<String>,
    pub remove_comments: Option<bool>,
    pub root_dir: Option<String>,
    pub source_map: Option<bool>,
    pub target: Option<Target>,
    pub ts_build_info_file: Option<String>,
    pub always_strict: Option<bool>,
    pub no_implicit_any: Option<bool>,
    pub no_implicit_this: Option<bool>,
    pub strict: Option<bool>,
    pub strict_bind_call_apply: Option<bool>,
    pub strict_function_types: Option<bool>,
    pub strict_null_checks: Option<bool>,
    pub strict_property_initialization: Option<bool>,
    pub allow_synthetic_default_imports: Option<bool>,
    pub allow_umd_global_access: Option<bool>,
    pub base_url: Option<String>,
    pub es_module_interop: Option<bool>,
    pub module_resolution: Option<ModuleResolutionMode>,
    pub paths: Option<Vec<(String, Vec<String>)>>,
    pub preserve_symlinks: Option<bool>,
    pub root_dirs: Option<Vec<String>>,
    pub type_roots: Option<Vec<String>>,
    pub types: Option<Vec<String>>,
    pub inline_source_map: Option<bool>,
    pub inline_sources: Option<bool>,
    pub map_root: Option<String>,
    pub source_root: Option<String>,
    pub no_fallthrough_cases_in_switch: Option<bool>,
    pub no_implicit_returns: Option<bool>,
    pub no_property_access_from_index_signature: Option<bool>,
    pub no_unchecked_indexed_access: Option<bool>,
    pub no_unused_locals: Option<bool>,
    pub emit_decorator_metadata: Option<bool>,
    pub experimental_decorators: Option<bool>,
    pub allow_unreachable_code: Option<bool>,
    pub allow_unused_labels: Option<bool>,
    pub assume_changes_only_affect_direct_dependencies: Option<bool>,
    /// Deprecated.
    pub charset: Option<String>,
    pub declaration_dir: Option<String>,
    /// Deprecated.
    pub diagnostics: Option<bool>,
    pub disable_referenced_project_load: Option<bool>,
    pub disable_size_limit: Option<bool>,
    pub disable_solution_searching: Option<bool>,
    pub disable_source_of_project_reference_redirect: Option<bool>,
    pub emit_bom: Option<bool>,
    pub emit_declaration_only: Option<bool>,
    pub explain_files: Option<bool>,
    pub extended_diagnostics: Option<bool>,
    pub force_consistent_casing_in_file_names: Option<bool>,
    pub generate_cpu_profile: Option<bool>,
    pub imports_not_used_as_values: Option<String>,
    pub jsx_factory: Option<String>,
    pub jsx_fragment_factory: Option<String>,
    pub jsx_import_source: Option<String>,
    pub keyof_strings_only: Option<bool>,
    pub list_emitted_files: Option<bool>,
    pub list_files: Option<bool>,
    pub max_node_module_js_depth: Option<u32>,
    pub no_emit_helpers: Option<bool>,
    pub no_emit_on_error: Option<bool>,
    pub no_error_truncation: Option<bool>,
    pub no_implicit_use_strict: Option<bool>,
    pub no_lib: Option<bool>,
    pub no_resolve: Option<bool>,
    pub no_strict_generic_checks: Option<bool>,
    /// Deprecated.
    pub out: Option<String>,
    pub preserve_const_enums: Option<bool>,
    pub react_namespace: Option<String>,
    pub resolve_json_module: Option<bool>,
    pub skip_default_lib_check: Option<bool>,
    pub skip_lib_check: Option<bool>,
    pub strip_internal: Option<bool>,
    pub suppress_excess_property_errors: Option<bool>,
    pub suppress_implicit_any_index_errors: Option<bool>,
    pub trace_resolution: Option<bool>,
    pub use_define_for_class_fields: Option<bool>,
    pub preserve_watch_output: Option<bool>,
    pub pretty: Option<bool>,
    pub fallback_polling: Option<String>,
    pub watch_directory: Option<String>,
    pub watch_file: Option<String>,
}

/// The mathematical model of a `CompilerOptions`.
pub struct CompilerOptionsModel {
    pub allow_js: Option<bool>,
    pub check_js: Option<bool>,
    pub composite: Option<bool>,
    pub declaration: Option<bool>,
    pub declaration_map: Option<bool>,
    pub downlevel_iteration: Option<bool>,
    pub import_helpers: Option<bool>,
    pub incremental: Option<bool>,
    pub isolated_modules: Option<bool>,
    pub jsx: Option<JsxModel>,
    pub lib: Option<Seq<LibModel>>,
    pub module: Option<ModuleModel>,
    pub no_emit: Option<bool>,
    pub out_dir: Option<Seq<char>>,
    pub out_file: Option<Seq<char>>,
    pub remove_comments: Option<bool>,
    pub root_dir: Option<Seq<char>>,
    pub source_map: Option<bool>,
    pub target: Option<TargetModel>,
    pub ts_build_info_file: Option<Seq<char>>,
    pub always_strict: Option<bool>,
    pub no_implicit_any: Option<bool>,
    pub no_implicit_this: Option<bool>,
    pub strict: Option<bool>,
    pub strict_bind_call_apply: Option<bool>,
    pub strict_function_types: Option<bool>,
    pub strict_null_checks: Option<bool>,
    pub strict_property_initialization: Option<bool>,
    pub allow_synthetic_default_imports: Option<bool>,
    pub allow_umd_global_access: Option<bool>,
    pub base_url: Option<Seq<char>>,
    pub es_module_interop: Option<bool>,
    pub module_resolution: Option<ModuleResolutionModeModel>,
    pub paths: Option<PathsModel>,
    pub preserve_symlinks: Option<bool>,
    pub root_dirs: Option<Seq<Seq<char>>>,
    pub type_roots: Option<Seq<Seq<char>>>,
    pub types: Option<Seq<Seq<char>>>,
    pub inline_source_map: Option<bool>,
    pub inline_sources: Option<bool>,
    pub map_root: Option<Seq<char>>,
    pub source_root: Option<Seq<char>>,
    pub no_fallthrough_cases_in_switch: Option<bool>,
    pub no_implicit_returns: Option<bool>,
    pub no_property_access_from_index_signature: Option<bool>,
    pub no_unchecked_indexed_access: Option<bool>,
    pub no_unused_locals: Option<bool>,
    pub emit_decorator_metadata: Option<bool>,
    pub experimental_decorators: Option<bool>,
    pub allow_unreachable_code: Option<bool>,
    pub allow_unused_labels: Option<bool>,
    pub assume_changes_only_affect_direct_dependencies: Option<bool>,
    pub charset: Option<Seq<char>>,
    pub declaration_dir: Option<Seq<char>>,
    pub diagnostics: Option<bool>,
    pub disable_referenced_project_load: Option<bool>,
    pub disable_size_limit: Option<bool>,
    pub disable_solution_searching: Option<bool>,
    pub disable_source_of_project_reference_redirect: Option<bool>,
    pub emit_bom: Option<bool>,
    pub emit_declaration_only: Option<bool>,
    pub explain_files: Option<bool>,
    pub extended_diagnostics: Option<bool>,
    pub force_consistent_casing_in_file_names: Option<bool>,
    pub generate_cpu_profile: Option<bool>,
    pub imports_not_used_as_values: Option<Seq<char>>,
    pub jsx_factory: Option<Seq<char>>,
    pub jsx_fragment_factory: Option<Seq<char>>,
    pub jsx_import_source: Option<Seq<char>>,
    pub keyof_strings_only: Option<bool>,
    pub list_emitted_files: Option<bool>,
    pub list_files: Option<bool>,
    pub max_node_module_js_depth: Option<u32>,
    pub no_emit_helpers: Option<bool>,
    pub no_emit_on_error: Option<bool>,
    pub no_error_truncation: Option<bool>,
    pub no_implicit_use_strict: Option<bool>,
    pub no_lib: Option<bool>,
    pub no_resolve: Option<bool>,
    pub no_strict_generic_checks: Option<bool>,
    pub out: Option<Seq<char>>,
    pub preserve_const_enums: Option<bool>,
    pub react_namespace: Option<Seq<char>>,
    pub resolve_json_module: Option<bool>,
    pub skip_default_lib_check: Option<bool>,
    pub skip_lib_check: Option<bool>,
    pub strip_internal: Option<bool>,
    pub suppress_excess_property_errors: Option<bool>,
    pub suppress_implicit_any_index_errors: Option<bool>,
    pub trace_resolution: Option<bool>,
    pub use_define_for_class_fields: Option<bool>,
    pub preserve_watch_output: Option<bool>,
    pub pretty: Option<bool>,
    pub fallback_polling: Option<Seq<char>>,
    pub watch_directory: Option<Seq<char>>,
    pub watch_file: Option<Seq<char>>,
}

impl DeepView for CompilerOptions {
    type V = CompilerOptionsModel;

    open spec fn deep_view(&self) -> CompilerOptionsModel {
        CompilerOptionsModel {
            allow_js: self.allow_js.deep_view(),
            check_js: self.check_js.deep_view(),
            composite: self.composite.deep_view(),
            declaration: self.declaration.deep_view(),
            declaration_map: self.declaration_map.deep_view(),
            downlevel_iteration: self.downlevel_iteration.deep_view(),
            import_helpers: self.import_helpers.deep_view(),
            incremental: self.incremental.deep_view(),
            isolated_modules: self.isolated_modules.deep_view(),
            jsx: self.jsx.deep_view(),
            lib: self.lib.deep_view(),
            module: self.module.deep_view(),
            no_emit: self.no_emit.deep_view(),
            out_dir: self.out_dir.deep_view(),
            out_file: self.out_file.deep_view(),
            remove_comments: self.remove_comments.deep_view(),
            root_dir: self.root_dir.deep_view(),
            source_map: self.source_map.deep_view(),
            target: self.target.deep_view(),
            ts_build_info_file: self.ts_build_info_file.deep_view(),
            always_strict: self.always_strict.deep_view(),
            no_implicit_any: self.no_implicit_any.deep_view(),
            no_implicit_this: self.no_implicit_this.deep_view(),
            strict: self.strict.deep_view(),
            strict_bind_call_apply: self.strict_bind_call_apply.deep_view(),
            strict_function_types: self.strict_function_types.deep_view(),
            strict_null_checks: self.strict_null_checks.deep_view(),
            strict_property_initialization: self.strict_property_initialization.deep_view(),
            allow_synthetic_default_imports: self.allow_synthetic_default_imports.deep_view(),
            allow_umd_global_access: self.allow_umd_global_access.deep_view(),
            base_url: self.base_url.deep_view(),
            es_module_interop: self.es_module_interop.deep_view(),
            module_resolution: self.module_resolution.deep_view(),
            paths: self.paths.deep_view(),
            preserve_symlinks: self.preserve_symlinks.deep_view(),
            root_dirs: self.root_dirs.deep_view(),
            type_roots: self.type_roots.deep_view(),
            types: self.types.deep_view(),
            inline_source_map: self.inline_source_map.deep_view(),
            inline_sources: self.inline_sources.deep_view(),
            map_root: self.map_root.deep_view(),
            source_root: self.source_root.deep_view(),
            no_fallthrough_cases_in_switch: self.no_fallthrough_cases_in_switch.deep_view(),
            no_implicit_returns: self.no_implicit_returns.deep_view(),
            no_property_access_from_index_signature: self.no_property_access_from_index_signature.deep_view(),
            no_unchecked_indexed_access: self.no_unchecked_indexed_access.deep_view(),
            no_unused_locals: self.no_unused_locals.deep_view(),
            emit_decorator_metadata: self.emit_decorator_metadata.deep_view(),
            experimental_decorators: self.experimental_decorators.deep_view(),
            allow_unreachable_code: self.allow_unreachable_code.deep_view(),
            allow_unused_labels: self.allow_unused_labels.deep_view(),
            assume_changes_only_affect_direct_dependencies: self.assume_changes_only_affect_direct_dependencies.deep_view(),
            charset: self.charset.deep_view(),
            declaration_dir: self.declaration_dir.deep_view(),
            diagnostics: self.diagnostics.deep_view(),
            disable_referenced_project_load: self.disable_referenced_project_load.deep_view(),
            disable_size_limit: self.disable_size_limit.deep_view(),
            disable_solution_searching: self.disable_solution_searching.deep_view(),
            disable_source_of_project_reference_redirect: self.disable_source_of_project_reference_redirect.deep_view(),
            emit_bom: self.emit_bom.deep_view(),
            emit_declaration_only: self.emit_declaration_only.deep_view(),
            explain_files: self.explain_files.deep_view(),
            extended_diagnostics: self.extended_diagnostics.deep_view(),
            force_consistent_casing_in_file_names: self.force_consistent_casing_in_file_names.deep_view(),
            generate_cpu_profile: self.generate_cpu_profile.deep_view(),
            imports_not_used_as_values: self.imports_not_used_as_values.deep_view(),
            jsx_factory: self.jsx_factory.deep_view(),
            jsx_fragment_factory: self.jsx_fragment_factory.deep_view(),
            jsx_import_source: self.jsx_import_source.deep_view(),
            keyof_strings_only: self.keyof_strings_only.deep_view(),
            list_emitted_files: self.list_emitted_files.deep_view(),
            list_files: self.list_files.deep_view(),
            max_node_module_js_depth: self.max_node_module_js_depth.deep_view(),
            no_emit_helpers: self.no_emit_helpers.deep_view(),
            no_emit_on_error: self.no_emit_on_error.deep_view(),
            no_error_truncation: self.no_error_truncation.deep_view(),
            no_implicit_use_strict: self.no_implicit_use_strict.deep_view(),
            no_lib: self.no_lib.deep_view(),
            no_resolve: self.no_resolve.deep_view(),
            no_strict_generic_checks: self.no_strict_generic_checks.deep_view(),
            out: self.out.deep_view(),
            preserve_const_enums: self.preserve_const_enums.deep_view(),
            react_namespace: self.react_namespace.deep_view(),
            resolve_json_module: self.resolve_json_module.deep_view(),
            skip_default_lib_check: self.skip_default_lib_check.deep_view(),
            skip_lib_check: self.skip_lib_check.deep_view(),
            strip_internal: self.strip_internal.deep_view(),
            suppress_excess_property_errors: self.suppress_excess_property_errors.deep_view(),
            suppress_implicit_any_index_errors: self.suppress_implicit_any_index_errors.deep_view(),
            trace_resolution: self.trace_resolution.deep_view(),
            use_define_for_class_fields: self.use_define_for_class_fields.deep_view(),
            preserve_watch_output: self.preserve_watch_output.deep_view(),
            pretty: self.pretty.deep_view(),
            fallback_polling: self.fallback_polling.deep_view(),
            watch_directory: self.watch_directory.deep_view(),
            watch_file: self.watch_file.deep_view(),
        }
    }
}

/// The error of the first of the project options, in declared order, that cannot be
/// read.
pub open spec fn project_failure(m: Members, path: Seq<char>) -> Option<ParseErrorModel> {
    let allow_js = opt_flag_in(m, path, "allowJs"@);
    let check_js = opt_flag_in(m, path, "checkJs"@);
    let composite = opt_flag_in(m, path, "composite"@);
    let declaration = opt_flag_in(m, path, "declaration"@);
    let declaration_map = opt_flag_in(m, path, "declarationMap"@);
    let downlevel_iteration = opt_flag_in(m, path, "downlevelIteration"@);
    let import_helpers = opt_flag_in(m, path, "importHelpers"@);
    let incremental = opt_flag_in(m, path, "incremental"@);
    let isolated_modules = opt_flag_in(m, path, "isolatedModules"@);
    let jsx = opt_jsx_in(m, path, "jsx"@);
    let lib = opt_libs_in(m, path, "lib"@);
    let module = opt_module_in(m, path, "module"@);
    let no_emit = opt_flag_in(m, path, "noEmit"@);
    let out_dir = opt_text_in(m, path, "outDir"@);
    let out_file = opt_text_in(m, path, "outFile"@);
    let remove_comments = opt_flag_in(m, path, "removeComments"@);
    let root_dir = opt_text_in(m, path, "rootDir"@);
    let source_map = opt_flag_in(m, path, "sourceMap"@);
    let target = opt_target_in(m, path, "target"@);
    let ts_build_info_file = opt_text_in(m, path, "tsBuildInfoFile"@);
    if allow_js is Err {
        Some(allow_js->Err_0)
    } else if check_js is Err {
        Some(check_js->Err_0)
    } else if composite is Err {
        Some(composite->Err_0)
    } else if declaration is Err {
        Some(declaration->Err_0)
    } else if declaration_map is Err {
        Some(declaration_map->Err_0)
    } else if downlevel_iteration is Err {
        Some(downlevel_iteration->Err_0)
    } else if import_helpers is Err {
        Some(import_helpers->Err_0)
    } else if incremental is Err {
        Some(incremental->Err_0)
    } else if isolated_modules is Err {
        Some(isolated_modules->Err_0)
    } else if jsx is Err {
        Some(jsx->Err_0)
    } else if lib is Err {
        Some(lib->Err_0)
    } else if module is Err {
        Some(module->Err_0)
    } else if no_emit is Err {
        Some(no_emit->Err_0)
    } else if out_dir is Err {
        Some(out_dir->Err_0)
    } else if out_file is Err {
        Some(out_file->Err_0)
    } else if remove_comments is Err {
        Some(remove_comments->Err_0)
    } else if root_dir is Err {
        Some(root_dir->Err_0)
    } else if source_map is Err {
        Some(source_map->Err_0)
    } else if target is Err {
        Some(target->Err_0)
    } else if ts_build_info_file is Err {
        Some(ts_build_info_file->Err_0)
    } else {
        None
    }
}

/// The error of the first of the strict checks, in declared order, that cannot be
/// read.
pub open spec fn strict_failure(m: Members, path: Seq<char>) -> Option<ParseErrorModel> {
    let always_strict = opt_flag_in(m, path, "alwaysStrict"@);
    let no_implicit_any = opt_flag_in(m, path, "noImplicitAny"@);
    let no_implicit_this = opt_flag_in(m, path, "noImplicitThis"@);
    let strict = opt_flag_in(m, path, "strict"@);
    let strict_bind_call_apply = opt_flag_in(m, path, "strictBindCallApply"@);
    let strict_function_types = opt_flag_in(m, path, "strictFunctionTypes"@);
    let strict_null_checks = opt_flag_in(m, path, "strictNullChecks"@);
    let strict_property_initialization = opt_flag_in(m, path, "strictPropertyInitialization"@);
    if always_strict is Err {
        Some(always_strict->Err_0)
    } else if no_implicit_any is Err {
        Some(no_implicit_any->Err_0)
    } else if no_implicit_this is Err {
        Some(no_implicit_this->Err_0)
    } else if strict is Err {
        Some(strict->Err_0)
    } else if strict_bind_call_apply is Err {
        Some(strict_bind_call_apply->Err_0)
    } else if strict_function_types is Err {
        Some(strict_function_types->Err_0)
    } else if strict_null_checks is Err {
        Some(strict_null_checks->Err_0)
    } else if strict_property_initialization is Err {
        Some(strict_property_initialization->Err_0)
    } else {
        None
    }
}

/// The error of the first of the options of module resolution, in declared order, that cannot be
/// read.
pub open spec fn resolution_failure(m: Members, path: Seq<char>) -> Option<ParseErrorModel> {
    let allow_synthetic_default_imports = opt_flag_in(m, path, "allowSyntheticDefaultImports"@);
    let allow_umd_global_access = opt_flag_in(m, path, "allowUmdGlobalAccess"@);
    let base_url = opt_text_in(m, path, "baseUrl"@);
    let es_module_interop = opt_flag_in(m, path, "esModuleInterop"@);
    let module_resolution = opt_resolution_in(m, path, "moduleResolution"@);
    let paths = opt_paths_in(m, path, "paths"@);
    let preserve_symlinks = opt_flag_in(m, path, "preserveSymlinks"@);
    let root_dirs = opt_texts_in(m, path, "rootDirs"@);
    let type_roots = opt_texts_in(m, path, "typeRoots"@);
    let types = opt_texts_in(m, path, "types"@);
    if allow_synthetic_default_imports is Err {
        Some(allow_synthetic_default_imports->Err_0)
    } else if allow_umd_global_access is Err {
        Some(allow_umd_global_access->Err_0)
    } else if base_url is Err {
        Some(base_url->Err_0)
    } else if es_module_interop is Err {
        Some(es_module_interop->Err_0)
    } else if module_resolution is Err {
        Some(module_resolution->Err_0)
    } else if paths is Err {
        Some(paths->Err_0)
    } else if preserve_symlinks is Err {
        Some(preserve_symlinks->Err_0)
    } else if root_dirs is Err {
        Some(root_dirs->Err_0)
    } else if type_roots is Err {
        Some(type_roots->Err_0)
    } else if types is Err {
        Some(types->Err_0)
    } else {
        None
    }
}

/// The error of the first of the options of source maps, in declared order, that cannot be
/// read.
pub open spec fn source_map_failure(m: Members, path: Seq<char>) -> Option<ParseErrorModel> {
    let inline_source_map = opt_flag_in(m, path, "inlineSourceMap"@);
    let inline_sources = opt_flag_in(m, path, "inlineSources"@);
    let map_root = opt_text_in(m, path, "mapRoot"@);
    let source_root = opt_text_in(m, path, "sourceRoot"@);
    if inline_source_map is Err {
        Some(inline_source_map->Err_0)
    } else if inline_sources is Err {
        Some(inline_sources->Err_0)
    } else if map_root is Err {
        Some(map_root->Err_0)
    } else if source_root is Err {
        Some(source_root->Err_0)
    } else {
        None
    }
}

/// The error of the first of the linter checks, in declared order, that cannot be
/// read.
pub open spec fn lint_failure(m: Members, path: Seq<char>) -> Option<ParseErrorModel> {
    let no_fallthrough_cases_in_switch = opt_flag_in(m, path, "noFallthroughCasesInSwitch"@);
    let no_implicit_returns = opt_flag_in(m, path, "noImplicitReturns"@);
    let no_property_access_from_index_signature = opt_flag_in(m, path, "noPropertyAccessFromIndexSignature"@);
    let no_unchecked_indexed_access = opt_flag_in(m, path, "noUncheckedIndexedAccess"@);
    let no_unused_locals = opt_flag_in(m, path, "noUnusedLocals"@);
    if no_fallthrough_cases_in_switch is Err {
        Some(no_fallthrough_cases_in_switch->Err_0)
    } else if no_implicit_returns is Err {
        Some(no_implicit_returns->Err_0)
    } else if no_property_access_from_index_signature is Err {
        Some(no_property_access_from_index_signature->Err_0)
    } else if no_unchecked_indexed_access is Err {
        Some(no_unchecked_indexed_access->Err_0)
    } else if no_unused_locals is Err {
        Some(no_unused_locals->Err_0)
    } else {
        None
    }
}

/// The error of the first of the experimental options, in declared order, that cannot be
/// read.
pub open spec fn experimental_failure(m: Members, path: Seq<char>) -> Option<ParseErrorModel> {
    let emit_decorator_metadata = opt_flag_in(m, path, "emitDecoratorMetadata"@);
    let experimental_decorators = opt_flag_in(m, path, "experimentalDecorators"@);
    if emit_decorator_metadata is Err {
        Some(emit_decorator_metadata->Err_0)
    } else if experimental_decorators is Err {
        Some(experimental_decorators->Err_0)
    } else {
        None
    }
}

/// The error of the first of the advanced options, in declared order, that cannot be
/// read.
pub open spec fn advanced_failure(m: Members, path: Seq<char>) -> Option<ParseErrorModel> {
    let allow_unreachable_code = opt_flag_in(m, path, "allowUnreachableCode"@);
    let allow_unused_labels = opt_flag_in(m, path, "allowUnusedLabels"@);
    let assume_changes_only_affect_direct_dependencies = opt_flag_in(m, path, "assumeChangesOnlyAffectDirectDependencies"@);
    let charset = opt_text_in(m, path, "charset"@);
    let declaration_dir = opt_text_in(m, path, "declarationDir"@);
    let diagnostics = opt_flag_in(m, path, "diagnostics"@);
    let disable_referenced_project_load = opt_flag_in(m, path, "disableReferencedProjectLoad"@);
    let disable_size_limit = opt_flag_in(m, path, "disableSizeLimit"@);
    let disable_solution_searching = opt_flag_in(m, path, "disableSolutionSearching"@);
    let disable_source_of_project_reference_redirect = opt_flag_in(m, path, "disableSourceOfProjectReferenceRedirect"@);
    let emit_bom = opt_flag_in(m, path, "emitBOM"@);
    let emit_declaration_only = opt_flag_in(m, path, "emitDeclarationOnly"@);
    let explain_files = opt_flag_in(m, path, "explainFiles"@);
    let extended_diagnostics = opt_flag_in(m, path, "extendedDiagnostics"@);
    let force_consistent_casing_in_file_names = opt_flag_in(m, path, "forceConsistentCasingInFileNames"@);
    let generate_cpu_profile = opt_flag_in(m, path, "generateCpuProfile"@);
    let imports_not_used_as_values = opt_text_in(m, path, "importsNotUsedAsValues"@);
    let jsx_factory = opt_text_in(m, path, "jsxFactory"@);
    let jsx_fragment_factory = opt_text_in(m, path, "jsxFragmentFactory"@);
    let jsx_import_source = opt_text_in(m, path, "jsxImportSource"@);
    if allow_unreachable_code is Err {
        Some(allow_unreachable_code->Err_0)
    } else if allow_unused_labels is Err {
        Some(allow_unused_labels->Err_0)
    } else if assume_changes_only_affect_direct_dependencies is Err {
        Some(assume_changes_only_affect_direct_dependencies->Err_0)
    } else if charset is Err {
        Some(charset->Err_0)
    } else if declaration_dir is Err {
        Some(declaration_dir->Err_0)
    } else if diagnostics is Err {
        Some(diagnostics->Err_0)
    } else if disable_referenced_project_load is Err {
        Some(disable_referenced_project_load->Err_0)
    } else if disable_size_limit is Err {
        Some(disable_size_limit->Err_0)
    } else if disable_solution_searching is Err {
        Some(disable_solution_searching->Err_0)
    } else if disable_source_of_project_reference_redirect is Err {
        Some(disable_source_of_project_reference_redirect->Err_0)
    } else if emit_bom is Err {
        Some(emit_bom->Err_0)
    } else if emit_declaration_only is Err {
        Some(emit_declaration_only->Err_0)
    } else if explain_files is Err {
        Some(explain_files->Err_0)
    } else if extended_diagnostics is Err {
        Some(extended_diagnostics->Err_0)
    } else if force_consistent_casing_in_file_names is Err {
        Some(force_consistent_casing_in_file_names->Err_0)
    } else if generate_cpu_profile is Err {
        Some(generate_cpu_profile->Err_0)
    } else if imports_not_used_as_values is Err {
        Some(imports_not_used_as_values->Err_0)
    } else if jsx_factory is Err {
        Some(jsx_factory->Err_0)
    } else if jsx_fragment_factory is Err {
        Some(jsx_fragment_factory->Err_0)
    } else if jsx_import_source is Err {
        Some(jsx_import_source->Err_0)
    } else {
        None
    }
}

/// The error of the first of the further advanced options, in declared order, that cannot be
/// read.
pub open spec fn further_failure(m: Members, path: Seq<char>) -> Option<ParseErrorModel> {
    let keyof_strings_only = opt_flag_in(m, path, "keyofStringsOnly"@);
    let list_emitted_files = opt_flag_in(m, path, "listEmittedFiles"@);
    let list_files = opt_flag_in(m, path, "listFiles"@);
    let max_node_module_js_depth = opt_count_in(m, path, "maxNodeModuleJsDepth"@);
    let no_emit_helpers = opt_flag_in(m, path, "noEmitHelpers"@);
    let no_emit_on_error = opt_flag_in(m, path, "noEmitOnError"@);
    let no_error_truncation = opt_flag_in(m, path, "noErrorTruncation"@);
    let no_implicit_use_strict = opt_flag_in(m, path, "noImplicitUseStrict"@);
    let no_lib = opt_flag_in(m, path, "noLib"@);
    let no_resolve = opt_flag_in(m, path, "noResolve"@);
    let no_strict_generic_checks = opt_flag_in(m, path, "noStrictGenericChecks"@);
    let out = opt_text_in(m, path, "out"@);
    let preserve_const_enums = opt_flag_in(m, path, "preserveConstEnums"@);
    let react_namespace = opt_text_in(m, path, "reactNamespace"@);
    let resolve_json_module = opt_flag_in(m, path, "resolveJsonModule"@);
    let skip_default_lib_check = opt_flag_in(m, path, "skipDefaultLibCheck"@);
    let skip_lib_check = opt_flag_in(m, path, "skipLibCheck"@);
    let strip_internal = opt_flag_in(m, path, "stripInternal"@);
    let suppress_excess_property_errors = opt_flag_in(m, path, "suppressExcessPropertyErrors"@);
    let suppress_implicit_any_index_errors = opt_flag_in(m, path, "suppressImplicitAnyIndexErrors"@);
    let trace_resolution = opt_flag_in(m, path, "traceResolution"@);
    let use_define_for_class_fields = opt_flag_in(m, path, "useDefineForClassFields"@);
    if keyof_strings_only is Err {
        Some(keyof_strings_only->Err_0)
    } else if list_emitted_files is Err {
        Some(list_emitted_files->Err_0)
    } else if list_files is Err {
        Some(list_files->Err_0)
    } else if max_node_module_js_depth is Err {
        Some(max_node_module_js_depth->Err_0)
    } else if no_emit_helpers is Err {
        Some(no_emit_helpers->Err_0)
    } else if no_emit_on_error is Err {
        Some(no_emit_on_error->Err_0)
    } else if no_error_truncation is Err {
        Some(no_error_truncation->Err_0)
    } else if no_implicit_use_strict is Err {
        Some(no_implicit_use_strict->Err_0)
    } else if no_lib is Err {
        Some(no_lib->Err_0)
    } else if no_resolve is Err {
        Some(no_resolve->Err_0)
    } else if no_strict_generic_checks is Err {
        Some(no_strict_generic_checks->Err_0)
    } else if out is Err {
        Some(out->Err_0)
    } else if preserve_const_enums is Err {
        Some(preserve_const_enums->Err_0)
    } else if react_namespace is Err {
        Some(react_namespace->Err_0)
    } else if resolve_json_module is Err {
        Some(resolve_json_module->Err_0)
    } else if skip_default_lib_check is Err {
        Some(skip_default_lib_check->Err_0)
    } else if skip_lib_check is Err {
        Some(skip_lib_check->Err_0)
    } else if strip_internal is Err {
        Some(strip_internal->Err_0)
    } else if suppress_excess_property_errors is Err {
        Some(suppress_excess_property_errors->Err_0)
    } else if suppress_implicit_any_index_errors is Err {
        Some(suppress_implicit_any_index_errors->Err_0)
    } else if trace_resolution is Err {
        Some(trace_resolution->Err_0)
    } else if use_define_for_class_fields is Err {
        Some(use_define_for_class_fields->Err_0)
    } else {
        None
    }
}

/// The error of the first of the options of the command line and of watching, in declared order, that cannot be
/// read.
pub open spec fn watch_failure(m: Members, path: Seq<char>) -> Option<ParseErrorModel> {
    let preserve_watch_output = opt_flag_in(m, path, "preserveWatchOutput"@);
    let pretty = opt_flag_in(m, path, "pretty"@);
    let fallback_polling = opt_text_in(m, path, "fallbackPolling"@);
    let watch_directory = opt_text_in(m, path, "watchDirectory"@);
    let watch_file = opt_text_in(m, path, "watchFile"@);
    if preserve_watch_output is Err {
        Some(preserve_watch_output->Err_0)
    } else if pretty is Err {
        Some(pretty->Err_0)
    } else if fallback_polling is Err {
        Some(fallback_polling->Err_0)
    } else if watch_directory is Err {
        Some(watch_directory->Err_0)
    } else if watch_file is Err {
        Some(watch_file->Err_0)
    } else {
        None
    }
}

/// The error of the first option, in declared order, that cannot be read.
pub open spec fn options_failure(m: Members, path: Seq<char>) -> Option<ParseErrorModel> {
    if project_failure(m, path) is Some {
        project_failure(m, path)
    } else if strict_failure(m, path) is Some {
        strict_failure(m, path)
    } else if resolution_failure(m, path) is Some {
        resolution_failure(m, path)
    } else if source_map_failure(m, path) is Some {
        source_map_failure(m, path)
    } else if lint_failure(m, path) is Some {
        lint_failure(m, path)
    } else if experimental_failure(m, path) is Some {
        experimental_failure(m, path)
    } else if advanced_failure(m, path) is Some {
        advanced_failure(m, path)
    } else if further_failure(m, path) is Some {
        further_failure(m, path)
    } else if watch_failure(m, path) is Some {
        watch_failure(m, path)
    } else {
        None
    }
}

/// What the members of an object give for each option, where every option
/// can be read: each option is read from the member with its key.
pub open spec fn options_read(m: Members, path: Seq<char>) -> CompilerOptionsModel {
    CompilerOptionsModel {
        allow_js: opt_flag_in(m, path, "allowJs"@)->Ok_0,
        check_js: opt_flag_in(m, path, "checkJs"@)->Ok_0,
        composite: opt_flag_in(m, path, "composite"@)->Ok_0,
        declaration: opt_flag_in(m, path, "declaration"@)->Ok_0,
        declaration_map: opt_flag_in(m, path, "declarationMap"@)->Ok_0,
        downlevel_iteration: opt_flag_in(m, path, "downlevelIteration"@)->Ok_0,
        import_helpers: opt_flag_in(m, path, "importHelpers"@)->Ok_0,
        incremental: opt_flag_in(m, path, "incremental"@)->Ok_0,
        isolated_modules: opt_flag_in(m, path, "isolatedModules"@)->Ok_0,
        jsx: opt_jsx_in(m, path, "jsx"@)->Ok_0,
        lib: opt_libs_in(m, path, "lib"@)->Ok_0,
        module: opt_module_in(m, path, "module"@)->Ok_0,
        no_emit: opt_flag_in(m, path, "noEmit"@)->Ok_0,
        out_dir: opt_text_in(m, path, "outDir"@)->Ok_0,
        out_file: opt_text_in(m, path, "outFile"@)->Ok_0,
        remove_comments: opt_flag_in(m, path, "removeComments"@)->Ok_0,
        root_dir: opt_text_in(m, path, "rootDir"@)->Ok_0,
        source_map: opt_flag_in(m, path, "sourceMap"@)->Ok_0,
        target: opt_target_in(m, path, "target"@)->Ok_0,
        ts_build_info_file: opt_text_in(m, path, "tsBuildInfoFile"@)->Ok_0,
        always_strict: opt_flag_in(m, path, "alwaysStrict"@)->Ok_0,
        no_implicit_any: opt_flag_in(m, path, "noImplicitAny"@)->Ok_0,
        no_implicit_this: opt_flag_in(m, path, "noImplicitThis"@)->Ok_0,
        strict: opt_flag_in(m, path, "strict"@)->Ok_0,
        strict_bind_call_apply: opt_flag_in(m, path, "strictBindCallApply"@)->Ok_0,
        strict_function_types: opt_flag_in(m, path, "strictFunctionTypes"@)->Ok_0,
        strict_null_checks: opt_flag_in(m, path, "strictNullChecks"@)->Ok_0,
        strict_property_initialization: opt_flag_in(m, path, "strictPropertyInitialization"@)->Ok_0,
        allow_synthetic_default_imports: opt_flag_in(m, path, "allowSyntheticDefaultImports"@)->Ok_0,
        allow_umd_global_access: opt_flag_in(m, path, "allowUmdGlobalAccess"@)->Ok_0,
        base_url: opt_text_in(m, path, "baseUrl"@)->Ok_0,
        es_module_interop: opt_flag_in(m, path, "esModuleInterop"@)->Ok_0,
        module_resolution: opt_resolution_in(m, path, "moduleResolution"@)->Ok_0,
        paths: opt_paths_in(m, path, "paths"@)->Ok_0,
        preserve_symlinks: opt_flag_in(m, path, "preserveSymlinks"@)->Ok_0,
        root_dirs: opt_texts_in(m, path, "rootDirs"@)->Ok_0,
        type_roots: opt_texts_in(m, path, "typeRoots"@)->Ok_0,
        types: opt_texts_in(m, path, "types"@)->Ok_0,
        inline_source_map: opt_flag_in(m, path, "inlineSourceMap"@)->Ok_0,
        inline_sources: opt_flag_in(m, path, "inlineSources"@)->Ok_0,
        map_root: opt_text_in(m, path, "mapRoot"@)->Ok_0,
        source_root: opt_text_in(m, path, "sourceRoot"@)->Ok_0,
        no_fallthrough_cases_in_switch: opt_flag_in(m, path, "noFallthroughCasesInSwitch"@)->Ok_0,
        no_implicit_returns: opt_flag_in(m, path, "noImplicitReturns"@)->Ok_0,
        no_property_access_from_index_signature: opt_flag_in(m, path, "noPropertyAccessFromIndexSignature"@)->Ok_0,
        no_unchecked_indexed_access: opt_flag_in(m, path, "noUncheckedIndexedAccess"@)->Ok_0,
        no_unused_locals: opt_flag_in(m, path, "noUnusedLocals"@)->Ok_0,
        emit_decorator_metadata: opt_flag_in(m, path, "emitDecoratorMetadata"@)->Ok_0,
        experimental_decorators: opt_flag_in(m, path, "experimentalDecorators"@)->Ok_0,
        allow_unreachable_code: opt_flag_in(m, path, "allowUnreachableCode"@)->Ok_0,
        allow_unused_labels: opt_flag_in(m, path, "allowUnusedLabels"@)->Ok_0,
        assume_changes_only_affect_direct_dependencies: opt_flag_in(m, path, "assumeChangesOnlyAffectDirectDependencies"@)->Ok_0,
        charset: opt_text_in(m, path, "charset"@)->Ok_0,
        declaration_dir: opt_text_in(m, path, "declarationDir"@)->Ok_0,
        diagnostics: opt_flag_in(m, path, "diagnostics"@)->Ok_0,
        disable_referenced_project_load: opt_flag_in(m, path, "disableReferencedProjectLoad"@)->Ok_0,
        disable_size_limit: opt_flag_in(m, path, "disableSizeLimit"@)->Ok_0,
        disable_solution_searching: opt_flag_in(m, path, "disableSolutionSearching"@)->Ok_0,
        disable_source_of_project_reference_redirect: opt_flag_in(m, path, "disableSourceOfProjectReferenceRedirect"@)->Ok_0,
        emit_bom: opt_flag_in(m, path, "emitBOM"@)->Ok_0,
        emit_declaration_only: opt_flag_in(m, path, "emitDeclarationOnly"@)->Ok_0,
        explain_files: opt_flag_in(m, path, "explainFiles"@)->Ok_0,
        extended_diagnostics: opt_flag_in(m, path, "extendedDiagnostics"@)->Ok_0,
        force_consistent_casing_in_file_names: opt_flag_in(m, path, "forceConsistentCasingInFileNames"@)->Ok_0,
        generate_cpu_profile: opt_flag_in(m, path, "generateCpuProfile"@)->Ok_0,
        imports_not_used_as_values: opt_text_in(m, path, "importsNotUsedAsValues"@)->Ok_0,
        jsx_factory: opt_text_in(m, path, "jsxFactory"@)->Ok_0,
        jsx_fragment_factory: opt_text_in(m, path, "jsxFragmentFactory"@)->Ok_0,
        jsx_import_source: opt_text_in(m, path, "jsxImportSource"@)->Ok_0,
        keyof_strings_only: opt_flag_in(m, path, "keyofStringsOnly"@)->Ok_0,
        list_emitted_files: opt_flag_in(m, path, "listEmittedFiles"@)->Ok_0,
        list_files: opt_flag_in(m, path, "listFiles"@)->Ok_0,
        max_node_module_js_depth: opt_count_in(m, path, "maxNodeModuleJsDepth"@)->Ok_0,
        no_emit_helpers: opt_flag_in(m, path, "noEmitHelpers"@)->Ok_0,
        no_emit_on_error: opt_flag_in(m, path, "noEmitOnError"@)->Ok_0,
        no_error_truncation: opt_flag_in(m, path, "noErrorTruncation"@)->Ok_0,
        no_implicit_use_strict: opt_flag_in(m, path, "noImplicitUseStrict"@)->Ok_0,
        no_lib: opt_flag_in(m, path, "noLib"@)->Ok_0,
        no_resolve: opt_flag_in(m, path, "noResolve"@)->Ok_0,
        no_strict_generic_checks: opt_flag_in(m, path, "noStrictGenericChecks"@)->Ok_0,
        out: opt_text_in(m, path, "out"@)->Ok_0,
        preserve_const_enums: opt_flag_in(m, path, "preserveConstEnums"@)->Ok_0,
        react_namespace: opt_text_in(m, path, "reactNamespace"@)->Ok_0,
        resolve_json_module: opt_flag_in(m, path, "resolveJsonModule"@)->Ok_0,
        skip_default_lib_check: opt_flag_in(m, path, "skipDefaultLibCheck"@)->Ok_0,
        skip_lib_check: opt_flag_in(m, path, "skipLibCheck"@)->Ok_0,
        strip_internal: opt_flag_in(m, path, "stripInternal"@)->Ok_0,
        suppress_excess_property_errors: opt_flag_in(m, path, "suppressExcessPropertyErrors"@)->Ok_0,
        suppress_implicit_any_index_errors: opt_flag_in(m, path, "suppressImplicitAnyIndexErrors"@)->Ok_0,
        trace_resolution: opt_flag_in(m, path, "traceResolution"@)->Ok_0,
        use_define_for_class_fields: opt_flag_in(m, path, "useDefineForClassFields"@)->Ok_0,
        preserve_watch_output: opt_flag_in(m, path, "preserveWatchOutput"@)->Ok_0,
        pretty: opt_flag_in(m, path, "pretty"@)->Ok_0,
        fallback_polling: opt_text_in(m, path, "fallbackPolling"@)->Ok_0,
        watch_directory: opt_text_in(m, path, "watchDirectory"@)->Ok_0,
        watch_file: opt_text_in(m, path, "watchFile"@)->Ok_0,
    }
}

/// The compiler options that the members of an object give: the first
/// option in declared order that cannot be read gives the error.
pub open spec fn options_of_members(m: Members, path: Seq<char>) -> Result<
    CompilerOptionsModel,
    ParseErrorModel,
> {
    match options_failure(m, path) {
        Some(e) => Err(e),
        None => Ok(options_read(m, path)),
    }
}

/// The compiler options are read from an object.
pub open spec fn options_of(
    j: JsonModel,
    path: Seq<char>,
) -> Result<CompilerOptionsModel, ParseErrorModel> {
    match j {
        JsonModel::Object(m) => options_of_members(m, path),
        _ => Err(mismatch(path, seq![JsonKind::Object], j)),
    }
}

/// The members written for compiler options: the options that are set,
/// in declared order.
#[verifier::opaque]
pub open spec fn options_members(c: CompilerOptionsModel) -> Members {
    flag_field("allowJs"@, c.allow_js)
    + flag_field("checkJs"@, c.check_js)
    + flag_field("composite"@, c.composite)
    + flag_field("declaration"@, c.declaration)
    + flag_field("declarationMap"@, c.declaration_map)
    + flag_field("downlevelIteration"@, c.downlevel_iteration)
    + flag_field("importHelpers"@, c.import_helpers)
    + flag_field("incremental"@, c.incremental)
    + flag_field("isolatedModules"@, c.isolated_modules)
    + jsx_field("jsx"@, c.jsx)
    + libs_field("lib"@, c.lib)
    + module_field("module"@, c.module)
    + flag_field("noEmit"@, c.no_emit)
    + text_field("outDir"@, c.out_dir)
    + text_field("outFile"@, c.out_file)
    + flag_field("removeComments"@, c.remove_comments)
    + text_field("rootDir"@, c.root_dir)
    + flag_field("sourceMap"@, c.source_map)
    + target_field("target"@, c.target)
    + text_field("tsBuildInfoFile"@, c.ts_build_info_file)
    + flag_field("alwaysStrict"@, c.always_strict)
    + flag_field("noImplicitAny"@, c.no_implicit_any)
    + flag_field("noImplicitThis"@, c.no_implicit_this)
    + flag_field("strict"@, c.strict)
    + flag_field("strictBindCallApply"@, c.strict_bind_call_apply)
    + flag_field("strictFunctionTypes"@, c.strict_function_types)
    + flag_field("strictNullChecks"@, c.strict_null_checks)
    + flag_field("strictPropertyInitialization"@, c.strict_property_initialization)
    + flag_field("allowSyntheticDefaultImports"@, c.allow_synthetic_default_imports)
    + flag_field("allowUmdGlobalAccess"@, c.allow_umd_global_access)
    + text_field("baseUrl"@, c.base_url)
    + flag_field("esModuleInterop"@, c.es_module_interop)
    + resolution_field("moduleResolution"@, c.module_resolution)
    + paths_field("paths"@, c.paths)
    + flag_field("preserveSymlinks"@, c.preserve_symlinks)
    + opt_texts_field("rootDirs"@, c.root_dirs)
    + opt_texts_field("typeRoots"@, c.type_roots)
    + opt_texts_field("types"@, c.types)
    + flag_field("inlineSourceMap"@, c.inline_source_map)
    + flag_field("inlineSources"@, c.inline_sources)
    + text_field("mapRoot"@, c.map_root)
    + text_field("sourceRoot"@, c.source_root)
    + flag_field("noFallthroughCasesInSwitch"@, c.no_fallthrough_cases_in_switch)
    + flag_field("noImplicitReturns"@, c.no_implicit_returns)
    + flag_field("noPropertyAccessFromIndexSignature"@, c.no_property_access_from_index_signature)
    + flag_field("noUncheckedIndexedAccess"@, c.no_unchecked_indexed_access)
    + flag_field("noUnusedLocals"@, c.no_unused_locals)
    + flag_field("emitDecoratorMetadata"@, c.emit_decorator_metadata)
    + flag_field("experimentalDecorators"@, c.experimental_decorators)
    + flag_field("allowUnreachableCode"@, c.allow_unreachable_code)
    + flag_field("allowUnusedLabels"@, c.allow_unused_labels)
    + flag_field("assumeChangesOnlyAffectDirectDependencies"@, c.assume_changes_only_affect_direct_dependencies)
    + text_field("charset"@, c.charset)
    + text_field("declarationDir"@, c.declaration_dir)
    + flag_field("diagnostics"@, c.diagnostics)
    + flag_field("disableReferencedProjectLoad"@, c.disable_referenced_project_load)
    + flag_field("disableSizeLimit"@, c.disable_size_limit)
    + flag_field("disableSolutionSearching"@, c.disable_solution_searching)
    + flag_field("disableSourceOfProjectReferenceRedirect"@, c.disable_source_of_project_reference_redirect)
    + flag_field("emitBOM"@, c.emit_bom)
    + flag_field("emitDeclarationOnly"@, c.emit_declaration_only)
    + flag_field("explainFiles"@, c.explain_files)
    + flag_field("extendedDiagnostics"@, c.extended_diagnostics)
    + flag_field("forceConsistentCasingInFileNames"@, c.force_consistent_casing_in_file_names)
    + flag_field("generateCpuProfile"@, c.generate_cpu_profile)
    + text_field("importsNotUsedAsValues"@, c.imports_not_used_as_values)
    + text_field("jsxFactory"@, c.jsx_factory)
    + text_field("jsxFragmentFactory"@, c.jsx_fragment_factory)
    + text_field("jsxImportSource"@, c.jsx_import_source)
    + flag_field("keyofStringsOnly"@, c.keyof_strings_only)
    + flag_field("listEmittedFiles"@, c.list_emitted_files)
    + flag_field("listFiles"@, c.list_files)
    + count_field("maxNodeModuleJsDepth"@, c.max_node_module_js_depth)
    + flag_field("noEmitHelpers"@, c.no_emit_helpers)
    + flag_field("noEmitOnError"@, c.no_emit_on_error)
    + flag_field("noErrorTruncation"@, c.no_error_truncation)
    + flag_field("noImplicitUseStrict"@, c.no_implicit_use_strict)
    + flag_field("noLib"@, c.no_lib)
    + flag_field("noResolve"@, c.no_resolve)
    + flag_field("noStrictGenericChecks"@, c.no_strict_generic_checks)
    + text_field("out"@, c.out)
    + flag_field("preserveConstEnums"@, c.preserve_const_enums)
    + text_field("reactNamespace"@, c.react_namespace)
    + flag_field("resolveJsonModule"@, c.resolve_json_module)
    + flag_field("skipDefaultLibCheck"@, c.skip_default_lib_check)
    + flag_field("skipLibCheck"@, c.skip_lib_check)
    + flag_field("stripInternal"@, c.strip_internal)
    + flag_field("suppressExcessPropertyErrors"@, c.suppress_excess_property_errors)
    + flag_field("suppressImplicitAnyIndexErrors"@, c.suppress_implicit_any_index_errors)
    + flag_field("traceResolution"@, c.trace_resolution)
    + flag_field("useDefineForClassFields"@, c.use_define_for_class_fields)
    + flag_field("preserveWatchOutput"@, c.preserve_watch_output)
    + flag_field("pretty"@, c.pretty)
    + text_field("fallbackPolling"@, c.fallback_polling)
    + text_field("watchDirectory"@, c.watch_directory)
    + text_field("watchFile"@, c.watch_file)
}

/// The value written for compiler options.
pub open spec fn options_json(c: CompilerOptionsModel) -> JsonModel {
    object_json(options_members(c))
}

impl CompilerOptionsModel {
    /// The mapping of paths, where set, holds no pattern twice.
    pub open spec fn wf(self) -> bool {
        self.paths is Some ==> distinct_names(self.paths->0)
    }

    /// The options of which none is set.
    pub open spec fn unset() -> CompilerOptionsModel {
        CompilerOptionsModel {
            allow_js: None,
            check_js: None,
            composite: None,
            declaration: None,
            declaration_map: None,
            downlevel_iteration: None,
            import_helpers: None,
            incremental: None,
            isolated_modules: None,
            jsx: None,
            lib: None,
            module: None,
            no_emit: None,
            out_dir: None,
            out_file: None,
            remove_comments: None,
            root_dir: None,
            source_map: None,
            target: None,
            ts_build_info_file: None,
            always_strict: None,
            no_implicit_any: None,
            no_implicit_this: None,
            strict: None,
            strict_bind_call_apply: None,
            strict_function_types: None,
            strict_null_checks: None,
            strict_property_initialization: None,
            allow_synthetic_default_imports: None,
            allow_umd_global_access: None,
            base_url: None,
            es_module_interop: None,
            module_resolution: None,
            paths: None,
            preserve_symlinks: None,
            root_dirs: None,
            type_roots: None,
            types: None,
            inline_source_map: None,
            inline_sources: None,
            map_root: None,
            source_root: None,
            no_fallthrough_cases_in_switch: None,
            no_implicit_returns: None,
            no_property_access_from_index_signature: None,
            no_unchecked_indexed_access: None,
            no_unused_locals: None,
            emit_decorator_metadata: None,
            experimental_decorators: None,
            allow_unreachable_code: None,
            allow_unused_labels: None,
            assume_changes_only_affect_direct_dependencies: None,
            charset: None,
            declaration_dir: None,
            diagnostics: None,
            disable_referenced_project_load: None,
            disable_size_limit: None,
            disable_solution_searching: None,
            disable_source_of_project_reference_redirect: None,
            emit_bom: None,
            emit_declaration_only: None,
            explain_files: None,
            extended_diagnostics: None,
            force_consistent_casing_in_file_names: None,
            generate_cpu_profile: None,
            imports_not_used_as_values: None,
            jsx_factory: None,
            jsx_fragment_factory: None,
            jsx_import_source: None,
            keyof_strings_only: None,
            list_emitted_files: None,
            list_files: None,
            max_node_module_js_depth: None,
            no_emit_helpers: None,
            no_emit_on_error: None,
            no_error_truncation: None,
            no_implicit_use_strict: None,
            no_lib: None,
            no_resolve: None,
            no_strict_generic_checks: None,
            out: None,
            preserve_const_enums: None,
            react_namespace: None,
            resolve_json_module: None,
            skip_default_lib_check: None,
            skip_lib_check: None,
            strip_internal: None,
            suppress_excess_property_errors: None,
            suppress_implicit_any_index_errors: None,
            trace_resolution: None,
            use_define_for_class_fields: None,
            preserve_watch_output: None,
            pretty: None,
            fallback_polling: None,
            watch_directory: None,
            watch_file: None,
        }
    }
}

/// Reads the project options into `options`, up to the first that cannot be read.
pub(crate) fn read_project(
    entries: &Vec<(&String, &Value)>,
    path: &str,
    options: &mut CompilerOptions,
) -> (r: Result<(), ParseError>)
    ensures
        match r {
            Ok(_) => project_failure(borrowed_model(entries@), path@) is None && final(options).deep_view() == (
            CompilerOptionsModel {
                allow_js: options_read(borrowed_model(entries@), path@).allow_js,
                check_js: options_read(borrowed_model(entries@), path@).check_js,
                composite: options_read(borrowed_model(entries@), path@).composite,
                declaration: options_read(borrowed_model(entries@), path@).declaration,
                declaration_map: options_read(borrowed_model(entries@), path@).declaration_map,
                downlevel_iteration: options_read(borrowed_model(entries@), path@).downlevel_iteration,
                import_helpers: options_read(borrowed_model(entries@), path@).import_helpers,
                incremental: options_read(borrowed_model(entries@), path@).incremental,
                isolated_modules: options_read(borrowed_model(entries@), path@).isolated_modules,
                jsx: options_read(borrowed_model(entries@), path@).jsx,
                lib: options_read(borrowed_model(entries@), path@).lib,
                module: options_read(borrowed_model(entries@), path@).module,
                no_emit: options_read(borrowed_model(entries@), path@).no_emit,
                out_dir: options_read(borrowed_model(entries@), path@).out_dir,
                out_file: options_read(borrowed_model(entries@), path@).out_file,
                remove_comments: options_read(borrowed_model(entries@), path@).remove_comments,
                root_dir: options_read(borrowed_model(entries@), path@).root_dir,
                source_map: options_read(borrowed_model(entries@), path@).source_map,
                target: options_read(borrowed_model(entries@), path@).target,
                ts_build_info_file: options_read(borrowed_model(entries@), path@).ts_build_info_file,
                ..old(options).deep_view()
            }),
            Err(e) => project_failure(borrowed_model(entries@), path@) == Some(e.deep_view()),
        },
{
    options.allow_js = opt_flag(entries, path, "allowJs")?;
    options.check_js = opt_flag(entries, path, "checkJs")?;
    options.composite = opt_flag(entries, path, "composite")?;
    options.declaration = opt_flag(entries, path, "declaration")?;
    options.declaration_map = opt_flag(entries, path, "declarationMap")?;
    options.downlevel_iteration = opt_flag(entries, path, "downlevelIteration")?;
    options.import_helpers = opt_flag(entries, path, "importHelpers")?;
    options.incremental = opt_flag(entries, path, "incremental")?;
    options.isolated_modules = opt_flag(entries, path, "isolatedModules")?;
    options.jsx = opt_jsx(entries, path, "jsx")?;
    options.lib = opt_libs(entries, path, "lib")?;
    options.module = opt_module(entries, path, "module")?;
    options.no_emit = opt_flag(entries, path, "noEmit")?;
    options.out_dir = opt_text(entries, path, "outDir")?;
    options.out_file = opt_text(entries, path, "outFile")?;
    options.remove_comments = opt_flag(entries, path, "removeComments")?;
    options.root_dir = opt_text(entries, path, "rootDir")?;
    options.source_map = opt_flag(entries, path, "sourceMap")?;
    options.target = opt_target(entries, path, "target")?;
    options.ts_build_info_file = opt_text(entries, path, "tsBuildInfoFile")?;
    Ok(())
}

/// Reads the strict checks into `options`, up to the first that cannot be read.
pub(crate) fn read_strict(
    entries: &Vec<(&String, &Value)>,
    path: &str,
    options: &mut CompilerOptions,
) -> (r: Result<(), ParseError>)
    ensures
        match r {
            Ok(_) => strict_failure(borrowed_model(entries@), path@) is None && final(options).deep_view() == (
            CompilerOptionsModel {
                always_strict: options_read(borrowed_model(entries@), path@).always_strict,
                no_implicit_any: options_read(borrowed_model(entries@), path@).no_implicit_any,
                no_implicit_this: options_read(borrowed_model(entries@), path@).no_implicit_this,
                strict: options_read(borrowed_model(entries@), path@).strict,
                strict_bind_call_apply: options_read(borrowed_model(entries@), path@).strict_bind_call_apply,
                strict_function_types: options_read(borrowed_model(entries@), path@).strict_function_types,
                strict_null_checks: options_read(borrowed_model(entries@), path@).strict_null_checks,
                strict_property_initialization: options_read(borrowed_model(entries@), path@).strict_property_initialization,
                ..old(options).deep_view()
            }),
            Err(e) => strict_failure(borrowed_model(entries@), path@) == Some(e.deep_view()),
        },
{
    options.always_strict = opt_flag(entries, path, "alwaysStrict")?;
    options.no_implicit_any = opt_flag(entries, path, "noImplicitAny")?;
    options.no_implicit_this = opt_flag(entries, path, "noImplicitThis")?;
    options.strict = opt_flag(entries, path, "strict")?;
    options.strict_bind_call_apply = opt_flag(entries, path, "strictBindCallApply")?;
    options.strict_function_types = opt_flag(entries, path, "strictFunctionTypes")?;
    options.strict_null_checks = opt_flag(entries, path, "strictNullChecks")?;
    options.strict_property_initialization = opt_flag(entries, path, "strictPropertyInitialization")?;
    Ok(())
}

/// Reads the options of module resolution into `options`, up to the first that cannot be read.
pub(crate) fn read_resolution(
    entries: &Vec<(&String, &Value)>,
    path: &str,
    options: &mut CompilerOptions,
) -> (r: Result<(), ParseError>)
    ensures
        match r {
            Ok(_) => resolution_failure(borrowed_model(entries@), path@) is None && final(options).deep_view() == (
            CompilerOptionsModel {
                allow_synthetic_default_imports: options_read(borrowed_model(entries@), path@).allow_synthetic_default_imports,
                allow_umd_global_access: options_read(borrowed_model(entries@), path@).allow_umd_global_access,
                base_url: options_read(borrowed_model(entries@), path@).base_url,
                es_module_interop: options_read(borrowed_model(entries@), path@).es_module_interop,
                module_resolution: options_read(borrowed_model(entries@), path@).module_resolution,
                paths: options_read(borrowed_model(entries@), path@).paths,
                preserve_symlinks: options_read(borrowed_model(entries@), path@).preserve_symlinks,
                root_dirs: options_read(borrowed_model(entries@), path@).root_dirs,
                type_roots: options_read(borrowed_model(entries@), path@).type_roots,
                types: options_read(borrowed_model(entries@), path@).types,
                ..old(options).deep_view()
            }),
            Err(e) => resolution_failure(borrowed_model(entries@), path@) == Some(e.deep_view()),
        },
        r is Ok ==> final(options).deep_view().wf(),
{
    options.allow_synthetic_default_imports = opt_flag(entries, path, "allowSyntheticDefaultImports")?;
    options.allow_umd_global_access = opt_flag(entries, path, "allowUmdGlobalAccess")?;
    options.base_url = opt_text(entries, path, "baseUrl")?;
    options.es_module_interop = opt_flag(entries, path, "esModuleInterop")?;
    options.module_resolution = opt_resolution(entries, path, "moduleResolution")?;
    options.paths = opt_paths(entries, path, "paths")?;
    options.preserve_symlinks = opt_flag(entries, path, "preserveSymlinks")?;
    options.root_dirs = opt_texts(entries, path, "rootDirs")?;
    options.type_roots = opt_texts(entries, path, "typeRoots")?;
    options.types = opt_texts(entries, path, "types")?;
    Ok(())
}

/// Reads the options of source maps into `options`, up to the first that cannot be read.
pub(crate) fn read_source_map(
    entries: &Vec<(&String, &Value)>,
    path: &str,
    options: &mut CompilerOptions,
) -> (r: Result<(), ParseError>)
    ensures
        match r {
            Ok(_) => source_map_failure(borrowed_model(entries@), path@) is None && final(options).deep_view() == (
            CompilerOptionsModel {
                inline_source_map: options_read(borrowed_model(entries@), path@).inline_source_map,
                inline_sources: options_read(borrowed_model(entries@), path@).inline_sources,
                map_root: options_read(borrowed_model(entries@), path@).map_root,
                source_root: options_read(borrowed_model(entries@), path@).source_root,
                ..old(options).deep_view()
            }),
            Err(e) => source_map_failure(borrowed_model(entries@), path@) == Some(e.deep_view()),
        },
{
    options.inline_source_map = opt_flag(entries, path, "inlineSourceMap")?;
    options.inline_sources = opt_flag(entries, path, "inlineSources")?;
    options.map_root = opt_text(entries, path, "mapRoot")?;
    options.source_root = opt_text(entries, path, "sourceRoot")?;
    Ok(())
}

/// Reads the linter checks into `options`, up to the first that cannot be read.
pub(crate) fn read_lint(
    entries: &Vec<(&String, &Value)>,
    path: &str,
    options: &mut CompilerOptions,
) -> (r: Result<(), ParseError>)
    ensures
        match r {
            Ok(_) => lint_failure(borrowed_model(entries@), path@) is None && final(options).deep_view() == (
            CompilerOptionsModel {
                no_fallthrough_cases_in_switch: options_read(borrowed_model(entries@), path@).no_fallthrough_cases_in_switch,
                no_implicit_returns: options_read(borrowed_model(entries@), path@).no_implicit_returns,
                no_property_access_from_index_signature: options_read(borrowed_model(entries@), path@).no_property_access_from_index_signature,
                no_unchecked_indexed_access: options_read(borrowed_model(entries@), path@).no_unchecked_indexed_access,
                no_unused_locals: options_read(borrowed_model(entries@), path@).no_unused_locals,
                ..old(options).deep_view()
            }),
            Err(e) => lint_failure(borrowed_model(entries@), path@) == Some(e.deep_view()),
        },
{
    options.no_fallthrough_cases_in_switch = opt_flag(entries, path, "noFallthroughCasesInSwitch")?;
    options.no_implicit_returns = opt_flag(entries, path, "noImplicitReturns")?;
    options.no_property_access_from_index_signature = opt_flag(entries, path, "noPropertyAccessFromIndexSignature")?;
    options.no_unchecked_indexed_access = opt_flag(entries, path, "noUncheckedIndexedAccess")?;
    options.no_unused_locals = opt_flag(entries, path, "noUnusedLocals")?;
    Ok(())
}

/// Reads the experimental options into `options`, up to the first that cannot be read.
pub(crate) fn read_experimental(
    entries: &Vec<(&String, &Value)>,
    path: &str,
    options: &mut CompilerOptions,
) -> (r: Result<(), ParseError>)
    ensures
        match r {
            Ok(_) => experimental_failure(borrowed_model(entries@), path@) is None && final(options).deep_view() == (
            CompilerOptionsModel {
                emit_decorator_metadata: options_read(borrowed_model(entries@), path@).emit_decorator_metadata,
                experimental_decorators: options_read(borrowed_model(entries@), path@).experimental_decorators,
                ..old(options).deep_view()
            }),
            Err(e) => experimental_failure(borrowed_model(entries@), path@) == Some(e.deep_view()),
        },
{
    options.emit_decorator_metadata = opt_flag(entries, path, "emitDecoratorMetadata")?;
    options.experimental_decorators = opt_flag(entries, path, "experimentalDecorators")?;
    Ok(())
}

/// Reads the advanced options into `options`, up to the first that cannot be read.
pub(crate) fn read_advanced(
    entries: &Vec<(&String, &Value)>,
    path: &str,
    options: &mut CompilerOptions,
) -> (r: Result<(), ParseError>)
    ensures
        match r {
            Ok(_) => advanced_failure(borrowed_model(entries@), path@) is None && final(options).deep_view() == (
            CompilerOptionsModel {
                allow_unreachable_code: options_read(borrowed_model(entries@), path@).allow_unreachable_code,
                allow_unused_labels: options_read(borrowed_model(entries@), path@).allow_unused_labels,
                assume_changes_only_affect_direct_dependencies: options_read(borrowed_model(entries@), path@).assume_changes_only_affect_direct_dependencies,
                charset: options_read(borrowed_model(entries@), path@).charset,
                declaration_dir: options_read(borrowed_model(entries@), path@).declaration_dir,
                diagnostics: options_read(borrowed_model(entries@), path@).diagnostics,
                disable_referenced_project_load: options_read(borrowed_model(entries@), path@).disable_referenced_project_load,
                disable_size_limit: options_read(borrowed_model(entries@), path@).disable_size_limit,
                disable_solution_searching: options_read(borrowed_model(entries@), path@).disable_solution_searching,
                disable_source_of_project_reference_redirect: options_read(borrowed_model(entries@), path@).disable_source_of_project_reference_redirect,
                emit_bom: options_read(borrowed_model(entries@), path@).emit_bom,
                emit_declaration_only: options_read(borrowed_model(entries@), path@).emit_declaration_only,
                explain_files: options_read(borrowed_model(entries@), path@).explain_files,
                extended_diagnostics: options_read(borrowed_model(entries@), path@).extended_diagnostics,
                force_consistent_casing_in_file_names: options_read(borrowed_model(entries@), path@).force_consistent_casing_in_file_names,
                generate_cpu_profile: options_read(borrowed_model(entries@), path@).generate_cpu_profile,
                imports_not_used_as_values: options_read(borrowed_model(entries@), path@).imports_not_used_as_values,
                jsx_factory: options_read(borrowed_model(entries@), path@).jsx_factory,
                jsx_fragment_factory: options_read(borrowed_model(entries@), path@).jsx_fragment_factory,
                jsx_import_source: options_read(borrowed_model(entries@), path@).jsx_import_source,
                ..old(options).deep_view()
            }),
            Err(e) => advanced_failure(borrowed_model(entries@), path@) == Some(e.deep_view()),
        },
{
    options.allow_unreachable_code = opt_flag(entries, path, "allowUnreachableCode")?;
    options.allow_unused_labels = opt_flag(entries, path, "allowUnusedLabels")?;
    options.assume_changes_only_affect_direct_dependencies = opt_flag(entries, path, "assumeChangesOnlyAffectDirectDependencies")?;
    options.charset = opt_text(entries, path, "charset")?;
    options.declaration_dir = opt_text(entries, path, "declarationDir")?;
    options.diagnostics = opt_flag(entries, path, "diagnostics")?;
    options.disable_referenced_project_load = opt_flag(entries, path, "disableReferencedProjectLoad")?;
    options.disable_size_limit = opt_flag(entries, path, "disableSizeLimit")?;
    options.disable_solution_searching = opt_flag(entries, path, "disableSolutionSearching")?;
    options.disable_source_of_project_reference_redirect = opt_flag(entries, path, "disableSourceOfProjectReferenceRedirect")?;
    options.emit_bom = opt_flag(entries, path, "emitBOM")?;
    options.emit_declaration_only = opt_flag(entries, path, "emitDeclarationOnly")?;
    options.explain_files = opt_flag(entries, path, "explainFiles")?;
    options.extended_diagnostics = opt_flag(entries, path, "extendedDiagnostics")?;
    options.force_consistent_casing_in_file_names = opt_flag(entries, path, "forceConsistentCasingInFileNames")?;
    options.generate_cpu_profile = opt_flag(entries, path, "generateCpuProfile")?;
    options.imports_not_used_as_values = opt_text(entries, path, "importsNotUsedAsValues")?;
    options.jsx_factory = opt_text(entries, path, "jsxFactory")?;
    options.jsx_fragment_factory = opt_text(entries, path, "jsxFragmentFactory")?;
    options.jsx_import_source = opt_text(entries, path, "jsxImportSource")?;
    Ok(())
}

/// Reads the further advanced options into `options`, up to the first that cannot be read.
pub(crate) fn read_further(
    entries: &Vec<(&String, &Value)>,
    path: &str,
    options: &mut CompilerOptions,
) -> (r: Result<(), ParseError>)
    ensures
        match r {
            Ok(_) => further_failure(borrowed_model(entries@), path@) is None && final(options).deep_view() == (
            CompilerOptionsModel {
                keyof_strings_only: options_read(borrowed_model(entries@), path@).keyof_strings_only,
                list_emitted_files: options_read(borrowed_model(entries@), path@).list_emitted_files,
                list_files: options_read(borrowed_model(entries@), path@).list_files,
                max_node_module_js_depth: options_read(borrowed_model(entries@), path@).max_node_module_js_depth,
                no_emit_helpers: options_read(borrowed_model(entries@), path@).no_emit_helpers,
                no_emit_on_error: options_read(borrowed_model(entries@), path@).no_emit_on_error,
                no_error_truncation: options_read(borrowed_model(entries@), path@).no_error_truncation,
                no_implicit_use_strict: options_read(borrowed_model(entries@), path@).no_implicit_use_strict,
                no_lib: options_read(borrowed_model(entries@), path@).no_lib,
                no_resolve: options_read(borrowed_model(entries@), path@).no_resolve,
                no_strict_generic_checks: options_read(borrowed_model(entries@), path@).no_strict_generic_checks,
                out: options_read(borrowed_model(entries@), path@).out,
                preserve_const_enums: options_read(borrowed_model(entries@), path@).preserve_const_enums,
                react_namespace: options_read(borrowed_model(entries@), path@).react_namespace,
                resolve_json_module: options_read(borrowed_model(entries@), path@).resolve_json_module,
                skip_default_lib_check: options_read(borrowed_model(entries@), path@).skip_default_lib_check,
                skip_lib_check: options_read(borrowed_model(entries@), path@).skip_lib_check,
                strip_internal: options_read(borrowed_model(entries@), path@).strip_internal,
                suppress_excess_property_errors: options_read(borrowed_model(entries@), path@).suppress_excess_property_errors,
                suppress_implicit_any_index_errors: options_read(borrowed_model(entries@), path@).suppress_implicit_any_index_errors,
                trace_resolution: options_read(borrowed_model(entries@), path@).trace_resolution,
                use_define_for_class_fields: options_read(borrowed_model(entries@), path@).use_define_for_class_fields,
                ..old(options).deep_view()
            }),
            Err(e) => further_failure(borrowed_model(entries@), path@) == Some(e.deep_view()),
        },
{
    options.keyof_strings_only = opt_flag(entries, path, "keyofStringsOnly")?;
    options.list_emitted_files = opt_flag(entries, path, "listEmittedFiles")?;
    options.list_files = opt_flag(entries, path, "listFiles")?;
    options.max_node_module_js_depth = opt_count(entries, path, "maxNodeModuleJsDepth")?;
    options.no_emit_helpers = opt_flag(entries, path, "noEmitHelpers")?;
    options.no_emit_on_error = opt_flag(entries, path, "noEmitOnError")?;
    options.no_error_truncation = opt_flag(entries, path, "noErrorTruncation")?;
    options.no_implicit_use_strict = opt_flag(entries, path, "noImplicitUseStrict")?;
    options.no_lib = opt_flag(entries, path, "noLib")?;
    options.no_resolve = opt_flag(entries, path, "noResolve")?;
    options.no_strict_generic_checks = opt_flag(entries, path, "noStrictGenericChecks")?;
    options.out = opt_text(entries, path, "out")?;
    options.preserve_const_enums = opt_flag(entries, path, "preserveConstEnums")?;
    options.react_namespace = opt_text(entries, path, "reactNamespace")?;
    options.resolve_json_module = opt_flag(entries, path, "resolveJsonModule")?;
    options.skip_default_lib_check = opt_flag(entries, path, "skipDefaultLibCheck")?;
    options.skip_lib_check = opt_flag(entries, path, "skipLibCheck")?;
    options.strip_internal = opt_flag(entries, path, "stripInternal")?;
    options.suppress_excess_property_errors = opt_flag(entries, path, "suppressExcessPropertyErrors")?;
    options.suppress_implicit_any_index_errors = opt_flag(entries, path, "suppressImplicitAnyIndexErrors")?;
    options.trace_resolution = opt_flag(entries, path, "traceResolution")?;
    options.use_define_for_class_fields = opt_flag(entries, path, "useDefineForClassFields")?;
    Ok(())
}

/// Reads the options of the command line and of watching into `options`, up to the first that cannot be read.
pub(crate) fn read_watch(
    entries: &Vec<(&String, &Value)>,
    path: &str,
    options: &mut CompilerOptions,
) -> (r: Result<(), ParseError>)
    ensures
        match r {
            Ok(_) => watch_failure(borrowed_model(entries@), path@) is None && final(options).deep_view() == (
            CompilerOptionsModel {
                preserve_watch_output: options_read(borrowed_model(entries@), path@).preserve_watch_output,
                pretty: options_read(borrowed_model(entries@), path@).pretty,
                fallback_polling: options_read(borrowed_model(entries@), path@).fallback_polling,
                watch_directory: options_read(borrowed_model(entries@), path@).watch_directory,
                watch_file: options_read(borrowed_model(entries@), path@).watch_file,
                ..old(options).deep_view()
            }),
            Err(e) => watch_failure(borrowed_model(entries@), path@) == Some(e.deep_view()),
        },
{
    options.preserve_watch_output = opt_flag(entries, path, "preserveWatchOutput")?;
    options.pretty = opt_flag(entries, path, "pretty")?;
    options.fallback_polling = opt_text(entries, path, "fallbackPolling")?;
    options.watch_directory = opt_text(entries, path, "watchDirectory")?;
    options.watch_file = opt_text(entries, path, "watchFile")?;
    Ok(())
}

impl CompilerOptions {
    /// The options of which none is set.
    pub fn unset() -> (r: CompilerOptions)
        ensures
            r.deep_view() == CompilerOptionsModel::unset(),
    {
        CompilerOptions {
            allow_js: None,
            check_js: None,
            composite: None,
            declaration: None,
            declaration_map: None,
            downlevel_iteration: None,
            import_helpers: None,
            incremental: None,
            isolated_modules: None,
            jsx: None,
            lib: None,
            module: None,
            no_emit: None,
            out_dir: None,
            out_file: None,
            remove_comments: None,
            root_dir: None,
            source_map: None,
            target: None,
            ts_build_info_file: None,
            always_strict: None,
            no_implicit_any: None,
            no_implicit_this: None,
            strict: None,
            strict_bind_call_apply: None,
            strict_function_types: None,
            strict_null_checks: None,
            strict_property_initialization: None,
            allow_synthetic_default_imports: None,
            allow_umd_global_access: None,
            base_url: None,
            es_module_interop: None,
            module_resolution: None,
            paths: None,
            preserve_symlinks: None,
            root_dirs: None,
            type_roots: None,
            types: None,
            inline_source_map: None,
            inline_sources: None,
            map_root: None,
            source_root: None,
            no_fallthrough_cases_in_switch: None,
            no_implicit_returns: None,
            no_property_access_from_index_signature: None,
            no_unchecked_indexed_access: None,
            no_unused_locals: None,
            emit_decorator_metadata: None,
            experimental_decorators: None,
            allow_unreachable_code: None,
            allow_unused_labels: None,
            assume_changes_only_affect_direct_dependencies: None,
            charset: None,
            declaration_dir: None,
            diagnostics: None,
            disable_referenced_project_load: None,
            disable_size_limit: None,
            disable_solution_searching: None,
            disable_source_of_project_reference_redirect: None,
            emit_bom: None,
            emit_declaration_only: None,
            explain_files: None,
            extended_diagnostics: None,
            force_consistent_casing_in_file_names: None,
            generate_cpu_profile: None,
            imports_not_used_as_values: None,
            jsx_factory: None,
            jsx_fragment_factory: None,
            jsx_import_source: None,
            keyof_strings_only: None,
            list_emitted_files: None,
            list_files: None,
            max_node_module_js_depth: None,
            no_emit_helpers: None,
            no_emit_on_error: None,
            no_error_truncation: None,
            no_implicit_use_strict: None,
            no_lib: None,
            no_resolve: None,
            no_strict_generic_checks: None,
            out: None,
            preserve_const_enums: None,
            react_namespace: None,
            resolve_json_module: None,
            skip_default_lib_check: None,
            skip_lib_check: None,
            strip_internal: None,
            suppress_excess_property_errors: None,
            suppress_implicit_any_index_errors: None,
            trace_resolution: None,
            use_define_for_class_fields: None,
            preserve_watch_output: None,
            pretty: None,
            fallback_polling: None,
            watch_directory: None,
            watch_file: None,
        }
    }

    /// Reads the compiler options from the value at `path`.
    pub fn from_value(v: &Value, path: &str) -> (r: Result<CompilerOptions, ParseError>)
        ensures
            outcome(r) == options_of(value_model(*v), path@),
            r is Ok ==> r->Ok_0.deep_view().wf(),
    {
        let entries = match members(v) {
            Some(entries) => entries,
            None => {
                return Err(shape_error(path.to_owned(), JsonKind::Object, v));
            },
        };
        let mut options = CompilerOptions::unset();
        read_project(&entries, path, &mut options)?;
        read_strict(&entries, path, &mut options)?;
        read_resolution(&entries, path, &mut options)?;
        read_source_map(&entries, path, &mut options)?;
        read_lint(&entries, path, &mut options)?;
        read_experimental(&entries, path, &mut options)?;
        read_advanced(&entries, path, &mut options)?;
        read_further(&entries, path, &mut options)?;
        read_watch(&entries, path, &mut options)?;
        Ok(options)
    }

    /// Writes the compiler options as an object that holds the options
    /// that are set, in declared order.
    pub fn to_value(&self) -> (r: Value)
        ensures
            value_model(r) == options_json(self.deep_view()),
    {
        let mut entries: Vec<(String, Value)> = Vec::new();
        assert(members_model(entries@) =~= Seq::empty());
        put_flag(&mut entries, "allowJs", &self.allow_js);
        put_flag(&mut entries, "checkJs", &self.check_js);
        put_flag(&mut entries, "composite", &self.composite);
        put_flag(&mut entries, "declaration", &self.declaration);
        put_flag(&mut entries, "declarationMap", &self.declaration_map);
        put_flag(&mut entries, "downlevelIteration", &self.downlevel_iteration);
        put_flag(&mut entries, "importHelpers", &self.import_helpers);
        put_flag(&mut entries, "incremental", &self.incremental);
        put_flag(&mut entries, "isolatedModules", &self.isolated_modules);
        put_jsx(&mut entries, "jsx", &self.jsx);
        put_libs(&mut entries, "lib", &self.lib);
        put_module(&mut entries, "module", &self.module);
        put_flag(&mut entries, "noEmit", &self.no_emit);
        put_text(&mut entries, "outDir", &self.out_dir);
        put_text(&mut entries, "outFile", &self.out_file);
        put_flag(&mut entries, "removeComments", &self.remove_comments);
        put_text(&mut entries, "rootDir", &self.root_dir);
        put_flag(&mut entries, "sourceMap", &self.source_map);
        put_target(&mut entries, "target", &self.target);
        put_text(&mut entries, "tsBuildInfoFile", &self.ts_build_info_file);
        put_flag(&mut entries, "alwaysStrict", &self.always_strict);
        put_flag(&mut entries, "noImplicitAny", &self.no_implicit_any);
        put_flag(&mut entries, "noImplicitThis", &self.no_implicit_this);
        put_flag(&mut entries, "strict", &self.strict);
        put_flag(&mut entries, "strictBindCallApply", &self.strict_bind_call_apply);
        put_flag(&mut entries, "strictFunctionTypes", &self.strict_function_types);
        put_flag(&mut entries, "strictNullChecks", &self.strict_null_checks);
        put_flag(&mut entries, "strictPropertyInitialization", &self.strict_property_initialization);
        put_flag(&mut entries, "allowSyntheticDefaultImports", &self.allow_synthetic_default_imports);
        put_flag(&mut entries, "allowUmdGlobalAccess", &self.allow_umd_global_access);
        put_text(&mut entries, "baseUrl", &self.base_url);
        put_flag(&mut entries, "esModuleInterop", &self.es_module_interop);
        put_resolution(&mut entries, "moduleResolution", &self.module_resolution);
        put_paths(&mut entries, "paths", &self.paths);
        put_flag(&mut entries, "preserveSymlinks", &self.preserve_symlinks);
        put_opt_texts(&mut entries, "rootDirs", &self.root_dirs);
        put_opt_texts(&mut entries, "typeRoots", &self.type_roots);
        put_opt_texts(&mut entries, "types", &self.types);
        put_flag(&mut entries, "inlineSourceMap", &self.inline_source_map);
        put_flag(&mut entries, "inlineSources", &self.inline_sources);
        put_text(&mut entries, "mapRoot", &self.map_root);
        put_text(&mut entries, "sourceRoot", &self.source_root);
        put_flag(&mut entries, "noFallthroughCasesInSwitch", &self.no_fallthrough_cases_in_switch);
        put_flag(&mut entries, "noImplicitReturns", &self.no_implicit_returns);
        put_flag(&mut entries, "noPropertyAccessFromIndexSignature", &self.no_property_access_from_index_signature);
        put_flag(&mut entries, "noUncheckedIndexedAccess", &self.no_unchecked_indexed_access);
        put_flag(&mut entries, "noUnusedLocals", &self.no_unused_locals);
        put_flag(&mut entries, "emitDecoratorMetadata", &self.emit_decorator_metadata);
        put_flag(&mut entries, "experimentalDecorators", &self.experimental_decorators);
        put_flag(&mut entries, "allowUnreachableCode", &self.allow_unreachable_code);
        put_flag(&mut entries, "allowUnusedLabels", &self.allow_unused_labels);
        put_flag(&mut entries, "assumeChangesOnlyAffectDirectDependencies", &self.assume_changes_only_affect_direct_dependencies);
        put_text(&mut entries, "charset", &self.charset);
        put_text(&mut entries, "declarationDir", &self.declaration_dir);
        put_flag(&mut entries, "diagnostics", &self.diagnostics);
        put_flag(&mut entries, "disableReferencedProjectLoad", &self.disable_referenced_project_load);
        put_flag(&mut entries, "disableSizeLimit", &self.disable_size_limit);
        put_flag(&mut entries, "disableSolutionSearching", &self.disable_solution_searching);
        put_flag(&mut entries, "disableSourceOfProjectReferenceRedirect", &self.disable_source_of_project_reference_redirect);
        put_flag(&mut entries, "emitBOM", &self.emit_bom);
        put_flag(&mut entries, "emitDeclarationOnly", &self.emit_declaration_only);
        put_flag(&mut entries, "explainFiles", &self.explain_files);
        put_flag(&mut entries, "extendedDiagnostics", &self.extended_diagnostics);
        put_flag(&mut entries, "forceConsistentCasingInFileNames", &self.force_consistent_casing_in_file_names);
        put_flag(&mut entries, "generateCpuProfile", &self.generate_cpu_profile);
        put_text(&mut entries, "importsNotUsedAsValues", &self.imports_not_used_as_values);
        put_text(&mut entries, "jsxFactory", &self.jsx_factory);
        put_text(&mut entries, "jsxFragmentFactory", &self.jsx_fragment_factory);
        put_text(&mut entries, "jsxImportSource", &self.jsx_import_source);
        put_flag(&mut entries, "keyofStringsOnly", &self.keyof_strings_only);
        put_flag(&mut entries, "listEmittedFiles", &self.list_emitted_files);
        put_flag(&mut entries, "listFiles", &self.list_files);
        put_count(&mut entries, "maxNodeModuleJsDepth", &self.max_node_module_js_depth);
        put_flag(&mut entries, "noEmitHelpers", &self.no_emit_helpers);
        put_flag(&mut entries, "noEmitOnError", &self.no_emit_on_error);
        put_flag(&mut entries, "noErrorTruncation", &self.no_error_truncation);
        put_flag(&mut entries, "noImplicitUseStrict", &self.no_implicit_use_strict);
        put_flag(&mut entries, "noLib", &self.no_lib);
        put_flag(&mut entries, "noResolve", &self.no_resolve);
        put_flag(&mut entries, "noStrictGenericChecks", &self.no_strict_generic_checks);
        put_text(&mut entries, "out", &self.out);
        put_flag(&mut entries, "preserveConstEnums", &self.preserve_const_enums);
        put_text(&mut entries, "reactNamespace", &self.react_namespace);
        put_flag(&mut entries, "resolveJsonModule", &self.resolve_json_module);
        put_flag(&mut entries, "skipDefaultLibCheck", &self.skip_default_lib_check);
        put_flag(&mut entries, "skipLibCheck", &self.skip_lib_check);
        put_flag(&mut entries, "stripInternal", &self.strip_internal);
        put_flag(&mut entries, "suppressExcessPropertyErrors", &self.suppress_excess_property_errors);
        put_flag(&mut entries, "suppressImplicitAnyIndexErrors", &self.suppress_implicit_any_index_errors);
        put_flag(&mut entries, "traceResolution", &self.trace_resolution);
        put_flag(&mut entries, "useDefineForClassFields", &self.use_define_for_class_fields);
        put_flag(&mut entries, "preserveWatchOutput", &self.preserve_watch_output);
        put_flag(&mut entries, "pretty", &self.pretty);
        put_text(&mut entries, "fallbackPolling", &self.fallback_polling);
        put_text(&mut entries, "watchDirectory", &self.watch_directory);
        put_text(&mut entries, "watchFile", &self.watch_file);
        proof {
            reveal(options_members);
        }
        assert(members_model(entries@) =~= options_members(self.deep_view()));
        object_value(entries)
    }
}

} // verus!
