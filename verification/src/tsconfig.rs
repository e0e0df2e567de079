//! The compiler project configuration.

use vstd::prelude::*;
use serde_json::Value;
use crate::error::{
    ParseError, ParseErrorModel, item_path, join_path, list_item_path, mismatch, outcome, path_of,
};
use crate::fields::{
    flag_field, object_json, opt_flag, opt_flag_in, opt_text, opt_text_in, opt_texts,
    opt_texts_field, opt_texts_in, optional, present, put, put_all, put_flag, put_opt_texts,
    put_text, req_flag, req_flag_in, req_text, req_text_in, shape_error, shape_error_of_two,
    text_field,
};
use crate::json::{
    JsonKind, JsonModel, Members, array_value, bool_value, borrowed_model, distinct_keys, find,
    items_model, kind, member, members, members_model, model_text, object_value, read_text,
    text_model, text_value, value_model, write_text,
};
use crate::members::{lemma_unknown_members, unknown_members, unknown_upto};
use crate::text::same_text;
pub use crate::names::{Jsx, Lib, Module, ModuleResolutionMode, Target};
pub use crate::options::CompilerOptions;
use crate::options::{CompilerOptionsModel, options_json, options_of};

verus! {

/// A reference to another project.
#[derive(Debug, Clone, PartialEq)]
pub struct Reference {
    /// The path of the referenced project.
    pub path: String,
    /// Whether the output of the referenced project comes before the
    /// output of this one.
    pub prepend: Option<bool>,
}

/// The mathematical model of a `Reference`.
pub struct ReferenceModel {
    pub path: Seq<char>,
    pub prepend: Option<bool>,
}

impl DeepView for Reference {
    type V = ReferenceModel;

    open spec fn deep_view(&self) -> ReferenceModel {
        ReferenceModel { path: self.path@, prepend: self.prepend }
    }
}

/// The project references setting: a boolean, or the list of the
/// referenced projects.
#[derive(Debug, Clone, PartialEq)]
pub enum References {
    Bool(bool),
    References(Vec<Reference>),
}

/// The mathematical model of a `References`.
pub enum ReferencesModel {
    Bool(bool),
    References(Seq<ReferenceModel>),
}

impl DeepView for References {
    type V = ReferencesModel;

    open spec fn deep_view(&self) -> ReferencesModel {
        match self {
            References::Bool(b) => ReferencesModel::Bool(*b),
            References::References(items) => ReferencesModel::References(items.deep_view()),
        }
    }
}

/// The type acquisition setting: a boolean, or an object that says which
/// packages to acquire types for.
#[derive(Debug, Clone, PartialEq)]
pub enum TypeAcquisition {
    Bool(bool),
    Object {
        enable: bool,
        includes: Option<Vec<String>>,
        exclude: Option<Vec<String>>,
        disable_filename_based_type_acquisition: Option<bool>,
    },
}

/// The mathematical model of a `TypeAcquisition`.
pub enum TypeAcquisitionModel {
    Bool(bool),
    Object {
        enable: bool,
        includes: Option<Seq<Seq<char>>>,
        exclude: Option<Seq<Seq<char>>>,
        disable_filename_based_type_acquisition: Option<bool>,
    },
}

impl DeepView for TypeAcquisition {
    type V = TypeAcquisitionModel;

    open spec fn deep_view(&self) -> TypeAcquisitionModel {
        match self {
            TypeAcquisition::Bool(b) => TypeAcquisitionModel::Bool(*b),
            TypeAcquisition::Object {
                enable,
                includes,
                exclude,
                disable_filename_based_type_acquisition,
            } => TypeAcquisitionModel::Object {
                enable: *enable,
                includes: includes.deep_view(),
                exclude: exclude.deep_view(),
                disable_filename_based_type_acquisition: *disable_filename_based_type_acquisition,
            },
        }
    }
}

/// A reference to a project is read from an object that gives its path.
pub open spec fn reference_of(
    j: JsonModel,
    path: Seq<char>,
) -> Result<ReferenceModel, ParseErrorModel> {
    match j {
        JsonModel::Object(m) => match req_text_in(m, path, "path"@) {
            Err(e) => Err(e),
            Ok(target) => match opt_flag_in(m, path, "prepend"@) {
                Err(e) => Err(e),
                Ok(prepend) => Ok(ReferenceModel { path: target, prepend }),
            },
        },
        _ => Err(mismatch(path, seq![JsonKind::Object], j)),
    }
}

/// The references read from the first `n` items, or the error of the first
/// item that gives one.
pub open spec fn references_upto(items: Seq<JsonModel>, path: Seq<char>, n: int) -> Result<
    Seq<ReferenceModel>,
    ParseErrorModel,
>
    decreases n,
{
    if n <= 0 {
        Ok(Seq::empty())
    } else {
        match references_upto(items, path, n - 1) {
            Err(e) => Err(e),
            Ok(front) => match reference_of(items[n - 1], item_path(path)) {
                Ok(x) => Ok(front.push(x)),
                Err(e) => Err(e),
            },
        }
    }
}

/// The references setting is the boolean variant where the value is a
/// boolean, and the list variant where it is an array.
pub open spec fn references_of(j: JsonModel, path: Seq<char>) -> Result<
    ReferencesModel,
    ParseErrorModel,
> {
    match j {
        JsonModel::Bool(b) => Ok(ReferencesModel::Bool(b)),
        JsonModel::Array(items) => match references_upto(items, path, items.len() as int) {
            Ok(list) => Ok(ReferencesModel::References(list)),
            Err(e) => Err(e),
        },
        _ => Err(mismatch(path, seq![JsonKind::Bool, JsonKind::Array], j)),
    }
}

/// The type acquisition setting is the boolean variant where the value is
/// a boolean, and the structured variant where it is an object.
pub open spec fn acquisition_of(j: JsonModel, path: Seq<char>) -> Result<
    TypeAcquisitionModel,
    ParseErrorModel,
> {
    match j {
        JsonModel::Bool(b) => Ok(TypeAcquisitionModel::Bool(b)),
        JsonModel::Object(m) => match req_flag_in(m, path, "enable"@) {
            Err(e) => Err(e),
            Ok(enable) => match opt_texts_in(m, path, "include"@) {
                Err(e) => Err(e),
                Ok(includes) => match opt_texts_in(m, path, "exclude"@) {
                    Err(e) => Err(e),
                    Ok(exclude) => match opt_flag_in(
                        m,
                        path,
                        "disableFilenameBasedTypeAcquisition"@,
                    ) {
                        Err(e) => Err(e),
                        Ok(disable) => Ok(
                            TypeAcquisitionModel::Object {
                                enable,
                                includes,
                                exclude,
                                disable_filename_based_type_acquisition: disable,
                            },
                        ),
                    },
                },
            },
        },
        _ => Err(mismatch(path, seq![JsonKind::Bool, JsonKind::Object], j)),
    }
}

/// The value written for a reference to a project.
pub open spec fn reference_json(r: ReferenceModel) -> JsonModel {
    object_json(text_field("path"@, Some(r.path)) + flag_field("prepend"@, r.prepend))
}

/// The value written for the references setting.
pub open spec fn references_json(r: ReferencesModel) -> JsonModel {
    match r {
        ReferencesModel::Bool(b) => JsonModel::Bool(b),
        ReferencesModel::References(items) => JsonModel::Array(
            Seq::new(items.len(), |i: int| reference_json(items[i])),
        ),
    }
}

/// The value written for the type acquisition setting.
pub open spec fn acquisition_json(a: TypeAcquisitionModel) -> JsonModel {
    match a {
        TypeAcquisitionModel::Bool(b) => JsonModel::Bool(b),
        TypeAcquisitionModel::Object {
            enable,
            includes,
            exclude,
            disable_filename_based_type_acquisition,
        } => object_json(
            flag_field("enable"@, Some(enable)) + opt_texts_field("include"@, includes)
                + opt_texts_field("exclude"@, exclude) + flag_field(
                "disableFilenameBasedTypeAcquisition"@,
                disable_filename_based_type_acquisition,
            ),
        ),
    }
}

impl Reference {
    /// Reads a reference to a project from the value at `path`.
    pub fn from_value(v: &Value, path: &str) -> (r: Result<Reference, ParseError>)
        ensures
            outcome(r) == reference_of(value_model(*v), path@),
    {
        let entries = match members(v) {
            Some(entries) => entries,
            None => {
                return Err(shape_error(path.to_owned(), JsonKind::Object, v));
            },
        };
        let target = req_text(&entries, path, "path")?;
        let prepend = opt_flag(&entries, path, "prepend")?;
        Ok(Reference { path: target, prepend })
    }

    /// Writes the reference as an object.
    pub fn to_value(&self) -> (r: Value)
        ensures
            value_model(r) == reference_json(self.deep_view()),
    {
        let mut entries: Vec<(String, Value)> = Vec::new();
        assert(members_model(entries@) =~= Seq::empty());
        put(&mut entries, "path", text_value(self.path.as_str()));
        put_flag(&mut entries, "prepend", &self.prepend);
        assert(members_model(entries@) =~= text_field("path"@, Some(self.path@)) + flag_field(
            "prepend"@,
            self.prepend,
        ));
        object_value(entries)
    }
}

/// Once an item has failed, reading further items gives the same error.
pub proof fn lemma_references_error_stays(items: Seq<JsonModel>, path: Seq<char>, k: int, n: int)
    requires
        k <= n,
        references_upto(items, path, k) is Err,
    ensures
        references_upto(items, path, n) == references_upto(items, path, k),
    decreases n - k,
{
    if k < n {
        lemma_references_error_stays(items, path, k, n - 1);
    }
}

impl References {
    /// Resolves the shape of the references setting by the kind of the
    /// value at `path`.
    pub fn from_value(v: &Value, path: &str) -> (r: Result<References, ParseError>)
        ensures
            outcome(r) == references_of(value_model(*v), path@),
    {
        match v.as_bool() {
            Some(b) => {
                return Ok(References::Bool(b));
            },
            None => {},
        }
        let items = match v.as_array() {
            Some(items) => items,
            None => {
                return Err(
                    shape_error_of_two(path.to_owned(), JsonKind::Bool, JsonKind::Array, v),
                );
            },
        };
        let ghost ms = items_model(items@);
        let each = list_item_path(path);
        let mut out: Vec<Reference> = Vec::new();
        let mut i: usize = 0;
        assert(out.deep_view() =~= Seq::<ReferenceModel>::empty());
        while i < items.len()
            invariant
                i <= items.len(),
                ms == items_model(items@),
                value_model(*v) == JsonModel::Array(ms),
                each@ == item_path(path@),
                references_upto(ms, path@, i as int) == Ok::<Seq<ReferenceModel>, ParseErrorModel>(
                    out.deep_view(),
                ),
            decreases items.len() - i,
        {
            let item = &items[i];
            assert(ms[i as int] == value_model(*item));
            match Reference::from_value(item, each.as_str()) {
                Ok(x) => {
                    let ghost before = out.deep_view();
                    out.push(x);
                    assert(out.deep_view() =~= before.push(x.deep_view()));
                },
                Err(e) => {
                    proof {
                        assert(ms.len() == items.len());
                        lemma_references_error_stays(ms, path@, i + 1, ms.len() as int);
                    }
                    return Err(e);
                },
            }
            i += 1;
        }
        Ok(References::References(out))
    }

    /// Writes the setting in the shape that it has.
    pub fn to_value(&self) -> (r: Value)
        ensures
            value_model(r) == references_json(self.deep_view()),
    {
        match self {
            References::Bool(b) => bool_value(*b),
            References::References(items) => {
                let mut out: Vec<Value> = Vec::new();
                let mut i: usize = 0;
                while i < items.len()
                    invariant
                        i <= items.len(),
                        out.len() == i,
                        forall|k: int|
                            0 <= k < i ==> value_model(#[trigger] out[k]) == reference_json(
                                items[k].deep_view(),
                            ),
                    decreases items.len() - i,
                {
                    out.push(items[i].to_value());
                    i += 1;
                }
                assert(items_model(out@) =~= references_json(self.deep_view())->Array_0);
                array_value(out)
            },
        }
    }
}

impl TypeAcquisition {
    /// Resolves the shape of the type acquisition setting by the kind of
    /// the value at `path`.
    pub fn from_value(v: &Value, path: &str) -> (r: Result<TypeAcquisition, ParseError>)
        ensures
            outcome(r) == acquisition_of(value_model(*v), path@),
    {
        match v.as_bool() {
            Some(b) => {
                return Ok(TypeAcquisition::Bool(b));
            },
            None => {},
        }
        let entries = match members(v) {
            Some(entries) => entries,
            None => {
                return Err(
                    shape_error_of_two(path.to_owned(), JsonKind::Bool, JsonKind::Object, v),
                );
            },
        };
        let enable = req_flag(&entries, path, "enable")?;
        let includes = opt_texts(&entries, path, "include")?;
        let exclude = opt_texts(&entries, path, "exclude")?;
        let disable = opt_flag(&entries, path, "disableFilenameBasedTypeAcquisition")?;
        Ok(
            TypeAcquisition::Object {
                enable,
                includes,
                exclude,
                disable_filename_based_type_acquisition: disable,
            },
        )
    }

    /// Writes the setting in the shape that it has.
    pub fn to_value(&self) -> (r: Value)
        ensures
            value_model(r) == acquisition_json(self.deep_view()),
    {
        match self {
            TypeAcquisition::Bool(b) => bool_value(*b),
            TypeAcquisition::Object {
                enable,
                includes,
                exclude,
                disable_filename_based_type_acquisition,
            } => {
                let mut entries: Vec<(String, Value)> = Vec::new();
                assert(members_model(entries@) =~= Seq::empty());
                put(&mut entries, "enable", bool_value(*enable));
                put_opt_texts(&mut entries, "include", includes);
                put_opt_texts(&mut entries, "exclude", exclude);
                put_flag(
                    &mut entries,
                    "disableFilenameBasedTypeAcquisition",
                    disable_filename_based_type_acquisition,
                );
                assert(members_model(entries@) =~= flag_field("enable"@, Some(*enable))
                    + opt_texts_field("include"@, includes.deep_view()) + opt_texts_field(
                    "exclude"@,
                    exclude.deep_view(),
                ) + flag_field(
                    "disableFilenameBasedTypeAcquisition"@,
                    *disable_filename_based_type_acquisition,
                ));
                object_value(entries)
            },
        }
    }
}

/// The member `key` of the object at `prefix`, read as the references setting that may be
/// unset.
#[verifier::opaque]
pub open spec fn opt_references_in(m: Members, prefix: Seq<char>, key: Seq<char>) -> Result<
    Option<ReferencesModel>,
    ParseErrorModel,
> {
    optional(member(m, key), references_of(present(member(m, key)), path_of(prefix, key)))
}

/// What is written under `key` for the references setting: nothing where it is unset.
pub open spec fn references_field(key: Seq<char>, value: Option<ReferencesModel>) -> Members {
    match value {
        Some(x) => seq![(key, references_json(x))],
        None => Seq::empty(),
    }
}

pub(crate) fn opt_references(
    entries: &Vec<(&String, &Value)>,
    prefix: &str,
    key: &str,
) -> (r: Result<
    Option<References>,
    ParseError,
>)
    ensures
        outcome(r) == opt_references_in(borrowed_model(entries@), prefix@, key@),
{
    proof {
        reveal(opt_references_in);
    }
    match find(entries, key) {
        Some(v) => {
            if kind(v) == JsonKind::Null {
                Ok(None)
            } else {
                match References::from_value(v, join_path(prefix, key).as_str()) {
                    Ok(x) => Ok(Some(x)),
                    Err(e) => Err(e),
                }
            }
        },
        None => Ok(None),
    }
}

pub(crate) fn put_references(
    entries: &mut Vec<(String, Value)>,
    key: &str,
    value: &Option<References>,
)
    ensures
        members_model(final(entries)@) == members_model(old(entries)@) + references_field(
            key@,
            value.deep_view(),
        ),
{
    match value {
        Some(x) => put(entries, key, x.to_value()),
        None => {
            assert(members_model(entries@) =~= members_model(entries@) + Seq::empty());
        },
    }
}

/// The member `key` of the object at `prefix`, read as the type acquisition setting that may be
/// unset.
#[verifier::opaque]
pub open spec fn opt_acquisition_in(m: Members, prefix: Seq<char>, key: Seq<char>) -> Result<
    Option<TypeAcquisitionModel>,
    ParseErrorModel,
> {
    optional(member(m, key), acquisition_of(present(member(m, key)), path_of(prefix, key)))
}

/// What is written under `key` for the type acquisition setting: nothing where it is unset.
pub open spec fn acquisition_field(key: Seq<char>, value: Option<TypeAcquisitionModel>) -> Members {
    match value {
        Some(x) => seq![(key, acquisition_json(x))],
        None => Seq::empty(),
    }
}

pub(crate) fn opt_acquisition(
    entries: &Vec<(&String, &Value)>,
    prefix: &str,
    key: &str,
) -> (r: Result<
    Option<TypeAcquisition>,
    ParseError,
>)
    ensures
        outcome(r) == opt_acquisition_in(borrowed_model(entries@), prefix@, key@),
{
    proof {
        reveal(opt_acquisition_in);
    }
    match find(entries, key) {
        Some(v) => {
            if kind(v) == JsonKind::Null {
                Ok(None)
            } else {
                match TypeAcquisition::from_value(v, join_path(prefix, key).as_str()) {
                    Ok(x) => Ok(Some(x)),
                    Err(e) => Err(e),
                }
            }
        },
        None => Ok(None),
    }
}

pub(crate) fn put_acquisition(
    entries: &mut Vec<(String, Value)>,
    key: &str,
    value: &Option<TypeAcquisition>,
)
    ensures
        members_model(final(entries)@) == members_model(old(entries)@) + acquisition_field(
            key@,
            value.deep_view(),
        ),
{
    match value {
        Some(x) => put(entries, key, x.to_value()),
        None => {
            assert(members_model(entries@) =~= members_model(entries@) + Seq::empty());
        },
    }
}

/// The member `key` of the object at `prefix`, read as compiler options that may be
/// unset.
#[verifier::opaque]
pub open spec fn opt_options_in(m: Members, prefix: Seq<char>, key: Seq<char>) -> Result<
    Option<CompilerOptionsModel>,
    ParseErrorModel,
> {
    optional(member(m, key), options_of(present(member(m, key)), path_of(prefix, key)))
}

/// What is written under `key` for compiler options: nothing where it is unset.
pub open spec fn options_field(key: Seq<char>, value: Option<CompilerOptionsModel>) -> Members {
    match value {
        Some(x) => seq![(key, options_json(x))],
        None => Seq::empty(),
    }
}

pub(crate) fn opt_options(entries: &Vec<(&String, &Value)>, prefix: &str, key: &str) -> (r: Result<
    Option<CompilerOptions>,
    ParseError,
>)
    ensures
        outcome(r) == opt_options_in(borrowed_model(entries@), prefix@, key@),
        r is Ok && r->Ok_0 is Some ==> r->Ok_0->0.deep_view().wf(),
{
    proof {
        reveal(opt_options_in);
    }
    match find(entries, key) {
        Some(v) => {
            if kind(v) == JsonKind::Null {
                Ok(None)
            } else {
                match CompilerOptions::from_value(v, join_path(prefix, key).as_str()) {
                    Ok(x) => Ok(Some(x)),
                    Err(e) => Err(e),
                }
            }
        },
        None => Ok(None),
    }
}

pub(crate) fn put_options(
    entries: &mut Vec<(String, Value)>,
    key: &str,
    value: &Option<CompilerOptions>,
)
    ensures
        members_model(final(entries)@) == members_model(old(entries)@) + options_field(
            key@,
            value.deep_view(),
        ),
{
    match value {
        Some(x) => put(entries, key, x.to_value()),
        None => {
            assert(members_model(entries@) =~= members_model(entries@) + Seq::empty());
        },
    }
}

/// A compiler project configuration.
#[derive(Debug, Clone, PartialEq)]
pub struct TsConfig {
    /// The patterns of the files to leave out.
    pub exclude: Option<Vec<String>>,
    /// The path of the configuration that this one extends.
    pub extends: Option<String>,
    /// The files of the project, one by one.
    pub files: Option<Vec<String>>,
    /// The patterns of the files of the project.
    pub includes: Option<Vec<String>>,
    /// The project references setting.
    pub references: Option<References>,
    /// The type acquisition setting.
    pub type_acquisition: Option<TypeAcquisition>,
    /// The compiler options.
    pub compiler_options: Option<CompilerOptions>,
    /// The members of the document that are no field of the configuration,
    /// in the order in which the document holds them.
    pub others: Vec<(String, Value)>,
}

/// The mathematical model of a `TsConfig`.
pub struct TsConfigModel {
    pub exclude: Option<Seq<Seq<char>>>,
    pub extends: Option<Seq<char>>,
    pub files: Option<Seq<Seq<char>>>,
    pub includes: Option<Seq<Seq<char>>>,
    pub references: Option<ReferencesModel>,
    pub type_acquisition: Option<TypeAcquisitionModel>,
    pub compiler_options: Option<CompilerOptionsModel>,
    pub others: Members,
}

impl DeepView for TsConfig {
    type V = TsConfigModel;

    open spec fn deep_view(&self) -> TsConfigModel {
        TsConfigModel {
            exclude: self.exclude.deep_view(),
            extends: self.extends.deep_view(),
            files: self.files.deep_view(),
            includes: self.includes.deep_view(),
            references: self.references.deep_view(),
            type_acquisition: self.type_acquisition.deep_view(),
            compiler_options: self.compiler_options.deep_view(),
            others: members_model(self.others@),
        }
    }
}

/// Whether a key names a field of the configuration.
pub open spec fn is_tsconfig_key(key: Seq<char>) -> bool {
    key == "exclude"@
    || key == "extends"@
    || key == "files"@
    || key == "include"@
    || key == "references"@
    || key == "typeAcquisition"@
    || key == "compilerOptions"@
}

/// The keys that name a field of the configuration.
pub open spec fn tsconfig_known() -> spec_fn(Seq<char>) -> bool {
    |key: Seq<char>| is_tsconfig_key(key)
}

/// The members that are no field of the configuration, in order.
pub open spec fn tsconfig_others_of(m: Members) -> Members {
    unknown_members(m, tsconfig_known())
}

/// The configuration that the members of a document give: each field is
/// read from the member with its key, the first field in declared order
/// that cannot be read gives the error, and the members that are no field
/// are kept as they are.
pub open spec fn tsconfig_of_members(m: Members) -> Result<TsConfigModel, ParseErrorModel> {
    let exclude = opt_texts_in(m, ""@, "exclude"@);
    let extends = opt_text_in(m, ""@, "extends"@);
    let files = opt_texts_in(m, ""@, "files"@);
    let includes = opt_texts_in(m, ""@, "include"@);
    let references = opt_references_in(m, ""@, "references"@);
    let type_acquisition = opt_acquisition_in(m, ""@, "typeAcquisition"@);
    let compiler_options = opt_options_in(m, ""@, "compilerOptions"@);
    if exclude is Err {
        Err(exclude->Err_0)
    } else if extends is Err {
        Err(extends->Err_0)
    } else if files is Err {
        Err(files->Err_0)
    } else if includes is Err {
        Err(includes->Err_0)
    } else if references is Err {
        Err(references->Err_0)
    } else if type_acquisition is Err {
        Err(type_acquisition->Err_0)
    } else if compiler_options is Err {
        Err(compiler_options->Err_0)
    } else {
        Ok(
            TsConfigModel {
                exclude: exclude->Ok_0,
                extends: extends->Ok_0,
                files: files->Ok_0,
                includes: includes->Ok_0,
                references: references->Ok_0,
                type_acquisition: type_acquisition->Ok_0,
                compiler_options: compiler_options->Ok_0,
                others: tsconfig_others_of(m),
            },
        )
    }
}

/// The configuration that a document gives: the document must be an
/// object.
pub open spec fn tsconfig_of_json(j: JsonModel) -> Result<TsConfigModel, ParseErrorModel> {
    match j {
        JsonModel::Object(m) => tsconfig_of_members(m),
        _ => Err(ParseErrorModel::NotAnObject),
    }
}

/// The members written for a configuration: the fields that are set, in
/// declared order, then the other members.
pub open spec fn tsconfig_members(c: TsConfigModel) -> Members {
    opt_texts_field("exclude"@, c.exclude)
    + text_field("extends"@, c.extends)
    + opt_texts_field("files"@, c.files)
    + opt_texts_field("include"@, c.includes)
    + references_field("references"@, c.references)
    + acquisition_field("typeAcquisition"@, c.type_acquisition)
    + options_field("compilerOptions"@, c.compiler_options)
    + c.others
}

/// The document written for a configuration.
pub open spec fn tsconfig_json(c: TsConfigModel) -> JsonModel {
    object_json(tsconfig_members(c))
}

impl TsConfigModel {
    /// The other members hold no key of a field of the configuration.
    pub open spec fn others_are_unknown(self) -> bool {
        forall|i: int| 0 <= i < self.others.len() ==> !is_tsconfig_key(#[trigger] self.others[i].0)
    }

    /// A configuration is well formed when its other members hold no key
    /// of a field and no key twice, and its compiler options, where set,
    /// are well formed.
    pub open spec fn wf(self) -> bool {
        &&& self.others_are_unknown()
        &&& distinct_keys(self.others)
        &&& self.compiler_options is Some ==> self.compiler_options->0.wf()
    }
}

/// Whether a key names a field of the configuration.
pub fn names_tsconfig_field(key: &str) -> (r: bool)
    ensures
        r == is_tsconfig_key(key@),
{
    same_text(key, "exclude") || same_text(key, "extends") || same_text(key, "files") || same_text(
        key,
        "include",
    ) || same_text(key, "references") || same_text(key, "typeAcquisition") || same_text(
        key,
        "compilerOptions",
    )
}

pub(crate) fn other_members(entries: &Vec<(&String, &Value)>) -> (r: Vec<(String, Value)>)
    ensures
        members_model(r@) == tsconfig_others_of(borrowed_model(entries@)),
{
    let ghost m = borrowed_model(entries@);
    let mut out: Vec<(String, Value)> = Vec::new();
    let mut i: usize = 0;
    assert(members_model(out@) =~= Seq::empty());
    while i < entries.len()
        invariant
            i <= entries.len(),
            m == borrowed_model(entries@),
            members_model(out@) == unknown_upto(m, tsconfig_known(), i as int),
        decreases entries.len() - i,
    {
        let name = entries[i].0;
        let item = entries[i].1;
        assert(m[i as int] == ((*name)@, value_model(*item)));
        if !names_tsconfig_field(name.as_str()) {
            let ghost before = members_model(out@);
            out.push((name.clone(), item.clone()));
            assert(members_model(out@) =~= before.push(((*name)@, value_model(*item))));
        }
        i += 1;
    }
    assert(m.len() == entries.len());
    out
}

impl TsConfig {
    /// Builds the configuration that a JSON document gives. The document
    /// must be an object; each field is resolved by the kind of the member
    /// with its key, and the members that are no field are kept.
    pub fn from_value(v: &Value) -> (r: Result<TsConfig, ParseError>)
        ensures
            outcome(r) == tsconfig_of_json(value_model(*v)),
            r is Ok ==> r->Ok_0.deep_view().wf(),
    {
        let entries = match members(v) {
            Some(entries) => entries,
            None => {
                return Err(ParseError::NotAnObject);
            },
        };
        let exclude = opt_texts(&entries, "", "exclude")?;
        let extends = opt_text(&entries, "", "extends")?;
        let files = opt_texts(&entries, "", "files")?;
        let includes = opt_texts(&entries, "", "include")?;
        let references = opt_references(&entries, "", "references")?;
        let type_acquisition = opt_acquisition(&entries, "", "typeAcquisition")?;
        let compiler_options = opt_options(&entries, "", "compilerOptions")?;
        let others = other_members(&entries);
        proof {
            lemma_unknown_members(borrowed_model(entries@), tsconfig_known());
        }
        Ok(
            TsConfig {
                exclude,
                extends,
                files,
                includes,
                references,
                type_acquisition,
                compiler_options,
                others,
            },
        )
    }

    /// Writes the configuration as a JSON document: the fields that are
    /// set in declared order, then the other members, each inserted into
    /// the object in turn.
    pub fn to_value(&self) -> (r: Value)
        ensures
            value_model(r) == tsconfig_json(self.deep_view()),
    {
        let mut entries: Vec<(String, Value)> = Vec::new();
        assert(members_model(entries@) =~= Seq::empty());
        put_opt_texts(&mut entries, "exclude", &self.exclude);
        put_text(&mut entries, "extends", &self.extends);
        put_opt_texts(&mut entries, "files", &self.files);
        put_opt_texts(&mut entries, "include", &self.includes);
        put_references(&mut entries, "references", &self.references);
        put_acquisition(&mut entries, "typeAcquisition", &self.type_acquisition);
        put_options(&mut entries, "compilerOptions", &self.compiler_options);
        put_all(&mut entries, &self.others);
        assert(members_model(entries@) =~= tsconfig_members(self.deep_view()));
        object_value(entries)
    }

    /// Builds the configuration from what the JSON reader made of a text:
    /// a value is read as a document, and an error of the reader is passed
    /// on as it is.
    pub fn from_reading(reading: Result<Value, serde_json::Error>) -> (r: Result<
        TsConfig,
        ParseError,
    >)
        ensures
            match reading {
                Ok(v) => outcome(r) == tsconfig_of_json(value_model(v)),
                Err(e) => r is Err && r->Err_0 == ParseError::MalformedJson(e),
            },
            r is Ok ==> r->Ok_0.deep_view().wf(),
    {
        match reading {
            Ok(v) => TsConfig::from_value(&v),
            Err(e) => Err(ParseError::MalformedJson(e)),
        }
    }

    /// Reads a configuration from JSON text: the text is handed to the
    /// JSON reader, and what it gives is read as a document.
    pub fn parse(text: &str) -> (r: Result<TsConfig, ParseError>)
        ensures
            match text_model(text@) {
                Some(j) => outcome(r) == tsconfig_of_json(j),
                None => r is Err && r->Err_0 is MalformedJson,
            },
            r is Ok ==> r->Ok_0.deep_view().wf(),
    {
        TsConfig::from_reading(read_text(text))
    }

    /// Writes the configuration as compact JSON text.
    pub fn serialize(&self) -> (r: String)
        ensures
            r@ == model_text(tsconfig_json(self.deep_view())),
    {
        write_text(&self.to_value())
    }
}

} // verus!
