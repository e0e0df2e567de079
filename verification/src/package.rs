//! The package manifest.

use vstd::prelude::*;
use serde_json::Value;
use crate::error::{
    ParseError, ParseErrorModel, item_path, join_path, list_item_path, mismatch, outcome, path_of,
};
use crate::fields::{
    defaulted, distinct_names, flag_field, object_json, opt_flag, opt_flag_in, opt_member, opt_text,
    opt_text_in, opt_text_map, opt_text_map_field, opt_text_map_in, optional, present, put, put_all,
    put_flag, put_opt_text_map, put_text, put_text_map, put_texts, req_text, req_text_in,
    shape_error, shape_error_of_two, text_field, text_map, text_map_field, text_map_in, texts,
    texts_at, texts_field, texts_in, texts_json, texts_of, texts_value,
};
use crate::json::{
    JsonKind, JsonModel, Members, array_value, borrowed_model, find, items_model, kind, member,
    members, members_model, model_text, object_value, read_text, text_model, text_value,
    value_model, write_text,
};
use crate::members::{lemma_unknown_members, unknown_members, unknown_upto};
use crate::text::same_text;

verus! {

/// An ordered map for `bin` entries.
pub type BinSet = Vec<(String, String)>;

/// An ordered map for `dependencies` entries.
pub type DepsSet = Vec<(String, String)>;

/// An ordered map for `engines` entries.
pub type EnginesSet = Vec<(String, String)>;

/// An ordered map for `scripts` entries.
pub type ScriptsSet = Vec<(String, String)>;

/// The model of an ordered map from names to texts.
pub type TextMap = Seq<(Seq<char>, Seq<char>)>;

/// A bug contacting form.
#[derive(Clone, Debug, Default, Eq, PartialEq)]
pub struct Bug {
    /// The email to use for contact.
    pub email: Option<String>,
    /// The url to use to submit bugs.
    pub url: Option<String>,
}

/// The mathematical model of a `Bug`.
pub struct BugModel {
    pub email: Option<Seq<char>>,
    pub url: Option<Seq<char>>,
}

impl DeepView for Bug {
    type V = BugModel;

    open spec fn deep_view(&self) -> BugModel {
        BugModel { email: self.email.deep_view(), url: self.url.deep_view() }
    }
}

/// A person.
#[derive(Clone, Debug, Default, Eq, PartialEq)]
pub struct Person {
    /// The name of a person.
    pub name: String,
    /// The email of a person.
    pub email: Option<String>,
    /// The homepage of the person.
    pub url: Option<String>,
}

/// The mathematical model of a `Person`.
pub struct PersonModel {
    pub name: Seq<char>,
    pub email: Option<Seq<char>>,
    pub url: Option<Seq<char>>,
}

impl DeepView for Person {
    type V = PersonModel;

    open spec fn deep_view(&self) -> PersonModel {
        PersonModel { name: self.name@, email: self.email.deep_view(), url: self.url.deep_view() }
    }
}

/// A reference to a person.
#[derive(Clone, Debug, Eq, PartialEq)]
pub enum PersonReference {
    /// A short reference, of the form
    /// `John Doe <john@doe.dev> (https://john.doe.dev)`.
    Short(String),
    /// A full reference, which names the parts one by one.
    Full(Person),
}

/// The mathematical model of a `PersonReference`.
pub enum PersonReferenceModel {
    Short(Seq<char>),
    Full(PersonModel),
}

impl DeepView for PersonReference {
    type V = PersonReferenceModel;

    open spec fn deep_view(&self) -> PersonReferenceModel {
        match self {
            PersonReference::Short(s) => PersonReferenceModel::Short(s@),
            PersonReference::Full(p) => PersonReferenceModel::Full(p.deep_view()),
        }
    }
}

/// A reference to a man page.
#[derive(Clone, Debug, Eq, PartialEq)]
pub enum ManReference {
    /// A single man page reference. Points to one single file.
    Single(String),
    /// Multiple man pages, can contain anything from zero to n.
    Multiple(Vec<String>),
}

/// The mathematical model of a `ManReference`.
pub enum ManReferenceModel {
    Single(Seq<char>),
    Multiple(Seq<Seq<char>>),
}

impl DeepView for ManReference {
    type V = ManReferenceModel;

    open spec fn deep_view(&self) -> ManReferenceModel {
        match self {
            ManReference::Single(s) => ManReferenceModel::Single(s@),
            ManReference::Multiple(items) => ManReferenceModel::Multiple(items.deep_view()),
        }
    }
}

/// A repository.
#[derive(Clone, Debug, Default, Eq, PartialEq)]
pub struct Repository {
    /// The version control system that the repository uses.
    pub kind: String,
    /// The url to the repository.
    pub url: String,
    /// The directory that the repository is in. Often used for monorepos.
    pub directory: Option<String>,
}

/// The mathematical model of a `Repository`.
pub struct RepositoryModel {
    pub kind: Seq<char>,
    pub url: Seq<char>,
    pub directory: Option<Seq<char>>,
}

impl DeepView for Repository {
    type V = RepositoryModel;

    open spec fn deep_view(&self) -> RepositoryModel {
        RepositoryModel {
            kind: self.kind@,
            url: self.url@,
            directory: self.directory.deep_view(),
        }
    }
}

/// A repository reference.
#[derive(Clone, Debug, Eq, PartialEq)]
pub enum RepositoryReference {
    /// A short reference to the repository, in the syntax that
    /// `npm install` accepts.
    Short(String),
    /// A full reference.
    Full(Repository),
}

/// The mathematical model of a `RepositoryReference`.
pub enum RepositoryReferenceModel {
    Short(Seq<char>),
    Full(RepositoryModel),
}

impl DeepView for RepositoryReference {
    type V = RepositoryReferenceModel;

    open spec fn deep_view(&self) -> RepositoryReferenceModel {
        match self {
            RepositoryReference::Short(s) => RepositoryReferenceModel::Short(s@),
            RepositoryReference::Full(r) => RepositoryReferenceModel::Full(r.deep_view()),
        }
    }
}

/// The settings of the pnpm package manager.
#[derive(Default, Debug, Clone, PartialEq)]
pub struct Pnpm {
    pub overrides: Option<Vec<(String, String)>>,
}

/// The mathematical model of a `Pnpm`.
pub struct PnpmModel {
    pub overrides: Option<TextMap>,
}

impl DeepView for Pnpm {
    type V = PnpmModel;

    open spec fn deep_view(&self) -> PnpmModel {
        PnpmModel { overrides: self.overrides.deep_view() }
    }
}

impl Pnpm {
    /// Whether no setting is set.
    pub fn is_empty(&self) -> (r: bool)
        ensures
            r == (self.overrides is None),
    {
        self.overrides.is_none()
    }
}

/// A bug contacting form is read from an object.
pub open spec fn bug_of(j: JsonModel, path: Seq<char>) -> Result<BugModel, ParseErrorModel> {
    match j {
        JsonModel::Object(m) => match opt_text_in(m, path, "email"@) {
            Err(e) => Err(e),
            Ok(email) => match opt_text_in(m, path, "url"@) {
                Err(e) => Err(e),
                Ok(url) => Ok(BugModel { email, url }),
            },
        },
        _ => Err(mismatch(path, seq![JsonKind::Object], j)),
    }
}

/// A person is read from an object that names the person.
pub open spec fn person_of(j: JsonModel, path: Seq<char>) -> Result<PersonModel, ParseErrorModel> {
    match j {
        JsonModel::Object(m) => match req_text_in(m, path, "name"@) {
            Err(e) => Err(e),
            Ok(name) => match opt_text_in(m, path, "email"@) {
                Err(e) => Err(e),
                Ok(email) => match opt_text_in(m, path, "url"@) {
                    Err(e) => Err(e),
                    Ok(url) => Ok(PersonModel { name, email, url }),
                },
            },
        },
        _ => Err(mismatch(path, seq![JsonKind::Object], j)),
    }
}

/// A reference to a person is short where the value is a string and full
/// where it is an object.
pub open spec fn person_ref_of(j: JsonModel, path: Seq<char>) -> Result<
    PersonReferenceModel,
    ParseErrorModel,
> {
    match j {
        JsonModel::String(s) => Ok(PersonReferenceModel::Short(s)),
        JsonModel::Object(_) => match person_of(j, path) {
            Ok(p) => Ok(PersonReferenceModel::Full(p)),
            Err(e) => Err(e),
        },
        _ => Err(mismatch(path, seq![JsonKind::String, JsonKind::Object], j)),
    }
}

/// The references read from the first `n` items, or the error of the first
/// item that gives one.
pub open spec fn people_upto(items: Seq<JsonModel>, path: Seq<char>, n: int) -> Result<
    Seq<PersonReferenceModel>,
    ParseErrorModel,
>
    decreases n,
{
    if n <= 0 {
        Ok(Seq::empty())
    } else {
        match people_upto(items, path, n - 1) {
            Err(e) => Err(e),
            Ok(front) => match person_ref_of(items[n - 1], item_path(path)) {
                Ok(p) => Ok(front.push(p)),
                Err(e) => Err(e),
            },
        }
    }
}

/// A list of references to persons is read from an array.
pub open spec fn people_of(j: JsonModel, path: Seq<char>) -> Result<
    Seq<PersonReferenceModel>,
    ParseErrorModel,
> {
    match j {
        JsonModel::Array(items) => people_upto(items, path, items.len() as int),
        _ => Err(mismatch(path, seq![JsonKind::Array], j)),
    }
}

/// A reference to man pages is single where the value is a string and
/// multiple where it is an array of strings.
pub open spec fn man_of(
    j: JsonModel,
    path: Seq<char>,
) -> Result<ManReferenceModel, ParseErrorModel> {
    match j {
        JsonModel::String(s) => Ok(ManReferenceModel::Single(s)),
        JsonModel::Array(_) => match texts_of(j, path) {
            Ok(items) => Ok(ManReferenceModel::Multiple(items)),
            Err(e) => Err(e),
        },
        _ => Err(mismatch(path, seq![JsonKind::String, JsonKind::Array], j)),
    }
}

/// A repository is read from an object that gives its type and its url.
pub open spec fn repository_of(j: JsonModel, path: Seq<char>) -> Result<
    RepositoryModel,
    ParseErrorModel,
> {
    match j {
        JsonModel::Object(m) => match req_text_in(m, path, "type"@) {
            Err(e) => Err(e),
            Ok(kind) => match req_text_in(m, path, "url"@) {
                Err(e) => Err(e),
                Ok(url) => match opt_text_in(m, path, "directory"@) {
                    Err(e) => Err(e),
                    Ok(directory) => Ok(RepositoryModel { kind, url, directory }),
                },
            },
        },
        _ => Err(mismatch(path, seq![JsonKind::Object], j)),
    }
}

/// A reference to a repository is short where the value is a string and
/// full where it is an object.
pub open spec fn repository_ref_of(j: JsonModel, path: Seq<char>) -> Result<
    RepositoryReferenceModel,
    ParseErrorModel,
> {
    match j {
        JsonModel::String(s) => Ok(RepositoryReferenceModel::Short(s)),
        JsonModel::Object(_) => match repository_of(j, path) {
            Ok(r) => Ok(RepositoryReferenceModel::Full(r)),
            Err(e) => Err(e),
        },
        _ => Err(mismatch(path, seq![JsonKind::String, JsonKind::Object], j)),
    }
}

/// The settings of pnpm are read from an object.
pub open spec fn pnpm_of(j: JsonModel, path: Seq<char>) -> Result<PnpmModel, ParseErrorModel> {
    match j {
        JsonModel::Object(m) => match opt_text_map_in(m, path, "overrides"@) {
            Err(e) => Err(e),
            Ok(overrides) => Ok(PnpmModel { overrides }),
        },
        _ => Err(mismatch(path, seq![JsonKind::Object], j)),
    }
}

/// The value written for a bug contacting form.
pub open spec fn bug_json(b: BugModel) -> JsonModel {
    object_json(text_field("email"@, b.email) + text_field("url"@, b.url))
}

/// The value written for a person.
pub open spec fn person_json(p: PersonModel) -> JsonModel {
    object_json(
        text_field("name"@, Some(p.name)) + text_field("email"@, p.email) + text_field("url"@, p.url),
    )
}

/// The value written for a reference to a person.
pub open spec fn person_ref_json(r: PersonReferenceModel) -> JsonModel {
    match r {
        PersonReferenceModel::Short(s) => JsonModel::String(s),
        PersonReferenceModel::Full(p) => person_json(p),
    }
}

/// The value written for a list of references to persons.
pub open spec fn people_json(people: Seq<PersonReferenceModel>) -> JsonModel {
    JsonModel::Array(Seq::new(people.len(), |i: int| person_ref_json(people[i])))
}

/// The value written for a reference to man pages.
pub open spec fn man_json(r: ManReferenceModel) -> JsonModel {
    match r {
        ManReferenceModel::Single(s) => JsonModel::String(s),
        ManReferenceModel::Multiple(items) => texts_json(items),
    }
}

/// The value written for a repository.
pub open spec fn repository_json(r: RepositoryModel) -> JsonModel {
    object_json(
        text_field("type"@, Some(r.kind)) + text_field("url"@, Some(r.url)) + text_field(
            "directory"@,
            r.directory,
        ),
    )
}

/// The value written for a reference to a repository.
pub open spec fn repository_ref_json(r: RepositoryReferenceModel) -> JsonModel {
    match r {
        RepositoryReferenceModel::Short(s) => JsonModel::String(s),
        RepositoryReferenceModel::Full(r) => repository_json(r),
    }
}

/// The value written for the settings of pnpm.
pub open spec fn pnpm_json(p: PnpmModel) -> JsonModel {
    object_json(opt_text_map_field("overrides"@, p.overrides))
}

impl Bug {
    /// Reads a bug contacting form from the value at `path`.
    pub fn from_value(v: &Value, path: &str) -> (r: Result<Bug, ParseError>)
        ensures
            outcome(r) == bug_of(value_model(*v), path@),
    {
        let entries = match members(v) {
            Some(entries) => entries,
            None => {
                return Err(shape_error(path.to_owned(), JsonKind::Object, v));
            },
        };
        let email = opt_text(&entries, path, "email")?;
        let url = opt_text(&entries, path, "url")?;
        Ok(Bug { email, url })
    }

    /// Writes the form as an object that holds the parts that are set.
    pub fn to_value(&self) -> (r: Value)
        ensures
            value_model(r) == bug_json(self.deep_view()),
    {
        let mut entries: Vec<(String, Value)> = Vec::new();
        assert(members_model(entries@) =~= Seq::empty());
        put_text(&mut entries, "email", &self.email);
        put_text(&mut entries, "url", &self.url);
        assert(members_model(entries@) =~= text_field("email"@, self.email.deep_view()) + text_field(
            "url"@,
            self.url.deep_view(),
        ));
        object_value(entries)
    }
}

impl Person {
    /// Reads a person from the value at `path`.
    pub fn from_value(v: &Value, path: &str) -> (r: Result<Person, ParseError>)
        ensures
            outcome(r) == person_of(value_model(*v), path@),
    {
        let entries = match members(v) {
            Some(entries) => entries,
            None => {
                return Err(shape_error(path.to_owned(), JsonKind::Object, v));
            },
        };
        let name = req_text(&entries, path, "name")?;
        let email = opt_text(&entries, path, "email")?;
        let url = opt_text(&entries, path, "url")?;
        Ok(Person { name, email, url })
    }

    /// Writes the person as an object.
    pub fn to_value(&self) -> (r: Value)
        ensures
            value_model(r) == person_json(self.deep_view()),
    {
        let mut entries: Vec<(String, Value)> = Vec::new();
        assert(members_model(entries@) =~= Seq::empty());
        put(&mut entries, "name", text_value(self.name.as_str()));
        put_text(&mut entries, "email", &self.email);
        put_text(&mut entries, "url", &self.url);
        assert(members_model(entries@) =~= text_field("name"@, Some(self.name@)) + text_field(
            "email"@,
            self.email.deep_view(),
        ) + text_field("url"@, self.url.deep_view()));
        object_value(entries)
    }
}

impl PersonReference {
    /// Resolves the shape of a reference to a person by the kind of the
    /// value at `path`.
    pub fn from_value(v: &Value, path: &str) -> (r: Result<PersonReference, ParseError>)
        ensures
            outcome(r) == person_ref_of(value_model(*v), path@),
    {
        match v.as_str() {
            Some(s) => Ok(PersonReference::Short(s.to_owned())),
            None => {
                if kind(v) == JsonKind::Object {
                    match Person::from_value(v, path) {
                        Ok(p) => Ok(PersonReference::Full(p)),
                        Err(e) => Err(e),
                    }
                } else {
                    Err(shape_error_of_two(path.to_owned(), JsonKind::String, JsonKind::Object, v))
                }
            },
        }
    }

    /// Writes the reference in the shape that it has.
    pub fn to_value(&self) -> (r: Value)
        ensures
            value_model(r) == person_ref_json(self.deep_view()),
    {
        match self {
            PersonReference::Short(s) => text_value(s.as_str()),
            PersonReference::Full(p) => p.to_value(),
        }
    }
}

/// Once an item has failed, reading further items gives the same error.
pub proof fn lemma_people_error_stays(items: Seq<JsonModel>, path: Seq<char>, k: int, n: int)
    requires
        k <= n,
        people_upto(items, path, k) is Err,
    ensures
        people_upto(items, path, n) == people_upto(items, path, k),
    decreases n - k,
{
    if k < n {
        lemma_people_error_stays(items, path, k, n - 1);
    }
}

pub(crate) fn people_at(v: &Value, path: &str) -> (r: Result<Vec<PersonReference>, ParseError>)
    ensures
        outcome(r) == people_of(value_model(*v), path@),
{
    let items = match v.as_array() {
        Some(items) => items,
        None => {
            return Err(shape_error(path.to_owned(), JsonKind::Array, v));
        },
    };
    let ghost ms = items_model(items@);
    let each = list_item_path(path);
    let mut out: Vec<PersonReference> = Vec::new();
    let mut i: usize = 0;
    assert(out.deep_view() =~= Seq::<PersonReferenceModel>::empty());
    while i < items.len()
        invariant
            i <= items.len(),
            ms == items_model(items@),
            value_model(*v) == JsonModel::Array(ms),
            each@ == item_path(path@),
            people_upto(ms, path@, i as int) == Ok::<Seq<PersonReferenceModel>, ParseErrorModel>(
                out.deep_view(),
            ),
        decreases items.len() - i,
    {
        let item = &items[i];
        assert(ms[i as int] == value_model(*item));
        match PersonReference::from_value(item, each.as_str()) {
            Ok(p) => {
                let ghost before = out.deep_view();
                out.push(p);
                assert(out.deep_view() =~= before.push(p.deep_view()));
            },
            Err(e) => {
                proof {
                    assert(ms.len() == items.len());
                    lemma_people_error_stays(ms, path@, i + 1, ms.len() as int);
                }
                return Err(e);
            },
        }
        i += 1;
    }
    Ok(out)
}

pub(crate) fn people_value(people: &Vec<PersonReference>) -> (r: Value)
    ensures
        value_model(r) == people_json(people.deep_view()),
{
    let mut out: Vec<Value> = Vec::new();
    let mut i: usize = 0;
    while i < people.len()
        invariant
            i <= people.len(),
            out.len() == i,
            forall|k: int|
                0 <= k < i ==> value_model(#[trigger] out[k]) == person_ref_json(
                    people[k].deep_view(),
                ),
        decreases people.len() - i,
    {
        out.push(people[i].to_value());
        i += 1;
    }
    assert(items_model(out@) =~= people_json(people.deep_view())->Array_0);
    array_value(out)
}

impl ManReference {
    /// Resolves the shape of a reference to man pages by the kind of the
    /// value at `path`.
    pub fn from_value(v: &Value, path: &str) -> (r: Result<ManReference, ParseError>)
        ensures
            outcome(r) == man_of(value_model(*v), path@),
    {
        match v.as_str() {
            Some(s) => Ok(ManReference::Single(s.to_owned())),
            None => {
                if kind(v) == JsonKind::Array {
                    proof {
                        reveal_strlit("");
                    }
                    match texts_at(v, "", path) {
                        Ok(items) => Ok(ManReference::Multiple(items)),
                        Err(e) => Err(e),
                    }
                } else {
                    Err(shape_error_of_two(path.to_owned(), JsonKind::String, JsonKind::Array, v))
                }
            },
        }
    }

    /// Writes the reference in the shape that it has.
    pub fn to_value(&self) -> (r: Value)
        ensures
            value_model(r) == man_json(self.deep_view()),
    {
        match self {
            ManReference::Single(s) => text_value(s.as_str()),
            ManReference::Multiple(items) => texts_value(items),
        }
    }
}

impl Repository {
    /// Reads a repository from the value at `path`.
    pub fn from_value(v: &Value, path: &str) -> (r: Result<Repository, ParseError>)
        ensures
            outcome(r) == repository_of(value_model(*v), path@),
    {
        let entries = match members(v) {
            Some(entries) => entries,
            None => {
                return Err(shape_error(path.to_owned(), JsonKind::Object, v));
            },
        };
        let kind = req_text(&entries, path, "type")?;
        let url = req_text(&entries, path, "url")?;
        let directory = opt_text(&entries, path, "directory")?;
        Ok(Repository { kind, url, directory })
    }

    /// Writes the repository as an object.
    pub fn to_value(&self) -> (r: Value)
        ensures
            value_model(r) == repository_json(self.deep_view()),
    {
        let mut entries: Vec<(String, Value)> = Vec::new();
        assert(members_model(entries@) =~= Seq::empty());
        put(&mut entries, "type", text_value(self.kind.as_str()));
        put(&mut entries, "url", text_value(self.url.as_str()));
        put_text(&mut entries, "directory", &self.directory);
        assert(members_model(entries@) =~= text_field("type"@, Some(self.kind@)) + text_field(
            "url"@,
            Some(self.url@),
        ) + text_field("directory"@, self.directory.deep_view()));
        object_value(entries)
    }
}

impl RepositoryReference {
    /// Resolves the shape of a reference to a repository by the kind of
    /// the value at `path`.
    pub fn from_value(v: &Value, path: &str) -> (r: Result<RepositoryReference, ParseError>)
        ensures
            outcome(r) == repository_ref_of(value_model(*v), path@),
    {
        match v.as_str() {
            Some(s) => Ok(RepositoryReference::Short(s.to_owned())),
            None => {
                if kind(v) == JsonKind::Object {
                    match Repository::from_value(v, path) {
                        Ok(p) => Ok(RepositoryReference::Full(p)),
                        Err(e) => Err(e),
                    }
                } else {
                    Err(shape_error_of_two(path.to_owned(), JsonKind::String, JsonKind::Object, v))
                }
            },
        }
    }

    /// Writes the reference in the shape that it has.
    pub fn to_value(&self) -> (r: Value)
        ensures
            value_model(r) == repository_ref_json(self.deep_view()),
    {
        match self {
            RepositoryReference::Short(s) => text_value(s.as_str()),
            RepositoryReference::Full(p) => p.to_value(),
        }
    }
}

impl Pnpm {
    /// Reads the settings of pnpm from the value at `path`.
    pub fn from_value(v: &Value, path: &str) -> (r: Result<Pnpm, ParseError>)
        ensures
            outcome(r) == pnpm_of(value_model(*v), path@),
            r is Ok && r->Ok_0.overrides is Some ==> distinct_names(
                r->Ok_0.overrides->0.deep_view(),
            ),
    {
        let entries = match members(v) {
            Some(entries) => entries,
            None => {
                return Err(shape_error(path.to_owned(), JsonKind::Object, v));
            },
        };
        let overrides = opt_text_map(&entries, path, "overrides")?;
        Ok(Pnpm { overrides })
    }

    /// Writes the settings as an object.
    pub fn to_value(&self) -> (r: Value)
        ensures
            value_model(r) == pnpm_json(self.deep_view()),
    {
        let mut entries: Vec<(String, Value)> = Vec::new();
        assert(members_model(entries@) =~= Seq::empty());
        put_opt_text_map(&mut entries, "overrides", &self.overrides);
        assert(members_model(entries@) =~= opt_text_map_field(
            "overrides"@,
            self.overrides.deep_view(),
        ));
        object_value(entries)
    }
}

/// The member `key` of the object at `prefix`, read as a bug contacting form that may be
/// unset.
#[verifier::opaque]
pub open spec fn opt_bug_in(m: Members, prefix: Seq<char>, key: Seq<char>) -> Result<
    Option<BugModel>,
    ParseErrorModel,
> {
    optional(member(m, key), bug_of(present(member(m, key)), path_of(prefix, key)))
}

/// The member `key` of the object at `prefix`, read as a reference to a person that may be
/// unset.
#[verifier::opaque]
pub open spec fn opt_person_ref_in(m: Members, prefix: Seq<char>, key: Seq<char>) -> Result<
    Option<PersonReferenceModel>,
    ParseErrorModel,
> {
    optional(member(m, key), person_ref_of(present(member(m, key)), path_of(prefix, key)))
}

/// The member `key` of the object at `prefix`, read as a reference to man pages that may be
/// unset.
#[verifier::opaque]
pub open spec fn opt_man_in(m: Members, prefix: Seq<char>, key: Seq<char>) -> Result<
    Option<ManReferenceModel>,
    ParseErrorModel,
> {
    optional(member(m, key), man_of(present(member(m, key)), path_of(prefix, key)))
}

/// The member `key` of the object at `prefix`, read as a reference to a repository that may be
/// unset.
#[verifier::opaque]
pub open spec fn opt_repository_ref_in(m: Members, prefix: Seq<char>, key: Seq<char>) -> Result<
    Option<RepositoryReferenceModel>,
    ParseErrorModel,
> {
    optional(member(m, key), repository_ref_of(present(member(m, key)), path_of(prefix, key)))
}

/// The member `key` of the object at `prefix`, read as the settings of pnpm that may be
/// unset.
#[verifier::opaque]
pub open spec fn opt_pnpm_in(m: Members, prefix: Seq<char>, key: Seq<char>) -> Result<
    Option<PnpmModel>,
    ParseErrorModel,
> {
    optional(member(m, key), pnpm_of(present(member(m, key)), path_of(prefix, key)))
}

/// The member `key` of the object at `prefix`, read as a list of references to persons that is empty
/// where the member is missing.
#[verifier::opaque]
pub open spec fn people_in(m: Members, prefix: Seq<char>, key: Seq<char>) -> Result<
    Seq<PersonReferenceModel>,
    ParseErrorModel,
> {
    defaulted(member(m, key), people_of(present(member(m, key)), path_of(prefix, key)), Seq::empty())
}

/// A free-form value is set to whatever the member holds, unless that is
/// null.
#[verifier::opaque]
pub open spec fn opt_value_in(m: Members, prefix: Seq<char>, key: Seq<char>) -> Result<
    Option<JsonModel>,
    ParseErrorModel,
> {
    optional(member(m, key), Ok(present(member(m, key))))
}

pub(crate) fn opt_bug(entries: &Vec<(&String, &Value)>, prefix: &str, key: &str) -> (r: Result<
    Option<Bug>,
    ParseError,
>)
    ensures
        outcome(r) == opt_bug_in(borrowed_model(entries@), prefix@, key@),
{
    proof {
        reveal(opt_bug_in);
    }
    match find(entries, key) {
        Some(v) => {
            if kind(v) == JsonKind::Null {
                Ok(None)
            } else {
                match Bug::from_value(v, join_path(prefix, key).as_str()) {
                    Ok(x) => Ok(Some(x)),
                    Err(e) => Err(e),
                }
            }
        },
        None => Ok(None),
    }
}

pub(crate) fn opt_person_ref(
    entries: &Vec<(&String, &Value)>,
    prefix: &str,
    key: &str,
) -> (r: Result<
    Option<PersonReference>,
    ParseError,
>)
    ensures
        outcome(r) == opt_person_ref_in(borrowed_model(entries@), prefix@, key@),
{
    proof {
        reveal(opt_person_ref_in);
    }
    match find(entries, key) {
        Some(v) => {
            if kind(v) == JsonKind::Null {
                Ok(None)
            } else {
                match PersonReference::from_value(v, join_path(prefix, key).as_str()) {
                    Ok(x) => Ok(Some(x)),
                    Err(e) => Err(e),
                }
            }
        },
        None => Ok(None),
    }
}

pub(crate) fn opt_man(entries: &Vec<(&String, &Value)>, prefix: &str, key: &str) -> (r: Result<
    Option<ManReference>,
    ParseError,
>)
    ensures
        outcome(r) == opt_man_in(borrowed_model(entries@), prefix@, key@),
{
    proof {
        reveal(opt_man_in);
    }
    match find(entries, key) {
        Some(v) => {
            if kind(v) == JsonKind::Null {
                Ok(None)
            } else {
                match ManReference::from_value(v, join_path(prefix, key).as_str()) {
                    Ok(x) => Ok(Some(x)),
                    Err(e) => Err(e),
                }
            }
        },
        None => Ok(None),
    }
}

pub(crate) fn opt_repository_ref(
    entries: &Vec<(&String, &Value)>,
    prefix: &str,
    key: &str,
) -> (r: Result<
    Option<RepositoryReference>,
    ParseError,
>)
    ensures
        outcome(r) == opt_repository_ref_in(borrowed_model(entries@), prefix@, key@),
{
    proof {
        reveal(opt_repository_ref_in);
    }
    match find(entries, key) {
        Some(v) => {
            if kind(v) == JsonKind::Null {
                Ok(None)
            } else {
                match RepositoryReference::from_value(v, join_path(prefix, key).as_str()) {
                    Ok(x) => Ok(Some(x)),
                    Err(e) => Err(e),
                }
            }
        },
        None => Ok(None),
    }
}

pub(crate) fn opt_pnpm(entries: &Vec<(&String, &Value)>, prefix: &str, key: &str) -> (r: Result<
    Option<Pnpm>,
    ParseError,
>)
    ensures
        outcome(r) == opt_pnpm_in(borrowed_model(entries@), prefix@, key@),
        r is Ok && r->Ok_0 is Some && r->Ok_0->0.overrides is Some ==> distinct_names(
            r->Ok_0->0.overrides->0.deep_view(),
        ),
{
    proof {
        reveal(opt_pnpm_in);
    }
    match find(entries, key) {
        Some(v) => {
            if kind(v) == JsonKind::Null {
                Ok(None)
            } else {
                match Pnpm::from_value(v, join_path(prefix, key).as_str()) {
                    Ok(x) => Ok(Some(x)),
                    Err(e) => Err(e),
                }
            }
        },
        None => Ok(None),
    }
}

pub(crate) fn people(entries: &Vec<(&String, &Value)>, prefix: &str, key: &str) -> (r: Result<
    Vec<PersonReference>,
    ParseError,
>)
    ensures
        outcome(r) == people_in(borrowed_model(entries@), prefix@, key@),
{
    proof {
        reveal(people_in);
    }
    match find(entries, key) {
        Some(v) => people_at(v, join_path(prefix, key).as_str()),
        None => {
            let out: Vec<PersonReference> = Vec::new();
            assert(out.deep_view() =~= Seq::<PersonReferenceModel>::empty());
            Ok(out)
        },
    }
}

pub(crate) fn opt_value(entries: &Vec<(&String, &Value)>, key: &str) -> (r: Option<Value>)
    ensures
        Ok::<Option<JsonModel>, ParseErrorModel>(
            match r {
                Some(v) => Some(value_model(v)),
                None => None,
            },
        ) == opt_value_in(borrowed_model(entries@), ""@, key@),
{
    proof {
        reveal(opt_value_in);
    }
    match find(entries, key) {
        Some(v) => {
            if kind(v) == JsonKind::Null {
                None
            } else {
                Some(v.clone())
            }
        },
        None => None,
    }
}

/// What is written under `key` for a bug contacting form: nothing where it is unset.
pub open spec fn bug_field(key: Seq<char>, value: Option<BugModel>) -> Members {
    match value {
        Some(b) => seq![(key, bug_json(b))],
        None => Seq::empty(),
    }
}

/// What is written under `key` for a reference to a person: nothing where it is unset.
pub open spec fn person_ref_field(key: Seq<char>, value: Option<PersonReferenceModel>) -> Members {
    match value {
        Some(p) => seq![(key, person_ref_json(p))],
        None => Seq::empty(),
    }
}

/// The list of contributors is written unless it is empty.
pub open spec fn people_field(key: Seq<char>, value: Seq<PersonReferenceModel>) -> Members {
    if value.len() == 0 {
        Seq::empty()
    } else {
        seq![(key, people_json(value))]
    }
}

/// What is written under `key` for a reference to man pages: nothing where it is unset.
pub open spec fn man_field(key: Seq<char>, value: Option<ManReferenceModel>) -> Members {
    match value {
        Some(r) => seq![(key, man_json(r))],
        None => Seq::empty(),
    }
}

/// What is written under `key` for a reference to a repository: nothing where it is unset.
pub open spec fn repository_ref_field(
    key: Seq<char>,
    value: Option<RepositoryReferenceModel>,
) -> Members {
    match value {
        Some(r) => seq![(key, repository_ref_json(r))],
        None => Seq::empty(),
    }
}

/// What is written under `key` for the settings of pnpm: nothing where it is unset.
pub open spec fn pnpm_field(key: Seq<char>, value: Option<PnpmModel>) -> Members {
    match value {
        Some(p) => seq![(key, pnpm_json(p))],
        None => Seq::empty(),
    }
}

pub(crate) fn put_bug(entries: &mut Vec<(String, Value)>, key: &str, value: &Option<Bug>)
    ensures
        members_model(final(entries)@) == members_model(old(entries)@) + bug_field(
            key@,
            value.deep_view(),
        ),
{
    match value {
        Some(x) => put(entries, key, x.to_value()),
        None => {
            assert(members_model(entries@) =~= members_model(entries@) + Seq::empty());
        },
    }
}

pub(crate) fn put_person_ref(
    entries: &mut Vec<(String, Value)>,
    key: &str,
    value: &Option<PersonReference>,
)
    ensures
        members_model(final(entries)@) == members_model(old(entries)@) + person_ref_field(
            key@,
            value.deep_view(),
        ),
{
    match value {
        Some(x) => put(entries, key, x.to_value()),
        None => {
            assert(members_model(entries@) =~= members_model(entries@) + Seq::empty());
        },
    }
}

pub(crate) fn put_man(entries: &mut Vec<(String, Value)>, key: &str, value: &Option<ManReference>)
    ensures
        members_model(final(entries)@) == members_model(old(entries)@) + man_field(
            key@,
            value.deep_view(),
        ),
{
    match value {
        Some(x) => put(entries, key, x.to_value()),
        None => {
            assert(members_model(entries@) =~= members_model(entries@) + Seq::empty());
        },
    }
}

pub(crate) fn put_repository_ref(
    entries: &mut Vec<(String, Value)>,
    key: &str,
    value: &Option<RepositoryReference>,
)
    ensures
        members_model(final(entries)@) == members_model(old(entries)@) + repository_ref_field(
            key@,
            value.deep_view(),
        ),
{
    match value {
        Some(x) => put(entries, key, x.to_value()),
        None => {
            assert(members_model(entries@) =~= members_model(entries@) + Seq::empty());
        },
    }
}

pub(crate) fn put_pnpm(entries: &mut Vec<(String, Value)>, key: &str, value: &Option<Pnpm>)
    ensures
        members_model(final(entries)@) == members_model(old(entries)@) + pnpm_field(
            key@,
            value.deep_view(),
        ),
{
    match value {
        Some(x) => put(entries, key, x.to_value()),
        None => {
            assert(members_model(entries@) =~= members_model(entries@) + Seq::empty());
        },
    }
}

pub(crate) fn put_people(
    entries: &mut Vec<(String, Value)>,
    key: &str,
    value: &Vec<PersonReference>,
)
    ensures
        members_model(final(entries)@) == members_model(old(entries)@) + people_field(
            key@,
            value.deep_view(),
        ),
{
    if value.len() == 0 {
        assert(members_model(entries@) =~= members_model(entries@) + Seq::empty());
    } else {
        put(entries, key, people_value(value));
    }
}

pub(crate) fn put_config(entries: &mut Vec<(String, Value)>, key: &str, value: &Option<Value>)
    ensures
        members_model(final(entries)@) == members_model(old(entries)@) + opt_member(
            key@,
            config_model(*value),
        ),
{
    match value {
        Some(v) => put(entries, key, v.clone()),
        None => {
            assert(members_model(entries@) =~= members_model(entries@) + Seq::empty());
        },
    }
}

/// The model of a free-form value that may be unset.
pub open spec fn config_model(value: Option<Value>) -> Option<JsonModel> {
    match value {
        Some(v) => Some(value_model(v)),
        None => None,
    }
}

/// A package manifest.
#[derive(Clone, Debug, Default, PartialEq)]
pub struct Package {
    /// The package name.
    pub name: Option<String>,
    /// The package version.
    pub version: Option<String>,
    /// The optional package description.
    pub description: Option<String>,
    /// The optional list of keywords.
    pub keywords: Vec<String>,
    /// The optional package homepage.
    pub homepage: Option<String>,
    /// The optional bug contact form.
    pub bugs: Option<Bug>,
    /// The optional package license.
    pub license: Option<String>,
    /// The optional author.
    pub author: Option<PersonReference>,
    /// The optional list of contributors.
    pub contributors: Vec<PersonReference>,
    /// The optional list of files to include. Each entry defines a regex
    /// pattern.
    pub files: Vec<String>,
    /// The optional package main entry file.
    pub main: Option<String>,
    /// The optional package browser entry file, for libraries that are meant
    /// to be consumed by browsers.
    pub browser: Option<String>,
    /// The optional set of binary definitions.
    pub bin: BinSet,
    /// The optional list of man page references.
    pub man: Option<ManReference>,
    /// The optional repository reference.
    pub repository: Option<RepositoryReference>,
    /// The optional list of script entries.
    pub scripts: ScriptsSet,
    /// The optional list of dependencies.
    pub dependencies: DepsSet,
    /// The optional list of development dependencies.
    pub dev_dependencies: DepsSet,
    /// The optional list of peer dependencies.
    pub peer_dependencies: DepsSet,
    /// The optional list of bundled dependencies.
    pub bundled_dependencies: DepsSet,
    /// The optional list of optional dependencies.
    pub optional_dependencies: DepsSet,
    /// The optional list of engine entries.
    pub engines: EnginesSet,
    /// The package privacy.
    pub private: Option<bool>,
    /// The operating systems that the package can run on.
    pub os: Vec<String>,
    /// The CPU architectures that the package can run on.
    pub cpu: Vec<String>,
    /// The optional config object.
    pub config: Option<Value>,
    /// The optional settings of pnpm.
    pub pnpm: Option<Pnpm>,
    /// The members of the document that are no field of the manifest, in
    /// the order in which the document holds them.
    pub others: Vec<(String, Value)>,
}

/// The mathematical model of a `Package`.
pub struct PackageModel {
    pub name: Option<Seq<char>>,
    pub version: Option<Seq<char>>,
    pub description: Option<Seq<char>>,
    pub keywords: Seq<Seq<char>>,
    pub homepage: Option<Seq<char>>,
    pub bugs: Option<BugModel>,
    pub license: Option<Seq<char>>,
    pub author: Option<PersonReferenceModel>,
    pub contributors: Seq<PersonReferenceModel>,
    pub files: Seq<Seq<char>>,
    pub main: Option<Seq<char>>,
    pub browser: Option<Seq<char>>,
    pub bin: TextMap,
    pub man: Option<ManReferenceModel>,
    pub repository: Option<RepositoryReferenceModel>,
    pub scripts: TextMap,
    pub dependencies: TextMap,
    pub dev_dependencies: TextMap,
    pub peer_dependencies: TextMap,
    pub bundled_dependencies: TextMap,
    pub optional_dependencies: TextMap,
    pub engines: TextMap,
    pub private: Option<bool>,
    pub os: Seq<Seq<char>>,
    pub cpu: Seq<Seq<char>>,
    pub config: Option<JsonModel>,
    pub pnpm: Option<PnpmModel>,
    pub others: Members,
}

impl DeepView for Package {
    type V = PackageModel;

    open spec fn deep_view(&self) -> PackageModel {
        PackageModel {
            name: self.name.deep_view(),
            version: self.version.deep_view(),
            description: self.description.deep_view(),
            keywords: self.keywords.deep_view(),
            homepage: self.homepage.deep_view(),
            bugs: self.bugs.deep_view(),
            license: self.license.deep_view(),
            author: self.author.deep_view(),
            contributors: self.contributors.deep_view(),
            files: self.files.deep_view(),
            main: self.main.deep_view(),
            browser: self.browser.deep_view(),
            bin: self.bin.deep_view(),
            man: self.man.deep_view(),
            repository: self.repository.deep_view(),
            scripts: self.scripts.deep_view(),
            dependencies: self.dependencies.deep_view(),
            dev_dependencies: self.dev_dependencies.deep_view(),
            peer_dependencies: self.peer_dependencies.deep_view(),
            bundled_dependencies: self.bundled_dependencies.deep_view(),
            optional_dependencies: self.optional_dependencies.deep_view(),
            engines: self.engines.deep_view(),
            private: self.private.deep_view(),
            os: self.os.deep_view(),
            cpu: self.cpu.deep_view(),
            config: config_model(self.config),
            pnpm: self.pnpm.deep_view(),
            others: members_model(self.others@),
        }
    }
}

/// Whether a key names a field of the manifest.
pub open spec fn is_package_key(key: Seq<char>) -> bool {
    key == "name"@
    || key == "version"@
    || key == "description"@
    || key == "keywords"@
    || key == "homepage"@
    || key == "bugs"@
    || key == "license"@
    || key == "author"@
    || key == "contributors"@
    || key == "files"@
    || key == "main"@
    || key == "browser"@
    || key == "bin"@
    || key == "man"@
    || key == "repository"@
    || key == "scripts"@
    || key == "dependencies"@
    || key == "devDependencies"@
    || key == "peerDependencies"@
    || key == "bundledDependencies"@
    || key == "optionalDependencies"@
    || key == "engines"@
    || key == "private"@
    || key == "os"@
    || key == "cpu"@
    || key == "config"@
    || key == "pnpm"@
}

/// The keys that name a field of the manifest.
pub open spec fn package_known() -> spec_fn(Seq<char>) -> bool {
    |key: Seq<char>| is_package_key(key)
}

/// The members that are no field of the manifest, in order.
pub open spec fn others_of(m: Members) -> Members {
    unknown_members(m, package_known())
}

/// The manifest that the members of a document give: each field is read
/// from the member with its key, the first field in declared order that
/// cannot be read gives the error, and the members that are no field are
/// kept as they are.
pub open spec fn package_of_members(m: Members) -> Result<PackageModel, ParseErrorModel> {
    let name = opt_text_in(m, ""@, "name"@);
    let version = opt_text_in(m, ""@, "version"@);
    let description = opt_text_in(m, ""@, "description"@);
    let keywords = texts_in(m, ""@, "keywords"@);
    let homepage = opt_text_in(m, ""@, "homepage"@);
    let bugs = opt_bug_in(m, ""@, "bugs"@);
    let license = opt_text_in(m, ""@, "license"@);
    let author = opt_person_ref_in(m, ""@, "author"@);
    let contributors = people_in(m, ""@, "contributors"@);
    let files = texts_in(m, ""@, "files"@);
    let main = opt_text_in(m, ""@, "main"@);
    let browser = opt_text_in(m, ""@, "browser"@);
    let bin = text_map_in(m, ""@, "bin"@);
    let man = opt_man_in(m, ""@, "man"@);
    let repository = opt_repository_ref_in(m, ""@, "repository"@);
    let scripts = text_map_in(m, ""@, "scripts"@);
    let dependencies = text_map_in(m, ""@, "dependencies"@);
    let dev_dependencies = text_map_in(m, ""@, "devDependencies"@);
    let peer_dependencies = text_map_in(m, ""@, "peerDependencies"@);
    let bundled_dependencies = text_map_in(m, ""@, "bundledDependencies"@);
    let optional_dependencies = text_map_in(m, ""@, "optionalDependencies"@);
    let engines = text_map_in(m, ""@, "engines"@);
    let private = opt_flag_in(m, ""@, "private"@);
    let os = texts_in(m, ""@, "os"@);
    let cpu = texts_in(m, ""@, "cpu"@);
    let config = opt_value_in(m, ""@, "config"@);
    let pnpm = opt_pnpm_in(m, ""@, "pnpm"@);
    if name is Err {
        Err(name->Err_0)
    } else if version is Err {
        Err(version->Err_0)
    } else if description is Err {
        Err(description->Err_0)
    } else if keywords is Err {
        Err(keywords->Err_0)
    } else if homepage is Err {
        Err(homepage->Err_0)
    } else if bugs is Err {
        Err(bugs->Err_0)
    } else if license is Err {
        Err(license->Err_0)
    } else if author is Err {
        Err(author->Err_0)
    } else if contributors is Err {
        Err(contributors->Err_0)
    } else if files is Err {
        Err(files->Err_0)
    } else if main is Err {
        Err(main->Err_0)
    } else if browser is Err {
        Err(browser->Err_0)
    } else if bin is Err {
        Err(bin->Err_0)
    } else if man is Err {
        Err(man->Err_0)
    } else if repository is Err {
        Err(repository->Err_0)
    } else if scripts is Err {
        Err(scripts->Err_0)
    } else if dependencies is Err {
        Err(dependencies->Err_0)
    } else if dev_dependencies is Err {
        Err(dev_dependencies->Err_0)
    } else if peer_dependencies is Err {
        Err(peer_dependencies->Err_0)
    } else if bundled_dependencies is Err {
        Err(bundled_dependencies->Err_0)
    } else if optional_dependencies is Err {
        Err(optional_dependencies->Err_0)
    } else if engines is Err {
        Err(engines->Err_0)
    } else if private is Err {
        Err(private->Err_0)
    } else if os is Err {
        Err(os->Err_0)
    } else if cpu is Err {
        Err(cpu->Err_0)
    } else if config is Err {
        Err(config->Err_0)
    } else if pnpm is Err {
        Err(pnpm->Err_0)
    } else {
        Ok(
            PackageModel {
                name: name->Ok_0,
                version: version->Ok_0,
                description: description->Ok_0,
                keywords: keywords->Ok_0,
                homepage: homepage->Ok_0,
                bugs: bugs->Ok_0,
                license: license->Ok_0,
                author: author->Ok_0,
                contributors: contributors->Ok_0,
                files: files->Ok_0,
                main: main->Ok_0,
                browser: browser->Ok_0,
                bin: bin->Ok_0,
                man: man->Ok_0,
                repository: repository->Ok_0,
                scripts: scripts->Ok_0,
                dependencies: dependencies->Ok_0,
                dev_dependencies: dev_dependencies->Ok_0,
                peer_dependencies: peer_dependencies->Ok_0,
                bundled_dependencies: bundled_dependencies->Ok_0,
                optional_dependencies: optional_dependencies->Ok_0,
                engines: engines->Ok_0,
                private: private->Ok_0,
                os: os->Ok_0,
                cpu: cpu->Ok_0,
                config: config->Ok_0,
                pnpm: pnpm->Ok_0,
                others: others_of(m),
            },
        )
    }
}

/// The manifest that a document gives: the document must be an object.
pub open spec fn package_of_json(j: JsonModel) -> Result<PackageModel, ParseErrorModel> {
    match j {
        JsonModel::Object(m) => package_of_members(m),
        _ => Err(ParseErrorModel::NotAnObject),
    }
}

/// The members written for a manifest: the fields that are set, in
/// declared order, then the other members.
pub open spec fn package_members(p: PackageModel) -> Members {
    text_field("name"@, p.name)
    + text_field("version"@, p.version)
    + text_field("description"@, p.description)
    + texts_field("keywords"@, p.keywords)
    + text_field("homepage"@, p.homepage)
    + bug_field("bugs"@, p.bugs)
    + text_field("license"@, p.license)
    + person_ref_field("author"@, p.author)
    + people_field("contributors"@, p.contributors)
    + texts_field("files"@, p.files)
    + text_field("main"@, p.main)
    + text_field("browser"@, p.browser)
    + text_map_field("bin"@, p.bin)
    + man_field("man"@, p.man)
    + repository_ref_field("repository"@, p.repository)
    + text_map_field("scripts"@, p.scripts)
    + text_map_field("dependencies"@, p.dependencies)
    + text_map_field("devDependencies"@, p.dev_dependencies)
    + text_map_field("peerDependencies"@, p.peer_dependencies)
    + text_map_field("bundledDependencies"@, p.bundled_dependencies)
    + text_map_field("optionalDependencies"@, p.optional_dependencies)
    + text_map_field("engines"@, p.engines)
    + flag_field("private"@, p.private)
    + texts_field("os"@, p.os)
    + texts_field("cpu"@, p.cpu)
    + opt_member("config"@, p.config)
    + pnpm_field("pnpm"@, p.pnpm)
    + p.others
}

/// The document written for a manifest.
pub open spec fn package_json(p: PackageModel) -> JsonModel {
    object_json(package_members(p))
}

impl PackageModel {
    /// The other members hold no key of a field of the manifest.
    pub open spec fn others_are_unknown(self) -> bool {
        forall|i: int| 0 <= i < self.others.len() ==> !is_package_key(#[trigger] self.others[i].0)
    }

    /// No mapping of the manifest holds a name twice.
    pub open spec fn names_are_distinct(self) -> bool {
        &&& distinct_names(self.bin)
        &&& distinct_names(self.scripts)
        &&& distinct_names(self.dependencies)
        &&& distinct_names(self.dev_dependencies)
        &&& distinct_names(self.peer_dependencies)
        &&& distinct_names(self.bundled_dependencies)
        &&& distinct_names(self.optional_dependencies)
        &&& distinct_names(self.engines)
        &&& distinct_names(self.others)
        &&& match self.pnpm {
            Some(p) => match p.overrides {
                Some(entries) => distinct_names(entries),
                None => true,
            },
            None => true,
        }
    }

    /// A manifest is well formed when its other members hold no key of a
    /// field, no mapping holds a name twice, and its free-form
    /// configuration, where set, is not null.
    pub open spec fn wf(self) -> bool {
        &&& self.others_are_unknown()
        &&& self.names_are_distinct()
        &&& self.config != Some(JsonModel::Null)
    }
}

/// Whether a key names a field of the manifest.
pub fn names_package_field(key: &str) -> (r: bool)
    ensures
        r == is_package_key(key@),
{
    if same_text(key, "name") {
        true
    } else if same_text(key, "version") {
        true
    } else if same_text(key, "description") {
        true
    } else if same_text(key, "keywords") {
        true
    } else if same_text(key, "homepage") {
        true
    } else if same_text(key, "bugs") {
        true
    } else if same_text(key, "license") {
        true
    } else if same_text(key, "author") {
        true
    } else if same_text(key, "contributors") {
        true
    } else if same_text(key, "files") {
        true
    } else if same_text(key, "main") {
        true
    } else if same_text(key, "browser") {
        true
    } else if same_text(key, "bin") {
        true
    } else if same_text(key, "man") {
        true
    } else if same_text(key, "repository") {
        true
    } else if same_text(key, "scripts") {
        true
    } else if same_text(key, "dependencies") {
        true
    } else if same_text(key, "devDependencies") {
        true
    } else if same_text(key, "peerDependencies") {
        true
    } else if same_text(key, "bundledDependencies") {
        true
    } else if same_text(key, "optionalDependencies") {
        true
    } else if same_text(key, "engines") {
        true
    } else if same_text(key, "private") {
        true
    } else if same_text(key, "os") {
        true
    } else if same_text(key, "cpu") {
        true
    } else if same_text(key, "config") {
        true
    } else if same_text(key, "pnpm") {
        true
    } else {
        false
    }
}

pub(crate) fn other_members(entries: &Vec<(&String, &Value)>) -> (r: Vec<(String, Value)>)
    ensures
        members_model(r@) == others_of(borrowed_model(entries@)),
{
    let ghost m = borrowed_model(entries@);
    let mut out: Vec<(String, Value)> = Vec::new();
    let mut i: usize = 0;
    assert(members_model(out@) =~= Seq::empty());
    while i < entries.len()
        invariant
            i <= entries.len(),
            m == borrowed_model(entries@),
            members_model(out@) == unknown_upto(m, package_known(), i as int),
        decreases entries.len() - i,
    {
        let name = entries[i].0;
        let item = entries[i].1;
        assert(m[i as int] == ((*name)@, value_model(*item)));
        if !names_package_field(name.as_str()) {
            let ghost before = members_model(out@);
            out.push((name.clone(), item.clone()));
            assert(members_model(out@) =~= before.push(((*name)@, value_model(*item))));
        }
        i += 1;
    }
    assert(m.len() == entries.len());
    out
}

impl Package {
    /// Builds the manifest that a JSON document gives. The document must
    /// be an object; each field is resolved by the kind of the member
    /// with its key, and the members that are no field are kept.
    pub fn from_value(v: &Value) -> (r: Result<Package, ParseError>)
        ensures
            outcome(r) == package_of_json(value_model(*v)),
            r is Ok ==> r->Ok_0.deep_view().wf(),
    {
        let entries = match members(v) {
            Some(entries) => entries,
            None => {
                return Err(ParseError::NotAnObject);
            },
        };
        let ghost m = borrowed_model(entries@);
        let name = opt_text(&entries, "", "name")?;
        let version = opt_text(&entries, "", "version")?;
        let description = opt_text(&entries, "", "description")?;
        let keywords = texts(&entries, "", "keywords")?;
        let homepage = opt_text(&entries, "", "homepage")?;
        let bugs = opt_bug(&entries, "", "bugs")?;
        let license = opt_text(&entries, "", "license")?;
        let author = opt_person_ref(&entries, "", "author")?;
        let contributors = people(&entries, "", "contributors")?;
        let files = texts(&entries, "", "files")?;
        let main = opt_text(&entries, "", "main")?;
        let browser = opt_text(&entries, "", "browser")?;
        let bin = text_map(&entries, "", "bin")?;
        let man = opt_man(&entries, "", "man")?;
        let repository = opt_repository_ref(&entries, "", "repository")?;
        let scripts = text_map(&entries, "", "scripts")?;
        let dependencies = text_map(&entries, "", "dependencies")?;
        let dev_dependencies = text_map(&entries, "", "devDependencies")?;
        let peer_dependencies = text_map(&entries, "", "peerDependencies")?;
        let bundled_dependencies = text_map(&entries, "", "bundledDependencies")?;
        let optional_dependencies = text_map(&entries, "", "optionalDependencies")?;
        let engines = text_map(&entries, "", "engines")?;
        let private = opt_flag(&entries, "", "private")?;
        let os = texts(&entries, "", "os")?;
        let cpu = texts(&entries, "", "cpu")?;
        let config = opt_value(&entries, "config");
        let pnpm = opt_pnpm(&entries, "", "pnpm")?;
        let others = other_members(&entries);
        proof {
            reveal(opt_value_in);
            lemma_unknown_members(m, package_known());
        }
        Ok(
            Package {
                name,
                version,
                description,
                keywords,
                homepage,
                bugs,
                license,
                author,
                contributors,
                files,
                main,
                browser,
                bin,
                man,
                repository,
                scripts,
                dependencies,
                dev_dependencies,
                peer_dependencies,
                bundled_dependencies,
                optional_dependencies,
                engines,
                private,
                os,
                cpu,
                config,
                pnpm,
                others,
            },
        )
    }

    /// Writes the manifest as a JSON document: the fields that are set in
    /// declared order, then the other members, each inserted into the
    /// object in turn.
    pub fn to_value(&self) -> (r: Value)
        ensures
            value_model(r) == package_json(self.deep_view()),
    {
        let mut entries: Vec<(String, Value)> = Vec::new();
        assert(members_model(entries@) =~= Seq::empty());
        put_text(&mut entries, "name", &self.name);
        put_text(&mut entries, "version", &self.version);
        put_text(&mut entries, "description", &self.description);
        put_texts(&mut entries, "keywords", &self.keywords);
        put_text(&mut entries, "homepage", &self.homepage);
        put_bug(&mut entries, "bugs", &self.bugs);
        put_text(&mut entries, "license", &self.license);
        put_person_ref(&mut entries, "author", &self.author);
        put_people(&mut entries, "contributors", &self.contributors);
        put_texts(&mut entries, "files", &self.files);
        put_text(&mut entries, "main", &self.main);
        put_text(&mut entries, "browser", &self.browser);
        put_text_map(&mut entries, "bin", &self.bin);
        put_man(&mut entries, "man", &self.man);
        put_repository_ref(&mut entries, "repository", &self.repository);
        put_text_map(&mut entries, "scripts", &self.scripts);
        put_text_map(&mut entries, "dependencies", &self.dependencies);
        put_text_map(&mut entries, "devDependencies", &self.dev_dependencies);
        put_text_map(&mut entries, "peerDependencies", &self.peer_dependencies);
        put_text_map(&mut entries, "bundledDependencies", &self.bundled_dependencies);
        put_text_map(&mut entries, "optionalDependencies", &self.optional_dependencies);
        put_text_map(&mut entries, "engines", &self.engines);
        put_flag(&mut entries, "private", &self.private);
        put_texts(&mut entries, "os", &self.os);
        put_texts(&mut entries, "cpu", &self.cpu);
        put_config(&mut entries, "config", &self.config);
        put_pnpm(&mut entries, "pnpm", &self.pnpm);
        put_all(&mut entries, &self.others);
        assert(members_model(entries@) =~= package_members(self.deep_view()));
        object_value(entries)
    }

    /// Builds the manifest from what the JSON reader made of a text: a
    /// value is read as a document, and an error of the reader is passed
    /// on as it is.
    pub fn from_reading(reading: Result<Value, serde_json::Error>) -> (r: Result<
        Package,
        ParseError,
    >)
        ensures
            match reading {
                Ok(v) => outcome(r) == package_of_json(value_model(v)),
                Err(e) => r is Err && r->Err_0 == ParseError::MalformedJson(e),
            },
            r is Ok ==> r->Ok_0.deep_view().wf(),
    {
        match reading {
            Ok(v) => Package::from_value(&v),
            Err(e) => Err(ParseError::MalformedJson(e)),
        }
    }

    /// Reads a manifest from JSON text: the text is handed to the JSON
    /// reader, and what it gives is read as a document.
    pub fn parse(text: &str) -> (r: Result<Package, ParseError>)
        ensures
            match text_model(text@) {
                Some(j) => outcome(r) == package_of_json(j),
                None => r is Err && r->Err_0 is MalformedJson,
            },
            r is Ok ==> r->Ok_0.deep_view().wf(),
    {
        Package::from_reading(read_text(text))
    }

    /// Writes the manifest as compact JSON text.
    pub fn serialize(&self) -> (r: String)
        ensures
            r@ == model_text(package_json(self.deep_view())),
    {
        write_text(&self.to_value())
    }
}

} // verus!
