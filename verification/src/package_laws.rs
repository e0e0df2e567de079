//! What holds of reading and writing manifests.

use vstd::prelude::*;
use crate::error::{ParseErrorModel, item_path, path_of};
use crate::field_laws::{
    lemma_flag_field, lemma_member_keys_differ, lemma_opt_text_map_field,
    lemma_opt_text_map_in_names, lemma_required_text_field, lemma_text_field, lemma_text_map_field,
    lemma_text_map_in_names, lemma_texts_failure, lemma_texts_field, lemma_texts_round_trip,
};
use crate::fields::{
    distinct_names, flag_field, opt_member, opt_text_map_field, present, text_field, text_map_field,
    texts_field,
};
use crate::json::{JsonKind, JsonModel, Members, distinct_keys, keys_differ, kind_of, member};
use crate::members::{
    joined, lemma_joined, lemma_joined_and_rest, lemma_member_at, lemma_member_from,
    lemma_unknown_members, lemma_upsert_all_distinct, part_of_key, part_value,
};
use crate::package::{
    BugModel, ManReferenceModel, PackageModel, PersonModel, PersonReferenceModel, PnpmModel,
    RepositoryModel, RepositoryReferenceModel, bug_field, bug_json, bug_of, is_package_key,
    man_field, man_json, man_of, opt_bug_in, opt_man_in, opt_person_ref_in, opt_pnpm_in,
    opt_repository_ref_in, opt_value_in, others_of, package_json, package_known, package_members,
    package_of_json, package_of_members, people_field, people_in, people_json, people_of,
    people_upto, person_json, person_of, person_ref_field, person_ref_json, person_ref_of,
    pnpm_field, pnpm_json, pnpm_of, repository_json, repository_of, repository_ref_field,
    repository_ref_json, repository_ref_of,
};

verus! {

/// The number of fields of a manifest.
pub open spec fn package_field_count() -> int {
    27
}

/// The key of the field at a position in declared order.
pub open spec fn package_key(i: int) -> Seq<char> {
    if i == 0 {
        "name"@
    } else if i == 1 {
        "version"@
    } else if i == 2 {
        "description"@
    } else if i == 3 {
        "keywords"@
    } else if i == 4 {
        "homepage"@
    } else if i == 5 {
        "bugs"@
    } else if i == 6 {
        "license"@
    } else if i == 7 {
        "author"@
    } else if i == 8 {
        "contributors"@
    } else if i == 9 {
        "files"@
    } else if i == 10 {
        "main"@
    } else if i == 11 {
        "browser"@
    } else if i == 12 {
        "bin"@
    } else if i == 13 {
        "man"@
    } else if i == 14 {
        "repository"@
    } else if i == 15 {
        "scripts"@
    } else if i == 16 {
        "dependencies"@
    } else if i == 17 {
        "devDependencies"@
    } else if i == 18 {
        "peerDependencies"@
    } else if i == 19 {
        "bundledDependencies"@
    } else if i == 20 {
        "optionalDependencies"@
    } else if i == 21 {
        "engines"@
    } else if i == 22 {
        "private"@
    } else if i == 23 {
        "os"@
    } else if i == 24 {
        "cpu"@
    } else if i == 25 {
        "config"@
    } else {
        "pnpm"@
    }
}

/// The position in declared order of the field with a key.
pub open spec fn package_key_position(key: Seq<char>) -> int {
    if key == "name"@ {
        0
    } else if key == "version"@ {
        1
    } else if key == "description"@ {
        2
    } else if key == "keywords"@ {
        3
    } else if key == "homepage"@ {
        4
    } else if key == "bugs"@ {
        5
    } else if key == "license"@ {
        6
    } else if key == "author"@ {
        7
    } else if key == "contributors"@ {
        8
    } else if key == "files"@ {
        9
    } else if key == "main"@ {
        10
    } else if key == "browser"@ {
        11
    } else if key == "bin"@ {
        12
    } else if key == "man"@ {
        13
    } else if key == "repository"@ {
        14
    } else if key == "scripts"@ {
        15
    } else if key == "dependencies"@ {
        16
    } else if key == "devDependencies"@ {
        17
    } else if key == "peerDependencies"@ {
        18
    } else if key == "bundledDependencies"@ {
        19
    } else if key == "optionalDependencies"@ {
        20
    } else if key == "engines"@ {
        21
    } else if key == "private"@ {
        22
    } else if key == "os"@ {
        23
    } else if key == "cpu"@ {
        24
    } else if key == "config"@ {
        25
    } else if key == "pnpm"@ {
        26
    } else {
        27
    }
}

/// What is written for the field at a position in declared order.
pub open spec fn package_part(p: PackageModel, i: int) -> Members {
    if i == 0 {
        text_field("name"@, p.name)
    } else if i == 1 {
        text_field("version"@, p.version)
    } else if i == 2 {
        text_field("description"@, p.description)
    } else if i == 3 {
        texts_field("keywords"@, p.keywords)
    } else if i == 4 {
        text_field("homepage"@, p.homepage)
    } else if i == 5 {
        bug_field("bugs"@, p.bugs)
    } else if i == 6 {
        text_field("license"@, p.license)
    } else if i == 7 {
        person_ref_field("author"@, p.author)
    } else if i == 8 {
        people_field("contributors"@, p.contributors)
    } else if i == 9 {
        texts_field("files"@, p.files)
    } else if i == 10 {
        text_field("main"@, p.main)
    } else if i == 11 {
        text_field("browser"@, p.browser)
    } else if i == 12 {
        text_map_field("bin"@, p.bin)
    } else if i == 13 {
        man_field("man"@, p.man)
    } else if i == 14 {
        repository_ref_field("repository"@, p.repository)
    } else if i == 15 {
        text_map_field("scripts"@, p.scripts)
    } else if i == 16 {
        text_map_field("dependencies"@, p.dependencies)
    } else if i == 17 {
        text_map_field("devDependencies"@, p.dev_dependencies)
    } else if i == 18 {
        text_map_field("peerDependencies"@, p.peer_dependencies)
    } else if i == 19 {
        text_map_field("bundledDependencies"@, p.bundled_dependencies)
    } else if i == 20 {
        text_map_field("optionalDependencies"@, p.optional_dependencies)
    } else if i == 21 {
        text_map_field("engines"@, p.engines)
    } else if i == 22 {
        flag_field("private"@, p.private)
    } else if i == 23 {
        texts_field("os"@, p.os)
    } else if i == 24 {
        texts_field("cpu"@, p.cpu)
    } else if i == 25 {
        opt_member("config"@, p.config)
    } else if i == 26 {
        pnpm_field("pnpm"@, p.pnpm)
    } else {
        Seq::empty()
    }
}

/// The keys of the fields differ from each other, and each is a key of the
/// manifest.
pub proof fn lemma_package_keys()
    ensures
        forall|i: int|
            0 <= i < package_field_count() ==> package_key_position(#[trigger] package_key(i)) == i,
        forall|i: int| 0 <= i < package_field_count() ==> is_package_key(#[trigger] package_key(i)),
        forall|key: Seq<char>|
            is_package_key(key) ==> key == package_key(#[trigger] package_key_position(key)) && 0
                <= package_key_position(key) < package_field_count(),
{
    reveal_strlit("name");
    assert("name"@.len() == 4 && "name"@[0] == 'n');
    reveal_strlit("version");
    assert("version"@.len() == 7 && "version"@[0] == 'v');
    reveal_strlit("description");
    assert("description"@.len() == 11 && "description"@[0] == 'd');
    reveal_strlit("keywords");
    assert("keywords"@.len() == 8 && "keywords"@[0] == 'k');
    reveal_strlit("homepage");
    assert("homepage"@.len() == 8 && "homepage"@[0] == 'h');
    reveal_strlit("bugs");
    assert("bugs"@.len() == 4 && "bugs"@[0] == 'b');
    reveal_strlit("license");
    assert("license"@.len() == 7 && "license"@[0] == 'l');
    reveal_strlit("author");
    assert("author"@.len() == 6 && "author"@[0] == 'a');
    reveal_strlit("contributors");
    assert("contributors"@.len() == 12 && "contributors"@[0] == 'c');
    reveal_strlit("files");
    assert("files"@.len() == 5 && "files"@[0] == 'f');
    reveal_strlit("main");
    assert("main"@.len() == 4 && "main"@[0] == 'm');
    reveal_strlit("browser");
    assert("browser"@.len() == 7 && "browser"@[0] == 'b');
    reveal_strlit("bin");
    assert("bin"@.len() == 3 && "bin"@[0] == 'b');
    reveal_strlit("man");
    assert("man"@.len() == 3 && "man"@[0] == 'm');
    reveal_strlit("repository");
    assert("repository"@.len() == 10 && "repository"@[0] == 'r');
    reveal_strlit("scripts");
    assert("scripts"@.len() == 7 && "scripts"@[0] == 's');
    reveal_strlit("dependencies");
    assert("dependencies"@.len() == 12 && "dependencies"@[0] == 'd');
    reveal_strlit("devDependencies");
    assert("devDependencies"@.len() == 15 && "devDependencies"@[0] == 'd');
    reveal_strlit("peerDependencies");
    assert("peerDependencies"@.len() == 16 && "peerDependencies"@[0] == 'p');
    reveal_strlit("bundledDependencies");
    assert("bundledDependencies"@.len() == 19 && "bundledDependencies"@[0] == 'b');
    reveal_strlit("optionalDependencies");
    assert("optionalDependencies"@.len() == 20 && "optionalDependencies"@[0] == 'o');
    reveal_strlit("engines");
    assert("engines"@.len() == 7 && "engines"@[0] == 'e');
    reveal_strlit("private");
    assert("private"@.len() == 7 && "private"@[0] == 'p');
    reveal_strlit("os");
    assert("os"@.len() == 2 && "os"@[0] == 'o');
    reveal_strlit("cpu");
    assert("cpu"@.len() == 3 && "cpu"@[0] == 'c');
    reveal_strlit("config");
    assert("config"@.len() == 6 && "config"@[0] == 'c');
    reveal_strlit("pnpm");
    assert("pnpm"@.len() == 4 && "pnpm"@[0] == 'p');
}


/// What is written for each field, by position in declared order.
pub open spec fn package_parts(p: PackageModel) -> spec_fn(int) -> Members {
    |i: int| package_part(p, i)
}

/// The key of each field, by position in declared order.
pub open spec fn package_keys() -> spec_fn(int) -> Seq<char> {
    |i: int| package_key(i)
}

/// The members written for a manifest are its parts in declared order,
/// then the other members.
pub proof fn lemma_package_members(p: PackageModel)
    ensures
        package_members(p) == joined(package_parts(p), package_field_count()) + p.others,
{
    reveal_with_fuel(joined, 28);
}

/// What is written for a field is nothing, or one member with the key of
/// the field.
pub proof fn lemma_package_parts(p: PackageModel)
    ensures
        forall|i: int|
            0 <= i < package_field_count() ==> part_of_key(
                #[trigger] package_parts(p)(i),
                package_keys()(i),
            ),
{
}

/// In what is written for a manifest whose other members hold no key of a
/// field, the key of each field leads to what was written for the field
/// (nothing where the field is unset, or is an empty list or mapping), the
/// members that are no field are the other members of the manifest, and no
/// key occurs twice unless the other members hold one twice.
pub proof fn lemma_package_written(p: PackageModel)
    requires
        p.others_are_unknown(),
    ensures
        distinct_names(p.others) ==> distinct_keys(package_members(p)),
        forall|i: int|
            0 <= i < package_field_count() ==> member(package_members(p), #[trigger] package_key(i))
                == part_value(package_part(p, i)),
        others_of(package_members(p)) == p.others,
{
    let parts = package_parts(p);
    let keys = package_keys();
    let n = package_field_count();
    lemma_package_members(p);
    lemma_package_keys();
    lemma_package_parts(p);
    assert forall|i: int, j: int| 0 <= i < j < n implies #[trigger] keys(i) != #[trigger] keys(j) by {
        assert(package_key_position(package_key(i)) == i);
        assert(package_key_position(package_key(j)) == j);
    }
    assert forall|i: int| 0 <= i < n implies package_known()(#[trigger] keys(i)) by {
        assert(is_package_key(package_key(i)));
    }
    assert forall|k: int| 0 <= k < p.others.len() implies !package_known()(
        (#[trigger] p.others[k]).0,
    ) by {
        assert(!is_package_key(p.others[k].0));
    }
    lemma_joined_and_rest(parts, keys, n, p.others, package_known());
    assert forall|i: int| 0 <= i < n implies member(
        package_members(p),
        #[trigger] package_key(i),
    ) == part_value(package_part(p, i)) by {
        assert(keys(i) == package_key(i));
        assert(parts(i) == package_part(p, i));
    }
}

/// The object written for a bug contacting form reads back as the form.
pub proof fn lemma_bug_round_trip(b: BugModel, path: Seq<char>)
    ensures
        bug_of(bug_json(b), path) == Ok::<BugModel, ParseErrorModel>(b),
{
    let parts = |i: int| if i == 0 { text_field("email"@, b.email) } else { text_field("url"@, b.url) };
    let keys = |i: int| if i == 0 { "email"@ } else { "url"@ };
    reveal_strlit("email");
    reveal_strlit("url");
    assert("email"@.len() == 5 && "url"@.len() == 3);
    reveal_with_fuel(joined, 3);
    let m = joined(parts, 2);
    assert(m == text_field("email"@, b.email) + text_field("url"@, b.url));
    assert(part_of_key(parts(0), keys(0)) && part_of_key(parts(1), keys(1)));
    lemma_joined(parts, keys, 2);
    lemma_upsert_all_distinct(m);
    assert(keys(0) == "email"@ && keys(1) == "url"@);
    lemma_text_field(m, path, "email"@, b.email);
    lemma_text_field(m, path, "url"@, b.url);
}

/// The object written for a person reads back as the person.
pub proof fn lemma_person_round_trip(p: PersonModel, path: Seq<char>)
    ensures
        person_of(person_json(p), path) == Ok::<PersonModel, ParseErrorModel>(p),
{
    let parts = |i: int|
        if i == 0 {
            text_field("name"@, Some(p.name))
        } else if i == 1 {
            text_field("email"@, p.email)
        } else {
            text_field("url"@, p.url)
        };
    let keys = |i: int| if i == 0 { "name"@ } else if i == 1 { "email"@ } else { "url"@ };
    reveal_strlit("name");
    reveal_strlit("email");
    reveal_strlit("url");
    assert("name"@.len() == 4 && "email"@.len() == 5 && "url"@.len() == 3);
    reveal_with_fuel(joined, 4);
    let m = joined(parts, 3);
    assert(m == text_field("name"@, Some(p.name)) + text_field("email"@, p.email) + text_field(
        "url"@,
        p.url,
    ));
    assert(part_of_key(parts(0), keys(0)) && part_of_key(parts(1), keys(1)) && part_of_key(
        parts(2),
        keys(2),
    ));
    lemma_joined(parts, keys, 3);
    lemma_upsert_all_distinct(m);
    assert(keys(0) == "name"@ && keys(1) == "email"@ && keys(2) == "url"@);
    lemma_required_text_field(m, path, "name"@, p.name);
    lemma_text_field(m, path, "email"@, p.email);
    lemma_text_field(m, path, "url"@, p.url);
}

/// What is written for a reference to a person reads back as the
/// reference, in the shape that it had.
pub proof fn lemma_person_ref_round_trip(r: PersonReferenceModel, path: Seq<char>)
    ensures
        person_ref_of(person_ref_json(r), path) == Ok::<PersonReferenceModel, ParseErrorModel>(r),
{
    match r {
        PersonReferenceModel::Short(_) => {},
        PersonReferenceModel::Full(p) => {
            lemma_person_round_trip(p, path);
        },
    }
}

/// The first `n` items written for a list of references to persons read
/// back as the first `n` references.
pub proof fn lemma_people_upto(people: Seq<PersonReferenceModel>, path: Seq<char>, n: int)
    requires
        0 <= n <= people.len(),
    ensures
        people_upto(people_json(people)->Array_0, path, n) == Ok::<
            Seq<PersonReferenceModel>,
            ParseErrorModel,
        >(people.take(n)),
    decreases n,
{
    if n > 0 {
        lemma_people_upto(people, path, n - 1);
        lemma_person_ref_round_trip(people[n - 1], item_path(path));
        assert(people.take(n - 1).push(people[n - 1]) =~= people.take(n));
    } else {
        assert(people.take(0) =~= Seq::empty());
    }
}

/// The array written for a list of references to persons reads back as
/// the list.
pub proof fn lemma_people_round_trip(people: Seq<PersonReferenceModel>, path: Seq<char>)
    ensures
        people_of(people_json(people), path) == Ok::<Seq<PersonReferenceModel>, ParseErrorModel>(
            people,
        ),
{
    lemma_people_upto(people, path, people.len() as int);
    assert(people.take(people.len() as int) =~= people);
}

/// What is written for a reference to man pages reads back as the
/// reference, in the shape that it had.
pub proof fn lemma_man_round_trip(r: ManReferenceModel, path: Seq<char>)
    ensures
        man_of(man_json(r), path) == Ok::<ManReferenceModel, ParseErrorModel>(r),
{
    match r {
        ManReferenceModel::Single(_) => {},
        ManReferenceModel::Multiple(items) => {
            lemma_texts_round_trip(items, path);
        },
    }
}

/// The object written for a repository reads back as the repository.
pub proof fn lemma_repository_round_trip(r: RepositoryModel, path: Seq<char>)
    ensures
        repository_of(repository_json(r), path) == Ok::<RepositoryModel, ParseErrorModel>(r),
{
    let parts = |i: int|
        if i == 0 {
            text_field("type"@, Some(r.kind))
        } else if i == 1 {
            text_field("url"@, Some(r.url))
        } else {
            text_field("directory"@, r.directory)
        };
    let keys = |i: int| if i == 0 { "type"@ } else if i == 1 { "url"@ } else { "directory"@ };
    reveal_strlit("type");
    reveal_strlit("url");
    reveal_strlit("directory");
    assert("type"@.len() == 4 && "url"@.len() == 3 && "directory"@.len() == 9);
    reveal_with_fuel(joined, 4);
    let m = joined(parts, 3);
    assert(m == text_field("type"@, Some(r.kind)) + text_field("url"@, Some(r.url)) + text_field(
        "directory"@,
        r.directory,
    ));
    assert(part_of_key(parts(0), keys(0)) && part_of_key(parts(1), keys(1)) && part_of_key(
        parts(2),
        keys(2),
    ));
    lemma_joined(parts, keys, 3);
    lemma_upsert_all_distinct(m);
    assert(keys(0) == "type"@ && keys(1) == "url"@ && keys(2) == "directory"@);
    lemma_required_text_field(m, path, "type"@, r.kind);
    lemma_required_text_field(m, path, "url"@, r.url);
    lemma_text_field(m, path, "directory"@, r.directory);
}

/// What is written for a reference to a repository reads back as the
/// reference, in the shape that it had.
pub proof fn lemma_repository_ref_round_trip(r: RepositoryReferenceModel, path: Seq<char>)
    ensures
        repository_ref_of(repository_ref_json(r), path) == Ok::<
            RepositoryReferenceModel,
            ParseErrorModel,
        >(r),
{
    match r {
        RepositoryReferenceModel::Short(_) => {},
        RepositoryReferenceModel::Full(p) => {
            lemma_repository_round_trip(p, path);
        },
    }
}

/// The object written for the settings of pnpm reads back as the
/// settings, where the overrides hold no name twice.
pub proof fn lemma_pnpm_round_trip(p: PnpmModel, path: Seq<char>)
    requires
        p.overrides is Some ==> distinct_names(p.overrides->0),
    ensures
        pnpm_of(pnpm_json(p), path) == Ok::<PnpmModel, ParseErrorModel>(p),
{
    let m = opt_text_map_field("overrides"@, p.overrides);
    assert(distinct_keys(m));
    lemma_upsert_all_distinct(m);
    lemma_member_from(m, "overrides"@, 0);
    if m.len() == 1 {
        lemma_member_at(m, "overrides"@, 0, 0);
    }
    lemma_opt_text_map_field(m, path, "overrides"@, p.overrides);
}

/// A bug contacting form reads back from what was written for it.
pub proof fn lemma_bug_field(m: Members, prefix: Seq<char>, key: Seq<char>, value: Option<BugModel>)
    requires
        member(m, key) == part_value(bug_field(key, value)),
    ensures
        opt_bug_in(m, prefix, key) == Ok::<Option<BugModel>, ParseErrorModel>(value),
{
    reveal(opt_bug_in);
    if value is Some {
        lemma_bug_round_trip(value->0, path_of(prefix, key));
    }
}

/// A reference to a person reads back from what was written for it.
pub proof fn lemma_person_ref_field(
    m: Members,
    prefix: Seq<char>,
    key: Seq<char>,
    value: Option<PersonReferenceModel>,
)
    requires
        member(m, key) == part_value(person_ref_field(key, value)),
    ensures
        opt_person_ref_in(m, prefix, key) == Ok::<Option<PersonReferenceModel>, ParseErrorModel>(
            value,
        ),
{
    reveal(opt_person_ref_in);
    if value is Some {
        lemma_person_ref_round_trip(value->0, path_of(prefix, key));
    }
}

/// A list of references to persons reads back from what was written for it.
pub proof fn lemma_people_field(
    m: Members,
    prefix: Seq<char>,
    key: Seq<char>,
    value: Seq<PersonReferenceModel>,
)
    requires
        member(m, key) == part_value(people_field(key, value)),
    ensures
        people_in(m, prefix, key) == Ok::<Seq<PersonReferenceModel>, ParseErrorModel>(value),
{
    reveal(people_in);
    if value.len() == 0 {
        assert(value =~= Seq::empty());
    } else {
        lemma_people_round_trip(value, path_of(prefix, key));
    }
}

/// A reference to man pages reads back from what was written for it.
pub proof fn lemma_man_field(
    m: Members,
    prefix: Seq<char>,
    key: Seq<char>,
    value: Option<ManReferenceModel>,
)
    requires
        member(m, key) == part_value(man_field(key, value)),
    ensures
        opt_man_in(m, prefix, key) == Ok::<Option<ManReferenceModel>, ParseErrorModel>(value),
{
    reveal(opt_man_in);
    if value is Some {
        lemma_man_round_trip(value->0, path_of(prefix, key));
    }
}

/// A reference to a repository reads back from what was written for it.
pub proof fn lemma_repository_ref_field(
    m: Members,
    prefix: Seq<char>,
    key: Seq<char>,
    value: Option<RepositoryReferenceModel>,
)
    requires
        member(m, key) == part_value(repository_ref_field(key, value)),
    ensures
        opt_repository_ref_in(m, prefix, key) == Ok::<
            Option<RepositoryReferenceModel>,
            ParseErrorModel,
        >(value),
{
    reveal(opt_repository_ref_in);
    if value is Some {
        lemma_repository_ref_round_trip(value->0, path_of(prefix, key));
    }
}

/// The settings of pnpm reads back from what was written for it.
pub proof fn lemma_pnpm_field(
    m: Members,
    prefix: Seq<char>,
    key: Seq<char>,
    value: Option<PnpmModel>,
)
    requires
        member(m, key) == part_value(pnpm_field(key, value)),
        value is Some && value->0.overrides is Some ==> distinct_names(value->0.overrides->0),
    ensures
        opt_pnpm_in(m, prefix, key) == Ok::<Option<PnpmModel>, ParseErrorModel>(value),
{
    reveal(opt_pnpm_in);
    if value is Some {
        lemma_pnpm_round_trip(value->0, path_of(prefix, key));
    }
}

/// Reading what was written. The document written for a well-formed
/// manifest reads back as that manifest, field for field, the other
/// members included.
pub proof fn lemma_package_round_trip(p: PackageModel)
    requires
        p.wf(),
    ensures
        package_json(p) == JsonModel::Object(package_members(p)),
        package_of_json(package_json(p)) == Ok::<PackageModel, ParseErrorModel>(p),
{
    let m = package_members(p);
    reveal(opt_value_in);
    lemma_package_written(p);
    lemma_upsert_all_distinct(m);
    assert(package_key(0) == "name"@);
    lemma_text_field(m, ""@, "name"@, p.name);
    assert(package_key(1) == "version"@);
    lemma_text_field(m, ""@, "version"@, p.version);
    assert(package_key(2) == "description"@);
    lemma_text_field(m, ""@, "description"@, p.description);
    assert(package_key(3) == "keywords"@);
    lemma_texts_field(m, ""@, "keywords"@, p.keywords);
    assert(package_key(4) == "homepage"@);
    lemma_text_field(m, ""@, "homepage"@, p.homepage);
    assert(package_key(5) == "bugs"@);
    lemma_bug_field(m, ""@, "bugs"@, p.bugs);
    assert(package_key(6) == "license"@);
    lemma_text_field(m, ""@, "license"@, p.license);
    assert(package_key(7) == "author"@);
    lemma_person_ref_field(m, ""@, "author"@, p.author);
    assert(package_key(8) == "contributors"@);
    lemma_people_field(m, ""@, "contributors"@, p.contributors);
    assert(package_key(9) == "files"@);
    lemma_texts_field(m, ""@, "files"@, p.files);
    assert(package_key(10) == "main"@);
    lemma_text_field(m, ""@, "main"@, p.main);
    assert(package_key(11) == "browser"@);
    lemma_text_field(m, ""@, "browser"@, p.browser);
    assert(package_key(12) == "bin"@);
    lemma_text_map_field(m, ""@, "bin"@, p.bin);
    assert(package_key(13) == "man"@);
    lemma_man_field(m, ""@, "man"@, p.man);
    assert(package_key(14) == "repository"@);
    lemma_repository_ref_field(m, ""@, "repository"@, p.repository);
    assert(package_key(15) == "scripts"@);
    lemma_text_map_field(m, ""@, "scripts"@, p.scripts);
    assert(package_key(16) == "dependencies"@);
    lemma_text_map_field(m, ""@, "dependencies"@, p.dependencies);
    assert(package_key(17) == "devDependencies"@);
    lemma_text_map_field(m, ""@, "devDependencies"@, p.dev_dependencies);
    assert(package_key(18) == "peerDependencies"@);
    lemma_text_map_field(m, ""@, "peerDependencies"@, p.peer_dependencies);
    assert(package_key(19) == "bundledDependencies"@);
    lemma_text_map_field(m, ""@, "bundledDependencies"@, p.bundled_dependencies);
    assert(package_key(20) == "optionalDependencies"@);
    lemma_text_map_field(m, ""@, "optionalDependencies"@, p.optional_dependencies);
    assert(package_key(21) == "engines"@);
    lemma_text_map_field(m, ""@, "engines"@, p.engines);
    assert(package_key(22) == "private"@);
    lemma_flag_field(m, ""@, "private"@, p.private);
    assert(package_key(23) == "os"@);
    lemma_texts_field(m, ""@, "os"@, p.os);
    assert(package_key(24) == "cpu"@);
    lemma_texts_field(m, ""@, "cpu"@, p.cpu);
    assert(package_key(25) == "config"@);
    assert(package_key(26) == "pnpm"@);
    lemma_pnpm_field(m, ""@, "pnpm"@, p.pnpm);
}

/// The mappings of a manifest read from a document in which no object
/// holds a key twice hold no name twice.
pub proof fn lemma_package_names(m: Members)
    requires
        keys_differ(JsonModel::Object(m)),
        package_of_members(m) is Ok,
    ensures
        package_of_members(m)->Ok_0.names_are_distinct(),
{
    lemma_text_map_in_names(m, ""@, "bin"@);
    lemma_text_map_in_names(m, ""@, "scripts"@);
    lemma_text_map_in_names(m, ""@, "dependencies"@);
    lemma_text_map_in_names(m, ""@, "devDependencies"@);
    lemma_text_map_in_names(m, ""@, "peerDependencies"@);
    lemma_text_map_in_names(m, ""@, "bundledDependencies"@);
    lemma_text_map_in_names(m, ""@, "optionalDependencies"@);
    lemma_text_map_in_names(m, ""@, "engines"@);
    lemma_unknown_members(m, package_known());
    reveal(opt_pnpm_in);
    let found = member(m, "pnpm"@);
    lemma_member_keys_differ(m, "pnpm"@);
    let p = package_of_members(m)->Ok_0;
    if p.pnpm is Some && p.pnpm->0.overrides is Some {
        let inner = present(found)->Object_0;
        lemma_opt_text_map_in_names(inner, path_of(""@, "pnpm"@), "overrides"@);
    }
}

/// Reading, writing and reading again. Where a document in which no
/// object holds a key twice reads as a manifest, that manifest is well
/// formed, and the document written for it reads as the same manifest,
/// field for field, the other members included.
pub proof fn lemma_package_reread(j: JsonModel)
    requires
        keys_differ(j),
        package_of_json(j) is Ok,
    ensures
        package_of_json(j)->Ok_0.wf(),
        package_of_json(package_json(package_of_json(j)->Ok_0)) == package_of_json(j),
{
    let m = j->Object_0;
    reveal(opt_value_in);
    lemma_unknown_members(m, package_known());
    lemma_package_names(m);
    lemma_package_round_trip(package_of_members(m)->Ok_0);
}

/// Unset fields are left out, set ones are written. In the document
/// written for a well-formed manifest the key `private` is absent where
/// the privacy is unset, and leads to the boolean where it is set, be it
/// false.
pub proof fn lemma_private_written(p: PackageModel)
    requires
        p.wf(),
    ensures
        package_json(p) == JsonModel::Object(package_members(p)),
        member(package_members(p), "private"@) == (match p.private {
            Some(b) => Some(JsonModel::Bool(b)),
            None => None,
        }),
{
    lemma_package_written(p);
    lemma_upsert_all_distinct(package_members(p));
    assert(package_key(22) == "private"@);
}

/// The shape of a reference to a person is decided by the kind of the
/// value alone. A string gives the short shape, an object gives the full
/// shape or the error of reading the person, and every other kind is a
/// shape mismatch at the path of the value.
pub proof fn lemma_person_ref_shape(j: JsonModel, path: Seq<char>)
    ensures
        j is String ==> person_ref_of(j, path) == Ok::<PersonReferenceModel, ParseErrorModel>(
            PersonReferenceModel::Short(j->String_0),
        ),
        j is Object ==> match person_ref_of(j, path) {
            Ok(r) => r is Full && person_of(j, path) == Ok::<PersonModel, ParseErrorModel>(r->Full_0),
            Err(e) => person_of(j, path) == Err::<PersonModel, ParseErrorModel>(e),
        },
        !(j is String) && !(j is Object) ==> person_ref_of(j, path) == Err::<
            PersonReferenceModel,
            ParseErrorModel,
        >(
            ParseErrorModel::ShapeMismatch {
                field_path: path,
                expected_kinds: seq![JsonKind::String, JsonKind::Object],
                actual_kind: kind_of(j),
            },
        ),
{
}

/// The shape of a reference to a repository is decided by the kind of the
/// value alone. A string gives the short shape, an object gives the full
/// shape or the error of reading the repository, and every other kind is a
/// shape mismatch at the path of the value.
pub proof fn lemma_repository_ref_shape(j: JsonModel, path: Seq<char>)
    ensures
        j is String ==> repository_ref_of(j, path) == Ok::<
            RepositoryReferenceModel,
            ParseErrorModel,
        >(RepositoryReferenceModel::Short(j->String_0)),
        j is Object ==> match repository_ref_of(j, path) {
            Ok(r) => r is Full && repository_of(j, path) == Ok::<RepositoryModel, ParseErrorModel>(
                r->Full_0,
            ),
            Err(e) => repository_of(j, path) == Err::<RepositoryModel, ParseErrorModel>(e),
        },
        !(j is String) && !(j is Object) ==> repository_ref_of(j, path) == Err::<
            RepositoryReferenceModel,
            ParseErrorModel,
        >(
            ParseErrorModel::ShapeMismatch {
                field_path: path,
                expected_kinds: seq![JsonKind::String, JsonKind::Object],
                actual_kind: kind_of(j),
            },
        ),
{
}

/// The shape of a reference to man pages is decided by the kind of the
/// value alone. A string gives the single shape, an array gives the
/// multiple shape or the error of reading its items, and every other kind
/// is a shape mismatch at the path of the value.
pub proof fn lemma_man_shape(j: JsonModel, path: Seq<char>)
    ensures
        j is String ==> man_of(j, path) == Ok::<ManReferenceModel, ParseErrorModel>(
            ManReferenceModel::Single(j->String_0),
        ),
        j is Array ==> match man_of(j, path) {
            Ok(r) => r is Multiple,
            Err(e) => e is ShapeMismatch,
        },
        !(j is String) && !(j is Array) ==> man_of(j, path) == Err::<
            ManReferenceModel,
            ParseErrorModel,
        >(
            ParseErrorModel::ShapeMismatch {
                field_path: path,
                expected_kinds: seq![JsonKind::String, JsonKind::Array],
                actual_kind: kind_of(j),
            },
        ),
{
    if j is Array {
        lemma_texts_failure(j->Array_0, path, j->Array_0.len() as int);
    }
}

} // verus!
