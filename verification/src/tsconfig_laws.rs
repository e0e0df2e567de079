//! What holds of reading and writing project configurations.

use vstd::prelude::*;
use crate::error::{ParseErrorModel, item_path, path_of};
use crate::field_laws::{
    lemma_flag_field, lemma_member_keys_differ, lemma_opt_texts_field, lemma_required_flag_field,
    lemma_required_text_field, lemma_text_field,
};
use crate::fields::{flag_field, opt_texts_field, present, text_field};
use crate::json::{JsonKind, JsonModel, Members, distinct_keys, keys_differ, kind_of, member};
use crate::members::{
    joined, lemma_joined, lemma_joined_and_rest, lemma_unknown_members, lemma_upsert_all_distinct,
    part_of_key, part_value,
};
use crate::options::{opt_paths_in, paths_upto};
use crate::options_laws::lemma_options_round_trip;
use crate::tsconfig::{
    ReferenceModel, ReferencesModel, TsConfigModel, TypeAcquisitionModel, acquisition_field,
    acquisition_json, acquisition_of, is_tsconfig_key, opt_acquisition_in, opt_options_in,
    opt_references_in, options_field, reference_json, reference_of, references_field,
    references_json, references_of, references_upto, tsconfig_json, tsconfig_known,
    tsconfig_members, tsconfig_of_json, tsconfig_others_of,
};

verus! {

/// The object written for a reference to a project reads back as the
/// reference.
pub proof fn lemma_reference_round_trip(r: ReferenceModel, path: Seq<char>)
    ensures
        reference_of(reference_json(r), path) == Ok::<ReferenceModel, ParseErrorModel>(r),
{
    let parts = |i: int| if i == 0 { text_field("path"@, Some(r.path)) } else { flag_field("prepend"@, r.prepend) };
    let keys = |i: int| if i == 0 { "path"@ } else { "prepend"@ };
    reveal_strlit("path");
    reveal_strlit("prepend");
    assert("path"@.len() == 4 && "prepend"@.len() == 7);
    reveal_with_fuel(joined, 3);
    let m = joined(parts, 2);
    assert(m == text_field("path"@, Some(r.path)) + flag_field("prepend"@, r.prepend));
    assert(part_of_key(parts(0), keys(0)) && part_of_key(parts(1), keys(1)));
    lemma_joined(parts, keys, 2);
    lemma_upsert_all_distinct(m);
    assert(keys(0) == "path"@ && keys(1) == "prepend"@);
    lemma_required_text_field(m, path, "path"@, r.path);
    lemma_flag_field(m, path, "prepend"@, r.prepend);
}

/// The first `n` items written for a list of references read back as the
/// first `n` references.
pub proof fn lemma_references_upto(items: Seq<ReferenceModel>, path: Seq<char>, n: int)
    requires
        0 <= n <= items.len(),
    ensures
        references_upto(
            references_json(ReferencesModel::References(items))->Array_0,
            path,
            n,
        ) == Ok::<Seq<ReferenceModel>, ParseErrorModel>(items.take(n)),
    decreases n,
{
    if n > 0 {
        lemma_references_upto(items, path, n - 1);
        lemma_reference_round_trip(items[n - 1], item_path(path));
        assert(items.take(n - 1).push(items[n - 1]) =~= items.take(n));
    } else {
        assert(items.take(0) =~= Seq::empty());
    }
}

/// What is written for the references setting reads back as the setting,
/// in the shape that it had.
pub proof fn lemma_references_round_trip(r: ReferencesModel, path: Seq<char>)
    ensures
        references_of(references_json(r), path) == Ok::<ReferencesModel, ParseErrorModel>(r),
{
    match r {
        ReferencesModel::Bool(_) => {},
        ReferencesModel::References(items) => {
            lemma_references_upto(items, path, items.len() as int);
            assert(items.take(items.len() as int) =~= items);
        },
    }
}

/// What is written for the type acquisition setting reads back as the
/// setting, in the shape that it had.
pub proof fn lemma_acquisition_round_trip(a: TypeAcquisitionModel, path: Seq<char>)
    ensures
        acquisition_of(acquisition_json(a), path) == Ok::<TypeAcquisitionModel, ParseErrorModel>(a),
{
    match a {
        TypeAcquisitionModel::Bool(_) => {},
        TypeAcquisitionModel::Object {
            enable,
            includes,
            exclude,
            disable_filename_based_type_acquisition,
        } => {
            let parts = |i: int|
                if i == 0 {
                    flag_field("enable"@, Some(enable))
                } else if i == 1 {
                    opt_texts_field("include"@, includes)
                } else if i == 2 {
                    opt_texts_field("exclude"@, exclude)
                } else {
                    flag_field(
                        "disableFilenameBasedTypeAcquisition"@,
                        disable_filename_based_type_acquisition,
                    )
                };
            let keys = |i: int|
                if i == 0 {
                    "enable"@
                } else if i == 1 {
                    "include"@
                } else if i == 2 {
                    "exclude"@
                } else {
                    "disableFilenameBasedTypeAcquisition"@
                };
            reveal_strlit("enable");
            reveal_strlit("include");
            reveal_strlit("exclude");
            reveal_strlit("disableFilenameBasedTypeAcquisition");
            assert("enable"@.len() == 6 && "include"@.len() == 7 && "include"@[0] == 'i');
            assert("exclude"@.len() == 7 && "exclude"@[0] == 'e');
            assert("disableFilenameBasedTypeAcquisition"@.len() == 35);
            reveal_with_fuel(joined, 5);
            let m = joined(parts, 4);
            assert(m == flag_field("enable"@, Some(enable)) + opt_texts_field("include"@, includes)
                + opt_texts_field("exclude"@, exclude) + flag_field(
                "disableFilenameBasedTypeAcquisition"@,
                disable_filename_based_type_acquisition,
            ));
            assert(part_of_key(parts(0), keys(0)) && part_of_key(parts(1), keys(1)) && part_of_key(
                parts(2),
                keys(2),
            ) && part_of_key(parts(3), keys(3)));
            lemma_joined(parts, keys, 4);
            lemma_upsert_all_distinct(m);
            assert(keys(0) == "enable"@ && keys(1) == "include"@ && keys(2) == "exclude"@ && keys(3)
                == "disableFilenameBasedTypeAcquisition"@);
            lemma_required_flag_field(m, path, "enable"@, enable);
            lemma_opt_texts_field(m, path, "include"@, includes);
            lemma_opt_texts_field(m, path, "exclude"@, exclude);
            lemma_flag_field(
                m,
                path,
                "disableFilenameBasedTypeAcquisition"@,
                disable_filename_based_type_acquisition,
            );
        },
    }
}

impl TsConfigModel {
    /// Every name among the compiler options is normal.
    pub open spec fn names_are_normal(self) -> bool {
        self.compiler_options is Some ==> self.compiler_options->0.names_are_normal()
    }
}

/// The key of the field of a configuration at a position in declared
/// order.
pub open spec fn tsconfig_key(i: int) -> Seq<char> {
    if i == 0 {
        "exclude"@
    } else if i == 1 {
        "extends"@
    } else if i == 2 {
        "files"@
    } else if i == 3 {
        "include"@
    } else if i == 4 {
        "references"@
    } else if i == 5 {
        "typeAcquisition"@
    } else {
        "compilerOptions"@
    }
}

/// What is written for the field of a configuration at a position in
/// declared order.
pub open spec fn tsconfig_part(c: TsConfigModel, i: int) -> Members {
    if i == 0 {
        opt_texts_field("exclude"@, c.exclude)
    } else if i == 1 {
        text_field("extends"@, c.extends)
    } else if i == 2 {
        opt_texts_field("files"@, c.files)
    } else if i == 3 {
        opt_texts_field("include"@, c.includes)
    } else if i == 4 {
        references_field("references"@, c.references)
    } else if i == 5 {
        acquisition_field("typeAcquisition"@, c.type_acquisition)
    } else {
        options_field("compilerOptions"@, c.compiler_options)
    }
}

/// In what is written for a well-formed configuration no key occurs
/// twice, the key of each field leads to what was written for the field
/// (nothing where the field is unset), and the members that are no field
/// are the other members of the configuration.
pub proof fn lemma_tsconfig_written(c: TsConfigModel)
    requires
        c.others_are_unknown(),
        distinct_keys(c.others),
    ensures
        tsconfig_json(c) == JsonModel::Object(tsconfig_members(c)),
        forall|i: int|
            0 <= i < 7 ==> member(tsconfig_members(c), #[trigger] tsconfig_key(i)) == part_value(
                tsconfig_part(c, i),
            ),
        tsconfig_others_of(tsconfig_members(c)) == c.others,
{
    let parts = |i: int| tsconfig_part(c, i);
    let keys = |i: int| tsconfig_key(i);
    reveal_strlit("exclude");
    reveal_strlit("extends");
    reveal_strlit("files");
    reveal_strlit("include");
    reveal_strlit("references");
    reveal_strlit("typeAcquisition");
    reveal_strlit("compilerOptions");
    assert("exclude"@.len() == 7 && "exclude"@[2] == 'c');
    assert("extends"@.len() == 7 && "extends"@[2] == 't');
    assert("files"@.len() == 5);
    assert("include"@.len() == 7 && "include"@[2] == 'c' && "include"@[0] == 'i');
    assert("exclude"@[0] == 'e');
    assert("references"@.len() == 10);
    assert("typeAcquisition"@.len() == 15 && "typeAcquisition"@[0] == 't');
    assert("compilerOptions"@.len() == 15 && "compilerOptions"@[0] == 'c');
    reveal_with_fuel(joined, 8);
    assert(tsconfig_members(c) == joined(parts, 7) + c.others);
    assert forall|i: int| 0 <= i < 7 implies part_of_key(#[trigger] parts(i), keys(i)) by {}
    assert forall|i: int, j: int| 0 <= i < j < 7 implies #[trigger] keys(i) != #[trigger] keys(j) by {}
    assert forall|i: int| 0 <= i < 7 implies tsconfig_known()(#[trigger] keys(i)) by {}
    assert forall|k: int| 0 <= k < c.others.len() implies !tsconfig_known()(
        (#[trigger] c.others[k]).0,
    ) by {
        assert(!is_tsconfig_key(c.others[k].0));
    }
    lemma_joined_and_rest(parts, keys, 7, c.others, tsconfig_known());
    lemma_upsert_all_distinct(tsconfig_members(c));
    assert forall|i: int| 0 <= i < 7 implies member(
        tsconfig_members(c),
        #[trigger] tsconfig_key(i),
    ) == part_value(tsconfig_part(c, i)) by {
        assert(keys(i) == tsconfig_key(i));
        assert(parts(i) == tsconfig_part(c, i));
    }
}

/// Reading what was written. The document written for a well-formed
/// configuration whose names are normal reads back as that configuration.
pub proof fn lemma_tsconfig_round_trip(c: TsConfigModel)
    requires
        c.wf(),
        c.names_are_normal(),
    ensures
        tsconfig_of_json(tsconfig_json(c)) == Ok::<TsConfigModel, ParseErrorModel>(c),
{
    let m = tsconfig_members(c);
    lemma_tsconfig_written(c);
    assert(tsconfig_key(0) == "exclude"@);
    lemma_opt_texts_field(m, ""@, "exclude"@, c.exclude);
    assert(tsconfig_key(1) == "extends"@);
    lemma_text_field(m, ""@, "extends"@, c.extends);
    assert(tsconfig_key(2) == "files"@);
    lemma_opt_texts_field(m, ""@, "files"@, c.files);
    assert(tsconfig_key(3) == "include"@);
    lemma_opt_texts_field(m, ""@, "include"@, c.includes);
    assert(tsconfig_key(4) == "references"@);
    reveal(opt_references_in);
    if c.references is Some {
        lemma_references_round_trip(c.references->0, path_of(""@, "references"@));
    }
    assert(tsconfig_key(5) == "typeAcquisition"@);
    reveal(opt_acquisition_in);
    if c.type_acquisition is Some {
        lemma_acquisition_round_trip(c.type_acquisition->0, path_of(""@, "typeAcquisition"@));
    }
    assert(tsconfig_key(6) == "compilerOptions"@);
    reveal(opt_options_in);
    if c.compiler_options is Some {
        lemma_options_round_trip(c.compiler_options->0, path_of(""@, "compilerOptions"@));
    }
}

/// The entries read from the members of an object carry the keys of the
/// members, in order.
pub proof fn lemma_paths_keys(m: Members, path: Seq<char>, n: int)
    requires
        0 <= n <= m.len(),
        paths_upto(m, path, n) is Ok,
    ensures
        paths_upto(m, path, n)->Ok_0.len() == n,
        forall|k: int| 0 <= k < n ==> (#[trigger] paths_upto(m, path, n)->Ok_0[k]).0 == m[k].0,
    decreases n,
{
    if n > 0 {
        lemma_paths_keys(m, path, n - 1);
    }
}

/// A configuration read from a document in which no object holds a key
/// twice is well formed.
pub proof fn lemma_tsconfig_wf(j: JsonModel)
    requires
        keys_differ(j),
        tsconfig_of_json(j) is Ok,
    ensures
        tsconfig_of_json(j)->Ok_0.wf(),
{
    let m = j->Object_0;
    let c = tsconfig_of_json(j)->Ok_0;
    lemma_unknown_members(m, tsconfig_known());
    reveal(opt_options_in);
    reveal(opt_paths_in);
    lemma_member_keys_differ(m, "compilerOptions"@);
    if c.compiler_options is Some && c.compiler_options->0.paths is Some {
        let inner = present(member(m, "compilerOptions"@))->Object_0;
        let outer = path_of(""@, "compilerOptions"@);
        lemma_member_keys_differ(inner, "paths"@);
        let held = present(member(inner, "paths"@))->Object_0;
        lemma_paths_keys(held, path_of(outer, "paths"@), held.len() as int);
    }
}

/// Reading, writing and reading again. Where a document in which no
/// object holds a key twice reads as a configuration whose names are
/// normal, the document written for that configuration reads as the same
/// configuration.
pub proof fn lemma_tsconfig_reread(j: JsonModel)
    requires
        keys_differ(j),
        tsconfig_of_json(j) is Ok,
        tsconfig_of_json(j)->Ok_0.names_are_normal(),
    ensures
        tsconfig_of_json(tsconfig_json(tsconfig_of_json(j)->Ok_0)) == tsconfig_of_json(j),
{
    lemma_tsconfig_wf(j);
    lemma_tsconfig_round_trip(tsconfig_of_json(j)->Ok_0);
}

/// The shape of the references setting is decided by the kind of the
/// value alone. A boolean gives the boolean variant, an array gives the
/// list variant or the error of reading its items, and every other kind is
/// a shape mismatch at the path of the value.
pub proof fn lemma_references_shape(j: JsonModel, path: Seq<char>)
    ensures
        j is Bool ==> references_of(j, path) == Ok::<ReferencesModel, ParseErrorModel>(
            ReferencesModel::Bool(j->Bool_0),
        ),
        j is Array ==> match references_of(j, path) {
            Ok(r) => r is References,
            Err(e) => references_upto(j->Array_0, path, j->Array_0.len() as int) == Err::<
                Seq<ReferenceModel>,
                ParseErrorModel,
            >(e),
        },
        !(j is Bool) && !(j is Array) ==> references_of(j, path) == Err::<
            ReferencesModel,
            ParseErrorModel,
        >(
            ParseErrorModel::ShapeMismatch {
                field_path: path,
                expected_kinds: seq![JsonKind::Bool, JsonKind::Array],
                actual_kind: kind_of(j),
            },
        ),
{
}

/// The shape of the type acquisition setting is decided by the kind of
/// the value alone. A boolean gives the boolean variant, an object gives
/// the structured variant or the error of reading one of its members, and
/// every other kind is a shape mismatch at the path of the value.
pub proof fn lemma_acquisition_shape(j: JsonModel, path: Seq<char>)
    ensures
        j is Bool ==> acquisition_of(j, path) == Ok::<TypeAcquisitionModel, ParseErrorModel>(
            TypeAcquisitionModel::Bool(j->Bool_0),
        ),
        j is Object && acquisition_of(j, path) is Ok ==> acquisition_of(j, path)->Ok_0 is Object,
        !(j is Bool) && !(j is Object) ==> acquisition_of(j, path) == Err::<
            TypeAcquisitionModel,
            ParseErrorModel,
        >(
            ParseErrorModel::ShapeMismatch {
                field_path: path,
                expected_kinds: seq![JsonKind::Bool, JsonKind::Object],
                actual_kind: kind_of(j),
            },
        ),
{
}

} // verus!
