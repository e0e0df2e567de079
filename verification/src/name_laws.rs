//! What holds of the open enumerations.

use vstd::prelude::*;
use crate::names::{
    JsxModel, LibModel, ModuleModel, ModuleResolutionModeModel, TargetModel, is_jsx_key, is_lib_key,
    is_module_key, is_resolution_key, is_target_key, jsx_is_normal, jsx_key, jsx_of_key,
    jsx_of_name, lib_is_normal, lib_key, lib_of_key, lib_of_name, module_is_normal, module_key,
    module_of_key, module_of_name, resolution_is_normal, resolution_key, resolution_of_key,
    resolution_of_name, target_is_normal, target_key, target_of_key, target_of_name,
};
use crate::text::uppercase_of;

verus! {

/// Casing does not matter. Two names with the same upper-case form stand
/// for the same value.
pub proof fn lemma_target_casing(a: Seq<char>, b: Seq<char>)
    requires
        uppercase_of(a) == uppercase_of(b),
    ensures
        target_of_name(a) == target_of_name(b),
{
}

/// Unknown names are kept. A name whose upper-case form is not in the
/// table gives the unknown value that carries that form, and a name whose
/// upper-case form is in the table gives a known value.
pub proof fn lemma_target_unknown(raw: Seq<char>)
    ensures
        !is_target_key(uppercase_of(raw)) ==> target_of_name(raw) == TargetModel::Other(uppercase_of(raw)),
        is_target_key(uppercase_of(raw)) ==> !(target_of_name(raw) is Other),
{
}

/// The name of a value is the key under which the table holds it: the
/// value of a name has that name, and a value whose name is looked up is
/// found again, unless it is an unknown value that carries a known name.
pub proof fn lemma_target_key(key: Seq<char>, value: TargetModel)
    ensures
        target_key(target_of_key(key)) == key,
        !(value is Other && is_target_key(value->Other_0)) ==> target_of_key(target_key(value)) == value,
{
    reveal_strlit("ES3");
    assert("ES3"@.len() == 3 && "ES3"@[2] == '3');
    reveal_strlit("ES5");
    assert("ES5"@.len() == 3 && "ES5"@[2] == '5');
    reveal_strlit("ES2015");
    assert("ES2015"@.len() == 6 && "ES2015"@[2] == '2' && "ES2015"@[5] == '5');
    reveal_strlit("ES6");
    assert("ES6"@.len() == 3 && "ES6"@[2] == '6');
    reveal_strlit("ES2016");
    assert("ES2016"@.len() == 6 && "ES2016"@[2] == '2' && "ES2016"@[5] == '6');
    reveal_strlit("ES7");
    assert("ES7"@.len() == 3 && "ES7"@[2] == '7');
    reveal_strlit("ES2017");
    assert("ES2017"@.len() == 6 && "ES2017"@[2] == '2' && "ES2017"@[5] == '7');
    reveal_strlit("ES2018");
    assert("ES2018"@.len() == 6 && "ES2018"@[2] == '2' && "ES2018"@[5] == '8');
    reveal_strlit("ES2019");
    assert("ES2019"@.len() == 6 && "ES2019"@[2] == '2' && "ES2019"@[5] == '9');
    reveal_strlit("ES2020");
    assert("ES2020"@.len() == 6 && "ES2020"@[2] == '2' && "ES2020"@[5] == '0');
    reveal_strlit("ESNEXT");
    assert("ESNEXT"@.len() == 6 && "ESNEXT"@[2] == 'N' && "ESNEXT"@[5] == 'T');
}

/// Writing a name and reading it again. A normal value is what its own
/// name stands for.
pub proof fn lemma_target_reread(value: TargetModel)
    requires
        target_is_normal(value),
    ensures
        target_of_name(target_key(value)) == value,
{
    lemma_target_key(target_key(value), value);
}

/// The value of a name is normal where putting the name in upper case a
/// second time changes nothing.
pub proof fn lemma_target_normal(raw: Seq<char>)
    requires
        uppercase_of(uppercase_of(raw)) == uppercase_of(raw),
    ensures
        target_is_normal(target_of_name(raw)),
{
    lemma_target_key(uppercase_of(raw), target_of_name(raw));
}

/// Casing does not matter. Two names with the same upper-case form stand
/// for the same value.
pub proof fn lemma_module_casing(a: Seq<char>, b: Seq<char>)
    requires
        uppercase_of(a) == uppercase_of(b),
    ensures
        module_of_name(a) == module_of_name(b),
{
}

/// Unknown names are kept. A name whose upper-case form is not in the
/// table gives the unknown value that carries that form, and a name whose
/// upper-case form is in the table gives a known value.
pub proof fn lemma_module_unknown(raw: Seq<char>)
    ensures
        !is_module_key(uppercase_of(raw)) ==> module_of_name(raw) == ModuleModel::Other(uppercase_of(raw)),
        is_module_key(uppercase_of(raw)) ==> !(module_of_name(raw) is Other),
{
}

/// The name of a value is the key under which the table holds it: the
/// value of a name has that name, and a value whose name is looked up is
/// found again, unless it is an unknown value that carries a known name.
pub proof fn lemma_module_key(key: Seq<char>, value: ModuleModel)
    ensures
        module_key(module_of_key(key)) == key,
        !(value is Other && is_module_key(value->Other_0)) ==> module_of_key(module_key(value)) == value,
{
    reveal_strlit("COMMONJS");
    assert("COMMONJS"@.len() == 8 && "COMMONJS"@[0] == 'C' && "COMMONJS"@[4] == 'O');
    reveal_strlit("ES6");
    assert("ES6"@.len() == 3 && "ES6"@[0] == 'E');
    reveal_strlit("ES2015");
    assert("ES2015"@.len() == 6 && "ES2015"@[0] == 'E' && "ES2015"@[4] == '1');
    reveal_strlit("ES2020");
    assert("ES2020"@.len() == 6 && "ES2020"@[0] == 'E' && "ES2020"@[4] == '2');
    reveal_strlit("NONE");
    assert("NONE"@.len() == 4 && "NONE"@[0] == 'N');
    reveal_strlit("UMD");
    assert("UMD"@.len() == 3 && "UMD"@[0] == 'U');
    reveal_strlit("AMD");
    assert("AMD"@.len() == 3 && "AMD"@[0] == 'A');
    reveal_strlit("SYSTEM");
    assert("SYSTEM"@.len() == 6 && "SYSTEM"@[0] == 'S' && "SYSTEM"@[4] == 'E');
    reveal_strlit("ESNEXT");
    assert("ESNEXT"@.len() == 6 && "ESNEXT"@[0] == 'E' && "ESNEXT"@[4] == 'X');
}

/// Writing a name and reading it again. A normal value is what its own
/// name stands for.
pub proof fn lemma_module_reread(value: ModuleModel)
    requires
        module_is_normal(value),
    ensures
        module_of_name(module_key(value)) == value,
{
    lemma_module_key(module_key(value), value);
}

/// The value of a name is normal where putting the name in upper case a
/// second time changes nothing.
pub proof fn lemma_module_normal(raw: Seq<char>)
    requires
        uppercase_of(uppercase_of(raw)) == uppercase_of(raw),
    ensures
        module_is_normal(module_of_name(raw)),
{
    lemma_module_key(uppercase_of(raw), module_of_name(raw));
}

/// Casing does not matter. Two names with the same upper-case form stand
/// for the same value.
pub proof fn lemma_lib_casing(a: Seq<char>, b: Seq<char>)
    requires
        uppercase_of(a) == uppercase_of(b),
    ensures
        lib_of_name(a) == lib_of_name(b),
{
}

/// Unknown names are kept. A name whose upper-case form is not in the
/// table gives the unknown value that carries that form, and a name whose
/// upper-case form is in the table gives a known value.
pub proof fn lemma_lib_unknown(raw: Seq<char>)
    ensures
        !is_lib_key(uppercase_of(raw)) ==> lib_of_name(raw) == LibModel::Other(uppercase_of(raw)),
        is_lib_key(uppercase_of(raw)) ==> !(lib_of_name(raw) is Other),
{
}

/// The name of a value is the key under which the table holds it: the
/// value of a name has that name, and a value whose name is looked up is
/// found again, unless it is an unknown value that carries a known name.
pub proof fn lemma_lib_key(key: Seq<char>, value: LibModel)
    ensures
        lib_key(lib_of_key(key)) == key,
        !(value is Other && is_lib_key(value->Other_0)) ==> lib_of_key(lib_key(value)) == value,
{
    reveal_strlit("ES5");
    assert("ES5"@.len() == 3 && "ES5"@[2] == '5');
    reveal_strlit("ES2015");
    assert("ES2015"@.len() == 6 && "ES2015"@[2] == '2' && "ES2015"@[5] == '5');
    reveal_strlit("ES6");
    assert("ES6"@.len() == 3 && "ES6"@[2] == '6');
    reveal_strlit("ES2016");
    assert("ES2016"@.len() == 6 && "ES2016"@[2] == '2' && "ES2016"@[5] == '6');
    reveal_strlit("ES7");
    assert("ES7"@.len() == 3 && "ES7"@[2] == '7');
    reveal_strlit("ES2017");
    assert("ES2017"@.len() == 6 && "ES2017"@[2] == '2' && "ES2017"@[5] == '7');
    reveal_strlit("ES2018");
    assert("ES2018"@.len() == 6 && "ES2018"@[2] == '2' && "ES2018"@[5] == '8');
    reveal_strlit("ES2019");
    assert("ES2019"@.len() == 6 && "ES2019"@[2] == '2' && "ES2019"@[5] == '9');
    reveal_strlit("ES2020");
    assert("ES2020"@.len() == 6 && "ES2020"@[2] == '2' && "ES2020"@[5] == '0');
    reveal_strlit("ESNEXT");
    assert("ESNEXT"@.len() == 6 && "ESNEXT"@[2] == 'N' && "ESNEXT"@[5] == 'T');
    reveal_strlit("DOM");
    assert("DOM"@.len() == 3 && "DOM"@[2] == 'M');
    reveal_strlit("WEBWORKER");
    assert("WEBWORKER"@.len() == 9 && "WEBWORKER"@[2] == 'B' && "WEBWORKER"@[5] == 'R'
        && "WEBWORKER"@[8] == 'R');
    reveal_strlit("SCRIPTHOST");
    assert("SCRIPTHOST"@.len() == 10 && "SCRIPTHOST"@[2] == 'R' && "SCRIPTHOST"@[5] == 'T'
        && "SCRIPTHOST"@[8] == 'S');
    reveal_strlit("DOM.ITERABLE");
    assert("DOM.ITERABLE"@.len() == 12 && "DOM.ITERABLE"@[2] == 'M' && "DOM.ITERABLE"@[5] == 'T'
        && "DOM.ITERABLE"@[8] == 'A');
    reveal_strlit("ES2015.CORE");
    assert("ES2015.CORE"@.len() == 11 && "ES2015.CORE"@[2] == '2' && "ES2015.CORE"@[5] == '5'
        && "ES2015.CORE"@[8] == 'O');
    reveal_strlit("ES2015.GENERATOR");
    assert("ES2015.GENERATOR"@.len() == 16 && "ES2015.GENERATOR"@[2] == '2'
        && "ES2015.GENERATOR"@[5] == '5' && "ES2015.GENERATOR"@[8] == 'E');
    reveal_strlit("ES2015.ITERABLE");
    assert("ES2015.ITERABLE"@.len() == 15 && "ES2015.ITERABLE"@[2] == '2'
        && "ES2015.ITERABLE"@[5] == '5' && "ES2015.ITERABLE"@[8] == 'T');
    reveal_strlit("ES2015.PROMISE");
    assert("ES2015.PROMISE"@.len() == 14 && "ES2015.PROMISE"@[2] == '2'
        && "ES2015.PROMISE"@[5] == '5' && "ES2015.PROMISE"@[8] == 'R');
    reveal_strlit("ES2015.PROXY");
    assert("ES2015.PROXY"@.len() == 12 && "ES2015.PROXY"@[2] == '2' && "ES2015.PROXY"@[5] == '5'
        && "ES2015.PROXY"@[8] == 'R');
    reveal_strlit("ES2015.REFLECT");
    assert("ES2015.REFLECT"@.len() == 14 && "ES2015.REFLECT"@[2] == '2'
        && "ES2015.REFLECT"@[5] == '5' && "ES2015.REFLECT"@[8] == 'E');
    reveal_strlit("ES2015.SYMBOL");
    assert("ES2015.SYMBOL"@.len() == 13 && "ES2015.SYMBOL"@[2] == '2'
        && "ES2015.SYMBOL"@[5] == '5' && "ES2015.SYMBOL"@[8] == 'Y');
    reveal_strlit("ES2015.SYMBOL.WELLKNOWN");
    assert("ES2015.SYMBOL.WELLKNOWN"@.len() == 23 && "ES2015.SYMBOL.WELLKNOWN"@[2] == '2'
        && "ES2015.SYMBOL.WELLKNOWN"@[5] == '5' && "ES2015.SYMBOL.WELLKNOWN"@[8] == 'Y');
    reveal_strlit("ES2016.ARRAY.INCLUDE");
    assert("ES2016.ARRAY.INCLUDE"@.len() == 20 && "ES2016.ARRAY.INCLUDE"@[2] == '2'
        && "ES2016.ARRAY.INCLUDE"@[5] == '6' && "ES2016.ARRAY.INCLUDE"@[8] == 'R');
    reveal_strlit("ES2017.OBJECT");
    assert("ES2017.OBJECT"@.len() == 13 && "ES2017.OBJECT"@[2] == '2'
        && "ES2017.OBJECT"@[5] == '7' && "ES2017.OBJECT"@[8] == 'B');
    reveal_strlit("ES2017.INTL");
    assert("ES2017.INTL"@.len() == 11 && "ES2017.INTL"@[2] == '2' && "ES2017.INTL"@[5] == '7'
        && "ES2017.INTL"@[8] == 'N');
    reveal_strlit("ES2017.SHAREDMEMORY");
    assert("ES2017.SHAREDMEMORY"@.len() == 19 && "ES2017.SHAREDMEMORY"@[2] == '2'
        && "ES2017.SHAREDMEMORY"@[5] == '7' && "ES2017.SHAREDMEMORY"@[8] == 'H');
    reveal_strlit("ES2017.STRING");
    assert("ES2017.STRING"@.len() == 13 && "ES2017.STRING"@[2] == '2'
        && "ES2017.STRING"@[5] == '7' && "ES2017.STRING"@[8] == 'T');
    reveal_strlit("ES2017.TYPEDARRAYS");
    assert("ES2017.TYPEDARRAYS"@.len() == 18 && "ES2017.TYPEDARRAYS"@[2] == '2'
        && "ES2017.TYPEDARRAYS"@[5] == '7' && "ES2017.TYPEDARRAYS"@[8] == 'Y');
    reveal_strlit("ES2018.INTL");
    assert("ES2018.INTL"@.len() == 11 && "ES2018.INTL"@[2] == '2' && "ES2018.INTL"@[5] == '8'
        && "ES2018.INTL"@[8] == 'N');
    reveal_strlit("ES2018.PROMISE");
    assert("ES2018.PROMISE"@.len() == 14 && "ES2018.PROMISE"@[2] == '2'
        && "ES2018.PROMISE"@[5] == '8' && "ES2018.PROMISE"@[8] == 'R');
    reveal_strlit("ES2018.REGEXP");
    assert("ES2018.REGEXP"@.len() == 13 && "ES2018.REGEXP"@[2] == '2'
        && "ES2018.REGEXP"@[5] == '8' && "ES2018.REGEXP"@[8] == 'E');
    reveal_strlit("ES2019.ARRAY");
    assert("ES2019.ARRAY"@.len() == 12 && "ES2019.ARRAY"@[2] == '2' && "ES2019.ARRAY"@[5] == '9'
        && "ES2019.ARRAY"@[8] == 'R');
    reveal_strlit("ES2019.OBJECT");
    assert("ES2019.OBJECT"@.len() == 13 && "ES2019.OBJECT"@[2] == '2'
        && "ES2019.OBJECT"@[5] == '9' && "ES2019.OBJECT"@[8] == 'B');
    reveal_strlit("ES2019.STRING");
    assert("ES2019.STRING"@.len() == 13 && "ES2019.STRING"@[2] == '2'
        && "ES2019.STRING"@[5] == '9' && "ES2019.STRING"@[8] == 'T');
    reveal_strlit("ES2019.SYMBOL");
    assert("ES2019.SYMBOL"@.len() == 13 && "ES2019.SYMBOL"@[2] == '2'
        && "ES2019.SYMBOL"@[5] == '9' && "ES2019.SYMBOL"@[8] == 'Y');
    reveal_strlit("ES2020.STRING");
    assert("ES2020.STRING"@.len() == 13 && "ES2020.STRING"@[2] == '2'
        && "ES2020.STRING"@[5] == '0' && "ES2020.STRING"@[8] == 'T');
    reveal_strlit("ES2020.SYMBOL.WELLKNOWN");
    assert("ES2020.SYMBOL.WELLKNOWN"@.len() == 23 && "ES2020.SYMBOL.WELLKNOWN"@[2] == '2'
        && "ES2020.SYMBOL.WELLKNOWN"@[5] == '0' && "ES2020.SYMBOL.WELLKNOWN"@[8] == 'Y');
    reveal_strlit("ESNEXT.ASYNCITERABLE");
    assert("ESNEXT.ASYNCITERABLE"@.len() == 20 && "ESNEXT.ASYNCITERABLE"@[2] == 'N'
        && "ESNEXT.ASYNCITERABLE"@[5] == 'T' && "ESNEXT.ASYNCITERABLE"@[8] == 'S');
    reveal_strlit("ESNEXT.ARRAY");
    assert("ESNEXT.ARRAY"@.len() == 12 && "ESNEXT.ARRAY"@[2] == 'N' && "ESNEXT.ARRAY"@[5] == 'T'
        && "ESNEXT.ARRAY"@[8] == 'R');
    reveal_strlit("ESNEXT.INTL");
    assert("ESNEXT.INTL"@.len() == 11 && "ESNEXT.INTL"@[2] == 'N' && "ESNEXT.INTL"@[5] == 'T'
        && "ESNEXT.INTL"@[8] == 'N');
    reveal_strlit("ESNEXT.SYMBOL");
    assert("ESNEXT.SYMBOL"@.len() == 13 && "ESNEXT.SYMBOL"@[2] == 'N'
        && "ESNEXT.SYMBOL"@[5] == 'T' && "ESNEXT.SYMBOL"@[8] == 'Y');
}

/// Writing a name and reading it again. A normal value is what its own
/// name stands for.
pub proof fn lemma_lib_reread(value: LibModel)
    requires
        lib_is_normal(value),
    ensures
        lib_of_name(lib_key(value)) == value,
{
    lemma_lib_key(lib_key(value), value);
}

/// The value of a name is normal where putting the name in upper case a
/// second time changes nothing.
pub proof fn lemma_lib_normal(raw: Seq<char>)
    requires
        uppercase_of(uppercase_of(raw)) == uppercase_of(raw),
    ensures
        lib_is_normal(lib_of_name(raw)),
{
    lemma_lib_key(uppercase_of(raw), lib_of_name(raw));
}

/// Casing does not matter. Two names with the same upper-case form stand
/// for the same value.
pub proof fn lemma_resolution_casing(a: Seq<char>, b: Seq<char>)
    requires
        uppercase_of(a) == uppercase_of(b),
    ensures
        resolution_of_name(a) == resolution_of_name(b),
{
}

/// Unknown names are kept. A name whose upper-case form is not in the
/// table gives the unknown value that carries that form, and a name whose
/// upper-case form is in the table gives a known value.
pub proof fn lemma_resolution_unknown(raw: Seq<char>)
    ensures
        !is_resolution_key(uppercase_of(raw)) ==> resolution_of_name(raw) == ModuleResolutionModeModel::Other(uppercase_of(raw)),
        is_resolution_key(uppercase_of(raw)) ==> !(resolution_of_name(raw) is Other),
{
}

/// The name of a value is the key under which the table holds it: the
/// value of a name has that name, and a value whose name is looked up is
/// found again, unless it is an unknown value that carries a known name.
pub proof fn lemma_resolution_key(key: Seq<char>, value: ModuleResolutionModeModel)
    ensures
        resolution_key(resolution_of_key(key)) == key,
        !(value is Other && is_resolution_key(value->Other_0)) ==> resolution_of_key(resolution_key(value)) == value,
{
    reveal_strlit("NODE");
    assert("NODE"@.len() == 4);
    reveal_strlit("CLASSIC");
    assert("CLASSIC"@.len() == 7);
}

/// Writing a name and reading it again. A normal value is what its own
/// name stands for.
pub proof fn lemma_resolution_reread(value: ModuleResolutionModeModel)
    requires
        resolution_is_normal(value),
    ensures
        resolution_of_name(resolution_key(value)) == value,
{
    lemma_resolution_key(resolution_key(value), value);
}

/// The value of a name is normal where putting the name in upper case a
/// second time changes nothing.
pub proof fn lemma_resolution_normal(raw: Seq<char>)
    requires
        uppercase_of(uppercase_of(raw)) == uppercase_of(raw),
    ensures
        resolution_is_normal(resolution_of_name(raw)),
{
    lemma_resolution_key(uppercase_of(raw), resolution_of_name(raw));
}

/// Casing does not matter. Two names with the same upper-case form stand
/// for the same value.
pub proof fn lemma_jsx_casing(a: Seq<char>, b: Seq<char>)
    requires
        uppercase_of(a) == uppercase_of(b),
    ensures
        jsx_of_name(a) == jsx_of_name(b),
{
}

/// Unknown names are kept. A name whose upper-case form is not in the
/// table gives the unknown value that carries that form, and a name whose
/// upper-case form is in the table gives a known value.
pub proof fn lemma_jsx_unknown(raw: Seq<char>)
    ensures
        !is_jsx_key(uppercase_of(raw)) ==> jsx_of_name(raw) == JsxModel::Other(uppercase_of(raw)),
        is_jsx_key(uppercase_of(raw)) ==> !(jsx_of_name(raw) is Other),
{
}

/// The name of a value is the key under which the table holds it: the
/// value of a name has that name, and a value whose name is looked up is
/// found again, unless it is an unknown value that carries a known name.
pub proof fn lemma_jsx_key(key: Seq<char>, value: JsxModel)
    ensures
        jsx_key(jsx_of_key(key)) == key,
        !(value is Other && is_jsx_key(value->Other_0)) ==> jsx_of_key(jsx_key(value)) == value,
{
    reveal_strlit("REACT");
    assert("REACT"@.len() == 5);
    reveal_strlit("REACT-JSX");
    assert("REACT-JSX"@.len() == 9 && "REACT-JSX"@[6] == 'J');
    reveal_strlit("REACT-JSXDEV");
    assert("REACT-JSXDEV"@.len() == 12 && "REACT-JSXDEV"@[6] == 'J');
    reveal_strlit("REACT-NATIVE");
    assert("REACT-NATIVE"@.len() == 12 && "REACT-NATIVE"@[6] == 'N');
    reveal_strlit("PRESERVE");
    assert("PRESERVE"@.len() == 8 && "PRESERVE"@[6] == 'V');
}

/// Writing a name and reading it again. A normal value is what its own
/// name stands for.
pub proof fn lemma_jsx_reread(value: JsxModel)
    requires
        jsx_is_normal(value),
    ensures
        jsx_of_name(jsx_key(value)) == value,
{
    lemma_jsx_key(jsx_key(value), value);
}

/// The value of a name is normal where putting the name in upper case a
/// second time changes nothing.
pub proof fn lemma_jsx_normal(raw: Seq<char>)
    requires
        uppercase_of(uppercase_of(raw)) == uppercase_of(raw),
    ensures
        jsx_is_normal(jsx_of_name(raw)),
{
    lemma_jsx_key(uppercase_of(raw), jsx_of_name(raw));
}

} // verus!
