//! The method registry: formal parameters, method descriptions, lookup,
//! required-parameter validation and default application.

use vstd::prelude::*;
use vstd::string::StringExecFns;

use crate::params::RequestParams;
use crate::value::Value;
use crate::value::ValueModel;

verus! {

/// One formal parameter of a method: its name, a declared type tag
/// (`string`, `integer`, ...), whether a request must carry it, and an
/// optional default applied when an optional parameter is omitted.
#[derive(Debug)]
pub struct ParamInfo {
    pub name: String,
    pub param_type: String,
    pub required: bool,
    pub default: Option<Value>,
}

/// The mathematical shape of a [`ParamInfo`].
pub ghost struct ParamInfoModel {
    pub name: Seq<char>,
    pub param_type: Seq<char>,
    pub required: bool,
    pub default: Option<ValueModel>,
}

impl View for ParamInfo {
    type V = ParamInfoModel;

    open spec fn view(&self) -> ParamInfoModel {
        ParamInfoModel {
            name: self.name@,
            param_type: self.param_type@,
            required: self.required,
            default: match self.default {
                Some(v) => Some(v@),
                None => None,
            },
        }
    }
}

/// One method of a service: its name, a human description and the ordered
/// formal parameter list. Built once at service construction, never mutated.
#[derive(Debug)]
pub struct MethodInfo {
    pub name: String,
    pub description: String,
    pub params: Vec<ParamInfo>,
}

/// The mathematical shape of a [`MethodInfo`].
pub ghost struct MethodInfoModel {
    pub name: Seq<char>,
    pub description: Seq<char>,
    pub params: Seq<ParamInfoModel>,
}

impl View for MethodInfo {
    type V = MethodInfoModel;

    open spec fn view(&self) -> MethodInfoModel {
        MethodInfoModel {
            name: self.name@,
            description: self.description@,
            params: Seq::new(self.params@.len(), |i: int| self.params@[i]@),
        }
    }
}

/// The entry of a method table carrying a name, if one does.
pub open spec fn spec_find(table: Seq<MethodInfoModel>, name: Seq<char>) -> Option<MethodInfoModel>
    decreases table.len(),
{
    if table.len() == 0 {
        None
    } else if table[0].name == name {
        Some(table[0])
    } else {
        spec_find(table.drop_first(), name)
    }
}

/// The name of the first required parameter a request omits, if any.
pub open spec fn spec_missing_required(
    ps: Seq<ParamInfoModel>,
    m: Map<Seq<char>, ValueModel>,
) -> Option<Seq<char>>
    decreases ps.len(),
{
    if ps.len() == 0 {
        None
    } else if ps[0].required && !m.contains_key(ps[0].name) {
        Some(ps[0].name)
    } else {
        spec_missing_required(ps.drop_first(), m)
    }
}

/// The request mapping with each declared default bound to every omitted
/// optional parameter that has one.
pub open spec fn spec_apply_defaults(
    ps: Seq<ParamInfoModel>,
    m: Map<Seq<char>, ValueModel>,
) -> Map<Seq<char>, ValueModel>
    decreases ps.len(),
{
    if ps.len() == 0 {
        m
    } else {
        let m1 = if !m.contains_key(ps[0].name) && ps[0].default is Some {
            m.insert(ps[0].name, ps[0].default.unwrap())
        } else {
            m
        };
        spec_apply_defaults(ps.drop_first(), m1)
    }
}

/// A name is found exactly when some entry carries it, and what is found is
/// an entry of the table carrying that name.
pub proof fn lemma_spec_find_present(table: Seq<MethodInfoModel>, name: Seq<char>)
    ensures
        (spec_find(table, name) is Some) <==> exists|i: int|
            0 <= i < table.len() && (#[trigger] table[i]).name == name,
        spec_find(table, name) matches Some(mi) ==> mi.name == name && exists|i: int|
            0 <= i < table.len() && #[trigger] table[i] == mi,
    decreases table.len(),
{
    if table.len() > 0 {
        let rest = table.drop_first();
        lemma_spec_find_present(rest, name);
        assert(forall|j: int| 0 <= j < rest.len() ==> rest[j] == table[j + 1]);
        if table[0].name == name {
        } else {
            if spec_find(table, name) is Some {
                let i = choose|i: int| 0 <= i < rest.len() && rest[i].name == name;
                assert(table[i + 1].name == name);
                let mi = spec_find(table, name).unwrap();
                let j = choose|j: int| 0 <= j < rest.len() && rest[j] == mi;
                assert(table[j + 1] == mi);
            }
            if exists|i: int| 0 <= i < table.len() && table[i].name == name {
                let i = choose|i: int| 0 <= i < table.len() && table[i].name == name;
                assert(i > 0);
                assert(rest[i - 1].name == name);
            }
        }
    }
}

/// When every required parameter is present, none is reported missing.
pub proof fn lemma_no_missing_required(ps: Seq<ParamInfoModel>, m: Map<Seq<char>, ValueModel>)
    requires
        forall|j: int|
            0 <= j < ps.len() ==> ((#[trigger] ps[j]).required ==> m.contains_key(ps[j].name)),
    ensures
        spec_missing_required(ps, m) is None,
    decreases ps.len(),
{
    if ps.len() > 0 {
        assert(forall|j: int| 0 <= j < ps.drop_first().len() ==> ps.drop_first()[j] == ps[j + 1]);
        lemma_no_missing_required(ps.drop_first(), m);
    }
}

/// The parameter a request is rejected for is a required parameter of the
/// method, and the request omits it.
pub proof fn lemma_missing_is_omitted(ps: Seq<ParamInfoModel>, m: Map<Seq<char>, ValueModel>)
    ensures
        spec_missing_required(ps, m) matches Some(p) ==> !m.contains_key(p) && exists|j: int|
            0 <= j < ps.len() && (#[trigger] ps[j]).required && ps[j].name == p,
    decreases ps.len(),
{
    if ps.len() > 0 {
        let rest = ps.drop_first();
        lemma_missing_is_omitted(rest, m);
        assert(forall|j: int| 0 <= j < rest.len() ==> rest[j] == ps[j + 1]);
        if !(ps[0].required && !m.contains_key(ps[0].name)) {
            if spec_missing_required(ps, m) is Some {
                let p = spec_missing_required(ps, m).unwrap();
                let j = choose|j: int| 0 <= j < rest.len() && rest[j].required && rest[j].name == p;
                assert(ps[j + 1].required && ps[j + 1].name == p);
            }
        }
    }
}

/// Applying defaults never changes a parameter the request already binds.
pub proof fn lemma_apply_defaults_preserves(
    ps: Seq<ParamInfoModel>,
    m: Map<Seq<char>, ValueModel>,
    k: Seq<char>,
)
    requires
        m.contains_key(k),
    ensures
        spec_apply_defaults(ps, m).contains_key(k),
        spec_apply_defaults(ps, m)[k] == m[k],
    decreases ps.len(),
{
    if ps.len() > 0 {
        let m1 = if !m.contains_key(ps[0].name) && ps[0].default is Some {
            m.insert(ps[0].name, ps[0].default.unwrap())
        } else {
            m
        };
        lemma_apply_defaults_preserves(ps.drop_first(), m1, k);
    }
}

/// Whether two string slices hold the same text.
pub fn str_eq(a: &str, b: &str) -> (r: bool)
    ensures
        r == (a@ == b@),
{
    a.to_owned().eq(&b.to_owned())
}

/// Find a method by name in a table.
pub fn find_method<'a>(table: &'a Vec<MethodInfo>, name: &str) -> (r: Option<&'a MethodInfo>)
    ensures
        match r {
            Some(mi) => spec_find(table_model(table@), name@) == Some(mi@),
            None => spec_find(table_model(table@), name@) == Option::<MethodInfoModel>::None,
        },
{
    let ghost full = table_model(table@);
    proof {
        assert(full.skip(0) =~= full);
    }
    let mut i: usize = 0;
    while i < table.len()
        invariant
            i <= table@.len(),
            full == table_model(table@),
            spec_find(full, name@) == spec_find(full.skip(i as int), name@),
        decreases table@.len() - i,
    {
        proof {
            assert(full.skip(i as int)[0] == full[i as int]);
            assert(full.skip(i as int).drop_first() =~= full.skip(i as int + 1));
        }
        if str_eq(table[i].name.as_str(), name) {
            return Some(&table[i]);
        }
        i = i + 1;
    }
    None
}

/// The name of the first required parameter the request omits, if any.
pub fn first_missing_required(mi: &MethodInfo, params: &RequestParams) -> (r: Option<String>)
    ensures
        match r {
            Some(n) => spec_missing_required(mi@.params, params@) == Some(n@),
            None => spec_missing_required(mi@.params, params@) == Option::<Seq<char>>::None,
        },
{
    let ghost ps = mi@.params;
    proof {
        assert(ps.skip(0) =~= ps);
    }
    let mut i: usize = 0;
    while i < mi.params.len()
        invariant
            i <= mi.params@.len(),
            ps == mi@.params,
            ps.len() == mi.params@.len(),
            forall|j: int| 0 <= j < ps.len() ==> ps[j] == mi.params@[j]@,
            spec_missing_required(ps, params@) == spec_missing_required(
                ps.skip(i as int),
                params@,
            ),
        decreases mi.params@.len() - i,
    {
        proof {
            assert(ps.skip(i as int)[0] == ps[i as int]);
            assert(ps.skip(i as int).drop_first() =~= ps.skip(i as int + 1));
        }
        if mi.params[i].required && !params.contains_key(&mi.params[i].name) {
            return Some(mi.params[i].name.clone());
        }
        i = i + 1;
    }
    None
}

/// Bind each declared default to every omitted optional parameter.
pub fn apply_defaults(mi: &MethodInfo, params: &mut RequestParams)
    requires
        old(params).wf(),
    ensures
        final(params).wf(),
        final(params)@ == spec_apply_defaults(mi@.params, old(params)@),
{
    let ghost ps = mi@.params;
    proof {
        assert(ps.skip(0) =~= ps);
    }
    let mut i: usize = 0;
    while i < mi.params.len()
        invariant
            i <= mi.params@.len(),
            params.wf(),
            ps == mi@.params,
            ps.len() == mi.params@.len(),
            forall|j: int| 0 <= j < ps.len() ==> ps[j] == mi.params@[j]@,
            spec_apply_defaults(ps, old(params)@) == spec_apply_defaults(
                ps.skip(i as int),
                params@,
            ),
        decreases mi.params@.len() - i,
    {
        proof {
            assert(ps.skip(i as int)[0] == ps[i as int]);
            assert(ps.skip(i as int).drop_first() =~= ps.skip(i as int + 1));
        }
        if !params.contains_key(&mi.params[i].name) {
            match &mi.params[i].default {
                Some(d) => {
                    params.insert(mi.params[i].name.clone(), d.clone());
                },
                None => {},
            }
        }
        i = i + 1;
    }
}

/// The models of a table's methods, in order.
pub open spec fn table_model(s: Seq<MethodInfo>) -> Seq<MethodInfoModel> {
    Seq::new(s.len(), |i: int| s[i]@)
}

} // verus!
