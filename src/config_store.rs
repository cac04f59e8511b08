//! The definition store: an immutable catalog of APIs and origins, keyed by
//! id, and the request matcher that classifies a query against it.
use vstd::prelude::*;

use crate::definitions::{
    APIDefinition, APIDefinitionView, APISpecification, Origin, OriginView, SpecificationView,
    strings_view,
};
use crate::text::{contains_string, ends_with, is_prefix, is_suffix, starts_with};

verus! {

/// Some query path begins with some path pattern of the API (literal prefix).
pub open spec fn path_admits(api: APIDefinitionView, q: SpecificationView) -> bool {
    exists|i: int, j: int|
        #![trigger q.paths[i], api.specification.paths[j]]
        0 <= i < q.paths.len() && 0 <= j < api.specification.paths.len() && is_prefix(
            api.specification.paths[j],
            q.paths[i],
        )
}

/// Some wanted string is among the listed ones (literal equality).
pub open spec fn lists_any(listed: Seq<Seq<char>>, wanted: Seq<Seq<char>>) -> bool {
    exists|i: int| 0 <= i < wanted.len() && listed.contains(#[trigger] wanted[i])
}

/// Some query method is listed by the API (literal equality).
pub open spec fn method_admits(api: APIDefinitionView, q: SpecificationView) -> bool {
    lists_any(api.specification.methods, q.methods)
}

/// Some query hostname is listed by the API (literal equality).
pub open spec fn hostname_admits(api: APIDefinitionView, q: SpecificationView) -> bool {
    lists_any(api.specification.hostnames, q.hostnames)
}

/// The API survives all three filters: path, then method, then hostname.
pub open spec fn api_matches(api: APIDefinitionView, q: SpecificationView) -> bool {
    path_admits(api, q) && method_admits(api, q) && hostname_admits(api, q)
}

/// The last API of the catalog that matches the query, if any.
pub open spec fn last_match(apis: Seq<APIDefinitionView>, q: SpecificationView) -> Option<
    APIDefinitionView,
>
    decreases apis.len(),
{
    if apis.len() == 0 {
        None
    } else if api_matches(apis.last(), q) {
        Some(apis.last())
    } else {
        last_match(apis.drop_last(), q)
    }
}

/// The position of the last entry of `s` whose key is `id`, or -1.
pub open spec fn position_of<T>(s: Seq<T>, key: spec_fn(T) -> Seq<char>, id: Seq<char>) -> int
    decreases s.len(),
{
    if s.len() == 0 {
        -1
    } else if key(s.last()) == id {
        s.len() - 1
    } else {
        position_of(s.drop_last(), key, id)
    }
}

/// Inserting `x` into a keyed catalog: it replaces the entry with its key, or
/// is appended when there is none.
pub open spec fn upsert<T>(s: Seq<T>, key: spec_fn(T) -> Seq<char>, x: T) -> Seq<T> {
    let p = position_of(s, key, key(x));
    if p < 0 {
        s.push(x)
    } else {
        s.update(p, x)
    }
}

/// The catalog built by inserting each definition in turn.
pub open spec fn catalog_of<T>(defs: Seq<T>, key: spec_fn(T) -> Seq<char>) -> Seq<T>
    decreases defs.len(),
{
    if defs.len() == 0 {
        Seq::empty()
    } else {
        upsert(catalog_of(defs.drop_last(), key), key, defs.last())
    }
}

/// No two entries share a key.
pub open spec fn keys_unique<T>(s: Seq<T>, key: spec_fn(T) -> Seq<char>) -> bool {
    forall|i: int, j: int| 0 <= i < j < s.len() ==> key(#[trigger] s[i]) != key(#[trigger] s[j])
}

/// The entry whose key is `id`, if any.
pub open spec fn entry_with_key<T>(s: Seq<T>, key: spec_fn(T) -> Seq<char>, id: Seq<char>) -> Option<T> {
    let p = position_of(s, key, id);
    if p < 0 {
        None
    } else {
        Some(s[p])
    }
}

pub open spec fn api_key() -> spec_fn(APIDefinitionView) -> Seq<char> {
    |a: APIDefinitionView| a.api_id
}

pub open spec fn origin_key() -> spec_fn(OriginView) -> Seq<char> {
    |o: OriginView| o.origin_id
}

pub proof fn lemma_position_of<T>(s: Seq<T>, key: spec_fn(T) -> Seq<char>, id: Seq<char>)
    ensures
        -1 <= position_of(s, key, id) < s.len(),
        position_of(s, key, id) >= 0 ==> key(s[position_of(s, key, id)]) == id,
        position_of(s, key, id) < 0 ==> forall|k: int| 0 <= k < s.len() ==> key(#[trigger] s[k]) != id,
    decreases s.len(),
{
    if s.len() > 0 {
        lemma_position_of(s.drop_last(), key, id);
        if key(s.last()) != id {
            assert forall|k: int| 0 <= k < s.len() - 1 implies s[k] == #[trigger] s.drop_last()[k] by {}
            if position_of(s, key, id) < 0 {
                assert forall|k: int| 0 <= k < s.len() implies key(#[trigger] s[k]) != id by {
                    if k < s.len() - 1 {
                        assert(s[k] == s.drop_last()[k]);
                    }
                }
            }
        }
    }
}

pub proof fn lemma_upsert_unique<T>(s: Seq<T>, key: spec_fn(T) -> Seq<char>, x: T)
    requires
        keys_unique(s, key),
    ensures
        keys_unique(upsert(s, key, x), key),
{
    lemma_position_of(s, key, key(x));
    let r = upsert(s, key, x);
    let p = position_of(s, key, key(x));
    assert forall|i: int, j: int| 0 <= i < j < r.len() implies key(#[trigger] r[i]) != key(
        #[trigger] r[j],
    ) by {
        if p < 0 {
            if j == s.len() {
                assert(key(s[i]) != key(x));
            } else {
                assert(key(s[i]) != key(s[j]));
            }
        } else {
            if i == p {
                assert(key(s[p]) != key(s[j]));
            } else if j == p {
                assert(key(s[i]) != key(s[p]));
            } else {
                assert(key(s[i]) != key(s[j]));
            }
        }
    }
}

/// After an upsert into a catalog with unique keys, the entry under the
/// inserted key is the inserted value.
pub proof fn lemma_upsert_finds<T>(s: Seq<T>, key: spec_fn(T) -> Seq<char>, x: T)
    requires
        keys_unique(s, key),
    ensures
        entry_with_key(upsert(s, key, x), key, key(x)) == Some(x),
{
    lemma_position_of(s, key, key(x));
    lemma_upsert_unique(s, key, x);
    let r = upsert(s, key, x);
    let p = position_of(s, key, key(x));
    let q = if p < 0 { s.len() as int } else { p };
    assert(r[q] == x);
    lemma_position_of(r, key, key(x));
    let pr = position_of(r, key, key(x));
    if pr != q {
        assert(key(r[pr]) == key(r[q]));
    }
}

proof fn lemma_catalog_unique<T>(defs: Seq<T>, key: spec_fn(T) -> Seq<char>)
    ensures
        keys_unique(catalog_of(defs, key), key),
    decreases defs.len(),
{
    if defs.len() > 0 {
        lemma_catalog_unique(defs.drop_last(), key);
        lemma_upsert_unique(catalog_of(defs.drop_last(), key), key, defs.last());
    }
}

pub open spec fn api_views(v: Seq<APIDefinition>) -> Seq<APIDefinitionView> {
    v.map_values(|a: APIDefinition| a@)
}

pub open spec fn origin_views(v: Seq<Origin>) -> Seq<OriginView> {
    v.map_values(|o: Origin| o@)
}

pub open spec fn api_option_view(r: Option<APIDefinition>) -> Option<APIDefinitionView> {
    match r {
        Some(a) => Some(a@),
        None => None,
    }
}

pub open spec fn origin_option_view(r: Option<Origin>) -> Option<OriginView> {
    match r {
        Some(o) => Some(o@),
        None => None,
    }
}

/// Whether some query path begins with some path pattern of the API.
pub fn admits_path(api: &APIDefinition, query: &APISpecification) -> (r: bool)
    ensures
        r == path_admits(api@, query@),
{
    let mut i: usize = 0;
    while i < query.paths.len()
        invariant
            i <= query.paths.len(),
            api@.specification.paths.len() == api.specification.paths.len(),
            query@.paths.len() == query.paths.len(),
            forall|ii: int, jj: int|
                #![trigger query@.paths[ii], api@.specification.paths[jj]]
                0 <= ii < i && 0 <= jj < api.specification.paths.len() ==> !is_prefix(
                    api@.specification.paths[jj],
                    query@.paths[ii],
                ),
        decreases query.paths.len() - i,
    {
        let mut j: usize = 0;
        while j < api.specification.paths.len()
            invariant
                i < query.paths.len(),
                j <= api.specification.paths.len(),
                api@.specification.paths.len() == api.specification.paths.len(),
                query@.paths.len() == query.paths.len(),
                forall|ii: int, jj: int|
                    #![trigger query@.paths[ii], api@.specification.paths[jj]]
                    0 <= ii < i && 0 <= jj < api.specification.paths.len() ==> !is_prefix(
                        api@.specification.paths[jj],
                        query@.paths[ii],
                    ),
                forall|jj: int|
                    0 <= jj < j ==> !is_prefix(
                        #[trigger] api@.specification.paths[jj],
                        query@.paths[i as int],
                    ),
            decreases api.specification.paths.len() - j,
        {
            assert(api@.specification.paths[j as int] == api.specification.paths@[j as int]@);
            assert(query@.paths[i as int] == query.paths@[i as int]@);
            if starts_with(query.paths[i].as_str(), api.specification.paths[j].as_str()) {
                assert(is_prefix(api@.specification.paths[j as int], query@.paths[i as int]));
                return true;
            }
            j += 1;
        }
        i += 1;
    }
    false
}

/// Whether some string of `wanted` is among `listed`.
pub fn any_listed(listed: &Vec<String>, wanted: &Vec<String>) -> (r: bool)
    ensures
        r == lists_any(strings_view(listed@), strings_view(wanted@)),
{
    let mut i: usize = 0;
    while i < wanted.len()
        invariant
            i <= wanted.len(),
            forall|ii: int|
                0 <= ii < i ==> !strings_view(listed@).contains(
                    #[trigger] strings_view(wanted@)[ii],
                ),
        decreases wanted.len() - i,
    {
        if contains_string(listed, &wanted[i]) {
            assert(strings_view(listed@).contains(strings_view(wanted@)[i as int]));
            return true;
        }
        i += 1;
    }
    false
}

/// Whether some query method is listed by the API.
pub fn admits_method(api: &APIDefinition, query: &APISpecification) -> (r: bool)
    ensures
        r == method_admits(api@, query@),
{
    any_listed(&api.specification.methods, &query.methods)
}

/// Whether some query hostname is listed by the API.
pub fn admits_hostname(api: &APIDefinition, query: &APISpecification) -> (r: bool)
    ensures
        r == hostname_admits(api@, query@),
{
    any_listed(&api.specification.hostnames, &query.hostnames)
}

/// Whether an API matches a query: path filter, then method, then hostname.
pub fn matches_specification(api: &APIDefinition, query: &APISpecification) -> (r: bool)
    ensures
        r == api_matches(api@, query@),
{
    admits_path(api, query) && admits_method(api, query) && admits_hostname(api, query)
}

/// A catalog entry identified by a string key.
pub trait Keyed {
    spec fn key_view(&self) -> Seq<char>;

    fn key(&self) -> (r: &String)
        ensures
            r@ == self.key_view(),
    ;
}

pub open spec fn key_of<T: Keyed>() -> spec_fn(T) -> Seq<char> {
    |t: T| t.key_view()
}

impl Keyed for APIDefinition {
    open spec fn key_view(&self) -> Seq<char> {
        self.api_id@
    }

    fn key(&self) -> (r: &String) {
        &self.api_id
    }
}

impl Keyed for Origin {
    open spec fn key_view(&self) -> Seq<char> {
        self.origin_id@
    }

    fn key(&self) -> (r: &String) {
        &self.origin_id
    }
}

/// Two lists whose entries have the same keys, place by place, find a key
/// at the same position.
pub proof fn lemma_position_of_same_keys<A, B>(
    s: Seq<A>,
    ka: spec_fn(A) -> Seq<char>,
    t: Seq<B>,
    kb: spec_fn(B) -> Seq<char>,
    id: Seq<char>,
)
    requires
        s.len() == t.len(),
        forall|i: int| #![trigger s[i], t[i]] 0 <= i < s.len() ==> ka(s[i]) == kb(t[i]),
    ensures
        position_of(s, ka, id) == position_of(t, kb, id),
    decreases s.len(),
{
    if s.len() > 0 {
        assert forall|i: int|
            #![trigger s.drop_last()[i], t.drop_last()[i]]
            0 <= i < s.len() - 1 implies ka(s.drop_last()[i]) == kb(t.drop_last()[i]) by {
            assert(s.drop_last()[i] == s[i] && t.drop_last()[i] == t[i]);
        }
        assert(ka(s[s.len() - 1]) == kb(t[t.len() - 1]));
        lemma_position_of_same_keys(s.drop_last(), ka, t.drop_last(), kb, id);
    }
}

/// The position of the last entry with the given key.
pub fn position_by_key<T: Keyed>(v: &Vec<T>, id: &String) -> (r: Option<usize>)
    ensures
        match r {
            Some(p) => p < v@.len() && p as int == position_of(v@, key_of::<T>(), id@),
            None => position_of(v@, key_of::<T>(), id@) < 0,
        },
{
    proof {
        lemma_position_of(v@, key_of::<T>(), id@);
    }
    let mut i: usize = v.len();
    assert(v@.subrange(0, i as int) =~= v@);
    while i > 0
        invariant
            i <= v.len(),
            position_of(v@, key_of::<T>(), id@) == position_of(
                v@.subrange(0, i as int),
                key_of::<T>(),
                id@,
            ),
        decreases i,
    {
        assert(v@.subrange(0, i as int).drop_last() =~= v@.subrange(0, i - 1));
        if v[i - 1].key().eq(id) {
            return Some(i - 1);
        }
        i -= 1;
    }
    None
}

/// The position of the API with the given id in a list of definitions.
fn api_position(v: &Vec<APIDefinition>, id: &String) -> (r: Option<usize>)
    ensures
        match r {
            Some(p) => p < v@.len() && p as int == position_of(api_views(v@), api_key(), id@),
            None => position_of(api_views(v@), api_key(), id@) < 0,
        },
{
    proof {
        lemma_position_of_same_keys(v@, key_of::<APIDefinition>(), api_views(v@), api_key(), id@);
    }
    position_by_key(v, id)
}

/// The position of the origin with the given id in a list of definitions.
fn origin_position(v: &Vec<Origin>, id: &String) -> (r: Option<usize>)
    ensures
        match r {
            Some(p) => p < v@.len() && p as int == position_of(origin_views(v@), origin_key(), id@),
            None => position_of(origin_views(v@), origin_key(), id@) < 0,
        },
{
    proof {
        lemma_position_of_same_keys(v@, key_of::<Origin>(), origin_views(v@), origin_key(), id@);
    }
    position_by_key(v, id)
}

/// The read-only catalog of API and origin definitions, each keyed by its id.
pub struct ConfigStore {
    api_definitions: Vec<APIDefinition>,
    origin_definitions: Vec<Origin>,
}

impl ConfigStore {
    /// The API definitions, in catalog order.
    pub closed spec fn apis(&self) -> Seq<APIDefinitionView> {
        api_views(self.api_definitions@)
    }

    /// The origin definitions, in catalog order.
    pub closed spec fn origins(&self) -> Seq<OriginView> {
        origin_views(self.origin_definitions@)
    }

    /// Each API id and each origin id occurs once.
    pub open spec fn wf(&self) -> bool {
        keys_unique(self.apis(), api_key()) && keys_unique(self.origins(), origin_key())
    }

    /// Builds the catalog from definitions as they were read. A later
    /// definition with an id already seen replaces the earlier one.
    pub fn new(api_definitions: Vec<APIDefinition>, origin_definitions: Vec<Origin>) -> (r: Self)
        ensures
            r.wf(),
            r.apis() == catalog_of(api_views(api_definitions@), api_key()),
            r.origins() == catalog_of(origin_views(origin_definitions@), origin_key()),
    {
        let mut apis: Vec<APIDefinition> = Vec::new();
        let mut i: usize = 0;
        while i < api_definitions.len()
            invariant
                i <= api_definitions.len(),
                api_views(apis@) == catalog_of(
                    api_views(api_definitions@).subrange(0, i as int),
                    api_key(),
                ),
            decreases api_definitions.len() - i,
        {
            let def = api_definitions[i].clone();
            let ghost before = api_views(apis@);
            match api_position(&apis, &def.api_id) {
                Some(p) => {
                    apis.set(p, def);
                    assert(api_views(apis@) =~= before.update(p as int, def@));
                },
                None => {
                    apis.push(def);
                    assert(api_views(apis@) =~= before.push(def@));
                },
            }
            assert(api_views(api_definitions@).subrange(0, i + 1 as int).drop_last()
                =~= api_views(api_definitions@).subrange(0, i as int));
            i += 1;
        }
        assert(api_views(api_definitions@).subrange(0, i as int) =~= api_views(api_definitions@));
        let mut origins: Vec<Origin> = Vec::new();
        let mut k: usize = 0;
        while k < origin_definitions.len()
            invariant
                k <= origin_definitions.len(),
                origin_views(origins@) == catalog_of(
                    origin_views(origin_definitions@).subrange(0, k as int),
                    origin_key(),
                ),
            decreases origin_definitions.len() - k,
        {
            let def = origin_definitions[k].clone();
            let ghost before = origin_views(origins@);
            match origin_position(&origins, &def.origin_id) {
                Some(p) => {
                    origins.set(p, def);
                    assert(origin_views(origins@) =~= before.update(p as int, def@));
                },
                None => {
                    origins.push(def);
                    assert(origin_views(origins@) =~= before.push(def@));
                },
            }
            assert(origin_views(origin_definitions@).subrange(0, k + 1 as int).drop_last()
                =~= origin_views(origin_definitions@).subrange(0, k as int));
            k += 1;
        }
        assert(origin_views(origin_definitions@).subrange(0, k as int) =~= origin_views(
            origin_definitions@,
        ));
        proof {
            lemma_catalog_unique(api_views(api_definitions@), api_key());
            lemma_catalog_unique(origin_views(origin_definitions@), origin_key());
        }
        ConfigStore { api_definitions: apis, origin_definitions: origins }
    }

    /// The API that a query specification selects: the last catalog entry
    /// that passes the path, method and hostname filters, or `None`.
    pub fn get_api_def_by_specification(&self, query_specification: &APISpecification) -> (r:
        Option<APIDefinition>)
        ensures
            api_option_view(r) == last_match(self.apis(), query_specification@),
    {
        let mut i: usize = self.api_definitions.len();
        assert(self.apis().subrange(0, i as int) =~= self.apis());
        while i > 0
            invariant
                i <= self.api_definitions.len(),
                last_match(self.apis(), query_specification@) == last_match(
                    self.apis().subrange(0, i as int),
                    query_specification@,
                ),
            decreases i,
        {
            assert(self.apis().subrange(0, i as int).drop_last() =~= self.apis().subrange(
                0,
                i - 1,
            ));
            if matches_specification(&self.api_definitions[i - 1], query_specification) {
                return Some(self.api_definitions[i - 1].clone());
            }
            i -= 1;
        }
        None
    }

    /// The origin with the given id, or `None`.
    pub fn get_origin_def_by_id(&self, origin_id: &String) -> (r: Option<Origin>)
        ensures
            origin_option_view(r) == entry_with_key(self.origins(), origin_key(), origin_id@),
    {
        match origin_position(&self.origin_definitions, origin_id) {
            Some(p) => Some(self.origin_definitions[p].clone()),
            None => None,
        }
    }
}

/// The catalog never changes after it is built, so a query answers the same
/// way whenever it is asked: two lookups of equal queries give equal results.
pub proof fn lemma_lookup_is_stable(
    store: ConfigStore,
    q1: APISpecification,
    q2: APISpecification,
    r1: Option<APIDefinition>,
    r2: Option<APIDefinition>,
)
    requires
        q1@ == q2@,
        api_option_view(r1) == last_match(store.apis(), q1@),
        api_option_view(r2) == last_match(store.apis(), q2@),
    ensures
        api_option_view(r1) == api_option_view(r2),
{
}

/// A lookup that finds an API finds one of the catalog that matches the
/// query; one that finds none means that no API of the catalog matches.
pub proof fn lemma_last_match_sound(apis: Seq<APIDefinitionView>, q: SpecificationView)
    ensures
        last_match(apis, q) matches Some(a) ==> apis.contains(a) && api_matches(a, q),
        last_match(apis, q) is None ==> forall|k: int|
            0 <= k < apis.len() ==> !api_matches(#[trigger] apis[k], q),
    decreases apis.len(),
{
    if apis.len() > 0 {
        lemma_last_match_sound(apis.drop_last(), q);
        if !api_matches(apis.last(), q) {
            if let Some(a) = last_match(apis.drop_last(), q) {
                let k = choose|k: int| 0 <= k < apis.drop_last().len() && apis.drop_last()[k] == a;
                assert(apis[k] == a);
            } else {
                assert forall|k: int| 0 <= k < apis.len() implies !api_matches(
                    #[trigger] apis[k],
                    q,
                ) by {
                    if k < apis.len() - 1 {
                        assert(apis[k] == apis.drop_last()[k]);
                    }
                }
            }
        } else {
            assert(apis[apis.len() - 1] == apis.last());
        }
    }
}

/// Whether a file name marks a definition file: it ends in `.json`.
pub fn is_definition_file_name(file_name: &str) -> (r: bool)
    ensures
        r == is_suffix(".json"@, file_name@),
{
    ends_with(file_name, ".json")
}

} // verus!
