//! Targets kept from run to run, as long as what they depend on stays as it was.
use vstd::prelude::*;

use crate::api::{
    clone_verification_targets, ArtifactKind, ArtifactStatus, GeneratedArtifact,
    GeneratedArtifactModel, ProjectInfo, VerificationTarget, VerificationTargetModel,
};
use crate::documents::{
    read_verification_targets_at, verification_target_documents, verification_target_list,
    verification_targets_at,
};
use crate::fields::{
    array_at, optional_text_at, read_array, read_optional_text, read_text, read_unsigned, text_at,
    unsigned_at,
};
use crate::json::{
    as_record, exact_json, formatted, formatted_json, lemma_plain_values_are_exact, named_fields,
    number, optional_text, parse_exact, pretty, pretty_json, text, text_or_null, Items, Json,
    JsonModel, Members,
};
use crate::number::decimal;
use crate::order::{sorted_set, to_sorted_set};
use crate::paths::ByPath;
use crate::readback::{lemma_target_cache_is_plain, lemma_target_cache_reads};
use crate::seqs::{cat2, cat3, lemma_take_all, lemma_take_next};
use crate::split::push_text;
use crate::text::{clone_text, clone_texts, owned, same, same_option};

verus! {

// ---------------------------------------------------------------------------
// Records
// ---------------------------------------------------------------------------
/// A file that targets were found in, as it was then.
#[derive(Debug, PartialEq, Eq)]
pub struct TargetCacheSource {
    pub path: String,
    pub len: u64,
    pub modified_unix_seconds: u64,
}

/// The mathematical value of a `TargetCacheSource`.
pub struct TargetCacheSourceModel {
    pub path: Seq<char>,
    pub len: u64,
    pub modified_unix_seconds: u64,
}

impl DeepView for TargetCacheSource {
    type V = TargetCacheSourceModel;

    open spec fn deep_view(&self) -> TargetCacheSourceModel {
        TargetCacheSourceModel {
            path: self.path@,
            len: self.len,
            modified_unix_seconds: self.modified_unix_seconds,
        }
    }
}

impl Clone for TargetCacheSource {
    fn clone(&self) -> (r: Self)
        ensures
            r.deep_view() == self.deep_view(),
    {
        TargetCacheSource {
            path: self.path.clone(),
            len: self.len,
            modified_unix_seconds: self.modified_unix_seconds,
        }
    }
}

/// A copy of target cache sources.
pub fn clone_target_cache_sources(items: &Vec<TargetCacheSource>) -> (r: Vec<TargetCacheSource>)
    ensures
        r.deep_view() == items.deep_view(),
        r@.len() == items@.len(),
{
    let mut out: Vec<TargetCacheSource> = Vec::new();
    let mut i: usize = 0;
    while i < items.len()
        invariant
            i <= items@.len(),
            out@.len() == i,
            forall|j: int| 0 <= j < i ==> #[trigger] out@[j].deep_view() == items@[j].deep_view(),
        decreases items@.len() - i,
    {
        out.push(items[i].clone());
        i = i + 1;
    }
    assert(out.deep_view() == items.deep_view());
    out
}

/// Puts an item at the end of the list.
pub fn push_target_cache_source(items: &mut Vec<TargetCacheSource>, item: TargetCacheSource)
    ensures
        final(items).deep_view() == old(items).deep_view().push(item.deep_view()),
        final(items)@.len() == old(items)@.len() + 1,
{
    let ghost before = items.deep_view();
    items.push(item);
    assert(items.deep_view() == before.push(item.deep_view()));
}

/// The targets that were found in a project, and what they depend on.
#[derive(Debug, PartialEq, Eq)]
pub struct TargetCache {
    pub version: u8,
    pub language: String,
    pub created_unix_seconds: u64,
    pub git_head: Option<String>,
    pub sources: Vec<TargetCacheSource>,
    pub targets: Vec<VerificationTarget>,
}

/// The mathematical value of a `TargetCache`.
pub struct TargetCacheModel {
    pub version: u8,
    pub language: Seq<char>,
    pub created_unix_seconds: u64,
    pub git_head: Option<Seq<char>>,
    pub sources: Seq<TargetCacheSourceModel>,
    pub targets: Seq<VerificationTargetModel>,
}

impl DeepView for TargetCache {
    type V = TargetCacheModel;

    open spec fn deep_view(&self) -> TargetCacheModel {
        TargetCacheModel {
            version: self.version,
            language: self.language@,
            created_unix_seconds: self.created_unix_seconds,
            git_head: self.git_head.deep_view(),
            sources: self.sources.deep_view(),
            targets: self.targets.deep_view(),
        }
    }
}

impl Clone for TargetCache {
    fn clone(&self) -> (r: Self)
        ensures
            r.deep_view() == self.deep_view(),
    {
        TargetCache {
            version: self.version,
            language: self.language.clone(),
            created_unix_seconds: self.created_unix_seconds,
            git_head: clone_text(&self.git_head),
            sources: clone_target_cache_sources(&self.sources),
            targets: clone_verification_targets(&self.targets),
        }
    }
}

/// A target cache source as a JSON document.
pub open spec fn target_cache_source_document(v: TargetCacheSourceModel) -> JsonModel {
    JsonModel::Object(
        seq![
            ("path"@, JsonModel::Text(v.path)),
            ("len"@, JsonModel::Number(decimal(v.len as int))),
            ("modified_unix_seconds"@, JsonModel::Number(decimal(v.modified_unix_seconds as int))),
        ],
    )
}

/// A target cache source as a JSON value.
pub fn target_cache_source_json(v: &TargetCacheSource) -> (r: Json)
    ensures
        r.deep_view() == target_cache_source_document(v.deep_view()),
{
    let mut members = Members::new();
    members.put("path", text(v.path.as_str()));
    members.put("len", number(v.len));
    members.put("modified_unix_seconds", number(v.modified_unix_seconds));
    assert(members.model() =~= target_cache_source_document(v.deep_view())->Object_0);
    members.finish()
}

/// The JSON documents of target cache source records.
pub open spec fn target_cache_source_documents(
    items: Seq<TargetCacheSourceModel>,
) -> Seq<JsonModel> {
    items.map_values(|v: TargetCacheSourceModel| target_cache_source_document(v))
}

/// A JSON array of target cache source records.
pub fn target_cache_source_list(items: &Vec<TargetCacheSource>) -> (r: Json)
    ensures
        r.deep_view() == JsonModel::Array(target_cache_source_documents(items.deep_view())),
{
    let mut out = Items::new();
    let ghost all = items.deep_view();
    let mut i: usize = 0;
    assert(out.model() =~= target_cache_source_documents(all.take(0)));
    while i < items.len()
        invariant
            i <= items@.len(),
            all == items.deep_view(),
            out.model() == target_cache_source_documents(all.take(i as int)),
        decreases items@.len() - i,
    {
        out.put(target_cache_source_json(&items[i]));
        proof {
            lemma_take_next(all, i as int);
        }
        assert(out.model() =~= target_cache_source_documents(all.take(i + 1)));
        i = i + 1;
    }
    proof {
        lemma_take_all(all);
    }
    out.finish()
}

/// A target cache as a JSON document.
pub open spec fn target_cache_document(v: TargetCacheModel) -> JsonModel {
    JsonModel::Object(
        seq![
            ("version"@, JsonModel::Number(decimal(v.version as int))),
            ("language"@, JsonModel::Text(v.language)),
            ("created_unix_seconds"@, JsonModel::Number(decimal(v.created_unix_seconds as int))),
            ("git_head"@, text_or_null(v.git_head)),
            ("sources"@, JsonModel::Array(target_cache_source_documents(v.sources))),
            ("targets"@, JsonModel::Array(verification_target_documents(v.targets))),
        ],
    )
}

/// A target cache as a JSON value.
pub fn target_cache_json(v: &TargetCache) -> (r: Json)
    ensures
        r.deep_view() == target_cache_document(v.deep_view()),
{
    let mut members = Members::new();
    members.put("version", number(v.version as u64));
    members.put("language", text(v.language.as_str()));
    members.put("created_unix_seconds", number(v.created_unix_seconds));
    members.put("git_head", optional_text(&v.git_head));
    members.put("sources", target_cache_source_list(&v.sources));
    members.put("targets", verification_target_list(&v.targets));
    assert(members.model() =~= target_cache_document(v.deep_view())->Object_0);
    members.finish()
}

/// Whether a JSON document holds every field of a target cache source.
pub open spec fn target_cache_source_readable(value: JsonModel) -> bool {
    &&& text_at(value, "path"@) is Some
    &&& unsigned_at(value, "len"@, u64::MAX as int) is Some
    &&& unsigned_at(value, "modified_unix_seconds"@, u64::MAX as int) is Some
}

/// The target cache source whose fields a JSON object holds.
pub open spec fn target_cache_source_fields(value: JsonModel) -> Option<TargetCacheSourceModel> {
    if target_cache_source_readable(value) {
        Some(
            TargetCacheSourceModel {
                path: text_at(value, "path"@)->0,
                len: (unsigned_at(value, "len"@, u64::MAX as int)->0) as u64,
                modified_unix_seconds: (unsigned_at(value, "modified_unix_seconds"@, u64::MAX as int)->0) as u64,
            },
        )
    } else {
        None
    }
}

/// The target cache source that a JSON document holds: an object, or the array of the fields in their
/// order.
pub open spec fn target_cache_source_in(value: JsonModel) -> Option<TargetCacheSourceModel> {
    let names = seq![
        "path"@,
        "len"@,
        "modified_unix_seconds"@,
    ];
    target_cache_source_fields(as_record(value, names))
}

fn read_target_cache_source_fields(value: &Json) -> (r: Option<TargetCacheSource>)
    ensures
        r.deep_view() == target_cache_source_fields(value.deep_view()),
{
    let path: String = match read_text(value, "path") {
        Some(v) => v,
        None => return None,
    };
    let len: u64 = match read_unsigned(value, "len", u64::MAX) {
        Some(v) => v,
        None => return None,
    };
    let modified_unix_seconds: u64 = match read_unsigned(value, "modified_unix_seconds", u64::MAX) {
        Some(v) => v,
        None => return None,
    };
    Some(
        TargetCacheSource {
            path,
            len,
            modified_unix_seconds,
        },
    )
}

/// Reads a target cache source; nothing where the value holds none.
pub fn read_target_cache_source(value: &Json) -> (r: Option<TargetCacheSource>)
    ensures
        r.deep_view() == target_cache_source_in(value.deep_view()),
{
    let names = vec![
        "path",
        "len",
        "modified_unix_seconds",
    ];
    assert(names.deep_view() =~= seq![
        "path"@,
        "len"@,
        "modified_unix_seconds"@,
    ]);
    match named_fields(value, &names) {
        Some(record) => read_target_cache_source_fields(&record),
        None => read_target_cache_source_fields(value),
    }
}

/// The records of an array; nothing where an item is no such record.
pub open spec fn all_target_cache_sources(
    items: Seq<JsonModel>,
) -> Option<Seq<TargetCacheSourceModel>>
    decreases items.len(),
{
    if items.len() == 0 {
        Some(Seq::empty())
    } else {
        match (all_target_cache_sources(items.drop_last()), target_cache_source_in(items.last())) {
            (Some(before), Some(v)) => Some(before.push(v)),
            _ => None,
        }
    }
}

proof fn lemma_all_target_cache_sources_before(items: Seq<JsonModel>, n: int)
    requires
        0 <= n <= items.len(),
        all_target_cache_sources(items.take(n)) is None,
    ensures
        all_target_cache_sources(items) is None,
    decreases items.len() - n,
{
    if n == items.len() {
        lemma_take_all(items);
    } else {
        lemma_take_next(items, n);
        lemma_all_target_cache_sources_before(items, n + 1);
    }
}

/// Reads target cache sources from JSON values; nothing where one of them holds none.
pub fn read_all_target_cache_sources(items: &Vec<Json>) -> (r: Option<Vec<TargetCacheSource>>)
    ensures
        r.deep_view() == all_target_cache_sources(items.deep_view()),
{
    let mut out: Vec<TargetCacheSource> = Vec::new();
    let ghost all = items.deep_view();
    let mut i: usize = 0;
    assert(out.deep_view() =~= Seq::<TargetCacheSourceModel>::empty());
    assert(all_target_cache_sources(all.take(0)) == Some(out.deep_view()));
    while i < items.len()
        invariant
            i <= items@.len(),
            all == items.deep_view(),
            all_target_cache_sources(all.take(i as int)) == Some(out.deep_view()),
        decreases items@.len() - i,
    {
        proof {
            lemma_take_next(all, i as int);
        }
        let item = read_target_cache_source(&items[i]);
        match item {
            Some(v) => {
                push_target_cache_source(&mut out, v);
            },
            None => {
                proof {
                    lemma_all_target_cache_sources_before(all, i + 1);
                }
                return None;
            },
        }
        i = i + 1;
    }
    proof {
        lemma_take_all(all);
    }
    Some(out)
}

/// The target cache sources of a member; nothing where the member holds none.
pub open spec fn target_cache_sources_at(
    value: JsonModel,
    name: Seq<char>,
) -> Option<Seq<TargetCacheSourceModel>> {
    match array_at(value, name) {
        Some(items) => all_target_cache_sources(items),
        None => None,
    }
}

/// Reads the target cache sources of a member; nothing where the member holds none.
pub fn read_target_cache_sources_at(value: &Json, name: &str) -> (r: Option<Vec<TargetCacheSource>>)
    ensures
        r.deep_view() == target_cache_sources_at(value.deep_view(), name@),
{
    match read_array(value, name) {
        Some(items) => read_all_target_cache_sources(items),
        None => None,
    }
}

/// Whether a JSON document holds every field of a target cache.
pub open spec fn target_cache_readable(value: JsonModel) -> bool {
    &&& unsigned_at(value, "version"@, u8::MAX as int) is Some
    &&& text_at(value, "language"@) is Some
    &&& unsigned_at(value, "created_unix_seconds"@, u64::MAX as int) is Some
    &&& optional_text_at(value, "git_head"@) is Some
    &&& target_cache_sources_at(value, "sources"@) is Some
    &&& verification_targets_at(value, "targets"@) is Some
}

/// The target cache whose fields a JSON object holds.
pub open spec fn target_cache_fields(value: JsonModel) -> Option<TargetCacheModel> {
    if target_cache_readable(value) {
        Some(
            TargetCacheModel {
                version: (unsigned_at(value, "version"@, u8::MAX as int)->0) as u8,
                language: text_at(value, "language"@)->0,
                created_unix_seconds: (unsigned_at(value, "created_unix_seconds"@, u64::MAX as int)->0) as u64,
                git_head: optional_text_at(value, "git_head"@)->0,
                sources: target_cache_sources_at(value, "sources"@)->0,
                targets: verification_targets_at(value, "targets"@)->0,
            },
        )
    } else {
        None
    }
}

/// The target cache that a JSON document holds: an object, or the array of the fields in their
/// order.
pub open spec fn target_cache_in(value: JsonModel) -> Option<TargetCacheModel> {
    let names = seq![
        "version"@,
        "language"@,
        "created_unix_seconds"@,
        "git_head"@,
        "sources"@,
        "targets"@,
    ];
    target_cache_fields(as_record(value, names))
}

fn read_target_cache_fields(value: &Json) -> (r: Option<TargetCache>)
    ensures
        r.deep_view() == target_cache_fields(value.deep_view()),
{
    let version: u8 = match read_unsigned(value, "version", 255) {
        Some(v) => v as u8,
        None => return None,
    };
    let language: String = match read_text(value, "language") {
        Some(v) => v,
        None => return None,
    };
    let created_unix_seconds: u64 = match read_unsigned(value, "created_unix_seconds", u64::MAX) {
        Some(v) => v,
        None => return None,
    };
    let git_head: Option<String> = match read_optional_text(value, "git_head") {
        Some(v) => v,
        None => return None,
    };
    let sources: Vec<TargetCacheSource> = match read_target_cache_sources_at(value, "sources") {
        Some(v) => v,
        None => return None,
    };
    let targets: Vec<VerificationTarget> = match read_verification_targets_at(value, "targets") {
        Some(v) => v,
        None => return None,
    };
    Some(
        TargetCache {
            version,
            language,
            created_unix_seconds,
            git_head,
            sources,
            targets,
        },
    )
}

/// Reads a target cache; nothing where the value holds none.
pub fn read_target_cache(value: &Json) -> (r: Option<TargetCache>)
    ensures
        r.deep_view() == target_cache_in(value.deep_view()),
{
    let names = vec![
        "version",
        "language",
        "created_unix_seconds",
        "git_head",
        "sources",
        "targets",
    ];
    assert(names.deep_view() =~= seq![
        "version"@,
        "language"@,
        "created_unix_seconds"@,
        "git_head"@,
        "sources"@,
        "targets"@,
    ]);
    match named_fields(value, &names) {
        Some(record) => read_target_cache_fields(&record),
        None => read_target_cache_fields(value),
    }
}

/// What a file is now: its length, and when it was last changed, where that is known.
#[derive(Debug, Clone, Copy, PartialEq, Eq, Structural)]
pub struct FileFact {
    pub len: u64,
    pub modified_unix_seconds: Option<u64>,
}

/// The cache that a text holds; nothing where it holds none.
pub open spec fn cache_in_text(contents: Seq<char>) -> Option<TargetCacheModel> {
    match exact_json(contents) {
        Some(value) => target_cache_in(value),
        None => None,
    }
}

/// The cache that a file holds; nothing where it holds none.
pub fn parse_target_cache(contents: &str) -> (r: Option<TargetCache>)
    ensures
        r.deep_view() == cache_in_text(contents@),
{
    match parse_exact(contents) {
        Some(value) => read_target_cache(&value),
        None => None,
    }
}

/// The text of a cache, from which it is read back as it was.
pub fn target_cache_text(cache: &TargetCache) -> (r: String)
    ensures
        r@ == formatted_json(target_cache_document(cache.deep_view())),
        cache_in_text(r@) == Some(cache.deep_view()),
{
    proof {
        lemma_target_cache_reads(cache.deep_view());
        lemma_target_cache_is_plain(cache.deep_view(), 100);
        lemma_plain_values_are_exact(100);
    }
    formatted(&target_cache_json(cache))
}

/// The file of the cache of a language.
pub open spec fn target_cache_path_text(language: Seq<char>) -> Seq<char> {
    let t = ".veritas/cache/"@ + language + "_targets.json"@;
    t
}

/// The file of the cache of a language.
pub fn target_cache_path(language: &str) -> (r: String)
    ensures
        r@ == target_cache_path_text(language@),
{
    let mut out = owned(".veritas/cache/");
    out.append(language);
    out.append("_targets.json");
    out
}

// ---------------------------------------------------------------------------
// Validity
// ---------------------------------------------------------------------------
/// Whether a file is as it was: it is there, and has the same length and time.
pub open spec fn unchanged(source: TargetCacheSourceModel, fact: Option<FileFact>) -> bool {
    match fact {
        Some(now) => now.len == source.len && now.modified_unix_seconds == Some(
            source.modified_unix_seconds,
        ),
        None => false,
    }
}

/// Whether a file is as it was.
pub fn source_matches(source: &TargetCacheSource, fact: &Option<FileFact>) -> (r: bool)
    ensures
        r == unchanged(source.deep_view(), *fact),
{
    match fact {
        Some(now) => now.len == source.len && match now.modified_unix_seconds {
            Some(seconds) => seconds == source.modified_unix_seconds,
            None => false,
        },
        None => false,
    }
}

/// Whether a cache can be used: it is of this version and language, the project has the
/// same head, and every file is as it was. The facts are those of the files, in order.
pub open spec fn usable(
    cache: TargetCacheModel,
    language: Seq<char>,
    git_head: Option<Seq<char>>,
    facts: Seq<Option<FileFact>>,
) -> bool {
    &&& cache.version == 1
    &&& cache.language == language
    &&& cache.git_head == git_head
    &&& cache.sources.len() <= facts.len()
    &&& forall|i: int|
        0 <= i < cache.sources.len() ==> unchanged(#[trigger] cache.sources[i], facts[i])
}

/// Whether a cache can be used.
pub fn is_valid_target_cache(
    cache: &TargetCache,
    language: &str,
    git_head: &Option<String>,
    facts: &Vec<Option<FileFact>>,
) -> (r: bool)
    ensures
        r == usable(cache.deep_view(), language@, git_head.deep_view(), facts@),
{
    assert(cache.sources@.len() == cache.sources.deep_view().len());
    if cache.version != 1 || !same(cache.language.as_str(), language) || !same_option(
        &cache.git_head,
        git_head,
    ) || cache.sources.len() > facts.len() {
        return false;
    }
    let ghost all = cache.sources.deep_view();
    let mut i: usize = 0;
    while i < cache.sources.len()
        invariant
            i <= cache.sources@.len() <= facts@.len(),
            all == cache.sources.deep_view(),
            forall|k: int| 0 <= k < i ==> unchanged(#[trigger] all[k], facts@[k]),
        decreases cache.sources@.len() - i,
    {
        assert(all[i as int] == cache.sources@[i as int].deep_view());
        if !source_matches(&cache.sources[i], &facts[i]) {
            return false;
        }
        i = i + 1;
    }
    true
}

/// The paths of targets, but for the project itself.
pub open spec fn target_paths(items: Seq<VerificationTargetModel>) -> Seq<Seq<char>>
    decreases items.len(),
{
    if items.len() == 0 {
        Seq::empty()
    } else {
        let before = target_paths(items.drop_last());
        match if items.last().path == "."@ { None } else { Some(items.last().path) } {
            Some(one) => before.push(one),
            None => before,
        }
    }
}

fn paths_of_targets(items: &Vec<VerificationTarget>) -> (r: Vec<String>)
    ensures
        r.deep_view() == target_paths(items.deep_view()),
{
    let mut out: Vec<String> = Vec::new();
    let ghost all = items.deep_view();
    let mut i: usize = 0;
    assert(out.deep_view() == target_paths(all.take(0)));
    while i < items.len()
        invariant
            i <= items@.len(),
            all == items.deep_view(),
            out.deep_view() == target_paths(all.take(i as int)),
        decreases items@.len() - i,
    {
        proof {
            lemma_take_next(all, i as int);
        }
        match path_of_target(&items[i]) {
            Some(one) => {
                push_text(&mut out, one);
            },
            None => {},
        }
        i = i + 1;
    }
    proof {
        lemma_take_all(all);
    }
    out
}

fn path_of_target(target: &VerificationTarget) -> (r: Option<String>)
    ensures
        r.deep_view() == if target.deep_view().path == "."@ {
            None
        } else {
            Some(target.deep_view().path)
        },
{
    if same(target.path.as_str(), ".") {
        None
    } else {
        Some(owned(target.path.as_str()))
    }
}

/// The paths that targets depend on, in order, each once: the manifests of the project,
/// and the paths of the targets.
pub fn cache_source_paths(project: &ProjectInfo, targets: &Vec<VerificationTarget>) -> (r: Vec<
    String,
>)
    ensures
        r.deep_view() == sorted_set::<ByPath>(
            project.deep_view().manifests + target_paths(targets.deep_view()),
        ),
{
    let mut paths = clone_texts(&project.manifests);
    let mut more = paths_of_targets(targets);
    let ghost front = paths.deep_view();
    let ghost back = more.deep_view();
    paths.append(&mut more);
    assert(paths.deep_view() =~= front + back);
    to_sorted_set::<ByPath>(&paths)
}

/// A cache of targets.
pub open spec fn built_cache(
    language: Seq<char>,
    created_unix_seconds: u64,
    git_head: Option<Seq<char>>,
    sources: Seq<TargetCacheSourceModel>,
    targets: Seq<VerificationTargetModel>,
) -> TargetCacheModel {
    TargetCacheModel { version: 1, language, created_unix_seconds, git_head, sources, targets }
}

/// A cache of targets.
pub fn build_target_cache(
    language: &str,
    created_unix_seconds: u64,
    git_head: &Option<String>,
    sources: Vec<TargetCacheSource>,
    targets: &Vec<VerificationTarget>,
) -> (r: TargetCache)
    ensures
        r.deep_view() == built_cache(
            language@,
            created_unix_seconds,
            git_head.deep_view(),
            sources.deep_view(),
            targets.deep_view(),
        ),
{
    TargetCache {
        version: 1,
        language: owned(language),
        created_unix_seconds,
        git_head: clone_text(git_head),
        sources,
        targets: clone_verification_targets(targets),
    }
}

/// A cache can be used as long as its files and the head of the project stay as they
/// were.
pub proof fn law_cache_holds_while_nothing_changes(
    language: Seq<char>,
    created_unix_seconds: u64,
    git_head: Option<Seq<char>>,
    sources: Seq<TargetCacheSourceModel>,
    targets: Seq<VerificationTargetModel>,
)
    ensures
        usable(
            built_cache(language, created_unix_seconds, git_head, sources, targets),
            language,
            git_head,
            sources.map_values(
                |source: TargetCacheSourceModel|
                    Some(
                        FileFact {
                            len: source.len,
                            modified_unix_seconds: Some(source.modified_unix_seconds),
                        },
                    ),
            ),
        ),
{
}

/// A cache cannot be used once a file has another length, or is gone.
pub proof fn law_changed_files_end_a_cache(
    cache: TargetCacheModel,
    language: Seq<char>,
    git_head: Option<Seq<char>>,
    facts: Seq<Option<FileFact>>,
    i: int,
)
    requires
        0 <= i < cache.sources.len() <= facts.len(),
        facts[i] matches Some(fact) ==> fact.len != cache.sources[i].len,
    ensures
        !usable(cache, language, git_head, facts),
{
    assert(!unchanged(cache.sources[i], facts[i]));
}

/// A cache ends with a file that was written at another time or is gone, with another head of
/// the project, in another language and with another version.
pub proof fn law_other_times_end_a_cache(
    cache: TargetCacheModel,
    language: Seq<char>,
    git_head: Option<Seq<char>>,
    facts: Seq<Option<FileFact>>,
    i: int,
)
    ensures
        0 <= i < cache.sources.len() <= facts.len() && (facts[i] matches Some(fact) ==> (
        fact.modified_unix_seconds matches Some(seconds) ==> seconds
            != cache.sources[i].modified_unix_seconds)) ==> !usable(
            cache,
            language,
            git_head,
            facts,
        ),
        cache.git_head != git_head ==> !usable(cache, language, git_head, facts),
        cache.language != language ==> !usable(cache, language, git_head, facts),
        cache.version != 1 ==> !usable(cache, language, git_head, facts),
{
    if 0 <= i < cache.sources.len() <= facts.len() && (facts[i] matches Some(fact) ==> (
    fact.modified_unix_seconds matches Some(seconds) ==> seconds
        != cache.sources[i].modified_unix_seconds)) {
        assert(!unchanged(cache.sources[i], facts[i]));
    }
}

// ---------------------------------------------------------------------------
// The artifact
// ---------------------------------------------------------------------------
/// What is said of a cache.
pub open spec fn target_cache_summary_document(
    language: Seq<char>,
    cache: TargetCacheModel,
    state: Seq<char>,
) -> JsonModel {
    JsonModel::Object(
        seq![
            ("version"@, JsonModel::Number(decimal(1))),
            ("language"@, JsonModel::Text(language)),
            ("state"@, JsonModel::Text(state)),
            ("targets"@, JsonModel::Number(decimal(cache.targets.len() as int))),
            ("sources"@, JsonModel::Number(decimal(cache.sources.len() as int))),
            ("git_head"@, text_or_null(cache.git_head)),
            ("created_unix_seconds"@, JsonModel::Number(decimal(cache.created_unix_seconds as int))),
            ("cache_path"@, JsonModel::Text(target_cache_path_text(language))),
            ("next_step"@, JsonModel::Text("Reuse this cache on clean, fingerprint-matching runs to avoid repeated Tree-sitter target discovery on large repositories."@)),
        ],
    )
}

fn target_cache_summary_json(language: &str, cache: &TargetCache, state: &str) -> (r: Json)
    ensures
        r.deep_view() == target_cache_summary_document(language@, cache.deep_view(), state@),
{
    let mut members = Members::new();
    assert(cache.targets@.len() == cache.targets.deep_view().len());
    assert(cache.sources@.len() == cache.sources.deep_view().len());
    members.put("version", number(1));
    members.put("language", text(language));
    members.put("state", text(state));
    members.put("targets", number(cache.targets.len() as u64));
    members.put("sources", number(cache.sources.len() as u64));
    members.put("git_head", optional_text(&cache.git_head));
    members.put("created_unix_seconds", number(cache.created_unix_seconds));
    members.put("cache_path", text(target_cache_path(language).as_str()));
    members.put("next_step", text("Reuse this cache on clean, fingerprint-matching runs to avoid repeated Tree-sitter target discovery on large repositories."));
    assert(members.model() =~= target_cache_summary_document(language@, cache.deep_view(), state@)->Object_0);
    members.finish()
}

/// The artifact of a cache.
pub open spec fn cache_artifact(
    language: Seq<char>,
    cache: TargetCacheModel,
    state: Seq<char>,
) -> GeneratedArtifactModel {
    GeneratedArtifactModel {
        id: language + "-target-cache-"@ + state,
        language,
        kind: ArtifactKind::TargetCache,
        target_id: language + ":project"@,
        path: ".veritas/cache/"@ + language + "_targets.summary.json"@,
        contents: pretty_json(target_cache_summary_document(language, cache, state)),
        description: "Reusable target graph cache metadata for large-repo verification"@,
        status: ArtifactStatus::Written,
    }
}

/// The artifact of a cache.
pub fn target_cache_artifact(language: &str, cache: &TargetCache, state: &str) -> (r:
    GeneratedArtifact)
    ensures
        r.deep_view() == cache_artifact(language@, cache.deep_view(), state@),
{
    GeneratedArtifact {
        id: cat3(language, "-target-cache-", state),
        language: owned(language),
        kind: ArtifactKind::TargetCache,
        target_id: cat2(language, ":project"),
        path: cat3(".veritas/cache/", language, "_targets.summary.json"),
        contents: pretty(&target_cache_summary_json(language, cache, state)),
        description: owned("Reusable target graph cache metadata for large-repo verification"),
        status: ArtifactStatus::Written,
    }
}

} // verus!
