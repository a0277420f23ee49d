//! Go modules and packages: how they are found, which of them a run covers, and the
//! arguments of the Go tool.
use vstd::prelude::*;

use crate::api::{ArtifactKind, GeneratedArtifact, GeneratedArtifactModel};
use crate::config::{GoPluginConfig, GoPluginConfigModel};
use crate::fields::{absent, is_absent, read_text, read_texts, text_at, texts_at};
use crate::json::{as_record, exact_stream, named_fields, parse_exact_stream, Json, JsonModel};
use crate::offsets::{byte_len, bytes_of_char};
use crate::order::{
    has, holds, insert, inserted, lemma_inserted_items, level, sorted_set, to_sorted_set, ByText,
    TextOrder,
};
use crate::pathmap::{push_path_texts, put_texts, texts_put, PathTexts, PathTextsModel};
use crate::paths::{
    components, extension, joined_path, package_dir, package_dir_path, path_behind, path_extension,
    path_lt, path_parts, ByPath,
};
use crate::seqs::{cat2, lemma_take_all, lemma_take_next};
use crate::split::{at_most, first_texts, join, joined, lines, lines_of, push_text, trim, trimmed};
use crate::text::{
    chars_of, clone_texts, list_has, owned, rcut_at, rsplit_once, same, starts, starts_with,
    strip_prefix, without_prefix,
};
use crate::paths::join as join_path;
use crate::paths::starts_with as path_starts_with;
use crate::paths::strip_prefix as strip_path_prefix;

verus! {

// ---------------------------------------------------------------------------
// Modules
// ---------------------------------------------------------------------------
/// A Go module: its path, and the directory that holds it.
#[derive(Debug, PartialEq, Eq)]
pub struct GoModule {
    pub declared_path: String,
    pub root: String,
}

/// The mathematical value of a `GoModule`.
pub struct GoModuleModel {
    pub declared_path: Seq<char>,
    pub root: Seq<char>,
}

impl DeepView for GoModule {
    type V = GoModuleModel;

    open spec fn deep_view(&self) -> GoModuleModel {
        GoModuleModel {
            declared_path: self.declared_path@,
            root: self.root@,
        }
    }
}

impl Clone for GoModule {
    fn clone(&self) -> (r: Self)
        ensures
            r.deep_view() == self.deep_view(),
    {
        GoModule {
            declared_path: self.declared_path.clone(),
            root: self.root.clone(),
        }
    }
}

/// A copy of go modules.
pub fn clone_go_modules(items: &Vec<GoModule>) -> (r: Vec<GoModule>)
    ensures
        r.deep_view() == items.deep_view(),
        r@.len() == items@.len(),
{
    let mut out: Vec<GoModule> = Vec::new();
    let mut i: usize = 0;
    while i < items.len()
        invariant
            i <= items@.len(),
            out@.len() == i,
            forall|j: int| 0 <= j < i ==> #[trigger] out@[j].deep_view() == items@[j].deep_view(),
        decreases items@.len() - i,
    {
        out.push(items[i].clone());
        i = i + 1;
    }
    assert(out.deep_view() == items.deep_view());
    out
}

/// A Go package, as the Go tool lists it.
#[derive(Debug, PartialEq, Eq)]
pub struct GoPackage {
    pub import_path: String,
    pub dir: String,
    pub imports: Vec<String>,
    pub test_imports: Vec<String>,
    pub x_test_imports: Vec<String>,
    pub go_files: Vec<String>,
    pub test_go_files: Vec<String>,
    pub x_test_go_files: Vec<String>,
}

/// The mathematical value of a `GoPackage`.
pub struct GoPackageModel {
    pub import_path: Seq<char>,
    pub dir: Seq<char>,
    pub imports: Seq<Seq<char>>,
    pub test_imports: Seq<Seq<char>>,
    pub x_test_imports: Seq<Seq<char>>,
    pub go_files: Seq<Seq<char>>,
    pub test_go_files: Seq<Seq<char>>,
    pub x_test_go_files: Seq<Seq<char>>,
}

impl DeepView for GoPackage {
    type V = GoPackageModel;

    open spec fn deep_view(&self) -> GoPackageModel {
        GoPackageModel {
            import_path: self.import_path@,
            dir: self.dir@,
            imports: self.imports.deep_view(),
            test_imports: self.test_imports.deep_view(),
            x_test_imports: self.x_test_imports.deep_view(),
            go_files: self.go_files.deep_view(),
            test_go_files: self.test_go_files.deep_view(),
            x_test_go_files: self.x_test_go_files.deep_view(),
        }
    }
}

impl Clone for GoPackage {
    fn clone(&self) -> (r: Self)
        ensures
            r.deep_view() == self.deep_view(),
    {
        GoPackage {
            import_path: self.import_path.clone(),
            dir: self.dir.clone(),
            imports: clone_texts(&self.imports),
            test_imports: clone_texts(&self.test_imports),
            x_test_imports: clone_texts(&self.x_test_imports),
            go_files: clone_texts(&self.go_files),
            test_go_files: clone_texts(&self.test_go_files),
            x_test_go_files: clone_texts(&self.x_test_go_files),
        }
    }
}

/// A copy of go packages.
pub fn clone_go_packages(items: &Vec<GoPackage>) -> (r: Vec<GoPackage>)
    ensures
        r.deep_view() == items.deep_view(),
        r@.len() == items@.len(),
{
    let mut out: Vec<GoPackage> = Vec::new();
    let mut i: usize = 0;
    while i < items.len()
        invariant
            i <= items@.len(),
            out@.len() == i,
            forall|j: int| 0 <= j < i ==> #[trigger] out@[j].deep_view() == items@[j].deep_view(),
        decreases items@.len() - i,
    {
        out.push(items[i].clone());
        i = i + 1;
    }
    assert(out.deep_view() == items.deep_view());
    out
}

/// Puts an item at the end of the list.
pub fn push_go_package(items: &mut Vec<GoPackage>, item: GoPackage)
    ensures
        final(items).deep_view() == old(items).deep_view().push(item.deep_view()),
        final(items)@.len() == old(items)@.len() + 1,
{
    let ghost before = items.deep_view();
    items.push(item);
    assert(items.deep_view() == before.push(item.deep_view()));
}

/// The first line, from one on, that starts in some way.
pub open spec fn line_with_prefix_from(
    items: Seq<Seq<char>>,
    prefix: Seq<char>,
    from: int,
) -> Option<int>
    decreases items.len() - from,
{
    if from < 0 || from >= items.len() {
        None
    } else if starts(items[from], prefix) {
        Some(from)
    } else {
        line_with_prefix_from(items, prefix, from + 1)
    }
}

fn line_with_prefix(items: &Vec<String>, prefix: &str) -> (r: Option<usize>)
    ensures
        r matches Some(i) ==> i < items@.len() && line_with_prefix_from(items.deep_view(), prefix@, 0) == Some(
            i as int,
        ),
        r is None ==> line_with_prefix_from(items.deep_view(), prefix@, 0) is None,
{
    let ghost all = items.deep_view();
    let mut i: usize = 0;
    while i < items.len()
        invariant
            i <= items@.len(),
            all == items.deep_view(),
            line_with_prefix_from(all, prefix@, 0) == line_with_prefix_from(all, prefix@, i as int),
        decreases items@.len() - i,
    {
        assert(all[i as int] == items@[i as int].deep_view());
        if starts_with(items[i].as_str(), prefix) {
            return Some(i);
        }
        i = i + 1;
    }
    None
}

/// What the first line with the keyword declares; nothing where that is empty, or where
/// there is no such line.
pub open spec fn declared(all: Seq<Seq<char>>, keyword: Seq<char>) -> Option<Seq<char>> {
    match line_with_prefix_from(all, keyword, 0) {
        Some(i) => {
            let name = trimmed(all[i].skip(keyword.len() as int));
            if name.len() > 0 {
                Some(name)
            } else {
                None
            }
        },
        None => None,
    }
}

fn declaration(all: &Vec<String>, keyword: &str) -> (r: Option<String>)
    ensures
        r.deep_view() == declared(all.deep_view(), keyword@),
{
    match line_with_prefix(all, keyword) {
        Some(i) => {
            assert(all.deep_view()[i as int] == all@[i as int]@);
            match strip_prefix(all[i].as_str(), keyword) {
                Some(rest) => {
                    let name = trim(rest.as_str());
                    if name.as_str().unicode_len() > 0 {
                        Some(name)
                    } else {
                        None
                    }
                },
                None => {
                    proof {
                        lemma_line_starts(all.deep_view(), keyword@, 0);
                    }
                    None
                },
            }
        },
        None => None,
    }
}

proof fn lemma_line_starts(all: Seq<Seq<char>>, prefix: Seq<char>, from: int)
    requires
        0 <= from,
    ensures
        line_with_prefix_from(all, prefix, from) matches Some(i) ==> from <= i < all.len()
            && starts(all[i], prefix),
    decreases all.len() - from,
{
    if from < all.len() && !starts(all[from], prefix) {
        lemma_line_starts(all, prefix, from + 1);
    }
}

/// The module that a `go.mod` file declares, in a directory; nothing where it declares
/// none.
pub fn parse_go_module(contents: &str, root: &str) -> (r: Option<GoModule>)
    ensures
        r.deep_view() == match declared(lines_of(contents@), "module "@) {
            Some(declared_path) => Some(GoModuleModel { declared_path, root: root@ }),
            None => None,
        },
{
    let all = lines(contents);
    match declaration(&all, "module ") {
        Some(declared_path) => Some(GoModule { declared_path, root: owned(root) }),
        None => None,
    }
}

/// Lines without the blanks around them.
pub open spec fn all_trimmed(items: Seq<Seq<char>>) -> Seq<Seq<char>>
    decreases items.len(),
{
    if items.len() == 0 {
        Seq::empty()
    } else {
        all_trimmed(items.drop_last()).push(trimmed(items.last()))
    }
}

fn trimmed_lines(items: &Vec<String>) -> (r: Vec<String>)
    ensures
        r.deep_view() == all_trimmed(items.deep_view()),
{
    let mut out: Vec<String> = Vec::new();
    let ghost all = items.deep_view();
    let mut i: usize = 0;
    assert(out.deep_view() == all_trimmed(all.take(0)));
    while i < items.len()
        invariant
            i <= items@.len(),
            all == items.deep_view(),
            out.deep_view() == all_trimmed(all.take(i as int)),
        decreases items@.len() - i,
    {
        proof {
            lemma_take_next(all, i as int);
        }
        push_text(&mut out, trim(items[i].as_str()));
        i = i + 1;
    }
    proof {
        lemma_take_all(all);
    }
    out
}

/// The package that a Go source file names.
pub fn parse_package_name(contents: &str) -> (r: Option<String>)
    ensures
        r.deep_view() == declared(all_trimmed(lines_of(contents@)), "package "@),
{
    let all = lines(contents);
    let bare = trimmed_lines(&all);
    declaration(&bare, "package ")
}

/// A directory, where the empty path stands for the one at hand.
pub open spec fn normal_dir(path: Seq<char>) -> Seq<char> {
    if path.len() == 0 {
        "."@
    } else {
        path
    }
}

/// A directory, where the empty path stands for the one at hand.
pub fn normalize_package_dir(path: &str) -> (r: String)
    ensures
        r@ == normal_dir(path@),
{
    if path.unicode_len() == 0 {
        owned(".")
    } else {
        owned(path)
    }
}

/// Directories, where the empty path stands for the one at hand.
pub open spec fn all_normal(items: Seq<Seq<char>>) -> Seq<Seq<char>>
    decreases items.len(),
{
    if items.len() == 0 {
        Seq::empty()
    } else {
        all_normal(items.drop_last()).push(normal_dir(items.last()))
    }
}

fn normal_dirs(items: &Vec<String>) -> (r: Vec<String>)
    ensures
        r.deep_view() == all_normal(items.deep_view()),
{
    let mut out: Vec<String> = Vec::new();
    let ghost all = items.deep_view();
    let mut i: usize = 0;
    assert(out.deep_view() == all_normal(all.take(0)));
    while i < items.len()
        invariant
            i <= items@.len(),
            all == items.deep_view(),
            out.deep_view() == all_normal(all.take(i as int)),
        decreases items@.len() - i,
    {
        proof {
            lemma_take_next(all, i as int);
        }
        push_text(&mut out, normalize_package_dir(items[i].as_str()));
        i = i + 1;
    }
    proof {
        lemma_take_all(all);
    }
    out
}

/// The directories of modules: those that hold a `go.mod` file, in order, each once.
pub fn go_module_roots(dirs: &Vec<String>) -> (r: Vec<String>)
    ensures
        r.deep_view() == sorted_set::<ByPath>(all_normal(dirs.deep_view())),
{
    let normal = normal_dirs(dirs);
    to_sorted_set::<ByPath>(&normal)
}

/// A path in a module, seen from the project.
pub open spec fn path_in_project(module_root: Seq<char>, path: Seq<char>) -> Seq<char> {
    if module_root == "."@ {
        path
    } else if path == "."@ {
        module_root
    } else {
        joined_path(module_root, path)
    }
}

/// A path in a module, seen from the project.
pub fn prefix_module_path(module_root: &str, path: &str) -> (r: String)
    ensures
        r@ == path_in_project(module_root@, path@),
{
    if same(module_root, ".") {
        owned(path)
    } else if same(path, ".") {
        owned(module_root)
    } else {
        join_path(module_root, path)
    }
}

// ---------------------------------------------------------------------------
// Arguments of the Go tool
// ---------------------------------------------------------------------------
/// A directory as an argument of the Go tool.
pub open spec fn package_argument(path: Seq<char>) -> Seq<char> {
    if path == "."@ {
        "."@
    } else {
        "./"@ + path
    }
}

/// A directory as an argument of the Go tool.
pub fn package_arg(path: &str) -> (r: String)
    ensures
        r@ == package_argument(path@),
{
    if same(path, ".") {
        owned(".")
    } else {
        cat2("./", path)
    }
}

/// Directories as arguments of the Go tool.
pub open spec fn package_arguments(items: Seq<Seq<char>>) -> Seq<Seq<char>>
    decreases items.len(),
{
    if items.len() == 0 {
        Seq::empty()
    } else {
        package_arguments(items.drop_last()).push(package_argument(items.last()))
    }
}

/// Directories as arguments of the Go tool.
pub fn package_args(items: &Vec<String>) -> (r: Vec<String>)
    ensures
        r.deep_view() == package_arguments(items.deep_view()),
{
    let mut out: Vec<String> = Vec::new();
    let ghost all = items.deep_view();
    let mut i: usize = 0;
    assert(out.deep_view() == package_arguments(all.take(0)));
    while i < items.len()
        invariant
            i <= items@.len(),
            all == items.deep_view(),
            out.deep_view() == package_arguments(all.take(i as int)),
        decreases items@.len() - i,
    {
        proof {
            lemma_take_next(all, i as int);
        }
        push_text(&mut out, package_arg(items[i].as_str()));
        i = i + 1;
    }
    proof {
        lemma_take_all(all);
    }
    out
}

/// The argument that sets the build tags, where there are any.
pub open spec fn tags_argument(build_tags: Seq<Seq<char>>) -> Option<Seq<char>> {
    if build_tags.len() == 0 {
        None
    } else {
        Some("-tags="@ + joined(build_tags, ","@))
    }
}

/// The argument that sets the build tags, where there are any.
pub fn go_tags_arg(config: &GoPluginConfig) -> (r: Option<String>)
    ensures
        r.deep_view() == tags_argument(config.deep_view().build_tags),
{
    assert(config.build_tags@.len() == config.build_tags.deep_view().len());
    if config.build_tags.len() == 0 {
        None
    } else {
        Some(cat2("-tags=", join(&config.build_tags, ",").as_str()))
    }
}

/// A first argument, the build tags where there are any, and more arguments.
pub open spec fn with_tags(
    first: Seq<char>,
    build_tags: Seq<Seq<char>>,
    rest: Seq<Seq<char>>,
) -> Seq<Seq<char>> {
    match tags_argument(build_tags) {
        Some(tags) => seq![first, tags] + rest,
        None => seq![first] + rest,
    }
}

/// The arguments that run the tests of packages.
pub open spec fn test_arguments(
    build_tags: Seq<Seq<char>>,
    package_args: Seq<Seq<char>>,
) -> Seq<Seq<char>> {
    with_tags("test"@, build_tags, package_args)
}

/// The arguments that run the tests of packages.
pub fn go_test_args(config: &GoPluginConfig, package_args: &Vec<String>) -> (r: Vec<String>)
    ensures
        r.deep_view() == test_arguments(config.deep_view().build_tags, package_args.deep_view()),
{
    tagged_args("test", config, package_args)
}

/// A first argument, the build tags where there are any, and more arguments.
pub fn tagged_args(first: &str, config: &GoPluginConfig, rest: &Vec<String>) -> (r: Vec<String>)
    ensures
        r.deep_view() == with_tags(first@, config.deep_view().build_tags, rest.deep_view()),
{
    let mut args: Vec<String> = Vec::new();
    push_text(&mut args, owned(first));
    if let Some(tags) = go_tags_arg(config) {
        push_text(&mut args, tags);
    }
    let mut more = clone_texts(rest);
    let ghost front = args.deep_view();
    args.append(&mut more);
    assert(args.deep_view() =~= front + rest.deep_view());
    assert(args.deep_view() =~= with_tags(
        first@,
        config.deep_view().build_tags,
        rest.deep_view(),
    ));
    args
}

/// The arguments that list the packages of a module.
pub fn go_list_args(config: &GoPluginConfig) -> (r: Vec<String>)
    ensures
        r.deep_view() == seq!["list"@] + with_tags(
            "-json"@,
            config.deep_view().build_tags,
            seq!["./..."@],
        ),
{
    let mut everything: Vec<String> = Vec::new();
    push_text(&mut everything, owned("./..."));
    assert(everything.deep_view() =~= seq!["./..."@]);
    let mut rest = tagged_args("-json", config, &everything);
    let ghost behind = rest.deep_view();
    let mut args: Vec<String> = Vec::new();
    push_text(&mut args, owned("list"));
    let ghost front = args.deep_view();
    assert(front =~= seq!["list"@]);
    args.append(&mut rest);
    assert(args.deep_view() =~= front + behind);
    args
}

// ---------------------------------------------------------------------------
// Listings
// ---------------------------------------------------------------------------
/// The texts of a member; none where the member is missing or null.
pub open spec fn texts_or_none_at(value: JsonModel, name: Seq<char>) -> Option<Seq<Seq<char>>> {
    if absent(value, name) {
        Some(Seq::empty())
    } else {
        texts_at(value, name)
    }
}

fn read_texts_or_none(value: &Json, name: &str) -> (r: Option<Vec<String>>)
    ensures
        r.deep_view() == texts_or_none_at(value.deep_view(), name@),
{
    if is_absent(value, name) {
        let none: Vec<String> = Vec::new();
        assert(none.deep_view() =~= Seq::<Seq<char>>::empty());
        Some(none)
    } else {
        read_texts(value, name)
    }
}

/// A path seen from a directory that it is below; any other path stays as it is.
pub open spec fn relative_to(path: Seq<char>, rest: Option<Seq<char>>) -> Seq<char> {
    match rest {
        Some(behind) => behind,
        None => path,
    }
}

/// A path with what is left of it behind a directory: that, or the path where it is not
/// below the directory.
pub fn relative_path(path: &str, rest: &Option<String>) -> (r: String)
    ensures
        r@ == relative_to(path@, rest.deep_view()),
{
    match rest {
        Some(behind) => owned(behind.as_str()),
        None => owned(path),
    }
}

/// Whether a document describes a package.
pub open spec fn package_readable(value: JsonModel) -> bool {
    &&& text_at(value, "ImportPath"@) is Some
    &&& text_at(value, "Dir"@) is Some
    &&& texts_or_none_at(value, "Imports"@) is Some
    &&& texts_or_none_at(value, "TestImports"@) is Some
    &&& texts_or_none_at(value, "XTestImports"@) is Some
    &&& texts_or_none_at(value, "GoFiles"@) is Some
    &&& texts_or_none_at(value, "TestGoFiles"@) is Some
    &&& texts_or_none_at(value, "XTestGoFiles"@) is Some
}

/// The package whose fields an object holds, in a module.
pub open spec fn package_fields(module_dir: Seq<char>, value: JsonModel) -> Option<GoPackageModel> {
    if package_readable(value) {
        let dir = text_at(value, "Dir"@)->0;
        Some(
            GoPackageModel {
                import_path: text_at(value, "ImportPath"@)->0,
                dir: normal_dir(relative_to(dir, path_behind(dir, module_dir))),
                imports: texts_or_none_at(value, "Imports"@)->0,
                test_imports: texts_or_none_at(value, "TestImports"@)->0,
                x_test_imports: texts_or_none_at(value, "XTestImports"@)->0,
                go_files: texts_or_none_at(value, "GoFiles"@)->0,
                test_go_files: texts_or_none_at(value, "TestGoFiles"@)->0,
                x_test_go_files: texts_or_none_at(value, "XTestGoFiles"@)->0,
            },
        )
    } else {
        None
    }
}

/// The package that a document describes, in a module: by an object, or by the array of the
/// fields in their order.
pub open spec fn listed_package(module_dir: Seq<char>, value: JsonModel) -> Option<GoPackageModel> {
    let names = seq![
        "ImportPath"@,
        "Dir"@,
        "Imports"@,
        "TestImports"@,
        "XTestImports"@,
        "GoFiles"@,
        "TestGoFiles"@,
        "XTestGoFiles"@,
    ];
    package_fields(module_dir, as_record(value, names))
}

fn read_package_fields(module_dir: &str, value: &Json) -> (r: Option<GoPackage>)
    ensures
        r.deep_view() == package_fields(module_dir@, value.deep_view()),
{
    let import_path: String = match read_text(value, "ImportPath") {
        Some(v) => v,
        None => return None,
    };
    let dir: String = match read_text(value, "Dir") {
        Some(v) => v,
        None => return None,
    };
    let imports: Vec<String> = match read_texts_or_none(value, "Imports") {
        Some(v) => v,
        None => return None,
    };
    let test_imports: Vec<String> = match read_texts_or_none(value, "TestImports") {
        Some(v) => v,
        None => return None,
    };
    let x_test_imports: Vec<String> = match read_texts_or_none(value, "XTestImports") {
        Some(v) => v,
        None => return None,
    };
    let go_files: Vec<String> = match read_texts_or_none(value, "GoFiles") {
        Some(v) => v,
        None => return None,
    };
    let test_go_files: Vec<String> = match read_texts_or_none(value, "TestGoFiles") {
        Some(v) => v,
        None => return None,
    };
    let x_test_go_files: Vec<String> = match read_texts_or_none(value, "XTestGoFiles") {
        Some(v) => v,
        None => return None,
    };
    let rest = strip_path_prefix(dir.as_str(), module_dir);
    let relative = relative_path(dir.as_str(), &rest);
    Some(
        GoPackage {
            import_path,
            dir: normalize_package_dir(relative.as_str()),
            imports,
            test_imports,
            x_test_imports,
            go_files,
            test_go_files,
            x_test_go_files,
        },
    )
}

fn read_package(module_dir: &str, value: &Json) -> (r: Option<GoPackage>)
    ensures
        r.deep_view() == listed_package(module_dir@, value.deep_view()),
{
    let names = vec![
        "ImportPath",
        "Dir",
        "Imports",
        "TestImports",
        "XTestImports",
        "GoFiles",
        "TestGoFiles",
        "XTestGoFiles",
    ];
    assert(names.deep_view() =~= seq![
        "ImportPath"@,
        "Dir"@,
        "Imports"@,
        "TestImports"@,
        "XTestImports"@,
        "GoFiles"@,
        "TestGoFiles"@,
        "XTestGoFiles"@,
    ]);
    match named_fields(value, &names) {
        Some(record) => read_package_fields(module_dir, &record),
        None => read_package_fields(module_dir, value),
    }
}

/// The packages that documents describe; nothing where one of them describes none.
pub open spec fn listed_packages(module_dir: Seq<char>, documents: Seq<JsonModel>) -> Option<
    Seq<GoPackageModel>,
>
    decreases documents.len(),
{
    if documents.len() == 0 {
        Some(Seq::empty())
    } else {
        match (
            listed_packages(module_dir, documents.drop_last()),
            listed_package(module_dir, documents.last()),
        ) {
            (Some(before), Some(package)) => Some(before.push(package)),
            _ => None,
        }
    }
}

proof fn lemma_unlisted(module_dir: Seq<char>, documents: Seq<JsonModel>, n: int)
    requires
        0 <= n <= documents.len(),
        listed_packages(module_dir, documents.take(n)) is None,
    ensures
        listed_packages(module_dir, documents) is None,
    decreases documents.len() - n,
{
    if n == documents.len() {
        lemma_take_all(documents);
    } else {
        lemma_take_next(documents, n);
        lemma_unlisted(module_dir, documents, n + 1);
    }
}

/// The packages that documents describe; nothing where one of them describes none.
pub fn packages_in_documents(module_dir: &str, documents: &Vec<Json>) -> (r: Option<Vec<GoPackage>>)
    ensures
        r.deep_view() == listed_packages(module_dir@, documents.deep_view()),
{
    let mut out: Vec<GoPackage> = Vec::new();
    let ghost all = documents.deep_view();
    let mut i: usize = 0;
    assert(out.deep_view() =~= Seq::<GoPackageModel>::empty());
    assert(listed_packages(module_dir@, all.take(0)) == Some(out.deep_view()));
    while i < documents.len()
        invariant
            i <= documents@.len(),
            all == documents.deep_view(),
            listed_packages(module_dir@, all.take(i as int)) == Some(out.deep_view()),
        decreases documents@.len() - i,
    {
        proof {
            lemma_take_next(all, i as int);
        }
        match read_package(module_dir, &documents[i]) {
            Some(package) => {
                push_go_package(&mut out, package);
            },
            None => {
                proof {
                    lemma_unlisted(module_dir@, all, i + 1);
                }
                return None;
            },
        }
        i = i + 1;
    }
    proof {
        lemma_take_all(all);
    }
    Some(out)
}

/// The packages that a listing of the Go tool holds: JSON documents one after the other.
/// Nothing where the listing is none.
pub fn parse_package_listing(module_dir: &str, listing: &str) -> (r: Option<Vec<GoPackage>>)
    ensures
        r.deep_view() == match exact_stream(listing@) {
            Some(documents) => listed_packages(module_dir@, documents),
            None => None,
        },
{
    match parse_exact_stream(listing) {
        Some(documents) => packages_in_documents(module_dir, &documents),
        None => None,
    }
}

/// A package of a module, seen from the project.
pub open spec fn package_in_project(
    module_root: Seq<char>,
    package: GoPackageModel,
) -> GoPackageModel {
    GoPackageModel { dir: path_in_project(module_root, package.dir), ..package }
}

fn move_package(module_root: &str, package: &GoPackage) -> (r: GoPackage)
    ensures
        r.deep_view() == package_in_project(module_root@, package.deep_view()),
{
    let mut moved = package.clone();
    moved.dir = prefix_module_path(module_root, package.dir.as_str());
    moved
}

/// The packages of a module, seen from the project.
pub open spec fn packages_in_project(
    module_root: Seq<char>,
    items: Seq<GoPackageModel>,
) -> Seq<GoPackageModel>
    decreases items.len(),
{
    if items.len() == 0 {
        Seq::empty()
    } else {
        packages_in_project(module_root, items.drop_last()).push(package_in_project(module_root, items.last()))
    }
}

/// The packages of a module, seen from the project.
pub fn packages_of_module(module_root: &str, items: &Vec<GoPackage>) -> (r: Vec<GoPackage>)
    ensures
        r.deep_view() == packages_in_project(module_root@, items.deep_view()),
{
    let mut out: Vec<GoPackage> = Vec::new();
    let ghost all = items.deep_view();
    let mut i: usize = 0;
    assert(out.deep_view() == packages_in_project(module_root@, all.take(0)));
    while i < items.len()
        invariant
            i <= items@.len(),
            all == items.deep_view(),
            out.deep_view() == packages_in_project(module_root@, all.take(i as int)),
        decreases items@.len() - i,
    {
        proof {
            lemma_take_next(all, i as int);
        }
        push_go_package(&mut out, move_package(module_root, &items[i]));
        i = i + 1;
    }
    proof {
        lemma_take_all(all);
    }
    out
}

// ---------------------------------------------------------------------------
// Modules and their packages
// ---------------------------------------------------------------------------
/// Whether a path belongs to a module.
pub open spec fn belongs(module: GoModuleModel, path: Seq<char>) -> bool {
    module.root == "."@ || path_parts(module.root).is_prefix_of(path_parts(path))
}

/// The module, among the first so many, that owns a path: the one whose directory has
/// the longest name, in bytes, and the last of these.
pub open spec fn owner_before(modules: Seq<GoModuleModel>, path: Seq<char>, n: int) -> Option<int>
    decreases n,
{
    if n <= 0 || n > modules.len() {
        None
    } else {
        let before = owner_before(modules, path, n - 1);
        if !belongs(modules[n - 1], path) {
            before
        } else {
            match before {
                Some(k) => if byte_len(modules[n - 1].root) >= byte_len(modules[k].root) {
                    Some(n - 1)
                } else {
                    Some(k)
                },
                None => Some(n - 1),
            }
        }
    }
}

/// The module that owns a path. The first module owns what no module holds.
pub open spec fn owner_of(modules: Seq<GoModuleModel>, path: Seq<char>) -> int {
    match owner_before(modules, path, modules.len() as int) {
        Some(k) => k,
        None => 0,
    }
}

/// Whether one text takes at least as many bytes as another.
fn no_shorter(a: &str, b: &str) -> (r: bool)
    ensures
        r == (byte_len(a@) >= byte_len(b@)),
{
    count_bytes(a) >= count_bytes(b)
}

fn count_bytes(s: &str) -> (r: u128)
    ensures
        r == byte_len(s@),
{
    let chars = chars_of(s);
    let mut n: u128 = 0;
    let mut i: usize = 0;
    assert(chars@.take(0).len() == 0);
    while i < chars.len()
        invariant
            i <= chars@.len(),
            n == byte_len(chars@.take(i as int)),
            n <= 4 * i,
        decreases chars@.len() - i,
    {
        proof {
            assert(chars@.take(i + 1).drop_last() =~= chars@.take(i as int));
        }
        n = n + bytes_of_char(chars[i]) as u128;
        i = i + 1;
    }
    assert(chars@.take(i as int) =~= s@);
    n
}

proof fn lemma_owner_is_there(modules: Seq<GoModuleModel>, path: Seq<char>, n: int)
    ensures
        owner_before(modules, path, n) matches Some(k) ==> 0 <= k < n && belongs(modules[k], path),
    decreases n,
{
    if 0 < n <= modules.len() {
        lemma_owner_is_there(modules, path, n - 1);
    }
}

/// The module that owns a path.
pub fn owning_module(modules: &Vec<GoModule>, path: &str) -> (r: usize)
    requires
        modules@.len() > 0,
    ensures
        r < modules@.len(),
        r == owner_of(modules.deep_view(), path@),
{
    let ghost all = modules.deep_view();
    let mut best: Option<usize> = None;
    let mut i: usize = 0;
    while i < modules.len()
        invariant
            i <= modules@.len(),
            all == modules.deep_view(),
            best matches Some(k) ==> k < i && owner_before(all, path@, i as int) == Some(k as int),
            best is None ==> owner_before(all, path@, i as int) is None,
        decreases modules@.len() - i,
    {
        assert(all[i as int] == modules@[i as int].deep_view());
        if same(modules[i].root.as_str(), ".") || path_starts_with(path, modules[i].root.as_str()) {
            match best {
                Some(k) => {
                    assert(all[k as int] == modules@[k as int].deep_view());
                    if no_shorter(modules[i].root.as_str(), modules[k].root.as_str()) {
                        best = Some(i);
                    }
                },
                None => {
                    best = Some(i);
                },
            }
        }
        i = i + 1;
    }
    match best {
        Some(k) => k,
        None => 0,
    }
}

/// The module that owns a path holds it, wherever a module does.
pub proof fn law_owner_holds_its_paths(modules: Seq<GoModuleModel>, path: Seq<char>, m: int)
    requires
        0 <= m < modules.len(),
        belongs(modules[m], path),
    ensures
        0 <= owner_of(modules, path) < modules.len(),
        belongs(modules[owner_of(modules, path)], path),
        byte_len(modules[m].root) <= byte_len(modules[owner_of(modules, path)].root),
{
    lemma_owner_is_there(modules, path, modules.len() as int);
    lemma_owner_is_longest(modules, path, modules.len() as int, m);
}

proof fn lemma_owner_is_longest(modules: Seq<GoModuleModel>, path: Seq<char>, n: int, m: int)
    requires
        0 <= m < n <= modules.len(),
        belongs(modules[m], path),
    ensures
        owner_before(modules, path, n) matches Some(k) && byte_len(modules[m].root) <= byte_len(
            modules[k].root,
        ),
    decreases n,
{
    lemma_owner_is_there(modules, path, n - 1);
    if m < n - 1 {
        lemma_owner_is_longest(modules, path, n - 1, m);
    }
}

/// A package as an argument in its module, given what is left of its path behind the
/// directory of the module.
pub open spec fn argument_in_module(
    module_root: Seq<char>,
    path: Seq<char>,
    rest: Option<Seq<char>>,
) -> Seq<char> {
    package_argument(
        normal_dir(
            if module_root == "."@ {
                path
            } else {
                relative_to(path, rest)
            },
        ),
    )
}

/// A package as an argument in its module, given what is left of its path behind the
/// directory of the module.
pub fn package_arg_in_module(module_root: &str, path: &str, rest: &Option<String>) -> (r: String)
    ensures
        r@ == argument_in_module(module_root@, path@, rest.deep_view()),
{
    let relative = if same(module_root, ".") {
        owned(path)
    } else {
        relative_path(path, rest)
    };
    package_arg(normalize_package_dir(relative.as_str()).as_str())
}

/// A package as an argument in its module.
pub fn module_relative_package_arg(module_root: &str, path: &str) -> (r: String)
    ensures
        r@ == argument_in_module(module_root@, path@, path_behind(path@, module_root@)),
{
    let rest = strip_path_prefix(path, module_root);
    package_arg_in_module(module_root, path, &rest)
}

/// The argument for everything, for each module.
pub open spec fn everything_everywhere(
    entries: Seq<PathTextsModel>,
    modules: Seq<GoModuleModel>,
) -> Seq<PathTextsModel>
    decreases modules.len(),
{
    if modules.len() == 0 {
        entries
    } else {
        texts_put(
            everything_everywhere(entries, modules.drop_last()),
            modules.last().root,
            seq!["./..."@],
            true,
        )
    }
}

fn put_everything(entries: &mut Vec<PathTexts>, modules: &Vec<GoModule>)
    ensures
        final(entries).deep_view() == everything_everywhere(
            old(entries).deep_view(),
            modules.deep_view(),
        ),
{
    let ghost before = entries.deep_view();
    let ghost all = modules.deep_view();
    let mut one: Vec<String> = Vec::new();
    push_text(&mut one, owned("./..."));
    assert(one.deep_view() =~= seq!["./..."@]);
    let mut i: usize = 0;
    assert(all.take(0).len() == 0);
    while i < modules.len()
        invariant
            i <= modules@.len(),
            all == modules.deep_view(),
            one.deep_view() == seq!["./..."@],
            entries.deep_view() == everything_everywhere(before, all.take(i as int)),
        decreases modules@.len() - i,
    {
        proof {
            lemma_take_next(all, i as int);
            assert(all[i as int] == modules@[i as int].deep_view());
        }
        put_texts(entries, modules[i].root.as_str(), &one, true);
        i = i + 1;
    }
    proof {
        lemma_take_all(all);
    }
}

/// The path that an argument of the Go tool stands for.
pub open spec fn argument_path(argument: Seq<char>) -> Seq<char> {
    match without_prefix(argument, "./"@) {
        Some(rest) => rest,
        None => argument,
    }
}

/// One argument put under the module that owns it.
pub open spec fn argument_put(
    modules: Seq<GoModuleModel>,
    entries: Seq<PathTextsModel>,
    argument: Seq<char>,
) -> Seq<PathTextsModel> {
    if argument == "./..."@ {
        everything_everywhere(entries, modules)
    } else {
        let path = argument_path(argument);
        let root = modules[owner_of(modules, path)].root;
        texts_put(
            entries,
            root,
            seq![argument_in_module(root, path, path_behind(path, root))],
            true,
        )
    }
}

/// Arguments put under the modules that own them.
pub open spec fn arguments_put(
    modules: Seq<GoModuleModel>,
    arguments: Seq<Seq<char>>,
) -> Seq<PathTextsModel>
    decreases arguments.len(),
{
    if arguments.len() == 0 {
        Seq::empty()
    } else {
        argument_put(modules, arguments_put(modules, arguments.drop_last()), arguments.last())
    }
}

/// Entries with their texts in order, each once.
pub open spec fn texts_sorted(items: Seq<PathTextsModel>) -> Seq<PathTextsModel>
    decreases items.len(),
{
    if items.len() == 0 {
        Seq::empty()
    } else {
        texts_sorted(items.drop_last()).push(PathTextsModel { path: items.last().path, texts: sorted_set::<ByText>(items.last().texts) })
    }
}

fn sort_texts(items: &Vec<PathTexts>) -> (r: Vec<PathTexts>)
    ensures
        r.deep_view() == texts_sorted(items.deep_view()),
{
    let mut out: Vec<PathTexts> = Vec::new();
    let ghost all = items.deep_view();
    let mut i: usize = 0;
    assert(out.deep_view() == texts_sorted(all.take(0)));
    while i < items.len()
        invariant
            i <= items@.len(),
            all == items.deep_view(),
            out.deep_view() == texts_sorted(all.take(i as int)),
        decreases items@.len() - i,
    {
        proof {
            lemma_take_next(all, i as int);
        }
        push_path_texts(&mut out, sort_entry(&items[i]));
        i = i + 1;
    }
    proof {
        lemma_take_all(all);
    }
    out
}

fn sort_entry(entry: &PathTexts) -> (r: PathTexts)
    ensures
        r.deep_view() == (PathTextsModel {
            path: entry.deep_view().path,
            texts: sorted_set::<ByText>(entry.deep_view().texts),
        }),
{
    PathTexts {
        path: owned(entry.path.as_str()),
        texts: to_sorted_set::<ByText>(&entry.texts),
    }
}

/// The arguments by module: each module with those that it owns, in order and each once.
pub open spec fn arguments_by_module(
    modules: Seq<GoModuleModel>,
    package_args: Seq<Seq<char>>,
) -> Seq<PathTextsModel> {
    if modules.len() == 0 {
        seq![PathTextsModel { path: "."@, texts: package_args }]
    } else {
        texts_sorted(arguments_put(modules, package_args))
    }
}

/// The arguments by module.
pub fn module_package_args(modules: &Vec<GoModule>, package_args: &Vec<String>) -> (r: Vec<
    PathTexts,
>)
    ensures
        r.deep_view() == arguments_by_module(modules.deep_view(), package_args.deep_view()),
{
    let mut entries: Vec<PathTexts> = Vec::new();
    assert(modules@.len() == modules.deep_view().len());
    if modules.len() == 0 {
        push_path_texts(
            &mut entries,
            PathTexts { path: owned("."), texts: clone_texts(package_args) },
        );
        assert(entries.deep_view() =~= arguments_by_module(
            modules.deep_view(),
            package_args.deep_view(),
        ));
        return entries;
    }
    let ghost all = package_args.deep_view();
    let mut i: usize = 0;
    assert(entries.deep_view() =~= arguments_put(modules.deep_view(), all.take(0)));
    while i < package_args.len()
        invariant
            i <= package_args@.len(),
            modules@.len() > 0,
            all == package_args.deep_view(),
            entries.deep_view() == arguments_put(modules.deep_view(), all.take(i as int)),
        decreases package_args@.len() - i,
    {
        proof {
            lemma_take_next(all, i as int);
        }
        let argument = package_args[i].as_str();
        if same(argument, "./...") {
            put_everything(&mut entries, modules);
        } else {
            let path = match strip_prefix(argument, "./") {
                Some(rest) => rest,
                None => owned(argument),
            };
            let owner: usize = owning_module(modules, path.as_str());
            assert(modules.deep_view()[owner as int] == modules@[owner as int].deep_view());
            let mut one: Vec<String> = Vec::new();
            push_text(
                &mut one,
                module_relative_package_arg(modules[owner].root.as_str(), path.as_str()),
            );
            assert(one.deep_view() =~= seq![
                argument_in_module(
                    modules@[owner as int].root@,
                    path@,
                    path_behind(path@, modules@[owner as int].root@),
                ),
            ]);
            put_texts(&mut entries, modules[owner].root.as_str(), &one, true);
        }
        i = i + 1;
    }
    proof {
        lemma_take_all(all);
    }
    sort_texts(&entries)
}

// ---------------------------------------------------------------------------
// Scope
// ---------------------------------------------------------------------------
/// Whether some import is among others.
pub open spec fn some_listed(items: Seq<Seq<char>>, others: Seq<Seq<char>>) -> bool {
    exists|k: int| 0 <= k < items.len() && others.contains((#[trigger] items[k]))
}

fn any_listed(items: &Vec<String>, others: &Vec<String>) -> (r: bool)
    ensures
        r == some_listed(items.deep_view(), others.deep_view()),
{
    let ghost all = items.deep_view();
    let mut i: usize = 0;
    while i < items.len()
        invariant
            i <= items@.len(),
            all == items.deep_view(),
            forall|k: int| 0 <= k < i ==> !((others.deep_view()).contains((#[trigger] all[k]))),
        decreases items@.len() - i,
    {
        assert(all[i as int] == items@[i as int].deep_view());
        if list_has(others, items[i].as_str()) {
            return true;
        }
        i = i + 1;
    }
    false
}

impl GoPackageModel {
    /// Whether the package, or one of its tests, imports one of these packages.
    pub open spec fn imports_one_of(self, others: Seq<Seq<char>>) -> bool {
        some_listed(self.imports, others) || some_listed(self.test_imports, others) || some_listed(
            self.x_test_imports,
            others,
        )
    }

    /// What kinds of tests the package has.
    pub open spec fn test_kinds(self) -> Seq<char> {
        if self.test_go_files.len() > 0 && self.x_test_go_files.len() > 0 {
            "internal+external"@
        } else if self.test_go_files.len() > 0 {
            "internal"@
        } else if self.x_test_go_files.len() > 0 {
            "external"@
        } else {
            "none"@
        }
    }

    /// Whether the package has tests.
    pub open spec fn tested(self) -> bool {
        self.test_go_files.len() > 0 || self.x_test_go_files.len() > 0
    }
}

impl GoPackage {
    /// Whether the package, or one of its tests, imports one of these packages.
    pub fn imports_any(&self, imports: &Vec<String>) -> (r: bool)
        ensures
            r == self.deep_view().imports_one_of(imports.deep_view()),
    {
        any_listed(&self.imports, imports) || any_listed(&self.test_imports, imports)
            || any_listed(&self.x_test_imports, imports)
    }

    /// Whether the package has tests.
    pub fn has_tests(&self) -> (r: bool)
        ensures
            r == self.deep_view().tested(),
    {
        assert(self.test_go_files@.len() == self.test_go_files.deep_view().len());
        assert(self.x_test_go_files@.len() == self.x_test_go_files.deep_view().len());
        self.test_go_files.len() > 0 || self.x_test_go_files.len() > 0
    }

    /// What kinds of tests the package has.
    pub fn test_package_kinds(&self) -> (r: &'static str)
        ensures
            r@ == self.deep_view().test_kinds(),
    {
        assert(self.test_go_files@.len() == self.test_go_files.deep_view().len());
        assert(self.x_test_go_files@.len() == self.x_test_go_files.deep_view().len());
        if self.test_go_files.len() > 0 {
            if self.x_test_go_files.len() > 0 {
                "internal+external"
            } else {
                "internal"
            }
        } else if self.x_test_go_files.len() > 0 {
            "external"
        } else {
            "none"
        }
    }
}

/// The import paths of the packages in some directories.
pub open spec fn imports_of(dirs: Seq<Seq<char>>, items: Seq<GoPackageModel>) -> Seq<Seq<char>>
    decreases items.len(),
{
    if items.len() == 0 {
        Seq::empty()
    } else {
        let before = imports_of(dirs, items.drop_last());
        match if holds::<ByPath>(dirs, items.last().dir) { Some(items.last().import_path) } else { None } {
            Some(one) => before.push(one),
            None => before,
        }
    }
}

fn imports_in(dirs: &Vec<String>, items: &Vec<GoPackage>) -> (r: Vec<String>)
    ensures
        r.deep_view() == imports_of(dirs.deep_view(), items.deep_view()),
{
    let mut out: Vec<String> = Vec::new();
    let ghost all = items.deep_view();
    let mut i: usize = 0;
    assert(out.deep_view() == imports_of(dirs.deep_view(), all.take(0)));
    while i < items.len()
        invariant
            i <= items@.len(),
            all == items.deep_view(),
            out.deep_view() == imports_of(dirs.deep_view(), all.take(i as int)),
        decreases items@.len() - i,
    {
        proof {
            lemma_take_next(all, i as int);
        }
        match import_in(dirs, &items[i]) {
            Some(one) => {
                push_text(&mut out, one);
            },
            None => {},
        }
        i = i + 1;
    }
    proof {
        lemma_take_all(all);
    }
    out
}

fn import_in(dirs: &Vec<String>, package: &GoPackage) -> (r: Option<String>)
    ensures
        r.deep_view() == if holds::<ByPath>(dirs.deep_view(), package.deep_view().dir) {
            Some(package.deep_view().import_path)
        } else {
            None
        },
{
    if has::<ByPath>(dirs, package.dir.as_str()) {
        Some(owned(package.import_path.as_str()))
    } else {
        None
    }
}

/// One round of a search: the directories, and with them those of the packages that
/// import one of the packages on the frontier; and the packages that are new.
pub open spec fn importers(
    packages: Seq<GoPackageModel>,
    dirs: Seq<Seq<char>>,
    frontier: Seq<Seq<char>>,
) -> (Seq<Seq<char>>, Seq<Seq<char>>)
    decreases packages.len(),
{
    if packages.len() == 0 {
        (dirs, Seq::empty())
    } else {
        let (known, fresh) = importers(packages.drop_last(), dirs, frontier);
        let package = packages.last();
        if !holds::<ByPath>(known, package.dir) && package.imports_one_of(frontier) {
            (inserted::<ByPath>(known, package.dir), fresh.push(package.import_path))
        } else {
            (known, fresh)
        }
    }
}

fn find_importers(packages: &Vec<GoPackage>, dirs: &mut Vec<String>, frontier: &Vec<String>) -> (r:
    Vec<String>)
    ensures
        (final(dirs).deep_view(), r.deep_view()) == importers(
            packages.deep_view(),
            old(dirs).deep_view(),
            frontier.deep_view(),
        ),
{
    let ghost before = dirs.deep_view();
    let ghost all = packages.deep_view();
    let mut fresh: Vec<String> = Vec::new();
    let mut i: usize = 0;
    assert(fresh.deep_view() =~= Seq::<Seq<char>>::empty());
    while i < packages.len()
        invariant
            i <= packages@.len(),
            all == packages.deep_view(),
            (dirs.deep_view(), fresh.deep_view()) == importers(
                all.take(i as int),
                before,
                frontier.deep_view(),
            ),
        decreases packages@.len() - i,
    {
        proof {
            lemma_take_next(all, i as int);
            assert(all[i as int] == packages@[i as int].deep_view());
        }
        let known = has::<ByPath>(dirs, packages[i].dir.as_str());
        if !known && packages[i].imports_any(frontier) {
            insert::<ByPath>(dirs, owned(packages[i].dir.as_str()));
            push_text(&mut fresh, owned(packages[i].import_path.as_str()));
        }
        i = i + 1;
    }
    proof {
        lemma_take_all(all);
    }
    fresh
}

/// Rounds of a search, up to a depth, until a round finds nothing new.
pub open spec fn reached(
    packages: Seq<GoPackageModel>,
    dirs: Seq<Seq<char>>,
    frontier: Seq<Seq<char>>,
    depth: int,
) -> Seq<Seq<char>>
    decreases depth,
{
    if depth <= 0 {
        dirs
    } else {
        let (known, fresh) = importers(packages, dirs, frontier);
        if fresh.len() == 0 {
            known
        } else {
            reached(packages, known, fresh, depth - 1)
        }
    }
}

/// Directories put into a list until it is full.
pub open spec fn topped_up(
    limited: Seq<Seq<char>>,
    dirs: Seq<Seq<char>>,
    from: int,
    max: int,
) -> Seq<Seq<char>>
    decreases dirs.len() - from,
{
    if from < 0 || from >= dirs.len() || limited.len() >= max {
        limited
    } else {
        topped_up(inserted::<ByPath>(limited, dirs[from]), dirs, from + 1, max)
    }
}

/// Directories within a limit. The selected ones come first; no limit is zero.
pub open spec fn within_limit(selected: Seq<Seq<char>>, dirs: Seq<Seq<char>>, max: int) -> Seq<
    Seq<char>,
> {
    if max == 0 || dirs.len() <= max {
        dirs
    } else if selected.len() >= max {
        selected.take(max)
    } else {
        topped_up(selected, dirs, 0, max)
    }
}

/// Directories within a limit.
pub fn limit_package_dirs(
    selected_dirs: &Vec<String>,
    dirs: &Vec<String>,
    max_packages: usize,
) -> (r: Vec<String>)
    ensures
        r.deep_view() == within_limit(
            selected_dirs.deep_view(),
            dirs.deep_view(),
            max_packages as int,
        ),
{
    assert(selected_dirs@.len() == selected_dirs.deep_view().len());
    assert(dirs@.len() == dirs.deep_view().len());
    if max_packages == 0 || dirs.len() <= max_packages {
        return clone_texts(dirs);
    }
    if selected_dirs.len() >= max_packages {
        return first_texts(selected_dirs, max_packages);
    }
    let mut limited = clone_texts(selected_dirs);
    let ghost all = dirs.deep_view();
    let mut i: usize = 0;
    while i < dirs.len() && limited.len() < max_packages
        invariant
            i <= dirs@.len(),
            all == dirs.deep_view(),
            topped_up(selected_dirs.deep_view(), all, 0, max_packages as int) == topped_up(
                limited.deep_view(),
                all,
                i as int,
                max_packages as int,
            ),
        decreases dirs@.len() - i,
    {
        assert(limited@.len() == limited.deep_view().len());
        assert(all[i as int] == dirs@[i as int]@);
        insert::<ByPath>(&mut limited, owned(dirs[i].as_str()));
        i = i + 1;
    }
    assert(limited@.len() == limited.deep_view().len());
    limited
}

/// The directories that a run covers: the selected ones, and with them those of the
/// packages that depend on them, up to a depth and within a limit.
pub open spec fn scope(
    packages: Seq<GoPackageModel>,
    selected: Seq<Seq<char>>,
    depth: int,
    max: int,
) -> Seq<Seq<char>> {
    let frontier = imports_of(selected, packages);
    let dirs = if frontier.len() > 0 {
        reached(packages, selected, frontier, depth)
    } else {
        selected
    };
    within_limit(selected, dirs, max)
}

/// The directories that a run covers.
pub fn scoped_package_dirs(
    packages: &Vec<GoPackage>,
    selected_dirs: &Vec<String>,
    reverse_depth: usize,
    max_packages: usize,
) -> (r: Vec<String>)
    ensures
        r.deep_view() == scope(
            packages.deep_view(),
            selected_dirs.deep_view(),
            reverse_depth as int,
            max_packages as int,
        ),
{
    let ghost first = imports_of(selected_dirs.deep_view(), packages.deep_view());
    let mut frontier = imports_in(selected_dirs, packages);
    let mut dirs = clone_texts(selected_dirs);
    assert(frontier@.len() == frontier.deep_view().len());
    if frontier.len() > 0 {
        let ghost goal = reached(
            packages.deep_view(),
            dirs.deep_view(),
            frontier.deep_view(),
            reverse_depth as int,
        );
        let mut left: usize = reverse_depth;
        while left > 0
            invariant_except_break
                goal == reached(
                    packages.deep_view(),
                    dirs.deep_view(),
                    frontier.deep_view(),
                    left as int,
                ),
            ensures
                dirs.deep_view() == goal,
            decreases left,
        {
            let fresh = find_importers(packages, &mut dirs, &frontier);
            assert(fresh@.len() == fresh.deep_view().len());
            if fresh.len() == 0 {
                break;
            }
            frontier = fresh;
            left = left - 1;
        }
    }
    limit_package_dirs(selected_dirs, &dirs, max_packages)
}

proof fn lemma_inserted_keeps(s: Seq<Seq<char>>, x: Seq<char>, y: Seq<char>)
    requires
        s.contains(y),
    ensures
        inserted::<ByPath>(s, x).contains(y),
        inserted::<ByPath>(s, x).len() <= s.len() + 1,
    decreases s.len(),
{
    let r = inserted::<ByPath>(s, x);
    let k = choose|k: int| 0 <= k < s.len() && s[k] == y;
    if path_lt(s.last(), x) {
        assert(r[k] == y);
    } else if path_lt(x, s.last()) {
        let t = s.drop_last();
        if k < t.len() {
            assert(t[k] == y);
            lemma_inserted_keeps(t, x, y);
            let i = choose|i: int|
                0 <= i < inserted::<ByPath>(t, x).len() && inserted::<ByPath>(t, x)[i] == y;
            assert(r[i] == y);
        } else {
            assert(r[r.len() - 1] == y);
            lemma_inserted_size(t, x);
        }
    }
}

proof fn lemma_inserted_size(s: Seq<Seq<char>>, x: Seq<char>)
    ensures
        s.len() <= inserted::<ByPath>(s, x).len() <= s.len() + 1,
    decreases s.len(),
{
    if s.len() > 0 && !path_lt(s.last(), x) && path_lt(x, s.last()) {
        lemma_inserted_size(s.drop_last(), x);
    }
}

proof fn lemma_topped_up(
    limited: Seq<Seq<char>>,
    dirs: Seq<Seq<char>>,
    from: int,
    max: int,
    y: Seq<char>,
)
    requires
        limited.contains(y),
        limited.len() <= max,
        0 <= from,
    ensures
        topped_up(limited, dirs, from, max).contains(y),
        topped_up(limited, dirs, from, max).len() <= max,
    decreases dirs.len() - from,
{
    if from < dirs.len() && limited.len() < max {
        lemma_inserted_keeps(limited, dirs[from], y);
        lemma_topped_up(inserted::<ByPath>(limited, dirs[from]), dirs, from + 1, max, y);
    }
}

proof fn lemma_importers_keep(
    packages: Seq<GoPackageModel>,
    dirs: Seq<Seq<char>>,
    frontier: Seq<Seq<char>>,
    y: Seq<char>,
)
    requires
        dirs.contains(y),
    ensures
        importers(packages, dirs, frontier).0.contains(y),
    decreases packages.len(),
{
    if packages.len() > 0 {
        lemma_importers_keep(packages.drop_last(), dirs, frontier, y);
        let known = importers(packages.drop_last(), dirs, frontier).0;
        lemma_inserted_keeps(known, packages.last().dir, y);
    }
}

proof fn lemma_reached_keeps(
    packages: Seq<GoPackageModel>,
    dirs: Seq<Seq<char>>,
    frontier: Seq<Seq<char>>,
    depth: int,
    y: Seq<char>,
)
    requires
        dirs.contains(y),
    ensures
        reached(packages, dirs, frontier, depth).contains(y),
    decreases depth,
{
    if depth > 0 {
        lemma_importers_keep(packages, dirs, frontier, y);
        let (known, fresh) = importers(packages, dirs, frontier);
        if fresh.len() > 0 {
            lemma_reached_keeps(packages, known, fresh, depth - 1, y);
        }
    }
}

/// Where the limit has room for the selected directories, a run covers all of them.
pub proof fn law_scope_keeps_selected_packages(
    packages: Seq<GoPackageModel>,
    selected: Seq<Seq<char>>,
    depth: int,
    max: int,
    dir: Seq<char>,
)
    requires
        selected.contains(dir),
        max == 0 || selected.len() <= max,
    ensures
        scope(packages, selected, depth, max).contains(dir),
{
    let frontier = imports_of(selected, packages);
    if frontier.len() > 0 {
        lemma_reached_keeps(packages, selected, frontier, depth, dir);
    }
    if selected.len() >= max && max != 0 {
        assert(selected.take(max) =~= selected);
    } else if max != 0 {
        let dirs = if frontier.len() > 0 {
            reached(packages, selected, frontier, depth)
        } else {
            selected
        };
        lemma_topped_up(selected, dirs, 0, max, dir);
    }
}

proof fn lemma_topped_up_length(
    limited: Seq<Seq<char>>,
    dirs: Seq<Seq<char>>,
    from: int,
    max: int,
)
    requires
        limited.len() <= max,
        0 <= from,
    ensures
        topped_up(limited, dirs, from, max).len() <= max,
    decreases dirs.len() - from,
{
    if from < dirs.len() && limited.len() < max {
        if limited.len() > 0 {
            lemma_inserted_keeps(limited, dirs[from], limited[0]);
        } else {
            assert(inserted::<ByPath>(limited, dirs[from]).len() <= 1);
        }
        lemma_topped_up_length(inserted::<ByPath>(limited, dirs[from]), dirs, from + 1, max);
    }
}

/// A run covers no more directories than the limit, where there is one.
pub proof fn law_scope_respects_the_limit(
    packages: Seq<GoPackageModel>,
    selected: Seq<Seq<char>>,
    depth: int,
    max: int,
)
    requires
        max > 0,
    ensures
        scope(packages, selected, depth, max).len() <= max,
{
    let frontier = imports_of(selected, packages);
    let dirs = if frontier.len() > 0 {
        reached(packages, selected, frontier, depth)
    } else {
        selected
    };
    if dirs.len() > max && selected.len() < max {
        lemma_topped_up_length(selected, dirs, 0, max);
    }
}

/// At depth zero a run covers the selected directories alone, as far as the limit has
/// room.
pub proof fn law_depth_zero_adds_nothing(
    packages: Seq<GoPackageModel>,
    selected: Seq<Seq<char>>,
    max: int,
)
    requires
        max >= 0,
    ensures
        scope(packages, selected, 0, max) == if max == 0 {
            selected
        } else {
            at_most(selected, max)
        },
{
}

/// Whether a directory is one of those that were there, or that of a package.
pub open spec fn known_dir(
    packages: Seq<GoPackageModel>,
    dirs: Seq<Seq<char>>,
    dir: Seq<char>,
) -> bool {
    dirs.contains(dir) || exists|k: int|
        0 <= k < packages.len() && (#[trigger] packages[k]).dir == dir
}

proof fn lemma_importers_known(
    packages: Seq<GoPackageModel>,
    dirs: Seq<Seq<char>>,
    frontier: Seq<Seq<char>>,
    i: int,
)
    requires
        0 <= i < importers(packages, dirs, frontier).0.len(),
    ensures
        known_dir(packages, dirs, importers(packages, dirs, frontier).0[i]),
    decreases packages.len(),
{
    let r = importers(packages, dirs, frontier).0;
    if packages.len() == 0 {
        assert(dirs.contains(r[i]));
    } else {
        let rest = packages.drop_last();
        let known = importers(rest, dirs, frontier).0;
        lemma_inserted_items::<ByPath>(known, packages.last().dir);
        assert(r.contains(r[i]));
        if r[i] == packages.last().dir {
            assert(packages[packages.len() - 1].dir == r[i]);
        } else {
            assert(known.contains(r[i]));
            let k = choose|k: int| 0 <= k < known.len() && known[k] == r[i];
            lemma_importers_known(rest, dirs, frontier, k);
            if !dirs.contains(r[i]) {
                let m = choose|m: int| 0 <= m < rest.len() && (#[trigger] rest[m]).dir == r[i];
                assert(packages[m].dir == r[i]);
            }
        }
    }
}

proof fn lemma_reached_known(
    packages: Seq<GoPackageModel>,
    dirs: Seq<Seq<char>>,
    frontier: Seq<Seq<char>>,
    depth: int,
    dir: Seq<char>,
)
    requires
        reached(packages, dirs, frontier, depth).contains(dir),
    ensures
        known_dir(packages, dirs, dir),
    decreases depth,
{
    if depth > 0 {
        let (known, fresh) = importers(packages, dirs, frontier);
        if fresh.len() > 0 {
            lemma_reached_known(packages, known, fresh, depth - 1, dir);
        }
        if known.contains(dir) {
            let i = choose|i: int| 0 <= i < known.len() && known[i] == dir;
            lemma_importers_known(packages, dirs, frontier, i);
        }
    }
}

proof fn lemma_topped_up_known(
    limited: Seq<Seq<char>>,
    dirs: Seq<Seq<char>>,
    from: int,
    max: int,
    dir: Seq<char>,
)
    requires
        topped_up(limited, dirs, from, max).contains(dir),
        0 <= from,
    ensures
        limited.contains(dir) || dirs.contains(dir),
    decreases dirs.len() - from,
{
    if from < dirs.len() && limited.len() < max {
        lemma_topped_up_known(inserted::<ByPath>(limited, dirs[from]), dirs, from + 1, max, dir);
        lemma_inserted_items::<ByPath>(limited, dirs[from]);
    }
}

/// A run covers nothing but selected directories and directories of packages.
pub proof fn law_scope_holds_known_directories(
    packages: Seq<GoPackageModel>,
    selected: Seq<Seq<char>>,
    depth: int,
    max: int,
    dir: Seq<char>,
)
    requires
        max >= 0,
        scope(packages, selected, depth, max).contains(dir),
    ensures
        known_dir(packages, selected, dir),
{
    let frontier = imports_of(selected, packages);
    let dirs = if frontier.len() > 0 {
        reached(packages, selected, frontier, depth)
    } else {
        selected
    };
    if max == 0 || dirs.len() <= max {
    } else if selected.len() >= max {
        let i = choose|i: int| 0 <= i < selected.take(max).len() && selected.take(max)[i] == dir;
        assert(selected[i] == dir);
    } else {
        lemma_topped_up_known(selected, dirs, 0, max, dir);
    }
    if dirs.contains(dir) && frontier.len() > 0 {
        lemma_reached_known(packages, selected, frontier, depth, dir);
    }
}

proof fn lemma_inserted_path_is_held(s: Seq<Seq<char>>, x: Seq<char>)
    ensures
        holds::<ByPath>(inserted::<ByPath>(s, x), x),
        forall|y: Seq<char>|
            holds::<ByPath>(s, y) ==> #[trigger] holds::<ByPath>(inserted::<ByPath>(s, x), y),
    decreases s.len(),
{
    let r = inserted::<ByPath>(s, x);
    <ByPath as TextOrder>::irreflexive(x);
    if s.len() == 0 {
        assert(level::<ByPath>(r[0], x));
    } else if path_lt(s.last(), x) {
        assert(level::<ByPath>(r[r.len() - 1], x));
    } else if path_lt(x, s.last()) {
        let q = inserted::<ByPath>(s.drop_last(), x);
        lemma_inserted_path_is_held(s.drop_last(), x);
        let i = choose|i: int| 0 <= i < q.len() && level::<ByPath>(#[trigger] q[i], x);
        assert(level::<ByPath>(r[i], x));
    } else {
        assert(level::<ByPath>(r[r.len() - 1], x));
    }
    lemma_inserted_items::<ByPath>(s, x);
    assert forall|y: Seq<char>| holds::<ByPath>(s, y) implies #[trigger] holds::<ByPath>(r, y) by {
        let i = choose|i: int| 0 <= i < s.len() && level::<ByPath>(#[trigger] s[i], y);
        assert(s.contains(s[i]));
        assert(r.contains(s[i]));
        let k = choose|k: int| 0 <= k < r.len() && r[k] == s[i];
        assert(level::<ByPath>(r[k], y));
    }
}

/// Whether a package, or one of its tests, imports another one.
pub open spec fn depends_on(package: GoPackageModel, other: GoPackageModel) -> bool {
    package.imports.contains(other.import_path) || package.test_imports.contains(other.import_path)
        || package.x_test_imports.contains(other.import_path)
}

/// Whether no two packages stand in the same directory.
pub open spec fn distinct_dirs(packages: Seq<GoPackageModel>) -> bool {
    forall|p: int, q: int|
        0 <= p < packages.len() && 0 <= q < packages.len() && p != q ==> !level::<ByPath>(
            (#[trigger] packages[p]).dir,
            (#[trigger] packages[q]).dir,
        )
}

proof fn lemma_imports_of(dirs: Seq<Seq<char>>, items: Seq<GoPackageModel>)
    ensures
        forall|p: int|
            0 <= p < items.len() && holds::<ByPath>(dirs, (#[trigger] items[p]).dir) ==> imports_of(
                dirs,
                items,
            ).contains(items[p].import_path),
    decreases items.len(),
{
    if items.len() > 0 {
        let rest = items.drop_last();
        let before = imports_of(dirs, rest);
        let all = imports_of(dirs, items);
        lemma_imports_of(dirs, rest);
        assert forall|p: int|
            0 <= p < items.len() && holds::<ByPath>(
                dirs,
                (#[trigger] items[p]).dir,
            ) implies all.contains(items[p].import_path) by {
            if p < rest.len() {
                assert(rest[p] == items[p]);
                let k = choose|k: int| 0 <= k < before.len() && before[k] == items[p].import_path;
                assert(all[k] == items[p].import_path);
            } else {
                assert(all[all.len() - 1] == items[p].import_path);
            }
        }
    }
}

proof fn lemma_importers_are_found(
    packages: Seq<GoPackageModel>,
    dirs: Seq<Seq<char>>,
    frontier: Seq<Seq<char>>,
)
    ensures
        forall|y: Seq<char>|
            holds::<ByPath>(dirs, y) ==> #[trigger] holds::<ByPath>(
                importers(packages, dirs, frontier).0,
                y,
            ),
        forall|p: int|
            0 <= p < packages.len() && (#[trigger] packages[p]).imports_one_of(frontier)
                ==> holds::<ByPath>(importers(packages, dirs, frontier).0, packages[p].dir),
        importers(packages, dirs, frontier).1.len() == 0 ==> importers(packages, dirs, frontier).0
            == dirs,
    decreases packages.len(),
{
    if packages.len() > 0 {
        let rest = packages.drop_last();
        let (known, fresh) = importers(rest, dirs, frontier);
        let all = importers(packages, dirs, frontier).0;
        lemma_importers_are_found(rest, dirs, frontier);
        lemma_inserted_path_is_held(known, packages.last().dir);
        assert forall|p: int|
            0 <= p < packages.len() && (#[trigger] packages[p]).imports_one_of(
                frontier,
            ) implies holds::<ByPath>(all, packages[p].dir) by {
            if p < rest.len() {
                assert(rest[p] == packages[p]);
                assert(holds::<ByPath>(known, rest[p].dir));
            }
        }
    }
}

/// Whether the importers of every package that is known are known, or will be looked for.
spec fn is_followed(
    packages: Seq<GoPackageModel>,
    dirs: Seq<Seq<char>>,
    frontier: Seq<Seq<char>>,
) -> bool {
    forall|p: int, q: int|
        0 <= p < packages.len() && 0 <= q < packages.len() && holds::<ByPath>(
            dirs,
            (#[trigger] packages[p]).dir,
        ) && depends_on(#[trigger] packages[q], packages[p]) ==> frontier.contains(
            packages[p].import_path,
        ) || holds::<ByPath>(dirs, packages[q].dir)
}

proof fn lemma_new_packages_are_fresh(
    packages: Seq<GoPackageModel>,
    dirs: Seq<Seq<char>>,
    frontier: Seq<Seq<char>>,
    p: int,
)
    requires
        distinct_dirs(packages),
        0 <= p < packages.len(),
        !holds::<ByPath>(dirs, packages[p].dir),
        holds::<ByPath>(importers(packages, dirs, frontier).0, packages[p].dir),
    ensures
        importers(packages, dirs, frontier).1.contains(packages[p].import_path),
    decreases packages.len(),
{
    let rest = packages.drop_last();
    let last = packages.last();
    let (known, fresh) = importers(rest, dirs, frontier);
    let (all, found) = importers(packages, dirs, frontier);
    assert(distinct_dirs(rest)) by {
        assert forall|a: int, b: int|
            0 <= a < rest.len() && 0 <= b < rest.len() && a != b implies !level::<ByPath>(
            (#[trigger] rest[a]).dir,
            (#[trigger] rest[b]).dir,
        ) by {
            assert(rest[a] == packages[a] && rest[b] == packages[b]);
        }
    }
    if p < rest.len() {
        assert(rest[p] == packages[p]);
        if !holds::<ByPath>(known, packages[p].dir) {
            let i = choose|i: int|
                0 <= i < all.len() && level::<ByPath>(#[trigger] all[i], packages[p].dir);
            lemma_inserted_items::<ByPath>(known, last.dir);
            if all[i] == last.dir {
                assert(level::<ByPath>(packages[packages.len() - 1].dir, packages[p].dir));
            } else {
                let k = choose|k: int| 0 <= k < known.len() && known[k] == all[i];
                assert(level::<ByPath>(known[k], packages[p].dir));
            }
            assert(false);
        }
        lemma_new_packages_are_fresh(rest, dirs, frontier, p);
        let k = choose|k: int| 0 <= k < fresh.len() && fresh[k] == packages[p].import_path;
        assert(found[k] == packages[p].import_path);
    } else {
        if holds::<ByPath>(known, last.dir) {
            lemma_only_importers_are_new(rest, dirs, frontier, last.dir);
            let q = choose|q: int|
                0 <= q < rest.len() && level::<ByPath>((#[trigger] rest[q]).dir, last.dir);
            assert(packages[q] == rest[q]);
            assert(level::<ByPath>(packages[q].dir, packages[p].dir));
            assert(false);
        }
        assert(found[found.len() - 1] == last.import_path);
    }
}

proof fn lemma_only_importers_are_new(
    packages: Seq<GoPackageModel>,
    dirs: Seq<Seq<char>>,
    frontier: Seq<Seq<char>>,
    dir: Seq<char>,
)
    requires
        holds::<ByPath>(importers(packages, dirs, frontier).0, dir),
        !holds::<ByPath>(dirs, dir),
    ensures
        exists|q: int|
            0 <= q < packages.len() && level::<ByPath>((#[trigger] packages[q]).dir, dir)
                && packages[q].imports_one_of(frontier),
    decreases packages.len(),
{
    if packages.len() > 0 {
        let rest = packages.drop_last();
        let known = importers(rest, dirs, frontier).0;
        let all = importers(packages, dirs, frontier).0;
        if holds::<ByPath>(known, dir) {
            lemma_only_importers_are_new(rest, dirs, frontier, dir);
            let q = choose|q: int|
                0 <= q < rest.len() && level::<ByPath>((#[trigger] rest[q]).dir, dir)
                    && rest[q].imports_one_of(frontier);
            assert(packages[q] == rest[q]);
        } else {
            let i = choose|i: int| 0 <= i < all.len() && level::<ByPath>(#[trigger] all[i], dir);
            lemma_inserted_items::<ByPath>(known, packages.last().dir);
            if all[i] != packages.last().dir {
                let k = choose|k: int| 0 <= k < known.len() && known[k] == all[i];
                assert(level::<ByPath>(known[k], dir));
            }
            assert(level::<ByPath>(packages[packages.len() - 1].dir, dir));
        }
    }
}

/// Whether a list of packages is a chain, in which each package depends on the one before it.
pub open spec fn is_chain(packages: Seq<GoPackageModel>, chain: Seq<int>) -> bool {
    &&& chain.len() > 0
    &&& forall|k: int| 0 <= k < chain.len() ==> 0 <= #[trigger] chain[k] < packages.len()
    &&& forall|k: int|
        0 < k < chain.len() ==> depends_on(packages[#[trigger] chain[k]], packages[chain[k - 1]])
}

proof fn lemma_depends(package: GoPackageModel, other: GoPackageModel, frontier: Seq<Seq<char>>)
    requires
        depends_on(package, other),
        frontier.contains(other.import_path),
    ensures
        package.imports_one_of(frontier),
{
    let path = other.import_path;
    if package.imports.contains(path) {
        let k = choose|k: int| 0 <= k < package.imports.len() && package.imports[k] == path;
        assert(frontier.contains(package.imports[k]));
    } else if package.test_imports.contains(path) {
        let k = choose|k: int|
            0 <= k < package.test_imports.len() && package.test_imports[k] == path;
        assert(frontier.contains(package.test_imports[k]));
    } else {
        let k = choose|k: int|
            0 <= k < package.x_test_imports.len() && package.x_test_imports[k] == path;
        assert(frontier.contains(package.x_test_imports[k]));
    }
}

proof fn lemma_chains_are_reached(
    packages: Seq<GoPackageModel>,
    dirs: Seq<Seq<char>>,
    frontier: Seq<Seq<char>>,
    depth: int,
    chain: Seq<int>,
)
    requires
        distinct_dirs(packages),
        is_followed(packages, dirs, frontier),
        is_chain(packages, chain),
        holds::<ByPath>(dirs, packages[chain[0]].dir),
        chain.len() <= depth + 1,
    ensures
        holds::<ByPath>(
            reached(packages, dirs, frontier, depth),
            packages[chain[chain.len() - 1]].dir,
        ),
    decreases chain.len(), depth,
{
    if depth > 0 {
        let (known, fresh) = importers(packages, dirs, frontier);
        lemma_importers_are_found(packages, dirs, frontier);
        assert(is_followed(packages, known, fresh)) by {
            assert forall|p: int, q: int|
                0 <= p < packages.len() && 0 <= q < packages.len() && holds::<ByPath>(
                    known,
                    (#[trigger] packages[p]).dir,
                ) && depends_on(#[trigger] packages[q], packages[p]) implies fresh.contains(
                packages[p].import_path,
            ) || holds::<ByPath>(known, packages[q].dir) by {
                if holds::<ByPath>(dirs, packages[p].dir) {
                    if frontier.contains(packages[p].import_path) {
                        lemma_depends(packages[q], packages[p], frontier);
                    }
                } else {
                    lemma_new_packages_are_fresh(packages, dirs, frontier, p);
                }
            }
        }
        if chain.len() > 1 {
            let tail = chain.skip(1);
            assert(depends_on(packages[chain[1]], packages[chain[0]]));
            if frontier.contains(packages[chain[0]].import_path) {
                lemma_depends(packages[chain[1]], packages[chain[0]], frontier);
            }
            assert(holds::<ByPath>(known, packages[chain[1]].dir));
            assert(is_chain(packages, tail)) by {
                assert forall|k: int| 0 <= k < tail.len() implies 0 <= #[trigger] tail[k]
                    < packages.len() by {
                    assert(tail[k] == chain[k + 1]);
                }
                assert forall|k: int| 0 < k < tail.len() implies depends_on(
                    packages[#[trigger] tail[k]],
                    packages[tail[k - 1]],
                ) by {
                    assert(tail[k] == chain[k + 1]);
                    assert(tail[k - 1] == chain[k]);
                }
            }
            assert(tail[tail.len() - 1] == chain[chain.len() - 1]);
            if fresh.len() == 0 {
                lemma_closed_holds_chains(packages, known, tail);
            } else {
                lemma_chains_are_reached(packages, known, fresh, depth - 1, tail);
            }
        } else if fresh.len() > 0 {
            lemma_chains_are_reached(packages, known, fresh, depth - 1, chain);
        }
    }
}

proof fn lemma_closed_holds_chains(
    packages: Seq<GoPackageModel>,
    dirs: Seq<Seq<char>>,
    chain: Seq<int>,
)
    requires
        is_followed(packages, dirs, Seq::empty()),
        is_chain(packages, chain),
        holds::<ByPath>(dirs, packages[chain[0]].dir),
    ensures
        holds::<ByPath>(dirs, packages[chain[chain.len() - 1]].dir),
    decreases chain.len(),
{
    if chain.len() > 1 {
        let tail = chain.skip(1);
        assert(depends_on(packages[chain[1]], packages[chain[0]]));
        assert(holds::<ByPath>(dirs, packages[chain[1]].dir));
        assert forall|k: int| 0 <= k < tail.len() implies 0 <= #[trigger] tail[k]
            < packages.len() by {
            assert(tail[k] == chain[k + 1]);
        }
        assert forall|k: int| 0 < k < tail.len() implies depends_on(
            packages[#[trigger] tail[k]],
            packages[tail[k - 1]],
        ) by {
            assert(tail[k] == chain[k + 1]);
            assert(tail[k - 1] == chain[k]);
        }
        lemma_closed_holds_chains(packages, dirs, tail);
        assert(tail[tail.len() - 1] == chain[chain.len() - 1]);
    }
}

/// Without a limit a run covers every package from which a chain of at most as many imports as
/// the depth leads to a selected package, imports of tests included.
pub proof fn law_scope_follows_imports(
    packages: Seq<GoPackageModel>,
    selected: Seq<Seq<char>>,
    depth: int,
    chain: Seq<int>,
)
    requires
        distinct_dirs(packages),
        is_chain(packages, chain),
        selected.contains(packages[chain[0]].dir),
        chain.len() <= depth + 1,
    ensures
        holds::<ByPath>(
            scope(packages, selected, depth, 0),
            packages[chain[chain.len() - 1]].dir,
        ),
{
    let frontier = imports_of(selected, packages);
    let first = packages[chain[0]];
    let i = choose|i: int| 0 <= i < selected.len() && selected[i] == first.dir;
    <ByPath as TextOrder>::irreflexive(first.dir);
    assert(level::<ByPath>(selected[i], first.dir));
    lemma_imports_of(selected, packages);
    assert(frontier.contains(first.import_path));
    assert(is_followed(packages, selected, frontier));
    lemma_chains_are_reached(packages, selected, frontier, depth, chain);
}

// ---------------------------------------------------------------------------
// What artifacts select
// ---------------------------------------------------------------------------
/// The directory that an id of a target names; none for the project.
pub open spec fn dir_in_target_id(target_id: Seq<char>) -> Option<Seq<char>> {
    match without_prefix(target_id, "go:"@) {
        Some(rest) => if rest == "project"@ {
            None
        } else {
            let path = match rcut_at(rest, ':') {
                Some(sides) => sides.0,
                None => rest,
            };
            if path_extension(path) == Some("go"@) {
                Some(package_dir_path(path))
            } else {
                Some(path)
            }
        },
        None => None,
    }
}

/// Whether a path is that of a Go source file.
pub fn is_go_file(path: &str) -> (r: bool)
    ensures
        r == (path_extension(path@) == Some("go"@)),
{
    match extension(path) {
        Some(name) => same(name.as_str(), "go"),
        None => false,
    }
}

/// The directory that an id of a target names; none for the project.
pub fn package_dir_from_target_id(target_id: &str) -> (r: Option<String>)
    ensures
        r.deep_view() == dir_in_target_id(target_id@),
{
    match strip_prefix(target_id, "go:") {
        Some(rest) => {
            if same(rest.as_str(), "project") {
                return None;
            }
            let path = match rsplit_once(rest.as_str(), ':') {
                Some(sides) => sides.0,
                None => rest,
            };
            if is_go_file(path.as_str()) {
                Some(package_dir(path.as_str()))
            } else {
                Some(path)
            }
        },
        None => None,
    }
}

/// The directories that artifacts are about, in order, each once: those of fuzz
/// harnesses, and those that the targets name.
pub open spec fn dirs_of_artifacts(artifacts: Seq<GeneratedArtifactModel>) -> Seq<Seq<char>>
    decreases artifacts.len(),
{
    if artifacts.len() == 0 {
        Seq::empty()
    } else {
        let artifact = artifacts.last();
        let before = dirs_of_artifacts(artifacts.drop_last());
        let with_harness = if artifact.kind == ArtifactKind::FuzzHarness {
            inserted::<ByPath>(before, package_dir_path(artifact.path))
        } else {
            before
        };
        match dir_in_target_id(artifact.target_id) {
            Some(dir) => inserted::<ByPath>(with_harness, dir),
            None => with_harness,
        }
    }
}

/// The directories that artifacts are about.
pub fn package_dirs_from_artifacts(artifacts: &Vec<GeneratedArtifact>) -> (r: Vec<String>)
    ensures
        r.deep_view() == dirs_of_artifacts(artifacts.deep_view()),
{
    let mut dirs: Vec<String> = Vec::new();
    let ghost all = artifacts.deep_view();
    let mut i: usize = 0;
    assert(dirs.deep_view() =~= dirs_of_artifacts(all.take(0)));
    while i < artifacts.len()
        invariant
            i <= artifacts@.len(),
            all == artifacts.deep_view(),
            dirs.deep_view() == dirs_of_artifacts(all.take(i as int)),
        decreases artifacts@.len() - i,
    {
        proof {
            lemma_take_next(all, i as int);
            assert(all[i as int] == artifacts@[i as int].deep_view());
        }
        if artifacts[i].kind == ArtifactKind::FuzzHarness {
            insert::<ByPath>(&mut dirs, package_dir(artifacts[i].path.as_str()));
        }
        if let Some(dir) = package_dir_from_target_id(artifacts[i].target_id.as_str()) {
            insert::<ByPath>(&mut dirs, dir);
        }
        i = i + 1;
    }
    proof {
        lemma_take_all(all);
    }
    dirs
}

/// The packages whose tests run for artifacts: all where the artifacts are about none.
pub open spec fn arguments_for(
    packages: Seq<GoPackageModel>,
    artifacts: Seq<GeneratedArtifactModel>,
    config: GoPluginConfigModel,
) -> Seq<Seq<char>> {
    let selected = dirs_of_artifacts(artifacts);
    if selected.len() == 0 {
        seq!["./..."@]
    } else if packages.len() == 0 {
        package_arguments(selected)
    } else {
        package_arguments(
            scope(
                packages,
                selected,
                config.reverse_dependency_depth as int,
                config.max_packages as int,
            ),
        )
    }
}

/// The packages whose tests run for artifacts.
pub fn test_package_args(
    packages: &Vec<GoPackage>,
    artifacts: &Vec<GeneratedArtifact>,
    config: &GoPluginConfig,
) -> (r: Vec<String>)
    ensures
        r.deep_view() == arguments_for(
            packages.deep_view(),
            artifacts.deep_view(),
            config.deep_view(),
        ),
{
    let selected = package_dirs_from_artifacts(artifacts);
    assert(selected@.len() == selected.deep_view().len());
    assert(packages@.len() == packages.deep_view().len());
    if selected.len() == 0 {
        let mut all: Vec<String> = Vec::new();
        push_text(&mut all, owned("./..."));
        assert(all.deep_view() =~= seq!["./..."@]);
        return all;
    }
    if packages.len() == 0 {
        return package_args(&selected);
    }
    let dirs = scoped_package_dirs(
        packages,
        &selected,
        config.reverse_dependency_depth,
        config.max_packages,
    );
    package_args(&dirs)
}

/// The packages that are tested where some are selected: those that import them too.
pub fn scoped_package_args(packages: &Vec<GoPackage>, selected_dirs: &Vec<String>) -> (r: Vec<
    String,
>)
    ensures
        r.deep_view() == package_arguments(
            scope(packages.deep_view(), selected_dirs.deep_view(), 1, usize::MAX as int),
        ),
{
    package_args(&scoped_package_dirs(packages, selected_dirs, 1, usize::MAX))
}

/// Whether a part of a path is that of a directory whose files are not the project's own.
pub open spec fn is_foreign_part(part: Seq<char>) -> bool {
    ||| part == "vendor"@
    ||| part == "node_modules"@
    ||| part == "target"@
    ||| part == ".git"@
    ||| part == ".veritas"@
}

/// Whether some part of a path is that of a directory whose files are not the project's own.
pub open spec fn has_foreign_part(parts: Seq<Seq<char>>) -> bool {
    exists|k: int| 0 <= k < parts.len() && is_foreign_part(#[trigger] parts[k])
}

/// Whether a file or directory is left out: its name starts with a dot, or it stands in a
/// directory whose files are not the project's own.
pub fn is_ignored(path: &str, name: &str) -> (r: bool)
    ensures
        r == (starts(name@, "."@) || has_foreign_part(path_parts(path@))),
{
    if starts_with(name, ".") {
        return true;
    }
    let parts = components(path);
    let ghost all = parts.deep_view();
    let mut i: usize = 0;
    while i < parts.len()
        invariant
            i <= parts@.len(),
            all == parts.deep_view(),
            all == path_parts(path@),
            forall|k: int| 0 <= k < i ==> !is_foreign_part(#[trigger] all[k]),
        decreases parts@.len() - i,
    {
        let part = parts[i].as_str();
        assert(all[i as int] == parts@[i as int]@);
        if same(part, "vendor") || same(part, "node_modules") || same(part, "target") || same(
            part,
            ".git",
        ) || same(part, ".veritas") {
            assert(is_foreign_part(all[i as int]));
            return true;
        }
        i = i + 1;
    }
    false
}

} // verus!
