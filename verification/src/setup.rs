//! Setting up a project, its agents and its badge.
use vstd::prelude::*;

use crate::api::VerificationReport;
use crate::findings::{texts_of1, texts_of4};
use crate::next::{push_quoted, push_titled_quoted, quoted_lines, titled};
use crate::number::{decimal, print_u8};
use crate::policy::{has_script_project, RootFiles};
use crate::records::ConfidenceGrade;
use crate::score::{confidence_score, confidence_with, scorable};
use crate::seqs::{cat2, cat5, lemma_take_all, lemma_take_next};
use crate::split::push_text;
use crate::text::{
    chars_of, clone_texts, is_lower, list_has, lower, owned, same, text_between, to_lower,
};

verus! {

/// The languages that a project is set up for.
#[derive(Debug, Clone, Copy, PartialEq, Eq, Structural)]
pub enum InitLanguage {
    Auto,
    Rust,
    Go,
    Python,
    TypeScript,
    JavaScript,
    All,
}

/// The languages of a project, by the files at its root.
pub open spec fn languages_at_root(files: RootFiles) -> Seq<Seq<char>> {
    let found = Seq::<Seq<char>>::empty();
    let found = if files.cargo_toml {
        found.push("rust"@)
    } else {
        found
    };
    let found = if files.go_mod {
        found.push("go"@)
    } else {
        found
    };
    let found = if files.pyproject_toml || files.setup_py || files.requirements_txt {
        found.push("python"@)
    } else {
        found
    };
    if has_script_project(files) {
        found.push("typescript"@)
    } else {
        found
    }
}

/// All languages.
pub open spec fn every_language() -> Seq<Seq<char>> {
    seq!["rust"@, "go"@, "python"@, "typescript"@]
}

/// The languages that a project is set up for: those that are asked for, or those that it
/// has, or all where it has none.
pub open spec fn chosen_languages(language: InitLanguage, files: RootFiles) -> Seq<Seq<char>> {
    match language {
        InitLanguage::Rust => seq!["rust"@],
        InitLanguage::Go => seq!["go"@],
        InitLanguage::Python => seq!["python"@],
        InitLanguage::TypeScript => seq!["typescript"@],
        InitLanguage::JavaScript => seq!["typescript"@],
        InitLanguage::All => every_language(),
        InitLanguage::Auto => if languages_at_root(files).len() == 0 {
            every_language()
        } else {
            languages_at_root(files)
        },
    }
}

fn find_languages(files: RootFiles) -> (r: Vec<String>)
    ensures
        r.deep_view() == languages_at_root(files),
{
    let mut found: Vec<String> = Vec::new();
    assert(found.deep_view() =~= Seq::<Seq<char>>::empty());
    if files.cargo_toml {
        push_text(&mut found, owned("rust"));
    }
    if files.go_mod {
        push_text(&mut found, owned("go"));
    }
    if files.pyproject_toml || files.setup_py || files.requirements_txt {
        push_text(&mut found, owned("python"));
    }
    if files.package_json || files.tsconfig_json || files.jsconfig_json || files.scripts {
        push_text(&mut found, owned("typescript"));
    }
    found
}

/// The languages that a project is set up for.
pub fn init_languages(language: InitLanguage, files: RootFiles) -> (r: Vec<String>)
    ensures
        r.deep_view() == chosen_languages(language, files),
{
    match language {
        InitLanguage::Rust => texts_of1("rust"),
        InitLanguage::Go => texts_of1("go"),
        InitLanguage::Python => texts_of1("python"),
        InitLanguage::TypeScript => texts_of1("typescript"),
        InitLanguage::JavaScript => texts_of1("typescript"),
        InitLanguage::All => texts_of4("rust", "go", "python", "typescript"),
        InitLanguage::Auto => {
            let found = find_languages(files);
            assert(found@.len() == found.deep_view().len());
            if found.len() == 0 {
                texts_of4("rust", "go", "python", "typescript")
            } else {
                found
            }
        },
    }
}

/// There is always a language that a project is set up for.
pub proof fn law_some_language_is_chosen(language: InitLanguage, files: RootFiles)
    ensures
        chosen_languages(language, files).len() > 0,
{
}

/// The configuration file of a project with these languages.
#[verifier::opaque]
pub open spec fn init_config(languages: Seq<Seq<char>>) -> Seq<char> {
    let t = "# Generated by `veritas init`.\n# Keep generated tests reviewable; use `veritas cleanup` to remove artifacts.\n\n[veritas]\nbudget_seconds = 120\nwrite_generated_tests = true\nfail_on_generated_test_failure = true\nfail_on_findings = false\n\n[policy]\nfail_on_severity = \"error\"\nmin_mutation_score = 40\nmin_mutation_efficacy = 40\n\n[mutation]\nmax_mutants = 16\nworkers = 2\ntimeout_coefficient = 3\ntimeout_min_seconds = 10\ntimeout_max_seconds = 120\noutput_statuses = [\"lived\", \"killed\", \"timeout\", \"error\"]\nisolation_exclude_paths = [\".git\", \"target\", \"node_modules\", \".venv\", \"vendor\"]\n"@;
    let t = if languages.contains("rust"@) {
        let t = t
            + "\n[plugins.rust]\nproperty_framework = \"proptest\"\ncommand_timeout_seconds = 120\ncoverage_enabled = false\ncoverage_timeout_seconds = 120\ncargo_jobs = 1\ntest_threads = 1\nsystemd_scope = false\n"@;
        t
    } else {
        t
    };
    let t = if languages.contains("go"@) {
        let t = t
            + "\n[plugins.go]\nfuzz_seconds = 10\nfuzz_existing = true\nfuzz_concurrency = 2\ncoverage_enabled = true\nreverse_dependency_depth = 1\nmax_fuzz_targets = 20\ncommand_timeout_seconds = 120\nmax_packages = 64\nmax_mutants = 16\n"@;
        t
    } else {
        t
    };
    let t = if languages.contains("python"@) {
        let t = t
            + "\n[plugins.python]\ncommand_timeout_seconds = 120\ncoverage_enabled = false\n"@;
        t
    } else {
        t
    };
    let t = if languages.contains("typescript"@) {
        let t = t + "\n[plugins.typescript]\ncommand_timeout_seconds = 120\n"@;
        t
    } else {
        t
    };
    t
}

/// The configuration file of a project with these languages.
pub fn render_init_config(languages: &Vec<String>) -> (r: String)
    ensures
        r@ == init_config(languages.deep_view()),
{
    proof {
        reveal(init_config);
    }
    let mut out = owned("# Generated by `veritas init`.\n# Keep generated tests reviewable; use `veritas cleanup` to remove artifacts.\n\n[veritas]\nbudget_seconds = 120\nwrite_generated_tests = true\nfail_on_generated_test_failure = true\nfail_on_findings = false\n\n[policy]\nfail_on_severity = \"error\"\nmin_mutation_score = 40\nmin_mutation_efficacy = 40\n\n[mutation]\nmax_mutants = 16\nworkers = 2\ntimeout_coefficient = 3\ntimeout_min_seconds = 10\ntimeout_max_seconds = 120\noutput_statuses = [\"lived\", \"killed\", \"timeout\", \"error\"]\nisolation_exclude_paths = [\".git\", \"target\", \"node_modules\", \".venv\", \"vendor\"]\n");
    if list_has(languages, "rust") {
        out.append("\n[plugins.rust]\nproperty_framework = \"proptest\"\ncommand_timeout_seconds = 120\ncoverage_enabled = false\ncoverage_timeout_seconds = 120\ncargo_jobs = 1\ntest_threads = 1\nsystemd_scope = false\n");
    }
    if list_has(languages, "go") {
        out.append("\n[plugins.go]\nfuzz_seconds = 10\nfuzz_existing = true\nfuzz_concurrency = 2\ncoverage_enabled = true\nreverse_dependency_depth = 1\nmax_fuzz_targets = 20\ncommand_timeout_seconds = 120\nmax_packages = 64\nmax_mutants = 16\n");
    }
    if list_has(languages, "python") {
        out.append("\n[plugins.python]\ncommand_timeout_seconds = 120\ncoverage_enabled = false\n");
    }
    if list_has(languages, "typescript") {
        out.append("\n[plugins.typescript]\ncommand_timeout_seconds = 120\n");
    }
    out
}

/// The workflow of a project with these languages.
#[verifier::opaque]
pub open spec fn init_workflow(languages: Seq<Seq<char>>) -> Seq<char> {
    let t = "name: Veritas\non:\npull_request:\nworkflow_dispatch:\njobs:\nverify:\nruns-on: ubuntu-latest\nsteps:\n- uses: actions/checkout@v5\nwith:\nfetch-depth: 0\n- name: Install Veritas\nrun: curl -fsSL https://github.com/Jacobious52/veritas/releases/latest/download/install.sh | sh\n- name: Verify changed code\nrun: veritas verify --changed --profile ci"@;
    let t = if languages.len() == 1 {
        let t = t + " --lang "@ + languages[0];
        t
    } else {
        t
    };
    let t = t
        + "\n- name: Publish repair prompt\nif: always()\nrun: veritas repair-prompt --github-step-summary\n"@;
    t
}

/// The workflow of a project with these languages.
pub fn render_init_workflow(languages: &Vec<String>) -> (r: String)
    ensures
        r@ == init_workflow(languages.deep_view()),
{
    proof {
        reveal(init_workflow);
    }
    assert(languages@.len() == languages.deep_view().len());
    let mut out = owned("name: Veritas\non:\npull_request:\nworkflow_dispatch:\njobs:\nverify:\nruns-on: ubuntu-latest\nsteps:\n- uses: actions/checkout@v5\nwith:\nfetch-depth: 0\n- name: Install Veritas\nrun: curl -fsSL https://github.com/Jacobious52/veritas/releases/latest/download/install.sh | sh\n- name: Verify changed code\nrun: veritas verify --changed --profile ci");
    if languages.len() == 1 {
        out.append(" --lang ");
        out.append(languages[0].as_str());
    }
    out.append("\n- name: Publish repair prompt\nif: always()\nrun: veritas repair-prompt --github-step-summary\n");
    out
}

/// The name of an agent with a capital at its start.
pub open spec fn agent_name(agent: Seq<char>) -> Seq<char> {
    if agent.len() > 0 && is_lower(agent[0]) {
        seq![((agent[0] as u32) - 32) as char] + agent.skip(1)
    } else {
        agent
    }
}

fn name_agent(agent: &str) -> (r: String)
    ensures
        r@ == agent_name(agent@),
{
    let chars = chars_of(agent);
    if chars.len() == 0 {
        return owned(agent);
    }
    let first = chars[0];
    if 'a' <= first && first <= 'z' {
        let mut out = String::new();
        out.push(((first as u8) - 32) as char);
        out.append(text_between(&chars, 1, chars.len()).as_str());
        assert(out@ =~= agent_name(agent@));
        out
    } else {
        owned(agent)
    }
}

/// What an agent is called: a name of its own, or its name with a capital at its start.
pub open spec fn agent_title(agent: Seq<char>) -> Seq<char> {
    if agent == "generic"@ {
        "generic AI coding agent"@
    } else if agent == "copilot"@ {
        "GitHub Copilot"@
    } else {
        agent_name(agent)
    }
}

fn title_agent(agent: &str) -> (r: String)
    ensures
        r@ == agent_title(agent@),
{
    if same(agent, "generic") {
        owned("generic AI coding agent")
    } else if same(agent, "copilot") {
        owned("GitHub Copilot")
    } else {
        name_agent(agent)
    }
}

/// What an agent is told of how to work.
#[verifier::opaque]
pub open spec fn agent_instructions(agent: Seq<char>) -> Seq<char> {
    let t = "# Veritas Agent Instructions\n\nYou are using Veritas with a "@
        + agent_title(agent)
        + ". Your job is to improve verifiability, not to hide findings.\n\n## Loop\n\n1. Run `veritas verify --changed --profile ci` for changed work or `veritas verify --lang <lang> --target <target>` for focused work.\n2. Run `veritas next --explain` and do the first item unless it requires a broad rewrite without proof.\n3. Prefer adding the smallest owned regression, property, fuzz seed, or replay assertion before production edits.\n4. Run the listed proof commands, then `veritas score`.\n5. Keep changes only when the finding disappears, a mutant dies, replay/corpus improves, or confidence is stable/improved.\n\n## Anti-Gaming Rules\n\n- Do not delete generated artifacts to improve output.\n- Do not accept baselines for unresolved behavior changes.\n- Do not widen scope or raise budgets before trying a smaller proof.\n- Treat skipped commands and surviving mutants as real risks.\n\n## Useful Commands\n\n```bash\nveritas next --explain\nveritas score\nveritas repair-prompt\nveritas replay-corpus --dry-run\nveritas evolve --dry-run\nveritas review-packet\n```\n"@;
    t
}

/// What an agent is told of how to work.
pub fn render_agent_instructions(agent: &str) -> (r: String)
    ensures
        r@ == agent_instructions(agent@),
{
    proof {
        reveal(agent_instructions);
    }
    let mut out = owned("# Veritas Agent Instructions\n\nYou are using Veritas with a ");
    out.append(title_agent(agent).as_str());
    out.append(". Your job is to improve verifiability, not to hide findings.\n\n## Loop\n\n1. Run `veritas verify --changed --profile ci` for changed work or `veritas verify --lang <lang> --target <target>` for focused work.\n2. Run `veritas next --explain` and do the first item unless it requires a broad rewrite without proof.\n3. Prefer adding the smallest owned regression, property, fuzz seed, or replay assertion before production edits.\n4. Run the listed proof commands, then `veritas score`.\n5. Keep changes only when the finding disappears, a mutant dies, replay/corpus improves, or confidence is stable/improved.\n\n## Anti-Gaming Rules\n\n- Do not delete generated artifacts to improve output.\n- Do not accept baselines for unresolved behavior changes.\n- Do not widen scope or raise budgets before trying a smaller proof.\n- Treat skipped commands and surviving mutants as real risks.\n\n## Useful Commands\n\n```bash\nveritas next --explain\nveritas score\nveritas repair-prompt\nveritas replay-corpus --dry-run\nveritas evolve --dry-run\nveritas review-packet\n```\n");
    out
}

/// What is said of instructions that were written.
pub open spec fn agent_summary(agent: Seq<char>, path: Seq<char>) -> Seq<char> {
    let t = "# veritas agent-instructions\n\n- Agent: `"@
        + agent_name(agent)
        + "`\n- Path: `"@
        + path
        + "`\n"@;
    t
}

/// What is said of instructions that were written.
pub fn print_agent_instruction_summary(agent: &str, path: &str) -> (r: String)
    ensures
        r@ == agent_summary(agent@, path@),
{
    let mut out = owned("# veritas agent-instructions\n\n- Agent: `");
    out.append(name_agent(agent).as_str());
    out.append("`\n- Path: `");
    out.append(path);
    out.append("`\n");
    out
}

// ---------------------------------------------------------------------------
// Setting up
// ---------------------------------------------------------------------------
/// A file that setting up a project writes, by its path below the root.
#[derive(Debug, PartialEq, Eq)]
pub struct InitFile {
    pub path: String,
    pub contents: String,
}

/// The mathematical value of an `InitFile`.
pub struct InitFileModel {
    pub path: Seq<char>,
    pub contents: Seq<char>,
}

impl DeepView for InitFile {
    type V = InitFileModel;

    open spec fn deep_view(&self) -> InitFileModel {
        InitFileModel {
            path: self.path@,
            contents: self.contents@,
        }
    }
}

impl Clone for InitFile {
    fn clone(&self) -> (r: Self)
        ensures
            r.deep_view() == self.deep_view(),
    {
        InitFile {
            path: self.path.clone(),
            contents: self.contents.clone(),
        }
    }
}

/// Puts an item at the end of the list.
pub fn push_init_file(items: &mut Vec<InitFile>, item: InitFile)
    ensures
        final(items).deep_view() == old(items).deep_view().push(item.deep_view()),
        final(items)@.len() == old(items)@.len() + 1,
{
    let ghost before = items.deep_view();
    items.push(item);
    assert(items.deep_view() == before.push(item.deep_view()));
}

/// The files that setting up a project writes.
pub open spec fn files_to_write(
    languages: Seq<Seq<char>>,
    ci: bool,
    agent_instructions_too: bool,
) -> Seq<InitFileModel> {
    let files = seq![
        InitFileModel { path: ".veritas.toml"@, contents: init_config(languages) },
    ];
    let files = if ci {
        files.push(
            InitFileModel {
                path: ".github/workflows/veritas.yml"@,
                contents: init_workflow(languages),
            },
        )
    } else {
        files
    };
    if agent_instructions_too {
        files.push(
            InitFileModel {
                path: ".veritas/ai/veritas_agent_instructions.md"@,
                contents: agent_instructions("generic"@),
            },
        )
    } else {
        files
    }
}

/// The files that setting up a project writes.
pub fn initialize_project(
    languages: &Vec<String>,
    ci: bool,
    agent_instructions_too: bool,
) -> (r: Vec<InitFile>)
    ensures
        r.deep_view() == files_to_write(languages.deep_view(), ci, agent_instructions_too),
{
    let mut files: Vec<InitFile> = Vec::new();
    push_init_file(
        &mut files,
        InitFile { path: owned(".veritas.toml"), contents: render_init_config(languages) },
    );
    assert(files.deep_view() =~= seq![
        InitFileModel { path: ".veritas.toml"@, contents: init_config(languages.deep_view()) },
    ]);
    if ci {
        push_init_file(
            &mut files,
            InitFile {
                path: owned(".github/workflows/veritas.yml"),
                contents: render_init_workflow(languages),
            },
        );
    }
    if agent_instructions_too {
        push_init_file(
            &mut files,
            InitFile {
                path: owned(".veritas/ai/veritas_agent_instructions.md"),
                contents: render_agent_instructions("generic"),
            },
        );
    }
    files
}

/// What setting up a project did.
#[derive(Debug, PartialEq, Eq)]
pub struct InitSummary {
    pub dry_run: bool,
    pub written: Vec<String>,
    pub skipped: Vec<String>,
}

/// The mathematical value of an `InitSummary`.
pub struct InitSummaryModel {
    pub dry_run: bool,
    pub written: Seq<Seq<char>>,
    pub skipped: Seq<Seq<char>>,
}

impl DeepView for InitSummary {
    type V = InitSummaryModel;

    open spec fn deep_view(&self) -> InitSummaryModel {
        InitSummaryModel {
            dry_run: self.dry_run,
            written: self.written.deep_view(),
            skipped: self.skipped.deep_view(),
        }
    }
}

impl Clone for InitSummary {
    fn clone(&self) -> (r: Self)
        ensures
            r.deep_view() == self.deep_view(),
    {
        InitSummary {
            dry_run: self.dry_run,
            written: clone_texts(&self.written),
            skipped: clone_texts(&self.skipped),
        }
    }
}

impl InitSummary {
    /// Nothing done yet.
    pub fn new(dry_run: bool) -> (r: Self)
        ensures
            r.deep_view() == (InitSummaryModel {
                dry_run,
                written: Seq::empty(),
                skipped: Seq::empty(),
            }),
    {
        let summary = InitSummary { dry_run, written: Vec::new(), skipped: Vec::new() };
        assert(summary.written.deep_view() =~= Seq::<Seq<char>>::empty());
        assert(summary.skipped.deep_view() =~= Seq::<Seq<char>>::empty());
        summary
    }

    /// Notes a file and tells whether to write it: a file that is there stays unless that is
    /// forced, and a dry run writes none.
    pub fn note_file(&mut self, path: &str, exists: bool, force: bool) -> (r: bool)
        ensures
            final(self).deep_view() == (if exists && !force {
                InitSummaryModel {
                    skipped: old(self).deep_view().skipped.push(path@),
                    ..old(self).deep_view()
                }
            } else {
                InitSummaryModel {
                    written: old(self).deep_view().written.push(path@),
                    ..old(self).deep_view()
                }
            }),
            r == (!(exists && !force) && !old(self).dry_run),
    {
        if exists && !force {
            push_text(&mut self.skipped, owned(path));
            false
        } else {
            push_text(&mut self.written, owned(path));
            !self.dry_run
        }
    }
}

/// What setting up a project did, in words.
pub open spec fn init_words(summary: InitSummaryModel) -> Seq<char> {
    "# veritas init\n\n- Mode: `"@ + (if summary.dry_run {
        "dry-run"@
    } else {
        "write"@
    }) + "`\n"@ + titled(
        if summary.dry_run {
            "- Would write:\n"@
        } else {
            "- Written:\n"@
        },
        summary.written,
        quoted_lines(summary.written),
    ) + titled(
        "- Skipped existing files:\n"@,
        summary.skipped,
        quoted_lines(summary.skipped) + "\nPass `--force` to overwrite skipped files.\n"@,
    )
}

/// What setting up a project did, in words.
pub fn print_init_summary(summary: &InitSummary) -> (r: String)
    ensures
        r@ == init_words(summary.deep_view()),
{
    assert(summary.skipped@.len() == summary.skipped.deep_view().len());
    let mut out = owned("# veritas init\n\n- Mode: `");
    out.append(
        if summary.dry_run {
            "dry-run"
        } else {
            "write"
        },
    );
    out.append("`\n");
    push_titled_quoted(
        &mut out,
        if summary.dry_run {
            "- Would write:\n"
        } else {
            "- Written:\n"
        },
        &summary.written,
    );
    if summary.skipped.len() > 0 {
        out.append("- Skipped existing files:\n");
        push_quoted(&mut out, &summary.skipped);
        out.append("\nPass `--force` to overwrite skipped files.\n");
    }
    assert(out@ =~= init_words(summary.deep_view()));
    out
}

// ---------------------------------------------------------------------------
// Badge
// ---------------------------------------------------------------------------
/// A character as it stands in a document of elements.
pub open spec fn escaped_char(c: char) -> Seq<char> {
    if c == '&' {
        "&amp;"@
    } else if c == '<' {
        "&lt;"@
    } else if c == '>' {
        "&gt;"@
    } else if c == '"' {
        "&quot;"@
    } else {
        seq![c]
    }
}

/// A text as it stands in a document of elements.
pub open spec fn escaped(s: Seq<char>) -> Seq<char>
    decreases s.len(),
{
    if s.len() == 0 {
        s
    } else {
        escaped(s.drop_last()) + escaped_char(s.last())
    }
}

/// A text as it stands in a document of elements.
pub fn xml_escape(value: &str) -> (r: String)
    ensures
        r@ == escaped(value@),
{
    let chars = chars_of(value);
    let ghost all = chars@;
    let mut out = String::new();
    let mut i: usize = 0;
    assert(out@ =~= escaped(all.take(0)));
    while i < chars.len()
        invariant
            i <= chars@.len(),
            all == chars@,
            out@ == escaped(all.take(i as int)),
        decreases chars@.len() - i,
    {
        proof {
            lemma_take_next(all, i as int);
        }
        let ghost before = out@;
        let c = chars[i];
        if c == '&' {
            out.append("&amp;");
        } else if c == '<' {
            out.append("&lt;");
        } else if c == '>' {
            out.append("&gt;");
        } else if c == '"' {
            out.append("&quot;");
        } else {
            out.push(c);
        }
        assert(out@ =~= before + escaped_char(c));
        i = i + 1;
    }
    proof {
        lemma_take_all(all);
    }
    out
}

/// No character that opens or closes an element or a quotation is left in a text that was
/// escaped.
pub proof fn law_escaped_text_has_no_markup(s: Seq<char>, i: int)
    requires
        0 <= i < escaped(s).len(),
    ensures
        escaped(s)[i] != '<',
        escaped(s)[i] != '>',
        escaped(s)[i] != '"',
    decreases s.len(),
{
    reveal_strlit("&amp;");
    reveal_strlit("&lt;");
    reveal_strlit("&gt;");
    reveal_strlit("&quot;");
    let before = escaped(s.drop_last());
    if i < before.len() {
        law_escaped_text_has_no_markup(s.drop_last(), i);
    }
}

/// The color of a grade.
pub open spec fn grade_color(grade: ConfidenceGrade) -> Seq<char> {
    match grade {
        ConfidenceGrade::High => "#1f9d55"@,
        ConfidenceGrade::Medium => "#b7791f"@,
        ConfidenceGrade::Low => "#c53030"@,
    }
}

fn color_of(grade: ConfidenceGrade) -> (r: &'static str)
    ensures
        r@ == grade_color(grade),
{
    match grade {
        ConfidenceGrade::High => "#1f9d55",
        ConfidenceGrade::Medium => "#b7791f",
        ConfidenceGrade::Low => "#c53030",
    }
}

/// The score of the mutants on a badge.
pub open spec fn badge_mutation(percent: Option<u8>) -> Seq<char> {
    match percent {
        Some(score) => decimal(score as int) + "% mutation"@,
        None => "mutation n/a"@,
    }
}

fn mutation_on_badge(percent: Option<u8>) -> (r: String)
    ensures
        r@ == badge_mutation(percent),
{
    match percent {
        Some(score) => cat2(print_u8(score).as_str(), "% mutation"),
        None => owned("mutation n/a"),
    }
}

/// A badge with a score.
#[verifier::opaque]
pub open spec fn badge_text(score: u8, grade: ConfidenceGrade, mutation: Seq<char>) -> Seq<char> {
    let t = "<svg xmlns=\"http://www.w3.org/2000/svg\" width=\"420\" height=\"96\" role=\"img\" aria-label=\""@
        + escaped("veritas "@ + decimal(score as int) + " "@ + lower(grade.name_text()) + " "@ + mutation)
        + "\">\n<rect width=\"420\" height=\"96\" rx=\"8\" fill=\"#111827\"/>\n<rect x=\"0\" y=\"0\" width=\"132\" height=\"96\" rx=\"8\" fill=\""@
        + grade_color(grade)
        + "\"/>\n<text x=\"66\" y=\"40\" text-anchor=\"middle\" font-family=\"Verdana, sans-serif\" font-size=\"18\" fill=\"#fff\">"@
        + escaped(decimal(score as int))
        + "</text>\n<text x=\"66\" y=\"66\" text-anchor=\"middle\" font-family=\"Verdana, sans-serif\" font-size=\"13\" fill=\"#ecfdf5\">"@
        + escaped(lower(grade.name_text()))
        + "</text>\n<text x=\"152\" y=\"38\" font-family=\"Verdana, sans-serif\" font-size=\"17\" fill=\"#f9fafb\">"@
        + escaped("veritas "@ + decimal(score as int))
        + "</text>\n<text x=\"152\" y=\"65\" font-family=\"Verdana, sans-serif\" font-size=\"13\" fill=\"#d1d5db\">"@
        + escaped(mutation)
        + "</text>\n</svg>\n"@;
    t
}

fn badge(score: u8, grade: ConfidenceGrade, mutation: &str) -> (r: String)
    ensures
        r@ == badge_text(score, grade, mutation@),
{
    proof {
        reveal(badge_text);
    }
    let name = to_lower(grade.name());
    let label = cat2("veritas ", print_u8(score).as_str());
    let whole = cat5(label.as_str(), " ", name.as_str(), " ", mutation);
    let mut out = owned("<svg xmlns=\"http://www.w3.org/2000/svg\" width=\"420\" height=\"96\" role=\"img\" aria-label=\"");
    out.append(xml_escape(whole.as_str()).as_str());
    out.append("\">\n<rect width=\"420\" height=\"96\" rx=\"8\" fill=\"#111827\"/>\n<rect x=\"0\" y=\"0\" width=\"132\" height=\"96\" rx=\"8\" fill=\"");
    out.append(color_of(grade));
    out.append("\"/>\n<text x=\"66\" y=\"40\" text-anchor=\"middle\" font-family=\"Verdana, sans-serif\" font-size=\"18\" fill=\"#fff\">");
    out.append(xml_escape(print_u8(score).as_str()).as_str());
    out.append("</text>\n<text x=\"66\" y=\"66\" text-anchor=\"middle\" font-family=\"Verdana, sans-serif\" font-size=\"13\" fill=\"#ecfdf5\">");
    out.append(xml_escape(name.as_str()).as_str());
    out.append("</text>\n<text x=\"152\" y=\"38\" font-family=\"Verdana, sans-serif\" font-size=\"17\" fill=\"#f9fafb\">");
    out.append(xml_escape(label.as_str()).as_str());
    out.append("</text>\n<text x=\"152\" y=\"65\" font-family=\"Verdana, sans-serif\" font-size=\"13\" fill=\"#d1d5db\">");
    out.append(xml_escape(mutation).as_str());
    out.append("</text>\n</svg>\n");
    out
}

/// The badge of a report.
pub fn render_score_badge(report: &VerificationReport) -> (r: String)
    requires
        scorable(report.deep_view()),
    ensures
        r@ == badge_text(
            confidence_with(report.deep_view(), None).score,
            confidence_with(report.deep_view(), None).grade,
            badge_mutation(report.deep_view().quality.mutation.score_percent),
        ),
{
    let score = confidence_score(report);
    badge(
        score.score,
        score.grade,
        mutation_on_badge(report.quality.mutation.score_percent).as_str(),
    )
}

/// A project is set up for the language of each file at its root, for all where there is none,
/// and for what is asked for where something is.
pub proof fn law_root_files_choose_languages(files: RootFiles)
    ensures
        ({
            let chosen = chosen_languages(InitLanguage::Auto, files);
            &&& files.cargo_toml ==> chosen.contains("rust"@)
            &&& files.go_mod ==> chosen.contains("go"@)
            &&& files.pyproject_toml || files.setup_py || files.requirements_txt
                ==> chosen.contains("python"@)
        }),
        chosen_languages(InitLanguage::Go, files) == seq!["go"@],
        chosen_languages(InitLanguage::Rust, files) == seq!["rust"@],
        chosen_languages(InitLanguage::Python, files) == seq!["python"@],
        chosen_languages(InitLanguage::TypeScript, files) == seq!["typescript"@],
        chosen_languages(InitLanguage::JavaScript, files) == seq!["typescript"@],
        chosen_languages(InitLanguage::All, files) == seq![
            "rust"@,
            "go"@,
            "python"@,
            "typescript"@,
        ],
{
    let found = languages_at_root(files);
    let rust: int = if files.cargo_toml {
        1
    } else {
        0
    };
    let go: int = if files.go_mod {
        1
    } else {
        0
    };
    if files.cargo_toml {
        assert(found[0] == "rust"@);
    }
    if files.go_mod {
        assert(found[rust] == "go"@);
    }
    if files.pyproject_toml || files.setup_py || files.requirements_txt {
        assert(found[rust + go] == "python"@);
    }
}

} // verus!
