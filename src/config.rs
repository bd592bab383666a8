use crate::paths::{clone_opt, join_path, opt_str_view, opt_text_eq, opt_view, path_join};
use vstd::prelude::*;

verus! {

/// Default for configuration flags that are on unless stated otherwise.
pub fn bool_true() -> (r: bool)
    ensures
        r,
{
    true
}

/// Settings of an external scratch-compile environment tied to one object.
#[derive(Clone, Debug, Default)]
pub struct ScratchConfig {
    pub platform: Option<String>,
    pub compiler: Option<String>,
    pub c_flags: Option<String>,
    pub ctx_path: Option<String>,
    pub build_ctx: bool,
}

impl PartialEq for ScratchConfig {
    fn eq(&self, o: &ScratchConfig) -> (r: bool) {
        opt_text_eq(&self.platform, &o.platform) && opt_text_eq(&self.compiler, &o.compiler)
            && opt_text_eq(&self.c_flags, &o.c_flags) && opt_text_eq(&self.ctx_path, &o.ctx_path)
            && self.build_ctx == o.build_ctx
    }
}

impl vstd::std_specs::cmp::PartialEqSpecImpl for ScratchConfig {
    open spec fn obeys_eq_spec() -> bool {
        true
    }

    open spec fn eq_spec(&self, o: &ScratchConfig) -> bool {
        opt_view(self.platform) == opt_view(o.platform) && opt_view(self.compiler) == opt_view(
            o.compiler,
        ) && opt_view(self.c_flags) == opt_view(o.c_flags) && opt_view(self.ctx_path)
            == opt_view(o.ctx_path) && self.build_ctx == o.build_ctx
    }
}

/// One pair of comparable objects declared by the project.
#[derive(Clone, Debug, Default)]
pub struct ProjectObject {
    pub name: Option<String>,
    pub path: Option<String>,
    pub target_path: Option<String>,
    pub base_path: Option<String>,
    pub reverse_fn_order: Option<bool>,
    pub complete: Option<bool>,
    pub scratch: Option<ScratchConfig>,
}

/// The name an object is shown under: its own name, else its source path,
/// else a placeholder.
pub open spec fn display_name(o: ProjectObject) -> Seq<char> {
    match o.name {
        Some(n) => n@,
        None => match o.path {
            Some(p) => p@,
            None => "[unknown]"@,
        },
    }
}

/// Where one side of an object resolves to. The output-directory rule is
/// tried first and applies only when the side has no explicit path; an
/// explicit path is taken relative to the project directory; otherwise the
/// side stays unresolved.
///
/// Known ambiguity: one could also read the output-directory rule as winning
/// over an explicit path whenever a source path is given, which would leave
/// the explicit path without effect. Here an explicit path, when given, is
/// always the one used.
pub open spec fn resolve_side(
    project_dir: Seq<char>,
    obj_dir: Option<Seq<char>>,
    path: Option<Seq<char>>,
    explicit: Option<Seq<char>>,
) -> Option<Seq<char>> {
    if obj_dir.is_some() && path.is_some() && explicit.is_none() {
        Some(path_join(obj_dir.unwrap(), path.unwrap()))
    } else if explicit.is_some() {
        Some(path_join(project_dir, explicit.unwrap()))
    } else {
        None
    }
}

fn resolve_one(
    project_dir: &str,
    obj_dir: Option<&str>,
    path: &Option<String>,
    explicit: &Option<String>,
) -> (r: Option<String>)
    ensures
        opt_view(r) == resolve_side(project_dir@, opt_str_view(obj_dir), opt_view(*path), opt_view(*explicit)),
{
    match (obj_dir, path, explicit) {
        (Some(d), Some(p), None) => Some(join_path(d, p.as_str())),
        (_, _, Some(e)) => Some(join_path(project_dir, e.as_str())),
        _ => None,
    }
}

impl ProjectObject {
    /// The name this object is displayed under.
    pub fn name(&self) -> (r: &str)
        ensures
            r@ == display_name(*self),
    {
        match &self.name {
            Some(n) => n.as_str(),
            None => match &self.path {
                Some(p) => p.as_str(),
                None => {
                    proof {
                        reveal_strlit("[unknown]");
                    }
                    "[unknown]"
                },
            },
        }
    }

    /// Resolves the target and base paths of this object in place, from the
    /// project directory and the optional output directories of each side.
    pub fn resolve_paths(
        &mut self,
        project_dir: &str,
        target_obj_dir: Option<&str>,
        base_obj_dir: Option<&str>,
    )
        ensures
            opt_view(final(self).target_path) == resolve_side(
                project_dir@,
                opt_str_view(target_obj_dir),
                opt_view(old(self).path),
                opt_view(old(self).target_path),
            ),
            opt_view(final(self).base_path) == resolve_side(
                project_dir@,
                opt_str_view(base_obj_dir),
                opt_view(old(self).path),
                opt_view(old(self).base_path),
            ),
            final(self).name == old(self).name,
            final(self).path == old(self).path,
            final(self).reverse_fn_order == old(self).reverse_fn_order,
            final(self).complete == old(self).complete,
            final(self).scratch == old(self).scratch,
    {
        let t = resolve_one(project_dir, target_obj_dir, &self.path, &self.target_path);
        let b = resolve_one(project_dir, base_obj_dir, &self.path, &self.base_path);
        self.target_path = t;
        self.base_path = b;
    }
}

/// Resolution precedence on one side: with an output directory and a source
/// path, the output-directory rule decides when no explicit path is given;
/// an explicit path, when given, is taken relative to the project directory.
pub proof fn lemma_resolve_precedence(
    project_dir: Seq<char>,
    obj_dir: Seq<char>,
    path: Seq<char>,
    explicit: Option<Seq<char>>,
)
    ensures
        explicit.is_none() ==> resolve_side(project_dir, Some(obj_dir), Some(path), explicit)
            == Some(path_join(obj_dir, path)),
        explicit.is_some() ==> resolve_side(project_dir, Some(obj_dir), Some(path), explicit)
            == Some(path_join(project_dir, explicit.unwrap())),
{
}

/// A side with a source path but neither an output directory nor an explicit
/// path stays unresolved.
pub proof fn lemma_bare_path_unresolved(project_dir: Seq<char>, path: Seq<char>)
    ensures
        resolve_side(project_dir, None, Some(path), None) is None,
{
}


/// A project's configuration with parse-time defaults applied.
#[derive(Clone, Debug, Default)]
pub struct ProjectConfig {
    pub min_version: Option<String>,
    pub custom_make: Option<String>,
    pub target_dir: Option<String>,
    pub base_dir: Option<String>,
    pub build_target: bool,
    pub build_base: bool,
    pub watch_patterns: Option<Vec<String>>,
    pub objects: Vec<ProjectObject>,
}

/// The views of a sequence of strings.
pub open spec fn texts(v: Seq<String>) -> Seq<Seq<char>> {
    v.map_values(|s: String| s@)
}

/// Pushing a string pushes its view.
pub proof fn lemma_texts_push(s: Seq<String>, t: String)
    ensures
        texts(s.push(t)) == texts(s).push(t@),
{
    assert(texts(s.push(t)) =~= texts(s).push(t@));
}

/// The views of a sequence of string slices.
pub open spec fn str_texts(v: Seq<&str>) -> Seq<Seq<char>> {
    v.map_values(|s: &str| s@)
}

/// The configuration file names tried, in order of preference.
pub open spec fn config_filenames_spec() -> Seq<Seq<char>> {
    seq!["objdiff.yml"@, "objdiff.yaml"@, "objdiff.json"@]
}

/// The watch patterns used when a configuration names none.
pub open spec fn default_watch_patterns_spec() -> Seq<Seq<char>> {
    seq![
        "*.c"@, "*.cp"@, "*.cpp"@, "*.cxx"@, "*.h"@, "*.hp"@, "*.hpp"@, "*.hxx"@,
        "*.s"@, "*.S"@, "*.asm"@, "*.inc"@, "*.py"@, "*.yml"@, "*.txt"@, "*.json"@,
    ]
}

/// The configuration file names tried, in order of preference.
pub fn config_filenames() -> (r: Vec<&'static str>)
    ensures
        str_texts(r@) == config_filenames_spec(),
{
    proof {
        reveal_strlit("objdiff.yml");
        reveal_strlit("objdiff.yaml");
        reveal_strlit("objdiff.json");
    }
    let r = vec!["objdiff.yml", "objdiff.yaml", "objdiff.json"];
    assert(str_texts(r@) =~= config_filenames_spec());
    r
}

/// The watch patterns used when a configuration names none.
pub fn default_watch_patterns() -> (r: Vec<String>)
    ensures
        texts(r@) == default_watch_patterns_spec(),
{
    let lits: Vec<&'static str> = vec![
        "*.c", "*.cp", "*.cpp", "*.cxx", "*.h", "*.hp", "*.hpp", "*.hxx", "*.s", "*.S", "*.asm",
        "*.inc", "*.py", "*.yml", "*.txt", "*.json",
    ];
    proof {
        reveal_strlit("*.c");
        reveal_strlit("*.cp");
        reveal_strlit("*.cpp");
        reveal_strlit("*.cxx");
        reveal_strlit("*.h");
        reveal_strlit("*.hp");
        reveal_strlit("*.hpp");
        reveal_strlit("*.hxx");
        reveal_strlit("*.s");
        reveal_strlit("*.S");
        reveal_strlit("*.asm");
        reveal_strlit("*.inc");
        reveal_strlit("*.py");
        reveal_strlit("*.yml");
        reveal_strlit("*.txt");
        reveal_strlit("*.json");
        assert(str_texts(lits@) =~= default_watch_patterns_spec());
    }
    let mut r: Vec<String> = Vec::new();
    let mut i: usize = 0;
    while i < lits.len()
        invariant
            i <= lits@.len(),
            str_texts(lits@) == default_watch_patterns_spec(),
            texts(r@) == str_texts(lits@).take(i as int),
        decreases lits@.len() - i,
    {
        let ghost before = r@;
        let t = String::from_str(lits[i]);
        r.push(t);
        proof {
            lemma_texts_push(before, t);
        }
        assert(texts(r@) =~= str_texts(lits@).take(i + 1));
        i = i + 1;
    }
    assert(str_texts(lits@).take(i as int) =~= str_texts(lits@));
    r
}

impl ProjectConfig {
    /// This configuration with its defaults applied: the watch patterns are
    /// the given ones, or the default set when none were given.
    pub fn with_defaults(self) -> (r: ProjectConfig)
        ensures
            r.watch_patterns is Some,
            texts(r.watch_patterns.unwrap()@) == match self.watch_patterns {
                Some(v) => texts(v@),
                None => default_watch_patterns_spec(),
            },
            r.min_version == self.min_version,
            r.custom_make == self.custom_make,
            r.target_dir == self.target_dir,
            r.base_dir == self.base_dir,
            r.build_target == self.build_target,
            r.build_base == self.build_base,
            r.objects == self.objects,
    {
        let patterns = self.watch_patterns_or_default();
        ProjectConfig { watch_patterns: Some(patterns), ..self }
    }

    /// The watch patterns of this configuration, or the default set when it
    /// names none.
    pub fn watch_patterns_or_default(&self) -> (r: Vec<String>)
        ensures
            texts(r@) == match self.watch_patterns {
                Some(v) => texts(v@),
                None => default_watch_patterns_spec(),
            },
    {
        match &self.watch_patterns {
            Some(v) => {
                let mut r: Vec<String> = Vec::new();
                let mut i: usize = 0;
                while i < v.len()
                    invariant
                        i <= v@.len(),
                        texts(r@) == texts(v@).take(i as int),
                    decreases v@.len() - i,
                {
                    let ghost before = r@;
                    let t = v[i].clone();
                    r.push(t);
                    proof {
                        lemma_texts_push(before, t);
                    }
                    assert(texts(r@) =~= texts(v@).take(i + 1));
                    i = i + 1;
                }
                assert(texts(v@).take(i as int) =~= texts(v@));
                r
            },
            None => default_watch_patterns(),
        }
    }
}

/// Whether `t` occurs in `s` as a contiguous run.
pub open spec fn contains_text(s: Seq<char>, t: Seq<char>) -> bool {
    exists|i: int| 0 <= i && i + t.len() <= s.len() && #[trigger] s.subrange(i, i + t.len()) == t
}

/// Whether a file name mentions `json`.
pub fn is_json_name(name: &str) -> (r: bool)
    ensures
        r == contains_text(name@, "json"@),
{
    proof {
        reveal_strlit("json");
    }
    let n = name.unicode_len();
    if n < 4 {
        return false;
    }
    let mut i: usize = 0;
    while i <= n - 4
        invariant
            n == name@.len(),
            n >= 4,
            i <= n - 3,
            forall|j: int| 0 <= j < i ==> #[trigger] name@.subrange(j, j + 4) != "json"@,
        decreases n - i,
    {
        proof {
            reveal_strlit("json");
        }
        let c0 = name.get_char(i);
        let c1 = name.get_char(i + 1);
        let c2 = name.get_char(i + 2);
        let c3 = name.get_char(i + 3);
        let ghost w = name@.subrange(i as int, i as int + 4);
        assert(w[0] == c0 && w[1] == c1 && w[2] == c2 && w[3] == c3);
        if c0 == 'j' && c1 == 's' && c2 == 'o' && c3 == 'n' {
            assert(w =~= "json"@);
            return true;
        }
        i = i + 1;
    }
    false
}

/// The two serialisations a configuration file can be written in.
#[derive(Clone, Copy, Debug, PartialEq, Eq)]
pub enum ConfigFormat {
    Yaml,
    Json,
}

/// The format of a configuration file, told by its name.
pub fn format_of_filename(name: &str) -> (r: ConfigFormat)
    ensures
        r == (if contains_text(name@, "json"@) {
            ConfigFormat::Json
        } else {
            ConfigFormat::Yaml
        }),
{
    if is_json_name(name) {
        ConfigFormat::Json
    } else {
        ConfigFormat::Yaml
    }
}

/// What configuration discovery does next.
#[derive(Clone, Copy, Debug, PartialEq, Eq)]
pub enum DiscoveryStep {
    /// Check whether the candidate with this index is a regular file.
    Probe(usize),
    /// Read the candidate with this index.
    Found(usize),
    /// No candidate exists.
    NotFound,
}

/// The next step of configuration discovery, given for each candidate
/// checked so far, in order, whether it is a regular file that could be
/// opened. The first such candidate is the one read.
pub fn discovery_step(usable: &Vec<bool>) -> (r: DiscoveryStep)
    ensures
        match r {
            DiscoveryStep::Found(i) => i < usable@.len() && usable@[i as int] && forall|j: int|
                0 <= j < i ==> !usable@[j],
            DiscoveryStep::Probe(i) => i == usable@.len() && i < config_filenames_spec().len()
                && forall|j: int| 0 <= j < usable@.len() ==> !usable@[j],
            DiscoveryStep::NotFound => usable@.len() >= config_filenames_spec().len() && forall|
                j: int,
            |
                0 <= j < usable@.len() ==> !usable@[j],
        },
{
    let mut i: usize = 0;
    while i < usable.len()
        invariant
            i <= usable@.len(),
            forall|j: int| 0 <= j < i ==> !usable@[j],
        decreases usable@.len() - i,
    {
        if usable[i] {
            return DiscoveryStep::Found(i);
        }
        i = i + 1;
    }
    if usable.len() < 3 {
        DiscoveryStep::Probe(usable.len())
    } else {
        DiscoveryStep::NotFound
    }
}


#[verifier::external_type_specification]
#[verifier::external_body]
pub struct ExGlobSet(globset::GlobSet);

#[verifier::external_type_specification]
#[verifier::external_body]
pub struct ExGlobSetBuilder(globset::GlobSetBuilder);

#[verifier::external_type_specification]
#[verifier::external_body]
pub struct ExGlobError(globset::Error);

/// Whether a glob pattern is syntactically valid.
pub uninterp spec fn glob_accepts(pattern: Seq<char>) -> bool;

/// The patterns a glob-set builder holds, in the order they were added.
pub uninterp spec fn builder_patterns(b: globset::GlobSetBuilder) -> Seq<Seq<char>>;

/// Whether a sequence of valid patterns compiles into one matcher within the
/// matcher's size limits.
pub uninterp spec fn set_compiles(patterns: Seq<Seq<char>>) -> bool;

/// Relies on `globset::GlobSetBuilder::new`: a builder holding no pattern.
pub assume_specification[ globset::GlobSetBuilder::new ]() -> (r: globset::GlobSetBuilder)
    ensures
        builder_patterns(r) == Seq::<Seq<char>>::empty(),
;

/// Relies on `globset::GlobSetBuilder::build`: compiles the patterns held,
/// which always succeeds when there are none.
pub assume_specification[ globset::GlobSetBuilder::build ](
    b: &globset::GlobSetBuilder,
) -> (r: Result<globset::GlobSet, globset::Error>)
    ensures
        r is Ok <==> set_compiles(builder_patterns(*b)),
        builder_patterns(*b).len() == 0 ==> r is Ok,
;

/// Relies on `globset::Glob::new`, which parses a pattern and fails exactly
/// when its syntax is invalid, and `globset::GlobSetBuilder::add`, which
/// appends the parsed pattern to the builder.
#[verifier::external_body]
fn add_pattern(b: &mut globset::GlobSetBuilder, pattern: &str) -> (r: Result<(), globset::Error>)
    ensures
        r is Ok <==> glob_accepts(pattern@),
        r is Ok ==> builder_patterns(*final(b)) == builder_patterns(*old(b)).push(pattern@),
        r is Err ==> builder_patterns(*final(b)) == builder_patterns(*old(b)),
{
    let glob = globset::Glob::new(pattern)?;
    b.add(glob);
    Ok(())
}

/// Compiles watch patterns into one matcher. It succeeds exactly when every
/// pattern is a valid glob and the set compiles; the whole set is compiled or
/// nothing is, and no patterns give an empty matcher.
pub fn build_globset(patterns: &Vec<String>) -> (r: Result<globset::GlobSet, globset::Error>)
    ensures
        r is Ok <==> (forall|i: int|
            0 <= i < patterns@.len() ==> glob_accepts(#[trigger] patterns@[i]@)) && set_compiles(
            texts(patterns@),
        ),
        patterns@.len() == 0 ==> r is Ok,
{
    let mut builder = globset::GlobSetBuilder::new();
    let mut i: usize = 0;
    while i < patterns.len()
        invariant
            i <= patterns@.len(),
            forall|j: int| 0 <= j < i ==> glob_accepts(#[trigger] patterns@[j]@),
            builder_patterns(builder) == texts(patterns@).take(i as int),
        decreases patterns@.len() - i,
    {
        match add_pattern(&mut builder, patterns[i].as_str()) {
            Ok(()) => {},
            Err(e) => return Err(e),
        }
        assert(texts(patterns@).take(i + 1) =~= texts(patterns@).take(i as int).push(
            patterns@[i as int]@,
        ));
        i = i + 1;
    }
    assert(texts(patterns@).take(i as int) =~= texts(patterns@));
    builder.build()
}

} // verus!
