//! The build-invocation builder and the command lines it produces.
//!
//! [`Cmd`] accumulates the parameters of one configure-and-build run
//! through chained setters; nothing is validated until the run starts.
//! This module also holds the verified path and argument construction:
//! the preset-file path join, the stripping of the extended-length path
//! prefix from a canonicalized directory, and the exact argument
//! sequences of the configure and build phases.

use vstd::prelude::*;
use vstd::string::StrSliceExecFns;
use vstd::string::StringExecFns;

verus! {

/// The mathematical model of one cache-variable definition.
pub struct DefineView {
    pub name: Seq<char>,
    pub value: Seq<char>,
}

/// One name/value pair passed to the configure phase as a
/// cache-variable override.
pub(crate) struct Definition {
    pub(crate) name: String,
    pub(crate) value: String,
}

impl View for Definition {
    type V = DefineView;

    closed spec fn view(&self) -> DefineView {
        DefineView { name: self.name@, value: self.value@ }
    }
}

/// The mathematical model of a builder's accumulated state.
pub struct CmdView {
    pub args: Seq<Seq<char>>,
    pub path: Option<Seq<char>>,
    pub binary_path: Seq<char>,
    pub output_path: Seq<char>,
    pub preset: Option<Seq<char>>,
    pub defines: Seq<DefineView>,
}

/// The views of a sequence of owned strings.
pub open spec fn views_of(v: Seq<String>) -> Seq<Seq<char>> {
    Seq::new(v.len(), |i: int| v[i]@)
}

/// A builder for one configure-and-build invocation.
///
/// Defaults: the source directory is the current directory, the build
/// and output directories are both `"build"`, no preset and no defines.
/// [`Cmd::build`] consumes the builder and hands back the invocation's
/// state machine, so a builder cannot be run twice.
pub struct Cmd {
    pub(crate) args: Vec<String>,
    pub(crate) path: Option<String>,
    pub(crate) binary_path: String,
    pub(crate) output_path: String,
    pub(crate) preset: Option<String>,
    pub(crate) defines: Vec<Definition>,
}

impl View for Cmd {
    type V = CmdView;

    closed spec fn view(&self) -> CmdView {
        CmdView {
            args: views_of(self.args@),
            path: match self.path {
                Some(ref p) => Some(p@),
                None => None,
            },
            binary_path: self.binary_path@,
            output_path: self.output_path@,
            preset: match self.preset {
                Some(ref p) => Some(p@),
                None => None,
            },
            defines: self.defines@.map(|i: int, d: Definition| d@),
        }
    }
}

impl Cmd {
    /// Creates a builder with the default settings: no source path, no
    /// preset, no defines, no extra arguments, and `"build"` as both
    /// the build and the output directory.
    pub fn default() -> (r: Self)
        ensures
            r@ == (CmdView {
                args: Seq::empty(),
                path: None,
                binary_path: "build"@,
                output_path: "build"@,
                preset: None,
                defines: Seq::empty(),
            }),
    {
        let r = Cmd {
            args: Vec::new(),
            path: None,
            binary_path: String::from_str("build"),
            output_path: String::from_str("build"),
            preset: None,
            defines: Vec::new(),
        };
        proof {
            assert(r@.args =~= Seq::<Seq<char>>::empty());
            assert(r@.defines =~= Seq::<DefineView>::empty());
        }
        r
    }

    /// Appends one free-form argument, passed to both phases.
    pub fn add_arg(self, arg: &str) -> (r: Self)
        ensures
            r@ == (CmdView { args: self@.args.push(arg@), ..self@ }),
    {
        let mut args = self.args;
        args.push(arg.to_owned());
        let r = Cmd { args, ..self };
        proof {
            assert(r@.args =~= self@.args.push(arg@));
            assert(r@.defines =~= self@.defines);
        }
        r
    }

    /// Sets the source directory, the one holding the build script and,
    /// when a preset is used, the preset file.
    pub fn set_path(self, path: &str) -> (r: Self)
        ensures
            r@ == (CmdView { path: Some(path@), ..self@ }),
    {
        let r = Cmd { path: Some(path.to_owned()), ..self };
        proof {
            assert(r@.args =~= self@.args);
            assert(r@.defines =~= self@.defines);
        }
        r
    }

    /// Sets the build directory, where the configure phase generates
    /// the native build system; it is created before the phases run.
    pub fn set_binary_path(self, path: &str) -> (r: Self)
        ensures
            r@ == (CmdView { binary_path: path@, ..self@ }),
    {
        let r = Cmd { binary_path: path.to_owned(), ..self };
        proof {
            assert(r@.args =~= self@.args);
            assert(r@.defines =~= self@.defines);
        }
        r
    }

    /// Sets the output directory for built artifacts; all three derived
    /// output-directory variables point at it.
    pub fn set_output_path(self, path: &str) -> (r: Self)
        ensures
            r@ == (CmdView { output_path: path@, ..self@ }),
    {
        let r = Cmd { output_path: path.to_owned(), ..self };
        proof {
            assert(r@.args =~= self@.args);
            assert(r@.defines =~= self@.defines);
        }
        r
    }

    /// Names the configure preset to resolve from the preset file in
    /// the source directory; hidden presets count as absent.
    pub fn set_preset(self, preset: &str) -> (r: Self)
        ensures
            r@ == (CmdView { preset: Some(preset@), ..self@ }),
    {
        let r = Cmd { preset: Some(preset.to_owned()), ..self };
        proof {
            assert(r@.args =~= self@.args);
            assert(r@.defines =~= self@.defines);
        }
        r
    }

    /// Appends one cache-variable definition for the configure phase.
    pub fn add_define(self, define: &str, value: &str) -> (r: Self)
        ensures
            r@ == (CmdView {
                defines: self@.defines.push(DefineView { name: define@, value: value@ }),
                ..self@
            }),
    {
        let mut defines = self.defines;
        defines.push(Definition { name: define.to_owned(), value: value.to_owned() });
        let r = Cmd { defines, ..self };
        proof {
            assert(r@.args =~= self@.args);
            assert(r@.defines =~= self@.defines.push(DefineView { name: define@, value: value@ }));
        }
        r
    }

    /// Takes the builder apart into its accumulated state, each part
    /// tied to the builder's model: arguments, source path, build
    /// directory, output directory, preset name, defines.
    pub(crate) fn into_parts(self) -> (r: (
        Vec<String>,
        Option<String>,
        String,
        String,
        Option<String>,
        Vec<Definition>,
    ))
        ensures
            views_of(r.0@) == self@.args,
            (match r.1 {
                Some(p) => Some(p@),
                None => None::<Seq<char>>,
            }) == self@.path,
            r.2@ == self@.binary_path,
            r.3@ == self@.output_path,
            (match r.4 {
                Some(p) => Some(p@),
                None => None::<Seq<char>>,
            }) == self@.preset,
            r.5@.map(|i: int, d: Definition| d@) == self@.defines,
    {
        let Cmd { args, path, binary_path, output_path, preset, defines } = self;
        (args, path, binary_path, output_path, preset, defines)
    }
}

/// A canonicalized path with any extended-length prefix removed: when
/// the path starts with the four characters `\\?\`, they are dropped,
/// otherwise the path is unchanged.
pub open spec fn normalized(s: Seq<char>) -> Seq<char> {
    if s.len() >= 4 && s[0] == '\\' && s[1] == '\\' && s[2] == '?' && s[3] == '\\' {
        s.skip(4)
    } else {
        s
    }
}

/// Strips the platform's extended-length path prefix, `\\?\`, from a
/// canonicalized path, so the string is acceptable to native tools
/// that do not understand that prefix form.
pub fn normalize_path(path: &str) -> (r: String)
    ensures
        r@ == normalized(path@),
{
    let n = path.unicode_len();
    if n >= 4 && path.get_char(0) == '\\' && path.get_char(1) == '\\' && path.get_char(2) == '?'
        && path.get_char(3) == '\\' {
        let rest = path.substring_char(4, n);
        proof {
            assert(rest@ =~= path@.skip(4));
        }
        rest.to_owned()
    } else {
        path.to_owned()
    }
}

/// Whether `s` ends with `suffix`.
pub open spec fn ends_with_seq(s: Seq<char>, suffix: Seq<char>) -> bool {
    s.len() >= suffix.len() && s.skip(s.len() - suffix.len()) == suffix
}

/// The path without its trailing separators, which path components
/// ignore.
pub open spec fn trim_trailing_separators(p: Seq<char>) -> Seq<char>
    decreases p.len(),
{
    if p.len() > 0 && p.last() == '/' {
        trim_trailing_separators(p.drop_last())
    } else {
        p
    }
}

/// Whether the path's final component already names the preset file;
/// trailing separators do not count as a component.
pub open spec fn names_preset_file(p: Seq<char>) -> bool {
    let q = trim_trailing_separators(p);
    q == "CMakePresets.json"@ || ends_with_seq(q, "/"@ + "CMakePresets.json"@)
}

/// The path of the preset file for a source path: the path itself when
/// its final component is already `CMakePresets.json`, otherwise the
/// file joined under the path.
pub open spec fn preset_file_path_spec(p: Seq<char>) -> Seq<char> {
    if names_preset_file(p) {
        p
    } else if p.len() == 0 {
        "CMakePresets.json"@
    } else if p[p.len() - 1] == '/' {
        p + "CMakePresets.json"@
    } else {
        p + "/"@ + "CMakePresets.json"@
    }
}

/// Whether `s` ends with `suffix`, decided character by character.
fn str_ends_with(s: &str, suffix: &str) -> (r: bool)
    ensures
        r == ends_with_seq(s@, suffix@),
{
    let n = s.unicode_len();
    let m = suffix.unicode_len();
    if n < m {
        return false;
    }
    let mut i: usize = 0;
    while i < m
        invariant
            m == suffix@.len(),
            n == s@.len(),
            m <= n,
            i <= m,
            forall|j: int| 0 <= j < i ==> s@[n - m + j] == suffix@[j],
        decreases m - i,
    {
        if s.get_char(n - m + i) != suffix.get_char(i) {
            return false;
        }
        i = i + 1;
    }
    proof {
        assert(s@.skip(n - m) =~= suffix@);
    }
    true
}

/// Appends the preset file name to a source path unless the path's
/// final component already names it.
pub fn preset_file_path(path: &str) -> (r: String)
    ensures
        r@ == preset_file_path_spec(path@),
{
    let file = "CMakePresets.json";
    let n = path.unicode_len();
    proof {
        assert(path@.take(n as int) =~= path@);
    }
    let mut t: usize = n;
    while t > 0 && path.get_char(t - 1) == '/'
        invariant
            t <= n,
            n == path@.len(),
            trim_trailing_separators(path@) == trim_trailing_separators(path@.take(t as int)),
        decreases t,
    {
        proof {
            assert(path@.take(t as int).drop_last() =~= path@.take(t - 1));
        }
        t = t - 1;
    }
    let trimmed = path.substring_char(0, t);
    proof {
        assert(trimmed@ =~= path@.take(t as int));
        assert(trim_trailing_separators(path@) == trimmed@);
    }
    let k = t;
    let m = file.unicode_len();
    let already = str_ends_with(trimmed, file) && (k == m || trimmed.get_char(k - m - 1) == '/');
    proof {
        reveal_strlit("/");
        if already {
            if k == m {
                assert(trimmed@.skip(0) =~= trimmed@);
            } else {
                assert(trimmed@.skip(k - m - 1) =~= "/"@ + file@);
            }
        } else if names_preset_file(path@) {
            if trimmed@ == file@ {
                assert(trimmed@.skip(0) =~= trimmed@);
            } else {
                let suffix = "/"@ + file@;
                assert(trimmed@.skip(k - m - 1) == suffix);
                assert(trimmed@.skip(k - m) =~= suffix.skip(1));
                assert(suffix.skip(1) =~= file@);
                assert(trimmed@[k - m - 1] == suffix[0]);
            }
            assert(false);
        }
    }
    if already {
        path.to_owned()
    } else if n == 0 {
        String::from_str(file)
    } else if path.get_char(n - 1) == '/' {
        let mut r = path.to_owned();
        r.append(file);
        r
    } else {
        let mut r = path.to_owned();
        r.append("/");
        r.append(file);
        r
    }
}

/// The flag that selects a resolved preset for the configure phase.
pub open spec fn preset_flag_spec(name: Seq<char>) -> Seq<char> {
    "--preset="@ + name
}

/// Builds the preset flag for a resolved preset name.
pub(crate) fn make_preset_flag(name: &str) -> (r: String)
    ensures
        r@ == preset_flag_spec(name@),
{
    let mut r = String::from_str("--preset=");
    r.append(name);
    r
}

/// The flag of one cache-variable definition.
pub open spec fn define_flag_spec(name: Seq<char>, value: Seq<char>) -> Seq<char> {
    "-D"@ + name + "="@ + value
}

/// Builds the flag of one cache-variable definition.
pub(crate) fn make_define_flag(name: &str, value: &str) -> (r: String)
    ensures
        r@ == define_flag_spec(name@, value@),
{
    let mut r = String::from_str("-D");
    r.append(name);
    r.append("=");
    r.append(value);
    r
}

/// The three derived output-directory bindings; all of them point at
/// the same normalized output directory, so every produced artifact
/// kind lands in one place.
pub open spec fn output_dir_flags_spec(dir: Seq<char>) -> Seq<Seq<char>> {
    seq![
        "-DCMAKE_RUNTIME_OUTPUT_DIRECTORY="@ + dir,
        "-DCMAKE_LIBRARY_OUTPUT_DIRECTORY="@ + dir,
        "-DCMAKE_ARCHIVE_OUTPUT_DIRECTORY="@ + dir,
    ]
}

/// The full argument sequence of the configure phase: source and build
/// directories, the optional preset flag, the user's defines, the three
/// derived output-directory bindings, and the free-form arguments, in
/// that order.
pub open spec fn configure_args_spec(
    source: Seq<char>,
    binary: Seq<char>,
    preset_flag: Option<Seq<char>>,
    defines: Seq<DefineView>,
    out_dir: Seq<char>,
    extra: Seq<Seq<char>>,
) -> Seq<Seq<char>> {
    seq!["-S"@, source, "-B"@, binary] + (match preset_flag {
        Some(f) => seq![f],
        None => Seq::empty(),
    }) + defines.map(|i: int, d: DefineView| define_flag_spec(d.name, d.value))
        + output_dir_flags_spec(out_dir) + extra
}

/// The full argument sequence of the build phase: the build directory
/// and the free-form arguments.
pub open spec fn build_args_spec(binary: Seq<char>, extra: Seq<Seq<char>>) -> Seq<Seq<char>> {
    seq!["--build"@, binary] + extra
}

/// Builds the configure phase's argument sequence.
pub(crate) fn configure_args(
    source: &str,
    binary: &str,
    preset_flag: &Option<String>,
    defines: &Vec<Definition>,
    out_dir: &str,
    extra: &Vec<String>,
) -> (r: Vec<String>)
    ensures
        views_of(r@) == configure_args_spec(
            source@,
            binary@,
            match preset_flag {
                Some(f) => Some(f@),
                None => None,
            },
            defines@.map(|i: int, d: Definition| d@),
            out_dir@,
            views_of(extra@),
        ),
{
    let ghost goal = configure_args_spec(
        source@,
        binary@,
        match preset_flag {
            Some(f) => Some(f@),
            None => None,
        },
        defines@.map(|i: int, d: Definition| d@),
        out_dir@,
        views_of(extra@),
    );
    let mut r: Vec<String> = Vec::new();
    r.push(String::from_str("-S"));
    r.push(source.to_owned());
    r.push(String::from_str("-B"));
    r.push(binary.to_owned());
    match preset_flag {
        Some(f) => r.push(f.clone()),
        None => {},
    }
    let ghost head = views_of(r@);
    proof {
        assert(head =~= seq!["-S"@, source@, "-B"@, binary@] + (match preset_flag {
            Some(f) => seq![f@],
            None => Seq::<Seq<char>>::empty(),
        }));
    }
    let n = defines.len();
    let mut i: usize = 0;
    while i < n
        invariant
            n == defines@.len(),
            i <= n,
            views_of(r@) =~= head + defines@.take(i as int).map(
                |k: int, d: Definition| define_flag_spec(d@.name, d@.value),
            ),
        decreases n - i,
    {
        let d = &defines[i];
        let ghost before = r@;
        r.push(make_define_flag(d.name.as_str(), d.value.as_str()));
        proof {
            assert(views_of(r@) =~= views_of(before).push(r@[before.len() as int]@));
            assert(defines@.take(i + 1).map(|k: int, d: Definition| define_flag_spec(d@.name, d@.value))
                =~= defines@.take(i as int).map(
                |k: int, d: Definition| define_flag_spec(d@.name, d@.value),
            ).push(define_flag_spec(defines@[i as int]@.name, defines@[i as int]@.value)));
            assert(views_of(r@) =~= head + defines@.take(i + 1).map(
                |k: int, d: Definition| define_flag_spec(d@.name, d@.value),
            ));
        }
        i = i + 1;
    }
    proof {
        assert(defines@.take(n as int) =~= defines@);
    }
    let ghost with_defines = views_of(r@);
    let mut rt = String::from_str("-DCMAKE_RUNTIME_OUTPUT_DIRECTORY=");
    rt.append(out_dir);
    let ghost b0 = r@;
    r.push(rt);
    proof {
        assert(views_of(r@) =~= views_of(b0).push(r@[b0.len() as int]@));
    }
    let mut lib = String::from_str("-DCMAKE_LIBRARY_OUTPUT_DIRECTORY=");
    lib.append(out_dir);
    let ghost b1 = r@;
    r.push(lib);
    proof {
        assert(views_of(r@) =~= views_of(b1).push(r@[b1.len() as int]@));
    }
    let mut ar = String::from_str("-DCMAKE_ARCHIVE_OUTPUT_DIRECTORY=");
    ar.append(out_dir);
    let ghost b2 = r@;
    r.push(ar);
    proof {
        assert(views_of(r@) =~= views_of(b2).push(r@[b2.len() as int]@));
        assert(views_of(r@) =~= with_defines + output_dir_flags_spec(out_dir@));
    }
    let ghost mid = views_of(r@);
    let m = extra.len();
    let mut j: usize = 0;
    while j < m
        invariant
            m == extra@.len(),
            j <= m,
            views_of(r@) =~= mid + views_of(extra@.take(j as int)),
        decreases m - j,
    {
        let ghost before = r@;
        r.push(extra[j].clone());
        proof {
            assert(views_of(r@) =~= views_of(before).push(r@[before.len() as int]@));
            assert(views_of(extra@.take(j + 1)) =~= views_of(extra@.take(j as int)).push(
                extra@[j as int]@,
            ));
            assert(views_of(r@) =~= mid + views_of(extra@.take(j + 1)));
        }
        j = j + 1;
    }
    proof {
        assert(extra@.take(m as int) =~= extra@);
        assert(views_of(extra@.take(m as int)) =~= views_of(extra@));
        assert(defines@.map(|i: int, d: Definition| d@).map(
            |i: int, d: DefineView| define_flag_spec(d.name, d.value),
        ) =~= defines@.map(|k: int, d: Definition| define_flag_spec(d@.name, d@.value)));
        assert(views_of(r@) =~= goal);
    }
    r
}

/// Builds the build phase's argument sequence.
pub(crate) fn build_args(binary: &str, extra: &Vec<String>) -> (r: Vec<String>)
    ensures
        views_of(r@) == build_args_spec(binary@, views_of(extra@)),
{
    let mut r: Vec<String> = Vec::new();
    r.push(String::from_str("--build"));
    r.push(binary.to_owned());
    let ghost head = views_of(r@);
    let m = extra.len();
    let mut j: usize = 0;
    while j < m
        invariant
            m == extra@.len(),
            j <= m,
            views_of(r@) =~= head + views_of(extra@.take(j as int)),
        decreases m - j,
    {
        let ghost before = r@;
        r.push(extra[j].clone());
        proof {
            assert(views_of(r@) =~= views_of(before).push(r@[before.len() as int]@));
            assert(views_of(extra@.take(j + 1)) =~= views_of(extra@.take(j as int)).push(
                extra@[j as int]@,
            ));
            assert(views_of(r@) =~= head + views_of(extra@.take(j + 1)));
        }
        j = j + 1;
    }
    proof {
        assert(extra@.take(m as int) =~= extra@);
        assert(views_of(extra@.take(m as int)) =~= views_of(extra@));
        assert(views_of(r@) =~= build_args_spec(binary@, views_of(extra@)));
    }
    r
}

} // verus!
