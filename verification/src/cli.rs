use vstd::prelude::*;

use std::path::Path;

verus! {

/// The kind of file that the compiler writes.
#[derive(PartialEq, Eq, Debug, Clone, Copy)]
pub enum FormatOption {
    Static,
    PIC,
    Shared,
    Bitcode,
    IR,
}

// => Set the default output format here:
pub const DEFAULT_FORMAT: FormatOption = FormatOption::Static;

pub const DEFAULT_OUTPUT_NAME: &'static str = "out";

/// The options of one run of the compiler, as the command line gives them.
/// `encoding` holds the name of the encoding that the `--encoding` label
/// resolved to.
#[derive(Debug)]
pub struct CompileParameters {
    pub output: Option<String>,
    pub output_ir: bool,
    pub output_shared_obj: bool,
    pub output_pic_obj: bool,
    pub output_obj_code: bool,
    pub output_bit_code: bool,
    pub skip_linking: bool,
    pub target: Option<String>,
    pub encoding: Option<String>,
    pub input: Vec<String>,
    pub library_pathes: Vec<String>,
    pub libraries: Vec<String>,
    pub sysroot: Option<String>,
}

/// The part of `s` after its last `/` (all of `s` where it has none).
pub open spec fn last_component(s: Seq<char>) -> Seq<char>
    decreases s.len(),
{
    if s.len() == 0 {
        s
    } else if s.last() == '/' {
        seq![]
    } else {
        last_component(s.drop_last()).push(s.last())
    }
}

/// The part of `s` before its last `/` (nothing where it has none).
pub open spec fn front_part(s: Seq<char>) -> Seq<char>
    decreases s.len(),
{
    if s.len() == 0 {
        s
    } else if s.last() == '/' {
        s.drop_last()
    } else {
        front_part(s.drop_last())
    }
}

/// The part before the last `/` is shorter than the path.
pub proof fn lemma_front_part_shorter(s: Seq<char>)
    requires
        s.len() > 0,
    ensures
        front_part(s).len() < s.len(),
    decreases s.len(),
{
    if s.last() != '/' {
        if s.len() > 1 {
            lemma_front_part_shorter(s.drop_last());
        } else {
            assert(front_part(s.drop_last()).len() == 0);
        }
    }
}

/// A path that every platform reads with `/` as its only separator and no
/// prefix: no `\`, no `:`, and no `//` at its start.
pub open spec fn is_portable_path(s: Seq<char>) -> bool {
    &&& forall|i: int| 0 <= i < s.len() ==> #[trigger] s[i] != '\\' && s[i] != ':'
    &&& !(s.len() >= 2 && s[0] == '/' && s[1] == '/')
}

/// The file name of a path written with `/`, as std's `Path::file_name`
/// documents it: its last component that is neither empty nor `.`; `None`
/// where that component is `..` or there is none (an empty path, `/`, `.`).
pub open spec fn path_file_name(s: Seq<char>) -> Option<Seq<char>>
    decreases s.len(),
{
    if s.len() == 0 {
        None
    } else {
        let c = last_component(s);
        if c.len() == 0 || c == seq!['.'] {
            proof {
                lemma_front_part_shorter(s);
            }
            path_file_name(front_part(s))
        } else if c == seq!['.', '.'] {
            None
        } else {
            Some(c)
        }
    }
}

/// The stem of a path written with `/`: the stem of its file name.
pub open spec fn path_stem(s: Seq<char>) -> Option<Seq<char>> {
    match path_file_name(s) {
        Some(c) => Some(file_name_stem(c)),
        None => None,
    }
}

/// Whether `s` has a `.` at a position other than its first.
pub open spec fn has_inner_dot(s: Seq<char>) -> bool {
    exists|i: int| 0 < i < s.len() && s[i] == '.'
}

/// The part of `s` before its last `.`.
pub open spec fn before_last_dot(s: Seq<char>) -> Seq<char>
    decreases s.len(),
{
    if s.len() == 0 {
        s
    } else if s.last() == '.' {
        s.drop_last()
    } else {
        before_last_dot(s.drop_last())
    }
}

/// The stem of a file name as std documents it: the whole name where it has
/// no `.` but possibly a leading one, else the part before its last `.`.
pub open spec fn file_name_stem(name: Seq<char>) -> Seq<char> {
    if has_inner_dot(name) {
        before_last_dot(name)
    } else {
        name
    }
}

/// The part before the last `.` of a text that holds a `.` ends where that
/// `.` stands, and no `.` follows it.
proof fn lemma_before_last_dot(s: Seq<char>, i: int)
    requires
        0 <= i < s.len(),
        s[i] == '.',
    ensures
        before_last_dot(s).len() < s.len(),
        s[before_last_dot(s).len() as int] == '.',
        s.subrange(0, before_last_dot(s).len() as int) == before_last_dot(s),
        forall|j: int| before_last_dot(s).len() < j < s.len() ==> s[j] != '.',
    decreases s.len(),
{
    if s.last() == '.' {
        assert(s.subrange(0, s.len() - 1) =~= s.drop_last());
    } else {
        let d = s.drop_last();
        assert(i < s.len() - 1);
        assert(d[i] == '.');
        lemma_before_last_dot(d, i);
        let k = before_last_dot(d).len() as int;
        assert(d.subrange(0, k) =~= s.subrange(0, k));
        assert forall|j: int| k < j < s.len() implies s[j] != '.' by {
            if j < s.len() - 1 {
                assert(s[j] == d[j]);
            }
        }
    }
}

/// A file name with a `.` after its first character is its stem, a `.` and
/// an extension that holds no `.`; any other name is its own stem.
pub proof fn lemma_stem_and_extension(name: Seq<char>)
    ensures
        !has_inner_dot(name) ==> file_name_stem(name) == name,
        has_inner_dot(name) ==> {
            let k = file_name_stem(name).len() as int;
            &&& 0 < k < name.len()
            &&& name[k] == '.'
            &&& name.subrange(0, k) == file_name_stem(name)
            &&& forall|j: int| k < j < name.len() ==> name[j] != '.'
        },
{
    if has_inner_dot(name) {
        let i = choose|i: int| 0 < i < name.len() && name[i] == '.';
        lemma_before_last_dot(name, i);
        let k = before_last_dot(name).len() as int;
        if k == 0 {
            assert(i > k);
            assert(name[i] != '.');
        }
    }
}

/// std's `Path::file_stem` on a path given as text, with `OsStr::to_str`.
/// On a portable path (see `is_portable_path`) it is the stem of the path's
/// file name (see `path_stem`), as std documents both. A path with `\\`,
/// `:` or a leading `//` is read differently on some platforms (as a
/// separator, a drive or a network prefix), so nothing is said of it.
#[verifier::external_body]
fn file_stem(path: &str) -> (r: Option<String>)
    ensures
        is_portable_path(path@) ==> match r {
            Some(s) => path_stem(path@) == Some(s@),
            None => path_stem(path@) is None,
        },
{
    match Path::new(path).file_stem() {
        Some(stem) => match stem.to_str() {
            Some(text) => Some(text.to_string()),
            None => None,
        },
        None => None,
    }
}

impl FormatOption {
    /// The ending of the output file's name for the format.
    pub open spec fn file_ending(self, skip_linking: bool) -> Seq<char> {
        match self {
            FormatOption::Bitcode => ".bc"@,
            FormatOption::Static => if skip_linking {
                ".o"@
            } else {
                ""@
            },
            FormatOption::Shared | FormatOption::PIC => ".so"@,
            FormatOption::IR => ".ir"@,
        }
    }
}

impl CompileParameters {
    /// The format that the flags select, the first of bitcode, IR, PIC,
    /// shared and static that is set.
    pub open spec fn selected_format(self) -> Option<FormatOption> {
        if self.output_bit_code {
            Some(FormatOption::Bitcode)
        } else if self.output_ir {
            Some(FormatOption::IR)
        } else if self.output_pic_obj {
            Some(FormatOption::PIC)
        } else if self.output_shared_obj {
            Some(FormatOption::Shared)
        } else if self.output_obj_code {
            Some(FormatOption::Static)
        } else {
            None
        }
    }

    /// The selected format, or the default one where no format flag is set.
    pub open spec fn format_or_default(self) -> FormatOption {
        match self.selected_format() {
            Some(f) => f,
            None => DEFAULT_FORMAT,
        }
    }

    /// The name of the output file, given the stem of the first input file:
    /// the name given with `--output`, else the stem (or `out`) followed by
    /// the ending of the format.
    pub open spec fn output_name_for(self, stem: Option<Seq<char>>) -> Seq<char> {
        match self.output {
            Some(n) => n@,
            None => {
                let base = match stem {
                    Some(s) => s,
                    None => DEFAULT_OUTPUT_NAME@,
                };
                base + self.format_or_default().file_ending(self.skip_linking)
            },
        }
    }

    /// The stem of the first input file, where it does not depend on the
    /// platform: `Some(None)` where there is no input file, `Some(stem)` (see
    /// `path_stem`) where the first one is a portable path; `None` where it
    /// holds a `\\`, a `:` or a leading `//`.
    pub open spec fn known_input_stem(self) -> Option<Option<Seq<char>>> {
        if self.input@.len() == 0 {
            Some(None)
        } else if is_portable_path(self.input@[0]@) {
            Some(path_stem(self.input@[0]@))
        } else {
            None
        }
    }

    // convert the scattered bools from structopt into an enum
    pub fn output_format(&self) -> (r: Option<FormatOption>)
        ensures
            r == self.selected_format(),
    {
        if self.output_bit_code {
            Some(FormatOption::Bitcode)
        } else if self.output_ir {
            Some(FormatOption::IR)
        } else if self.output_pic_obj {
            Some(FormatOption::PIC)
        } else if self.output_shared_obj {
            Some(FormatOption::Shared)
        } else if self.output_obj_code {
            Some(FormatOption::Static)
        } else {
            None
        }
    }

    /// return the selected output format, or the default if none.
    pub fn output_format_or_default(&self) -> (r: FormatOption)
        ensures
            r == self.format_or_default(),
    {
        // structop makes sure only one or zero format flags are
        // selected. So if none are selected, the default is chosen
        match self.output_format() {
            Some(f) => f,
            None => DEFAULT_FORMAT,
        }
    }

    /// The output name for the given stem of the first input file (see
    /// `output_name_for`).
    pub fn output_name_with_stem(&self, stem: Option<String>) -> (r: String)
        ensures
            r@ == self.output_name_for(
                match stem {
                    Some(s) => Some(s@),
                    None => None,
                },
            ),
    {
        let out_format = self.output_format_or_default();
        if let Some(n) = &self.output {
            n.clone()
        } else {
            proof {
                reveal_strlit(".bc");
                reveal_strlit(".o");
                reveal_strlit("");
                reveal_strlit(".so");
                reveal_strlit(".ir");
            }
            let ending = match out_format {
                FormatOption::Bitcode => ".bc",
                FormatOption::Static => if self.skip_linking {
                    ".o"
                } else {
                    ""
                },
                FormatOption::Shared | FormatOption::PIC => ".so",
                FormatOption::IR => ".ir",
            };
            let basename = match stem {
                Some(s) => s,
                None => String::from_str(DEFAULT_OUTPUT_NAME),
            };
            basename.concat(ending)
        }
    }

    /// return the output filename with the correct ending
    pub fn output_name(&self) -> (r: Option<String>)
        ensures
            r matches Some(n) && match self.known_input_stem() {
                Some(stem) => n@ == self.output_name_for(stem),
                None => exists|stem: Option<Seq<char>>| n@ == #[trigger] self.output_name_for(stem),
            },
    {
        let stem = if self.input.len() > 0 {
            file_stem(self.input[0].as_str())
        } else {
            None
        };
        Some(self.output_name_with_stem(stem))
    }
}

/// The format in effect: bitcode, IR, PIC or shared where one of these flags
/// is set (in that order of precedence), static otherwise, whether `--static`
/// was given or no format flag at all.
pub proof fn lemma_format_in_effect(p: CompileParameters)
    ensures
        p.output_bit_code ==> p.format_or_default() == FormatOption::Bitcode,
        !p.output_bit_code && p.output_ir ==> p.format_or_default() == FormatOption::IR,
        !p.output_bit_code && !p.output_ir && p.output_pic_obj ==> p.format_or_default()
            == FormatOption::PIC,
        !p.output_bit_code && !p.output_ir && !p.output_pic_obj && p.output_shared_obj
            ==> p.format_or_default() == FormatOption::Shared,
        !p.output_bit_code && !p.output_ir && !p.output_pic_obj && !p.output_shared_obj
            ==> p.format_or_default() == FormatOption::Static,
        !p.output_bit_code && !p.output_ir && !p.output_pic_obj && !p.output_shared_obj
            && !p.output_obj_code ==> p.selected_format() is None,
{
}

/// The name of the output file: the one given with `--output`; else the stem
/// of the first input (or `out`) followed by the ending of the format in
/// effect: `.bc` for bitcode, `.ir` for IR, `.so` for PIC and shared
/// objects, and for a static object (chosen by `--static` or by default)
/// `.o` where linking is skipped (`-c`) and nothing otherwise.
pub proof fn lemma_output_name_ending(p: CompileParameters, stem: Option<Seq<char>>)
    ensures
        p.output matches Some(n) ==> p.output_name_for(stem) == n@,
        p.output is None ==> p.output_name_for(stem) == (match stem {
            Some(s) => s,
            None => seq!['o', 'u', 't'],
        }) + (if p.output_bit_code {
            seq!['.', 'b', 'c']
        } else if p.output_ir {
            seq!['.', 'i', 'r']
        } else if p.output_pic_obj || p.output_shared_obj {
            seq!['.', 's', 'o']
        } else if p.skip_linking {
            seq!['.', 'o']
        } else {
            Seq::<char>::empty()
        }),
{
    reveal_strlit("out");
    reveal_strlit(".bc");
    reveal_strlit(".ir");
    reveal_strlit(".so");
    reveal_strlit(".o");
    reveal_strlit("");
    assert(DEFAULT_OUTPUT_NAME@ =~= seq!['o', 'u', 't']);
}

} // verus!
