//! Execute Nix commands using a builder-pattern abstraction.
//!
//! A [`CallOpts`] names an input (an inline Nix expression or a Nix file),
//! an optional attribute to select and named string arguments, and renders
//! from them the exact argument vector of an evaluator invocation.  The
//! caller runs the process and hands the observed [`ProcessOutcome`] back;
//! the functions here turn it into a decoded value or a list of store
//! paths, or into the [`BuildError`] the outcome calls for.

use vstd::prelude::*;

use crate::error::{string_views, BuildError, ExitStatus, NixCommand, NixCommandV};
use crate::lines::{line_views, spec_lines, split_lines};
use crate::trusted::{json_decode, vec1_from_vec, vec1_into_vec, vec1_store_paths};

verus! {

/// A store path (generated by `nix-store --realize` from a .drv file),
/// held as the bytes the evaluator printed, so that no platform-native
/// path is lost to a lossy decode.
#[derive(Hash, PartialEq, Eq, Clone, Debug)]
pub struct StorePath(Vec<u8>);

impl View for StorePath {
    type V = Seq<u8>;

    closed spec fn view(&self) -> Seq<u8> {
        self.0@
    }
}

impl StorePath {
    /// The underlying path, as bytes.
    pub fn as_path(&self) -> (r: &Vec<u8>)
        ensures
            r@ == self@,
    {
        &self.0
    }
}

impl From<Vec<u8>> for StorePath {
    fn from(bytes: Vec<u8>) -> (r: StorePath) {
        StorePath(bytes)
    }
}

impl vstd::std_specs::convert::FromSpecImpl<Vec<u8>> for StorePath {
    open spec fn obeys_from_spec() -> bool {
        true
    }

    closed spec fn from_spec(bytes: Vec<u8>) -> StorePath {
        StorePath(bytes)
    }
}

/// Which input to give nix.
#[derive(Clone)]
enum Input<'a> {
    /// A nix expression string.
    Expression(&'a str),
    /// The path to a nix file.
    File(&'a str),
}

/// The mathematical value of an input.
pub enum InputV {
    Expression(Seq<char>),
    File(Seq<char>),
}

/// The sequence of views of a vector of named string arguments.
pub open spec fn argstr_views(v: Seq<(String, String)>) -> Seq<(Seq<char>, Seq<char>)> {
    v.map_values(|p: (String, String)| (p.0@, p.1@))
}

/// Execute Nix commands using a builder-pattern abstraction.
#[derive(Clone)]
pub struct CallOpts<'a> {
    input: Input<'a>,
    attribute: Option<String>,
    argstrs: Vec<(String, String)>,
}

/// The mathematical value of a [`CallOpts`]: the input, the attribute if
/// one is set, and the named arguments as a sequence of pairs whose order
/// is the insertion order of their keys.
pub struct CallOptsV {
    pub input: InputV,
    pub attribute: Option<Seq<char>>,
    pub argstrs: Seq<(Seq<char>, Seq<char>)>,
}

impl View for CallOpts<'_> {
    type V = CallOptsV;

    closed spec fn view(&self) -> CallOptsV {
        CallOptsV {
            input: match self.input {
                Input::Expression(e) => InputV::Expression(e@),
                Input::File(p) => InputV::File(p@),
            },
            attribute: match self.attribute {
                Some(a) => Some(a@),
                None => None,
            },
            argstrs: argstr_views(self.argstrs@),
        }
    }
}

/// Whether some pair of the argument map carries the key `k`.
pub open spec fn spec_has_key(m: Seq<(Seq<char>, Seq<char>)>, k: Seq<char>) -> bool {
    exists|i: int| 0 <= i < m.len() && m[i].0 == k
}

/// The argument map after setting `k` to `v`: when `k` is already bound
/// its value is overwritten in place, otherwise the pair is appended, so
/// the order of distinct keys is their insertion order.
pub open spec fn spec_set_argstr(
    m: Seq<(Seq<char>, Seq<char>)>,
    k: Seq<char>,
    v: Seq<char>,
) -> Seq<(Seq<char>, Seq<char>)> {
    if spec_has_key(m, k) {
        m.map_values(
            |p: (Seq<char>, Seq<char>)|
                if p.0 == k {
                    (k, v)
                } else {
                    p
                },
        )
    } else {
        m.push((k, v))
    }
}

/// The keys of an argument map, in order.
pub open spec fn spec_keys(m: Seq<(Seq<char>, Seq<char>)>) -> Seq<Seq<char>> {
    m.map_values(|p: (Seq<char>, Seq<char>)| p.0)
}

/// Law: setting the same key twice is the same as setting it once with
/// the later value — the earlier value is overwritten.
pub proof fn lemma_set_argstr_overwrites(
    m: Seq<(Seq<char>, Seq<char>)>,
    k: Seq<char>,
    v1: Seq<char>,
    v2: Seq<char>,
)
    ensures
        spec_set_argstr(spec_set_argstr(m, k, v1), k, v2) == spec_set_argstr(m, k, v2),
{
    let m1 = spec_set_argstr(m, k, v1);
    if spec_has_key(m, k) {
        let i = choose|i: int| 0 <= i < m.len() && m[i].0 == k;
        assert(m1[i].0 == k);
        assert(spec_has_key(m1, k));
        assert forall|j: int| 0 <= j < m.len() implies #[trigger] spec_set_argstr(m1, k, v2)[j]
            == spec_set_argstr(m, k, v2)[j] by {
            assert(m1[j] == (if m[j].0 == k {
                (k, v1)
            } else {
                m[j]
            }));
        }
        assert(spec_set_argstr(m1, k, v2) =~= spec_set_argstr(m, k, v2));
    } else {
        assert(m1 == m.push((k, v1)));
        assert(m1[m.len() as int].0 == k);
        assert(spec_has_key(m1, k));
        assert forall|j: int| 0 <= j < m1.len() implies #[trigger] spec_set_argstr(m1, k, v2)[j]
            == spec_set_argstr(m, k, v2)[j] by {
            if j < m.len() {
                assert(!(exists|i: int| 0 <= i < m.len() && m[i].0 == k));
                assert(m1[j] == m[j]);
                assert(m[j].0 != k);
            } else {
                assert(m1[j] == (k, v1));
            }
        }
        assert(spec_set_argstr(m1, k, v2) =~= spec_set_argstr(m, k, v2));
    }
}

/// Law: the order of distinct keys is their insertion order — setting a
/// key that is already bound keeps the key sequence unchanged, and
/// setting a fresh key appends exactly that key at the end.
pub proof fn lemma_set_argstr_keys(m: Seq<(Seq<char>, Seq<char>)>, k: Seq<char>, v: Seq<char>)
    ensures
        spec_has_key(m, k) ==> spec_keys(spec_set_argstr(m, k, v)) == spec_keys(m),
        !spec_has_key(m, k) ==> spec_keys(spec_set_argstr(m, k, v)) == spec_keys(m).push(k),
{
    let s = spec_set_argstr(m, k, v);
    if spec_has_key(m, k) {
        assert forall|j: int| 0 <= j < m.len() implies #[trigger] spec_keys(s)[j] == spec_keys(
            m,
        )[j] by {
            assert(s[j] == (if m[j].0 == k {
                (k, v)
            } else {
                m[j]
            }));
            assert(spec_keys(m)[j] == m[j].0);
        }
        assert(spec_keys(s) =~= spec_keys(m));
    } else {
        assert forall|j: int| 0 <= j < m.len() + 1 implies #[trigger] spec_keys(s)[j] == spec_keys(
            m,
        ).push(k)[j] by {
            if j < m.len() {
                assert(s[j] == m[j]);
                assert(spec_keys(m)[j] == m[j].0);
            } else {
                assert(s[j] == (k, v));
            }
        }
        assert(spec_keys(s) =~= spec_keys(m).push(k));
    }
}

impl<'a> CallOpts<'a> {
    /// Create a CallOpts with the Nix expression `expr`.
    pub fn expression(expr: &'a str) -> (r: CallOpts<'a>)
        ensures
            r@.input == InputV::Expression(expr@),
            r@.attribute is None,
            r@.argstrs == Seq::<(Seq<char>, Seq<char>)>::empty(),
    {
        let r = CallOpts { input: Input::Expression(expr), attribute: None, argstrs: Vec::new() };
        proof {
            assert(r@.argstrs =~= Seq::<(Seq<char>, Seq<char>)>::empty());
        }
        r
    }

    /// Create a CallOpts with the Nix file `nix_file`.
    pub fn file(nix_file: &'a str) -> (r: CallOpts<'a>)
        ensures
            r@.input == InputV::File(nix_file@),
            r@.attribute is None,
            r@.argstrs == Seq::<(Seq<char>, Seq<char>)>::empty(),
    {
        let r = CallOpts { input: Input::File(nix_file), attribute: None, argstrs: Vec::new() };
        proof {
            assert(r@.argstrs =~= Seq::<(Seq<char>, Seq<char>)>::empty());
        }
        r
    }

    /// Evaluate a sub attribute of the expression.  Only one is supported:
    /// calling attribute() again overwrites the previous attribute, since
    /// the evaluator, given several selectors, would concatenate their
    /// outputs into one undecodable stream.
    pub fn attribute(&mut self, attr: &str)
        ensures
            final(self)@.input == old(self)@.input,
            final(self)@.attribute == Some(attr@),
            final(self)@.argstrs == old(self)@.argstrs,
    {
        self.attribute = Some(attr.to_owned());
    }

    /// Specify an argument to the expression, where the argument's value
    /// is to be interpreted as a string.  Setting the same name again
    /// overwrites the earlier value and keeps the name's position.
    pub fn argstr(&mut self, name: &str, value: &str)
        ensures
            final(self)@.input == old(self)@.input,
            final(self)@.attribute == old(self)@.attribute,
            final(self)@.argstrs == spec_set_argstr(old(self)@.argstrs, name@, value@),
    {
        let ghost m = old(self)@.argstrs;
        let name_s = name.to_owned();
        let value_s = value.to_owned();
        let mut updated: Vec<(String, String)> = Vec::new();
        let mut found = false;
        let mut i: usize = 0;
        while i < self.argstrs.len()
            invariant
                i <= self.argstrs@.len(),
                self == old(self),
                m == old(self)@.argstrs,
                name_s@ == name@,
                value_s@ == value@,
                updated@.len() == i,
                found <==> exists|j: int| 0 <= j < i && m[j].0 == name@,
                forall|j: int|
                    0 <= j < i ==> #[trigger] argstr_views(updated@)[j] == (if m[j].0 == name@ {
                        (name@, value@)
                    } else {
                        m[j]
                    }),
            decreases self.argstrs@.len() - i,
        {
            proof {
                assert(m[i as int] == (self.argstrs@[i as int].0@, self.argstrs@[i as int].1@));
            }
            let ghost before = updated@;
            let same = self.argstrs[i].0 == name_s;
            if same {
                updated.push((name_s.clone(), value_s.clone()));
                found = true;
            } else {
                updated.push((self.argstrs[i].0.clone(), self.argstrs[i].1.clone()));
            }
            proof {
                assert(updated@ == before.push(updated@[i as int]));
                assert forall|j: int| 0 <= j < i + 1 implies #[trigger] argstr_views(updated@)[j]
                    == (if m[j].0 == name@ {
                    (name@, value@)
                } else {
                    m[j]
                }) by {
                    assert(argstr_views(updated@)[j] == (updated@[j].0@, updated@[j].1@));
                    if j < i {
                        assert(updated@[j] == before[j]);
                        assert(argstr_views(before)[j] == (before[j].0@, before[j].1@));
                    }
                }
            }
            i = i + 1;
        }
        if !found {
            let ghost before = updated@;
            updated.push((name_s, value_s));
            proof {
                assert(!spec_has_key(m, name@));
                let pushed = m.push((name@, value@));
                assert(updated@[m.len() as int].0@ == name@);
                assert(updated@[m.len() as int].1@ == value@);
                assert forall|j: int| 0 <= j < m.len() + 1 implies #[trigger] argstr_views(
                    updated@,
                )[j] == pushed[j] by {
                    assert(argstr_views(updated@)[j] == (updated@[j].0@, updated@[j].1@));
                    if j < m.len() {
                        assert(updated@[j] == before[j]);
                        assert(argstr_views(before)[j] == (before[j].0@, before[j].1@));
                    }
                }
                assert(argstr_views(updated@) =~= spec_set_argstr(m, name@, value@));
            }
        } else {
            proof {
                assert(spec_has_key(m, name@));
                let mapped = spec_set_argstr(m, name@, value@);
                assert forall|j: int| 0 <= j < m.len() implies #[trigger] argstr_views(updated@)[j]
                    == mapped[j] by {
                    assert(mapped[j] == (if m[j].0 == name@ {
                        (name@, value@)
                    } else {
                        m[j]
                    }));
                }
                assert(argstr_views(updated@) =~= spec_set_argstr(m, name@, value@));
            }
        }
        self.argstrs = updated;
    }
}

/// The tokens selecting the attribute: `-A a` when one is set, else nothing.
pub open spec fn spec_attribute_args(attribute: Option<Seq<char>>) -> Seq<Seq<char>> {
    match attribute {
        Some(a) => seq!["-A"@, a],
        None => Seq::empty(),
    }
}

/// The tokens of the named arguments: the triple `--argstr k v` for each
/// pair of the map, in the map's order.
pub open spec fn spec_argstr_args(m: Seq<(Seq<char>, Seq<char>)>) -> Seq<Seq<char>>
    decreases m.len(),
{
    if m.len() == 0 {
        Seq::empty()
    } else {
        spec_argstr_args(m.drop_last()) + seq!["--argstr"@, m.last().0, m.last().1]
    }
}

/// The closing input clause: `--expr e` for an inline expression, or
/// `-- p` for a file, the separator keeping a path from being read as a
/// flag.
pub open spec fn spec_input_args(input: InputV) -> Seq<Seq<char>> {
    match input {
        InputV::Expression(e) => seq!["--expr"@, e],
        InputV::File(p) => seq!["--"@, p],
    }
}

/// The full rendered argument vector of a configuration: the attribute
/// selection first, then the named arguments, then the input clause.
pub open spec fn spec_command_arguments(c: CallOptsV) -> Seq<Seq<char>> {
    spec_attribute_args(c.attribute) + spec_argstr_args(c.argstrs) + spec_input_args(c.input)
}

impl<'a> CallOpts<'a> {
    /// Render the common arguments passed to Nix's CLI, specifically the
    /// `-A` attribute, the `--argstr` values and the closing `--expr`
    /// expression or `--` file clause.
    pub fn command_arguments(&self) -> (r: Vec<String>)
        ensures
            string_views(r@) == spec_command_arguments(self@),
    {
        let mut ret: Vec<String> = Vec::new();
        match &self.attribute {
            Some(attr) => {
                ret.push("-A".to_owned());
                ret.push(attr.clone());
                proof {
                    assert(string_views(ret@) =~= spec_attribute_args(self@.attribute));
                }
            },
            None => {
                proof {
                    assert(string_views(ret@) =~= spec_attribute_args(self@.attribute));
                }
            },
        }
        let ghost m = self@.argstrs;
        let ghost attr_part = spec_attribute_args(self@.attribute);
        let mut i: usize = 0;
        proof {
            assert(m.take(0) =~= Seq::<(Seq<char>, Seq<char>)>::empty());
            assert(attr_part + spec_argstr_args(m.take(0)) =~= string_views(ret@));
        }
        while i < self.argstrs.len()
            invariant
                i <= self.argstrs@.len(),
                m == self@.argstrs,
                attr_part == spec_attribute_args(self@.attribute),
                string_views(ret@) == attr_part + spec_argstr_args(m.take(i as int)),
            decreases self.argstrs@.len() - i,
        {
            let ghost before = ret@;
            ret.push("--argstr".to_owned());
            ret.push(self.argstrs[i].0.clone());
            ret.push(self.argstrs[i].1.clone());
            proof {
                assert(m[i as int] == (self.argstrs@[i as int].0@, self.argstrs@[i as int].1@));
                assert(m.take(i as int + 1).drop_last() =~= m.take(i as int));
                assert(m.take(i as int + 1).last() == m[i as int]);
                assert(string_views(ret@) =~= string_views(before) + seq![
                    "--argstr"@,
                    m[i as int].0,
                    m[i as int].1,
                ]);
                assert(string_views(ret@) =~= attr_part + spec_argstr_args(m.take(i as int + 1)));
            }
            i = i + 1;
        }
        proof {
            assert(m.take(self.argstrs@.len() as int) =~= m);
        }
        match &self.input {
            Input::Expression(e) => {
                ret.push("--expr".to_owned());
                ret.push((*e).to_owned());
            },
            Input::File(p) => {
                ret.push("--".to_owned());
                ret.push((*p).to_owned());
            },
        }
        proof {
            assert(string_views(ret@) =~= spec_command_arguments(self@));
        }
        ret
    }
}

/// The `nix-instantiate` invocation of a configuration: strict evaluation
/// to one self-describing JSON value on standard output.
pub open spec fn spec_instantiate_command(c: CallOptsV) -> NixCommandV {
    NixCommandV {
        program: "nix-instantiate"@,
        args: seq!["--eval"@, "--json"@, "--strict"@] + spec_command_arguments(c),
    }
}

/// The `nix-build` invocation of a configuration: `--out-link` rooting the
/// build outputs at `out_link`, then the configuration's arguments.
pub open spec fn spec_build_command(c: CallOptsV, out_link: Seq<char>) -> NixCommandV {
    NixCommandV {
        program: "nix-build"@,
        args: seq!["--out-link"@, out_link] + spec_command_arguments(c),
    }
}

/// What the caller observed of one run of an evaluator command: either the
/// spawn itself failed, or the process ran to completion and both streams
/// were drained to their ends before the exit status was read.
pub enum ProcessOutcome {
    /// The process could not be spawned; `not_found` tells whether the
    /// program was absent, as opposed to any other I/O failure.
    SpawnFailed { not_found: bool, msg: String },
    /// The process exited with `status` after writing the captured bytes
    /// to its standard output and standard error.
    Finished { status: ExitStatus, stdout: Vec<u8>, stderr: Vec<u8> },
}

/// How a result must report an outcome of running `cmd` that was not a
/// success: an absent program becomes a spawn failure naming the command,
/// any other spawn error an I/O failure, and a non-success exit carries
/// the command, the status and exactly the captured standard-error lines,
/// in emission order.
pub open spec fn spec_failure_reported<T>(
    cmd: NixCommandV,
    outcome: ProcessOutcome,
    r: Result<T, BuildError>,
) -> bool {
    &&& outcome matches ProcessOutcome::SpawnFailed { not_found: true, msg } ==> (r matches Err(
        BuildError::Spawn { cmd: c, msg: m },
    ) && c@ == cmd && m == msg)
    &&& outcome matches ProcessOutcome::SpawnFailed { not_found: false, msg } ==> (r matches Err(
        BuildError::Io { msg: m },
    ) && m == msg)
    &&& outcome matches ProcessOutcome::Finished { status, stderr, .. } ==> (!status.success
        ==> (r matches Err(BuildError::Exit { cmd: c, status: st, logs }) && c@ == cmd && st
        == status && line_views(logs@) == spec_lines(stderr@)))
}

/// Map the decode result of a successful run: a decoded value is the
/// call's result, and a decode failure is an I/O failure carrying the
/// decoder's message — distinct from every process failure.
pub fn decoded_value<T>(decoded: Result<T, String>) -> (r: Result<T, BuildError>)
    ensures
        decoded matches Ok(t) ==> (r matches Ok(t2) && t2 == t),
        decoded matches Err(m) ==> (r matches Err(BuildError::Io { msg }) && msg == m),
{
    match decoded {
        Ok(t) => Ok(t),
        Err(msg) => Err(BuildError::io(msg)),
    }
}

impl<'a> CallOpts<'a> {
    /// The full `nix-instantiate` invocation for this configuration.
    pub fn instantiate_command(&self) -> (r: NixCommand)
        ensures
            r@ == spec_instantiate_command(self@),
    {
        let mut args: Vec<String> = Vec::new();
        args.push("--eval".to_owned());
        args.push("--json".to_owned());
        args.push("--strict".to_owned());
        let mut rest = self.command_arguments();
        args.append(&mut rest);
        proof {
            assert(string_views(args@) =~= seq!["--eval"@, "--json"@, "--strict"@]
                + spec_command_arguments(self@));
        }
        NixCommand { program: "nix-instantiate".to_owned(), args }
    }

    /// The full `nix-build` invocation for this configuration, rooting the
    /// build outputs at `out_link`.
    pub fn build_command(&self, out_link: &str) -> (r: NixCommand)
        ensures
            r@ == spec_build_command(self@, out_link@),
    {
        let mut args: Vec<String> = Vec::new();
        args.push("--out-link".to_owned());
        args.push(out_link.to_owned());
        let mut rest = self.command_arguments();
        args.append(&mut rest);
        proof {
            assert(string_views(args@) =~= seq!["--out-link"@, out_link@]
                + spec_command_arguments(self@));
        }
        NixCommand { program: "nix-build".to_owned(), args }
    }

    /// Interpret the outcome of running [`Self::instantiate_command`]:
    /// decode the standard output of a successful run as one JSON value of
    /// type `T`, and report every failed outcome as the error it calls
    /// for.  A decode failure on a successful exit is an I/O failure,
    /// distinct from every process failure.
    pub fn value_from_outcome<T: serde::de::DeserializeOwned>(&self, outcome: ProcessOutcome) -> (r:
        Result<T, BuildError>)
        ensures
            spec_failure_reported(spec_instantiate_command(self@), outcome, r),
            outcome matches ProcessOutcome::Finished { status, .. } ==> (status.success ==> (r
                is Ok || r matches Err(BuildError::Io { .. }))),
    {
        match outcome {
            ProcessOutcome::SpawnFailed { not_found, msg } => {
                if not_found {
                    Err(BuildError::spawn(self.instantiate_command(), msg))
                } else {
                    Err(BuildError::io(msg))
                }
            },
            ProcessOutcome::Finished { status, stdout, stderr } => {
                if !status.success {
                    Err(
                        BuildError::exit(
                            self.instantiate_command(),
                            status,
                            split_lines(stderr.as_slice()),
                        ),
                    )
                } else {
                    decoded_value(json_decode::<T>(stdout.as_slice()))
                }
            },
        }
    }

    /// Interpret the outcome of running [`Self::build_command`] with the
    /// given `out_link`: each line of the standard output of a successful
    /// run is one store path, in the order the evaluator emitted them; a
    /// successful run that printed no path at all is an output-shape
    /// failure, distinct from every process failure.
    pub fn paths_from_outcome(&self, out_link: &str, outcome: ProcessOutcome) -> (r: Result<
        vec1::Vec1<StorePath>,
        BuildError,
    >)
        ensures
            spec_failure_reported(spec_build_command(self@, out_link@), outcome, r),
            outcome matches ProcessOutcome::Finished { status, stdout, .. } ==> (status.success
                ==> ({
                let lines = spec_lines(stdout@);
                &&& lines.len() == 0 ==> (r matches Err(BuildError::Output { msg }) && msg@
                    == "expected exactly one Nix output, got zero"@)
                &&& lines.len() > 0 ==> (r matches Ok(v) && vec1_store_paths(v) == lines)
            })),
    {
        match outcome {
            ProcessOutcome::SpawnFailed { not_found, msg } => {
                if not_found {
                    Err(BuildError::spawn(self.build_command(out_link), msg))
                } else {
                    Err(BuildError::io(msg))
                }
            },
            ProcessOutcome::Finished { status, stdout, stderr } => {
                if !status.success {
                    Err(
                        BuildError::exit(
                            self.build_command(out_link),
                            status,
                            split_lines(stderr.as_slice()),
                        ),
                    )
                } else {
                    let line_vec = split_lines(stdout.as_slice());
                    let mut paths: Vec<StorePath> = Vec::new();
                    let mut i: usize = 0;
                    proof {
                        assert(paths@.map_values(|p: StorePath| p@) =~= line_views(
                            line_vec@,
                        ).take(0));
                    }
                    while i < line_vec.len()
                        invariant
                            i <= line_vec@.len(),
                            paths@.len() == i,
                            line_views(line_vec@) == spec_lines(stdout@),
                            paths@.map_values(|p: StorePath| p@) == line_views(line_vec@).take(
                                i as int,
                            ),
                        decreases line_vec@.len() - i,
                    {
                        let ghost before = paths@;
                        let bytes = vstd::slice::slice_to_vec(line_vec[i].as_slice());
                        paths.push(StorePath::from(bytes));
                        proof {
                            assert(paths@ == before.push(paths@[i as int]));
                            assert(paths@[i as int]@ == line_views(line_vec@)[i as int]);
                            assert(paths@.map_values(|p: StorePath| p@) =~= line_views(
                                line_vec@,
                            ).take(i as int + 1));
                        }
                        i = i + 1;
                    }
                    proof {
                        assert(line_views(line_vec@).take(line_vec@.len() as int) =~= line_views(
                            line_vec@,
                        ));
                    }
                    match vec1_from_vec(paths) {
                        Some(v1) => Ok(v1),
                        None => Err(
                            BuildError::output("expected exactly one Nix output, got zero".to_owned()),
                        ),
                    }
                }
            },
        }
    }
}

/// Select the single store path of a build that was expected to produce
/// exactly one output; zero outputs or more than one is an output-shape
/// failure.
pub fn single_build_output(pathsv1: vec1::Vec1<StorePath>) -> (r: Result<StorePath, BuildError>)
    ensures
        ({
            let s = vec1_store_paths(pathsv1);
            &&& s.len() == 1 ==> (r matches Ok(p) && p@ == s[0])
            &&& s.len() == 0 ==> (r matches Err(BuildError::Output { msg }) && msg@
                == "expected exactly one build output, got zero"@)
            &&& s.len() > 1 ==> (r matches Err(BuildError::Output { msg }) && msg@
                == "expected exactly one build output, got more"@)
        }),
{
    let ghost s = vec1_store_paths(pathsv1);
    let mut paths = vec1_into_vec(pathsv1);
    let ghost v0 = paths@;
    proof {
        assert(s.len() == v0.len());
        assert forall|j: int| 0 <= j < v0.len() implies #[trigger] s[j] == v0[j]@ by {
            assert(v0.map_values(|p: StorePath| p@)[j] == v0[j]@);
        }
    }
    let p1 = paths.pop();
    let p2 = paths.pop();
    match (p1, p2) {
        // Exactly zero
        (None, _) => Err(
            BuildError::output("expected exactly one build output, got zero".to_owned()),
        ),
        // Exactly one
        (Some(path), None) => Ok(path),
        // More than one
        (Some(_), Some(_)) => Err(
            BuildError::output("expected exactly one build output, got more".to_owned()),
        ),
    }
}

/// Opaque type to keep a temporary GC root directory alive.
/// Once it is dropped, the GC root is removed.
#[derive(Debug)]
pub struct GcRootTempDir(tempfile::TempDir);

impl GcRootTempDir {
    /// Wrap the temporary directory whose `result` sub-path was handed to
    /// the evaluator as its output link.  Dropping the wrapper drops the
    /// directory, and with it the protection of the build outputs rooted
    /// there.
    pub fn new(dir: tempfile::TempDir) -> GcRootTempDir {
        GcRootTempDir(dir)
    }
}

/// Possible error conditions encountered when executing Nix evaluation
/// commands.
#[derive(Debug)]
pub enum EvaluationError {
    /// A system-level IO error occured while executing Nix.
    Io(std::io::Error),
    /// Nix commands not on PATH.
    NixNotFound,
    /// Nix execution failed.
    ExecutionFailed(ExitStatus),
    /// The data returned from nix-instantiate did not match the data type
    /// you expect.
    Decoding(serde_json::Error),
}

impl From<std::io::Error> for EvaluationError {
    fn from(e: std::io::Error) -> (r: EvaluationError) {
        EvaluationError::Io(e)
    }
}

impl vstd::std_specs::convert::FromSpecImpl<std::io::Error> for EvaluationError {
    open spec fn obeys_from_spec() -> bool {
        true
    }

    open spec fn from_spec(e: std::io::Error) -> EvaluationError {
        EvaluationError::Io(e)
    }
}

impl From<serde_json::Error> for EvaluationError {
    fn from(e: serde_json::Error) -> (r: EvaluationError) {
        EvaluationError::Decoding(e)
    }
}

impl vstd::std_specs::convert::FromSpecImpl<serde_json::Error> for EvaluationError {
    open spec fn obeys_from_spec() -> bool {
        true
    }

    open spec fn from_spec(e: serde_json::Error) -> EvaluationError {
        EvaluationError::Decoding(e)
    }
}

impl EvaluationError {
    /// The evaluation error of a completed run that did not succeed.  A
    /// successful exit is no evaluation error and is excluded.
    pub fn from_status(status: ExitStatus) -> (r: EvaluationError)
        requires
            !status.success,
        ensures
            r == EvaluationError::ExecutionFailed(status),
    {
        EvaluationError::ExecutionFailed(status)
    }
}

/// Possible error conditions encountered when executing a Nix build
/// and expecting a single result.
#[derive(Debug)]
pub enum OnePathError {
    /// Too many paths were returned.
    TooManyResults,
    /// Standard Build Error results.
    Build(BuildError),
}

impl From<BuildError> for OnePathError {
    fn from(e: BuildError) -> (r: OnePathError) {
        OnePathError::Build(e)
    }
}

impl vstd::std_specs::convert::FromSpecImpl<BuildError> for OnePathError {
    open spec fn obeys_from_spec() -> bool {
        true
    }

    open spec fn from_spec(e: BuildError) -> OnePathError {
        OnePathError::Build(e)
    }
}

} // verus!
